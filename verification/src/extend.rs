//! A late override for the project at one path: more groups, another
//! revision, another remote.

use vstd::prelude::*;
use crate::model::{Project, ProjectView};
use crate::resolve::first_some;
use crate::text::same_text;

verus! {

/// What is to be changed, and for which project.
#[derive(Debug, Default, PartialEq, Eq)]
pub struct ExtendProject {
    pub name: String,
    /// Where present, only the project checked out at this very path is
    /// changed.
    pub path: Option<String>,
    /// Groups to be added behind those the project has.
    pub groups: Option<Vec<String>>,
    /// The revision that takes the place of the project's.
    pub revision: Option<String>,
    /// The remote that takes the place of the project's.
    pub remote: Option<String>,
}

/// What an [`ExtendProject`] stands for.
pub ghost struct ExtendProjectView {
    pub name: Seq<char>,
    pub path: Option<Seq<char>>,
    pub groups: Option<Seq<Seq<char>>>,
    pub revision: Option<Seq<char>>,
    pub remote: Option<Seq<char>>,
}

impl View for ExtendProject {
    type V = ExtendProjectView;

    open spec fn view(&self) -> ExtendProjectView {
        ExtendProjectView {
            name: self.name@,
            path: self.path.deep_view(),
            groups: self.groups.deep_view(),
            revision: self.revision.deep_view(),
            remote: self.remote.deep_view(),
        }
    }
}

/// The groups of a project; none is as good as an empty list.
pub open spec fn groups_or_empty(groups: Option<Seq<Seq<char>>>) -> Seq<Seq<char>> {
    match groups {
        Some(groups) => groups,
        None => Seq::empty(),
    }
}

impl ExtendProjectView {
    /// Whether the override is meant for `project`: it names no path, or it
    /// names, letter for letter, the path where the project is checked out.
    pub open spec fn applies_to(self, project: ProjectView) -> bool {
        match self.path {
            Some(path) => path == project.path(),
            None => true,
        }
    }

    /// The project with the override applied.
    pub open spec fn extend(self, project: ProjectView) -> ProjectView {
        if self.applies_to(project) {
            ProjectView {
                groups: match self.groups {
                    Some(more) => Some(groups_or_empty(project.groups) + more),
                    None => project.groups,
                },
                revision: first_some(self.revision, project.revision),
                remote: first_some(self.remote, project.remote),
                ..project
            }
        } else {
            project
        }
    }
}

/// An override for another path leaves the project as it is.
pub proof fn lemma_extend_elsewhere_changes_nothing(extension: ExtendProjectView, project: ProjectView)
    requires
        !extension.applies_to(project),
    ensures
        extension.extend(project) == project,
{
}

/// An override never changes what the project is called, where it is
/// checked out, or what is done with its files.
pub proof fn lemma_extend_keeps_identity(extension: ExtendProjectView, project: ProjectView)
    ensures
        extension.extend(project).name == project.name,
        extension.extend(project).path == project.path,
        extension.extend(project).path() == project.path(),
        extension.extend(project).dest_branch == project.dest_branch,
        extension.extend(project).sync_c == project.sync_c,
        extension.extend(project).clone_depth == project.clone_depth,
        extension.extend(project).file_operations == project.file_operations,
        extension.extend(project).annotations == project.annotations,
{
}

/// The groups of an override are put behind those of the project, one for
/// one: a group that the project already has is then there twice.
pub proof fn lemma_extend_appends_groups(extension: ExtendProjectView, project: ProjectView)
    requires
        extension.applies_to(project),
        extension.groups is Some,
    ensures
        extension.extend(project).groups == Some(
            groups_or_empty(project.groups) + extension.groups->Some_0,
        ),
        groups_or_empty(extension.extend(project).groups).len() == groups_or_empty(
            project.groups,
        ).len() + extension.groups->Some_0.len(),
{
}

/// An override without groups can be applied again without any change.
pub proof fn lemma_extend_idempotent_without_groups(
    extension: ExtendProjectView,
    project: ProjectView,
)
    requires
        extension.groups is None,
    ensures
        extension.extend(extension.extend(project)) == extension.extend(project),
{
}

/// An override with groups, applied twice, adds its groups twice.
pub proof fn lemma_extend_twice_appends_twice(extension: ExtendProjectView, project: ProjectView)
    requires
        extension.applies_to(project),
        extension.groups is Some,
    ensures
        extension.extend(extension.extend(project)).groups == Some(
            groups_or_empty(project.groups) + extension.groups->Some_0 + extension.groups->Some_0,
        ),
{
}

impl ExtendProject {
    /// A copy of `project` with this override applied. Where the override
    /// names a path other than that of the project, the copy is unchanged.
    pub fn extend(&self, project: &Project) -> (r: Project)
        ensures
            r@ == self@.extend(project@),
            !self@.applies_to(project@) ==> r@ == project@,
            r@.name == project@.name,
            r@.path == project@.path,
            r@.file_operations == project@.file_operations,
            self@.applies_to(project@) && self@.groups is Some ==> r@.groups == Some(
                groups_or_empty(project@.groups) + self@.groups->Some_0,
            ),
    {
        match &self.path {
            Some(path) => {
                if !same_text(path.as_str(), project.path()) {
                    return project.clone();
                }
            },
            None => {},
        }
        let mut extended = project.clone();
        match &self.groups {
            Some(groups) => {
                let mut all: Vec<String> = match &project.groups {
                    Some(own) => own.clone(),
                    None => Vec::new(),
                };
                let mut more: Vec<String> = groups.clone();
                assert(all.deep_view() =~= groups_or_empty(project@.groups));
                assert(more.deep_view() =~= self@.groups->Some_0);
                let ghost before = all.deep_view();
                let ghost added = more.deep_view();
                all.append(&mut more);
                assert(all.deep_view() =~= before + added);
                extended.groups = Some(all);
            },
            None => {},
        }
        match &self.revision {
            Some(revision) => {
                extended.revision = Some(revision.clone());
            },
            None => {},
        }
        match &self.remote {
            Some(remote) => {
                extended.remote = Some(remote.clone());
            },
            None => {},
        }
        extended
    }
}

} // verus!
