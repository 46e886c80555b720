//! The manifest and its parts, each with the mathematical value it stands for.

use vstd::prelude::*;
use crate::keyed_map::KeyedMap;

verus! {

/// A named hosting endpoint.
#[derive(Debug, Default, PartialEq, Eq)]
pub struct Remote {
    pub name: String,
    pub alias: Option<String>,
    pub fetch: String,
    pub push_url: Option<String>,
    pub review: Option<String>,
    pub revision: Option<String>,
}

/// What a [`Remote`] stands for.
pub ghost struct RemoteView {
    pub name: Seq<char>,
    pub alias: Option<Seq<char>>,
    pub fetch: Seq<char>,
    pub push_url: Option<Seq<char>>,
    pub review: Option<Seq<char>>,
    pub revision: Option<Seq<char>>,
}

impl View for Remote {
    type V = RemoteView;

    open spec fn view(&self) -> RemoteView {
        RemoteView {
            name: self.name@,
            alias: self.alias.deep_view(),
            fetch: self.fetch@,
            push_url: self.push_url.deep_view(),
            review: self.review.deep_view(),
            revision: self.revision.deep_view(),
        }
    }
}

/// Manifest-wide values for what a project leaves out.
#[derive(Debug, Default, PartialEq, Eq)]
pub struct Default {
    pub remote: Option<String>,
    pub revision: Option<String>,
    pub dest_branch: Option<String>,
    pub upstream: Option<String>,
    pub sync_j: Option<u32>,
    pub sync_c: Option<bool>,
}

/// What a [`Default`] stands for.
pub ghost struct DefaultView {
    pub remote: Option<Seq<char>>,
    pub revision: Option<Seq<char>>,
    pub dest_branch: Option<Seq<char>>,
    pub upstream: Option<Seq<char>>,
    pub sync_j: Option<u32>,
    pub sync_c: Option<bool>,
}

impl View for Default {
    type V = DefaultView;

    open spec fn view(&self) -> DefaultView {
        DefaultView {
            remote: self.remote.deep_view(),
            revision: self.revision.deep_view(),
            dest_branch: self.dest_branch.deep_view(),
            upstream: self.upstream.deep_view(),
            sync_j: self.sync_j,
            sync_c: self.sync_c,
        }
    }
}

impl DeepView for Default {
    type V = DefaultView;

    open spec fn deep_view(&self) -> DefaultView {
        self@
    }
}

/// Where a manifest server can be reached.
#[derive(Debug)]
pub struct ManifestServer {
    pub url: String,
}

/// What a [`ManifestServer`] stands for.
pub ghost struct ManifestServerView {
    pub url: Seq<char>,
}

impl View for ManifestServer {
    type V = ManifestServerView;

    open spec fn view(&self) -> ManifestServerView {
        ManifestServerView { url: self.url@ }
    }
}

impl DeepView for ManifestServer {
    type V = ManifestServerView;

    open spec fn deep_view(&self) -> ManifestServerView {
        self@
    }
}

/// The project that holds all the others as submodules.
#[derive(Debug)]
pub struct SuperProject {
    pub name: String,
    pub remote: String,
}

/// What a [`SuperProject`] stands for.
pub ghost struct SuperProjectView {
    pub name: Seq<char>,
    pub remote: Seq<char>,
}

impl View for SuperProject {
    type V = SuperProjectView;

    open spec fn view(&self) -> SuperProjectView {
        SuperProjectView { name: self.name@, remote: self.remote@ }
    }
}

impl DeepView for SuperProject {
    type V = SuperProjectView;

    open spec fn deep_view(&self) -> SuperProjectView {
        self@
    }
}

/// Where bugs against the manifest are filed.
#[derive(Debug)]
pub struct ContactInfo {
    pub bug_url: String,
}

/// What a [`ContactInfo`] stands for.
pub ghost struct ContactInfoView {
    pub bug_url: Seq<char>,
}

impl View for ContactInfo {
    type V = ContactInfoView;

    open spec fn view(&self) -> ContactInfoView {
        ContactInfoView { bug_url: self.bug_url@ }
    }
}

impl DeepView for ContactInfo {
    type V = ContactInfoView;

    open spec fn deep_view(&self) -> ContactInfoView {
        self@
    }
}

/// The hooks of the workspace and the project that holds them.
#[derive(Debug, Default)]
pub struct RepoHooks {
    pub in_project: Option<String>,
    pub enabled_list: Option<String>,
}

/// What a [`RepoHooks`] stands for.
pub ghost struct RepoHooksView {
    pub in_project: Option<Seq<char>>,
    pub enabled_list: Option<Seq<char>>,
}

impl View for RepoHooks {
    type V = RepoHooksView;

    open spec fn view(&self) -> RepoHooksView {
        RepoHooksView {
            in_project: self.in_project.deep_view(),
            enabled_list: self.enabled_list.deep_view(),
        }
    }
}

impl DeepView for RepoHooks {
    type V = RepoHooksView;

    open spec fn deep_view(&self) -> RepoHooksView {
        self@
    }
}

/// What is done with a file of a project once the project is checked out:
/// it is linked or copied to a place in the workspace.
#[derive(Debug, PartialEq, Eq)]
pub enum FileOperation {
    LinkFile { src: String, dst: String },
    CopyFile { src: String, dst: String },
}

/// What a [`FileOperation`] stands for.
pub ghost enum FileOperationView {
    LinkFile { src: Seq<char>, dst: Seq<char> },
    CopyFile { src: Seq<char>, dst: Seq<char> },
}

impl FileOperationView {
    /// The path inside the project.
    pub open spec fn src(self) -> Seq<char> {
        match self {
            FileOperationView::LinkFile { src, .. } => src,
            FileOperationView::CopyFile { src, .. } => src,
        }
    }

    /// The path in the workspace.
    pub open spec fn dst(self) -> Seq<char> {
        match self {
            FileOperationView::LinkFile { dst, .. } => dst,
            FileOperationView::CopyFile { dst, .. } => dst,
        }
    }
}

impl View for FileOperation {
    type V = FileOperationView;

    open spec fn view(&self) -> FileOperationView {
        match self {
            FileOperation::LinkFile { src, dst } => FileOperationView::LinkFile {
                src: src@,
                dst: dst@,
            },
            FileOperation::CopyFile { src, dst } => FileOperationView::CopyFile {
                src: src@,
                dst: dst@,
            },
        }
    }
}

impl DeepView for FileOperation {
    type V = FileOperationView;

    open spec fn deep_view(&self) -> FileOperationView {
        self@
    }
}

impl Clone for FileOperation {
    fn clone(&self) -> (r: Self)
        ensures
            r == *self,
    {
        match self {
            FileOperation::LinkFile { src, dst } => FileOperation::LinkFile {
                src: src.clone(),
                dst: dst.clone(),
            },
            FileOperation::CopyFile { src, dst } => FileOperation::CopyFile {
                src: src.clone(),
                dst: dst.clone(),
            },
        }
    }
}

impl FileOperation {
    /// The path inside the project.
    pub fn src(&self) -> (r: &str)
        ensures
            r@ == self@.src(),
    {
        match self {
            FileOperation::LinkFile { src, .. } => src.as_str(),
            FileOperation::CopyFile { src, .. } => src.as_str(),
        }
    }

    /// The path in the workspace.
    pub fn dst(&self) -> (r: &str)
        ensures
            r@ == self@.dst(),
    {
        match self {
            FileOperation::LinkFile { dst, .. } => dst.as_str(),
            FileOperation::CopyFile { dst, .. } => dst.as_str(),
        }
    }
}

/// One repository of the workspace.
#[derive(Debug, Default, PartialEq, Eq)]
pub struct Project {
    pub name: String,
    pub path: Option<String>,
    pub remote: Option<String>,
    pub revision: Option<String>,
    pub dest_branch: Option<String>,
    pub groups: Option<Vec<String>>,
    pub sync_c: Option<bool>,
    pub clone_depth: Option<u32>,
    pub file_operations: Vec<FileOperation>,
    pub annotations: KeyedMap<String>,
}

/// What a [`Project`] stands for.
pub ghost struct ProjectView {
    pub name: Seq<char>,
    pub path: Option<Seq<char>>,
    pub remote: Option<Seq<char>>,
    pub revision: Option<Seq<char>>,
    pub dest_branch: Option<Seq<char>>,
    pub groups: Option<Seq<Seq<char>>>,
    pub sync_c: Option<bool>,
    pub clone_depth: Option<u32>,
    pub file_operations: Seq<FileOperationView>,
    pub annotations: Map<Seq<char>, Seq<char>>,
}

impl ProjectView {
    /// Where the project is checked out: its path, or its name where it has
    /// no path of its own.
    pub open spec fn path(self) -> Seq<char> {
        match self.path {
            Some(path) => path,
            None => self.name,
        }
    }
}

impl View for Project {
    type V = ProjectView;

    open spec fn view(&self) -> ProjectView {
        ProjectView {
            name: self.name@,
            path: self.path.deep_view(),
            remote: self.remote.deep_view(),
            revision: self.revision.deep_view(),
            dest_branch: self.dest_branch.deep_view(),
            groups: self.groups.deep_view(),
            sync_c: self.sync_c,
            clone_depth: self.clone_depth,
            file_operations: self.file_operations.deep_view(),
            annotations: self.annotations@,
        }
    }
}

impl Clone for Project {
    fn clone(&self) -> (r: Self)
        ensures
            r@ == self@,
    {
        let r = Project {
            name: self.name.clone(),
            path: self.path.clone(),
            remote: self.remote.clone(),
            revision: self.revision.clone(),
            dest_branch: self.dest_branch.clone(),
            groups: self.groups.clone(),
            sync_c: self.sync_c,
            clone_depth: self.clone_depth,
            file_operations: self.file_operations.clone(),
            annotations: self.annotations.clone(),
        };
        assert(r.groups.deep_view() == self.groups.deep_view()) by {
            if self.groups is Some {
                assert(r.groups.unwrap().deep_view() =~= self.groups.unwrap().deep_view());
            }
        }
        assert(r.file_operations.deep_view() =~= self.file_operations.deep_view());
        r
    }
}

impl Project {
    /// Where the project is checked out.
    pub fn path(&self) -> (r: &str)
        ensures
            r@ == self@.path(),
    {
        match &self.path {
            Some(path) => path.as_str(),
            None => self.name.as_str(),
        }
    }
}

/// The whole manifest: remotes by name, projects by path, and the optional
/// blocks that go with them.
#[derive(Debug, Default)]
pub struct Manifest {
    pub remotes: KeyedMap<Remote>,
    pub projects: KeyedMap<Project>,
    pub default: Option<Default>,
    pub manifest_server: Option<ManifestServer>,
    pub superproject: Option<SuperProject>,
    pub contactinfo: Option<ContactInfo>,
    pub repo_hooks: Option<RepoHooks>,
}

/// What a [`Manifest`] stands for.
pub ghost struct ManifestView {
    pub remotes: Map<Seq<char>, RemoteView>,
    pub projects: Map<Seq<char>, ProjectView>,
    pub default: Option<DefaultView>,
    pub manifest_server: Option<ManifestServerView>,
    pub superproject: Option<SuperProjectView>,
    pub contactinfo: Option<ContactInfoView>,
    pub repo_hooks: Option<RepoHooksView>,
}

impl View for Manifest {
    type V = ManifestView;

    open spec fn view(&self) -> ManifestView {
        ManifestView {
            remotes: self.remotes@,
            projects: self.projects@,
            default: self.default.deep_view(),
            manifest_server: self.manifest_server.deep_view(),
            superproject: self.superproject.deep_view(),
            contactinfo: self.contactinfo.deep_view(),
            repo_hooks: self.repo_hooks.deep_view(),
        }
    }
}

} // verus!
