//! Resolution: what remote, revision and destination branch a project has
//! once the manifest default and the remotes are taken into account, and
//! which configured remote stands behind a project's remote.

use vstd::prelude::*;
use crate::config::{Config, ConfigView, RemoteConfig, RemoteConfigView, TreeConfig, TreeConfigView};
use crate::error::{outcome, ResolveError, ResolveErrorView};
use crate::model::{Manifest, ManifestView, Project, ProjectView, Remote, RemoteView};
use crate::text::{canonical_url, canonicalize_url, same_text};

verus! {

/// The first of two optional values that is there.
pub open spec fn first_some<T>(first: Option<T>, second: Option<T>) -> Option<T> {
    match first {
        Some(_) => first,
        None => second,
    }
}

/// The fetch URL that stands for "where the manifest itself came from".
pub open spec fn is_parent_reference(fetch: Seq<char>) -> bool {
    fetch == seq!['.', '.']
}

impl ManifestView {
    /// The remote that the manifest default names.
    pub open spec fn default_remote(self) -> Option<Seq<char>> {
        match self.default {
            Some(default) => default.remote,
            None => None,
        }
    }

    /// The revision that the manifest default names.
    pub open spec fn default_revision(self) -> Option<Seq<char>> {
        match self.default {
            Some(default) => default.revision,
            None => None,
        }
    }

    /// The revision of the remote called `name`; none where the manifest has
    /// no such remote.
    pub open spec fn remote_revision(self, name: Seq<char>) -> Option<Seq<char>> {
        if self.remotes.contains_key(name) {
            self.remotes[name].revision
        } else {
            None
        }
    }

    /// The configured remote that stands behind the project's remote, with
    /// the project's remote itself.
    pub open spec fn resolve_project_remote(
        self,
        config: ConfigView,
        tree_config: TreeConfigView,
        project: ProjectView,
    ) -> Result<(Seq<char>, RemoteView), ResolveErrorView> {
        match project.find_remote(self) {
            Err(error) => Err(error),
            Ok(name) => if !self.remotes.contains_key(name) {
                Err(ResolveErrorView::UnknownRemoteReference(name))
            } else if is_parent_reference(self.remotes[name].fetch) {
                Ok((tree_config.remote, self.remotes[name]))
            } else {
                match config.remote_for(canonical_url(self.remotes[name].fetch)) {
                    Some(local) => Ok((local, self.remotes[name])),
                    None => Err(
                        ResolveErrorView::UnresolvedRemoteUrl(
                            canonical_url(self.remotes[name].fetch),
                        ),
                    ),
                }
            },
        }
    }
}

impl ProjectView {
    /// The project's remote: its own, else that of the manifest default.
    pub open spec fn find_remote(self, manifest: ManifestView) -> Result<
        Seq<char>,
        ResolveErrorView,
    > {
        match first_some(self.remote, manifest.default_remote()) {
            Some(name) => Ok(name),
            None => Err(ResolveErrorView::MissingRemote(self.name)),
        }
    }

    /// The project's revision: its own, else that of the manifest default,
    /// else that of its remote.
    pub open spec fn find_revision(self, manifest: ManifestView) -> Result<
        Seq<char>,
        ResolveErrorView,
    > {
        match first_some(self.revision, manifest.default_revision()) {
            Some(revision) => Ok(revision),
            None => match self.find_remote(manifest) {
                Err(error) => Err(
                    ResolveErrorView::MissingRevision(self.name, Some(Box::new(error))),
                ),
                Ok(name) => match manifest.remote_revision(name) {
                    Some(revision) => Ok(revision),
                    None => Err(ResolveErrorView::MissingRevision(self.name, None)),
                },
            },
        }
    }

    /// The project's destination branch: its own, else its revision.
    pub open spec fn find_dest_branch(self, manifest: ManifestView) -> Result<
        Seq<char>,
        ResolveErrorView,
    > {
        match self.dest_branch {
            Some(branch) => Ok(branch),
            None => match self.find_revision(manifest) {
                Ok(revision) => Ok(revision),
                Err(error) => Err(ResolveErrorView::MissingDestBranch(self.name, Box::new(error))),
            },
        }
    }
}

impl RemoteConfigView {
    /// Whether the remote is reached under `url`: its URL or one of its other
    /// URLs has that canonical form.
    pub open spec fn serves(self, url: Seq<char>) -> bool {
        ||| canonical_url(self.url) == url
        ||| match self.other_urls {
            Some(others) => exists|i: int|
                0 <= i < others.len() && canonical_url(#[trigger] others[i]) == url,
            None => false,
        }
    }
}

impl ConfigView {
    /// The remote at index `i` serves `url`, and none before it does.
    pub open spec fn is_first_serving(self, url: Seq<char>, i: int) -> bool {
        &&& 0 <= i < self.remotes.len()
        &&& self.remotes[i].serves(url)
        &&& forall|j: int| 0 <= j < i ==> !(#[trigger] self.remotes[j]).serves(url)
    }

    /// The name of the first configured remote that serves `url`.
    pub open spec fn remote_for(self, url: Seq<char>) -> Option<Seq<char>> {
        if exists|i: int| self.is_first_serving(url, i) {
            Some(self.remotes[choose|i: int| self.is_first_serving(url, i)].name)
        } else {
            None
        }
    }
}

/// At most one index is the first that serves a URL.
pub proof fn lemma_first_serving_unique(config: ConfigView, url: Seq<char>, i: int, j: int)
    requires
        config.is_first_serving(url, i),
        config.is_first_serving(url, j),
    ensures
        i == j,
{
    if i < j {
        assert(!config.remotes[i].serves(url));
    } else if j < i {
        assert(!config.remotes[j].serves(url));
    }
}

/// The remote found for a URL is the one at the first serving index; and
/// none is found exactly when no configured remote serves the URL.
pub proof fn lemma_remote_for(config: ConfigView, url: Seq<char>)
    ensures
        forall|i: int| #[trigger]
            config.is_first_serving(url, i) ==> config.remote_for(url) == Some(
                config.remotes[i].name,
            ),
        config.remote_for(url) is None <==> forall|i: int|
            0 <= i < config.remotes.len() ==> !(#[trigger] config.remotes[i]).serves(url),
{
    assert forall|i: int| #[trigger] config.is_first_serving(url, i) implies config.remote_for(url)
        == Some(config.remotes[i].name) by {
        let chosen = choose|k: int| config.is_first_serving(url, k);
        lemma_first_serving_unique(config, url, i, chosen);
    }
    if exists|i: int| 0 <= i < config.remotes.len() && (#[trigger] config.remotes[i]).serves(url) {
        let some = choose|i: int|
            0 <= i < config.remotes.len() && (#[trigger] config.remotes[i]).serves(url);
        let first = lemma_first_serving_exists(config, url, some);
        assert(config.is_first_serving(url, first));
    }
}

/// Where some remote serves a URL, there is a first that does.
proof fn lemma_first_serving_exists(config: ConfigView, url: Seq<char>, some: int) -> (first: int)
    requires
        0 <= some < config.remotes.len(),
        config.remotes[some].serves(url),
    ensures
        config.is_first_serving(url, first),
    decreases some,
{
    if exists|j: int| 0 <= j < some && (#[trigger] config.remotes[j]).serves(url) {
        let earlier = choose|j: int| 0 <= j < some && (#[trigger] config.remotes[j]).serves(url);
        lemma_first_serving_exists(config, url, earlier)
    } else {
        some
    }
}

/// A remote whose fetch URL refers to the parent resolves to the remote of
/// the tree, whatever remotes are configured.
pub proof fn lemma_parent_reference_resolves_to_tree(
    manifest: ManifestView,
    config: ConfigView,
    tree_config: TreeConfigView,
    project: ProjectView,
    name: Seq<char>,
)
    requires
        project.find_remote(manifest) == Ok::<Seq<char>, ResolveErrorView>(name),
        manifest.remotes.contains_key(name),
        is_parent_reference(manifest.remotes[name].fetch),
    ensures
        manifest.resolve_project_remote(config, tree_config, project) == Ok::<
            (Seq<char>, RemoteView),
            ResolveErrorView,
        >((tree_config.remote, manifest.remotes[name])),
{
}

/// An explicit revision on the project is the project's revision, whatever
/// the manifest default and the remotes say.
pub proof fn lemma_explicit_revision_wins(project: ProjectView, manifest: ManifestView)
    requires
        project.revision is Some,
    ensures
        project.find_revision(manifest) == Ok::<Seq<char>, ResolveErrorView>(
            project.revision->Some_0,
        ),
{
}

/// Without a revision on the project or in the manifest default, the
/// project's revision is that of its remote. There is none where the remote
/// has none or is not in the manifest, and none where the project has no
/// remote; the failure then carries that of the remote lookup.
pub proof fn lemma_revision_falls_back_to_remote(project: ProjectView, manifest: ManifestView)
    requires
        project.revision is None,
        manifest.default_revision() is None,
    ensures
        project.find_revision(manifest) == match project.find_remote(manifest) {
            Ok(name) => match manifest.remote_revision(name) {
                Some(revision) => Ok::<Seq<char>, ResolveErrorView>(revision),
                None => Err(ResolveErrorView::MissingRevision(project.name, None)),
            },
            Err(error) => Err(
                ResolveErrorView::MissingRevision(project.name, Some(Box::new(error))),
            ),
        },
        project.find_revision(manifest) is Ok <==> project.find_remote(manifest) is Ok
            && manifest.remote_revision(project.find_remote(manifest)->Ok_0) is Some,
{
}

/// The destination branch is the explicit one where there is one; else it is
/// the revision, and where there is no revision either, the failure carries
/// the very failure of the revision lookup.
pub proof fn lemma_dest_branch_defaults_to_revision(project: ProjectView, manifest: ManifestView)
    ensures
        project.dest_branch is Some ==> project.find_dest_branch(manifest) == Ok::<
            Seq<char>,
            ResolveErrorView,
        >(project.dest_branch->Some_0),
        project.dest_branch is None ==> (project.find_dest_branch(manifest) is Ok
            <==> project.find_revision(manifest) is Ok),
        project.dest_branch is None && project.find_revision(manifest) is Ok
            ==> project.find_dest_branch(manifest) == project.find_revision(manifest),
        project.dest_branch is None && project.find_revision(manifest) is Err
            ==> project.find_dest_branch(manifest) == Err::<Seq<char>, ResolveErrorView>(
            ResolveErrorView::MissingDestBranch(
                project.name,
                Box::new(project.find_revision(manifest)->Err_0),
            ),
        ),
{
}

/// The first of two optional strings that is there.
fn first_of<'a>(first: &'a Option<String>, second: Option<&'a String>) -> (r: Option<&'a String>)
    ensures
        r.deep_view() == first_some(first.deep_view(), second.deep_view()),
{
    match first {
        Some(value) => Some(value),
        None => second,
    }
}

impl Manifest {
    /// The remote that the manifest default names.
    fn default_remote(&self) -> (r: Option<&String>)
        ensures
            r.deep_view() == self@.default_remote(),
    {
        match &self.default {
            Some(default) => default.remote.as_ref(),
            None => None,
        }
    }

    /// The revision that the manifest default names.
    fn default_revision(&self) -> (r: Option<&String>)
        ensures
            r.deep_view() == self@.default_revision(),
    {
        match &self.default {
            Some(default) => default.revision.as_ref(),
            None => None,
        }
    }

    /// Finds the configured remote that stands behind the remote of
    /// `project`, and hands it back with the project's remote as the
    /// manifest declares it.
    ///
    /// A fetch URL of `..` means the remote that the manifest itself came
    /// from: the answer is then the remote of the tree, and the configured
    /// remotes are not looked at. Otherwise the fetch URL is compared, in
    /// canonical form, with the URLs of the configured remotes, and the
    /// first remote that serves it is the answer.
    pub fn resolve_project_remote<'a>(
        &'a self,
        config: &Config,
        tree_config: &TreeConfig,
        project: &Project,
    ) -> (r: Result<(String, &'a Remote), ResolveError>)
        ensures
            match r {
                Ok((local, remote)) => self@.resolve_project_remote(
                    config@,
                    tree_config@,
                    project@,
                ) == Ok::<(Seq<char>, RemoteView), ResolveErrorView>((local@, remote@)),
                Err(error) => self@.resolve_project_remote(config@, tree_config@, project@) == Err::<
                    (Seq<char>, RemoteView),
                    ResolveErrorView,
                >(error@),
            },
            ({
                let named = project@.find_remote(self@);
                named is Ok && self@.remotes.contains_key(named->Ok_0) && is_parent_reference(
                    self@.remotes[named->Ok_0].fetch,
                ) ==> r is Ok && r->Ok_0.0@ == tree_config@.remote && r->Ok_0.1@
                    == self@.remotes[named->Ok_0]
            }),
    {
        let name = match project.find_remote(self) {
            Ok(name) => name,
            Err(error) => {
                return Err(error);
            },
        };
        let remote = match self.remotes.get(name.as_str()) {
            Some(remote) => remote,
            None => {
                return Err(ResolveError::UnknownRemoteReference(name));
            },
        };
        proof {
            reveal_strlit("..");
            assert(".."@ =~= seq!['.', '.']);
        }
        if same_text(remote.fetch.as_str(), "..") {
            return Ok((tree_config.remote.clone(), remote));
        }
        let url = canonicalize_url(remote.fetch.as_str());
        match config.remote_for(url) {
            Some(local) => Ok((local.clone(), remote)),
            None => Err(ResolveError::UnresolvedRemoteUrl(url.to_owned())),
        }
    }
}

impl RemoteConfig {
    /// Whether the remote is reached under `url`, a URL in canonical form.
    pub fn serves(&self, url: &str) -> (r: bool)
        ensures
            r == self@.serves(url@),
    {
        if same_text(url, canonicalize_url(self.url.as_str())) {
            return true;
        }
        match &self.other_urls {
            None => false,
            Some(others) => {
                let mut i: usize = 0;
                while i < others.len()
                    invariant
                        i <= others@.len(),
                        self.other_urls == Some(*others),
                        forall|j: int|
                            0 <= j < i ==> canonical_url(#[trigger] others.deep_view()[j]) != url@,
                    decreases others@.len() - i,
                {
                    assert(others.deep_view()[i as int] == others@[i as int]@);
                    if same_text(url, canonicalize_url(others[i].as_str())) {
                        proof {
                            let urls = self@.other_urls->Some_0;
                            assert(urls == others.deep_view());
                            assert(canonical_url(urls[i as int]) == url@);
                        }
                        return true;
                    }
                    i += 1;
                }
                false
            },
        }
    }
}

impl Config {
    /// The name of the first configured remote that is reached under `url`,
    /// a URL in canonical form.
    pub fn remote_for(&self, url: &str) -> (r: Option<&String>)
        ensures
            r.deep_view() == self@.remote_for(url@),
    {
        let mut i: usize = 0;
        while i < self.remotes.len()
            invariant
                i <= self.remotes@.len(),
                forall|j: int| 0 <= j < i ==> !(#[trigger] self@.remotes[j]).serves(url@),
            decreases self.remotes@.len() - i,
        {
            assert(self@.remotes[i as int] == self.remotes@[i as int]@);
            if self.remotes[i].serves(url) {
                proof {
                    assert(self@.is_first_serving(url@, i as int));
                    lemma_remote_for(self@, url@);
                }
                return Some(&self.remotes[i].name);
            }
            i += 1;
        }
        proof {
            lemma_remote_for(self@, url@);
        }
        None
    }
}

impl Project {
    /// The name of the project's remote: the project's own, or else the one
    /// that the manifest default names.
    pub fn find_remote(&self, manifest: &Manifest) -> (r: Result<String, ResolveError>)
        ensures
            outcome(r) == self@.find_remote(manifest@),
            r is Ok <==> self.remote is Some || manifest@.default_remote() is Some,
    {
        match first_of(&self.remote, manifest.default_remote()) {
            Some(name) => Ok(name.clone()),
            None => Err(ResolveError::MissingRemote(self.name.clone())),
        }
    }

    /// The project's revision: the project's own, or else the one that the
    /// manifest default names, or else the one of the project's remote.
    pub fn find_revision(&self, manifest: &Manifest) -> (r: Result<String, ResolveError>)
        ensures
            outcome(r) == self@.find_revision(manifest@),
            self@.revision is Some ==> outcome(r) == Ok::<Seq<char>, ResolveErrorView>(
                self@.revision->Some_0,
            ),
            ({
                let named = self@.find_remote(manifest@);
                self@.revision is None && manifest@.default_revision() is None && named is Ok
                    ==> outcome(r) == match manifest@.remote_revision(named->Ok_0) {
                    Some(revision) => Ok::<Seq<char>, ResolveErrorView>(revision),
                    None => Err(ResolveErrorView::MissingRevision(self@.name, None)),
                }
            }),
    {
        match first_of(&self.revision, manifest.default_revision()) {
            Some(revision) => Ok(revision.clone()),
            None => match self.find_remote(manifest) {
                Err(error) => Err(
                    ResolveError::MissingRevision(self.name.clone(), Some(Box::new(error))),
                ),
                Ok(name) => {
                    let revision = match manifest.remotes.get(name.as_str()) {
                        Some(remote) => remote.revision.as_ref(),
                        None => None,
                    };
                    match revision {
                        Some(revision) => Ok(revision.clone()),
                        None => Err(ResolveError::MissingRevision(self.name.clone(), None)),
                    }
                },
            },
        }
    }

    /// The project's destination branch: the project's own, or else the
    /// project's revision.
    pub fn find_dest_branch(&self, manifest: &Manifest) -> (r: Result<String, ResolveError>)
        ensures
            outcome(r) == self@.find_dest_branch(manifest@),
            self@.dest_branch is Some ==> outcome(r) == Ok::<Seq<char>, ResolveErrorView>(
                self@.dest_branch->Some_0,
            ),
            self@.dest_branch is None ==> (r is Ok <==> self@.find_revision(manifest@) is Ok),
    {
        match &self.dest_branch {
            Some(branch) => Ok(branch.clone()),
            None => match self.find_revision(manifest) {
                Ok(revision) => Ok(revision),
                Err(error) => Err(
                    ResolveError::MissingDestBranch(self.name.clone(), Box::new(error)),
                ),
            },
        }
    }
}

} // verus!
