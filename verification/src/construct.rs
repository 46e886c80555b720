//! From a decoded manifest document to the manifest: each record becomes a
//! value of the model, remotes are filed by name and projects by path.
//! Nothing is checked here; what a project refers to is looked up when it is
//! resolved.

use vstd::prelude::*;
use vstd::std_specs::convert::FromSpecImpl;
use crate::error::ResolveError;
use crate::keyed_map::{
    from_entries, lemma_from_entries_keys, lemma_from_entries_last_wins, lemma_from_entries_push,
    lemma_from_entries_values, KeyedMap,
};
use crate::model::{
    DefaultView, FileOperation, FileOperationView, Manifest, ManifestView, Project, ProjectView,
    Remote, RemoteView,
};
use crate::schema::{
    AnnotationSchema, AnnotationSchemaView, CopyFileSchema, CopyFileSchemaView, DefaultSchema,
    DefaultSchemaView, LinkFileSchema, LinkFileSchemaView, ManifestSchema, ManifestSchemaView,
    ProjectSchema, ProjectSchemaView, RemoteSchema, RemoteSchemaView,
};

verus! {

/// The items of an optional list; none is as good as an empty list.
pub open spec fn or_empty<T>(items: Option<Seq<T>>) -> Seq<T> {
    match items {
        Some(items) => items,
        None => Seq::empty(),
    }
}

impl RemoteSchemaView {
    /// The remote that the record describes.
    pub open spec fn to_remote(self) -> RemoteView {
        RemoteView {
            name: self.name,
            alias: self.alias,
            fetch: self.fetch,
            push_url: self.push_url,
            review: self.review,
            revision: self.revision,
        }
    }
}

impl DefaultSchemaView {
    /// The default that the record describes.
    pub open spec fn to_default(self) -> DefaultView {
        DefaultView {
            remote: self.remote,
            revision: self.revision,
            dest_branch: self.dest_branch,
            upstream: self.upstream,
            sync_j: self.sync_j,
            sync_c: self.sync_c,
        }
    }
}

impl CopyFileSchemaView {
    /// The copy that the record asks for.
    pub open spec fn to_operation(self) -> FileOperationView {
        FileOperationView::CopyFile { src: self.src, dst: self.dest }
    }
}

impl LinkFileSchemaView {
    /// The link that the record asks for.
    pub open spec fn to_operation(self) -> FileOperationView {
        FileOperationView::LinkFile { src: self.src, dst: self.dest }
    }
}

impl AnnotationSchemaView {
    /// The annotation as an entry: its name and its value.
    pub open spec fn to_entry(self) -> (Seq<char>, Seq<char>) {
        (self.name, self.value)
    }
}

impl FromSpecImpl<RemoteSchema> for Remote {
    open spec fn obeys_from_spec() -> bool {
        true
    }

    open spec fn from_spec(remote: RemoteSchema) -> Remote {
        Remote {
            name: remote.name,
            alias: remote.alias,
            fetch: remote.fetch,
            push_url: remote.push_url,
            review: remote.review,
            revision: remote.revision,
        }
    }
}

impl From<RemoteSchema> for Remote {
    fn from(remote: RemoteSchema) -> (r: Remote)
        ensures
            r@ == remote@.to_remote(),
    {
        Remote {
            name: remote.name,
            alias: remote.alias,
            fetch: remote.fetch,
            push_url: remote.push_url,
            review: remote.review,
            revision: remote.revision,
        }
    }
}

impl FromSpecImpl<DefaultSchema> for crate::model::Default {
    open spec fn obeys_from_spec() -> bool {
        true
    }

    open spec fn from_spec(default: DefaultSchema) -> crate::model::Default {
        crate::model::Default {
            remote: default.remote,
            revision: default.revision,
            dest_branch: default.dest_branch,
            upstream: default.upstream,
            sync_j: default.sync_j,
            sync_c: default.sync_c,
        }
    }
}

impl From<DefaultSchema> for crate::model::Default {
    fn from(default: DefaultSchema) -> (r: crate::model::Default)
        ensures
            r@ == default@.to_default(),
    {
        crate::model::Default {
            remote: default.remote,
            revision: default.revision,
            dest_branch: default.dest_branch,
            upstream: default.upstream,
            sync_j: default.sync_j,
            sync_c: default.sync_c,
        }
    }
}

impl FromSpecImpl<CopyFileSchema> for FileOperation {
    open spec fn obeys_from_spec() -> bool {
        true
    }

    open spec fn from_spec(schema: CopyFileSchema) -> FileOperation {
        FileOperation::CopyFile { src: schema.src, dst: schema.dest }
    }
}

impl From<CopyFileSchema> for FileOperation {
    fn from(schema: CopyFileSchema) -> (r: FileOperation)
        ensures
            r@ == schema@.to_operation(),
    {
        FileOperation::CopyFile { src: schema.src, dst: schema.dest }
    }
}

impl FromSpecImpl<LinkFileSchema> for FileOperation {
    open spec fn obeys_from_spec() -> bool {
        true
    }

    open spec fn from_spec(schema: LinkFileSchema) -> FileOperation {
        FileOperation::LinkFile { src: schema.src, dst: schema.dest }
    }
}

impl From<LinkFileSchema> for FileOperation {
    fn from(schema: LinkFileSchema) -> (r: FileOperation)
        ensures
            r@ == schema@.to_operation(),
    {
        FileOperation::LinkFile { src: schema.src, dst: schema.dest }
    }
}

impl ProjectSchemaView {
    /// The key under which the project is filed: its path, or its name where
    /// it has no path of its own.
    pub open spec fn key(self) -> Seq<char> {
        match self.path {
            Some(path) => path,
            None => self.name,
        }
    }

    /// What is to be done with the project's files: the copies in the order
    /// of the document, then the links in the order of the document.
    pub open spec fn file_operations(self) -> Seq<FileOperationView> {
        or_empty(self.copy_files).map_values(|c: CopyFileSchemaView| c.to_operation()) + or_empty(
            self.link_files,
        ).map_values(|l: LinkFileSchemaView| l.to_operation())
    }

    /// The project's annotations by name. Of two with the same name the
    /// later one stays.
    pub open spec fn annotations(self) -> Map<Seq<char>, Seq<char>> {
        from_entries(or_empty(self.annotations).map_values(|a: AnnotationSchemaView| a.to_entry()))
    }

    /// The project that the record describes.
    pub open spec fn to_project(self) -> ProjectView {
        ProjectView {
            name: self.name,
            path: self.path,
            remote: self.remote,
            revision: self.revision,
            dest_branch: self.dest_branch,
            groups: self.groups,
            sync_c: self.sync_c,
            clone_depth: self.clone_depth,
            file_operations: self.file_operations(),
            annotations: self.annotations(),
        }
    }

    /// The project as an entry: its key and the project itself.
    pub open spec fn to_entry(self) -> (Seq<char>, ProjectView) {
        (self.key(), self.to_project())
    }
}

impl RemoteSchemaView {
    /// The remote as an entry: its name and the remote itself.
    pub open spec fn to_entry(self) -> (Seq<char>, RemoteView) {
        (self.name, self.to_remote())
    }
}

impl ManifestSchemaView {
    /// The remotes by name. Of two with the same name the later one stays.
    pub open spec fn remotes(self) -> Map<Seq<char>, RemoteView> {
        from_entries(self.remote.map_values(|r: RemoteSchemaView| r.to_entry()))
    }

    /// The projects by key. Of two with the same key the later one stays.
    pub open spec fn projects(self) -> Map<Seq<char>, ProjectView> {
        from_entries(self.project.map_values(|p: ProjectSchemaView| p.to_entry()))
    }

    /// The manifest that the document describes.
    pub open spec fn to_manifest(self) -> ManifestView {
        ManifestView {
            remotes: self.remotes(),
            projects: self.projects(),
            default: match self.default {
                Some(default) => Some(default.to_default()),
                None => None,
            },
            manifest_server: None,
            superproject: None,
            contactinfo: None,
            repo_hooks: None,
        }
    }
}

/// The copies that the records ask for, in the order of the records.
fn copy_operations(files: Vec<CopyFileSchema>) -> (r: Vec<FileOperation>)
    ensures
        r.deep_view() == files.deep_view().map_values(|c: CopyFileSchemaView| c.to_operation()),
{
    let ghost expected = files.deep_view().map_values(|c: CopyFileSchemaView| c.to_operation());
    let mut operations: Vec<FileOperation> = Vec::new();
    for file in iter: files
        invariant
            iter.seq().len() == expected.len(),
            operations@.len() == iter.index(),
            forall|i: int|
                0 <= i < iter.seq().len() ==> (#[trigger] iter.seq()[i])@.to_operation()
                    == expected[i],
            forall|i: int| 0 <= i < iter.index() ==> (#[trigger] operations@[i])@ == expected[i],
    {
        operations.push(FileOperation::from(file));
    }
    assert(operations.deep_view() =~= expected);
    operations
}

/// The links that the records ask for, in the order of the records.
fn link_operations(files: Vec<LinkFileSchema>) -> (r: Vec<FileOperation>)
    ensures
        r.deep_view() == files.deep_view().map_values(|l: LinkFileSchemaView| l.to_operation()),
{
    let ghost expected = files.deep_view().map_values(|l: LinkFileSchemaView| l.to_operation());
    let mut operations: Vec<FileOperation> = Vec::new();
    for file in iter: files
        invariant
            iter.seq().len() == expected.len(),
            operations@.len() == iter.index(),
            forall|i: int|
                0 <= i < iter.seq().len() ==> (#[trigger] iter.seq()[i])@.to_operation()
                    == expected[i],
            forall|i: int| 0 <= i < iter.index() ==> (#[trigger] operations@[i])@ == expected[i],
    {
        operations.push(FileOperation::from(file));
    }
    assert(operations.deep_view() =~= expected);
    operations
}

/// The annotations by name.
fn annotation_map(annotations: Vec<AnnotationSchema>) -> (r: KeyedMap<String>)
    ensures
        r@ == from_entries(
            annotations.deep_view().map_values(|a: AnnotationSchemaView| a.to_entry()),
        ),
{
    let ghost entries = annotations.deep_view().map_values(|a: AnnotationSchemaView| a.to_entry());
    let mut map: KeyedMap<String> = KeyedMap::new();
    assert(entries.take(0) =~= Seq::empty());
    for annotation in iter: annotations
        invariant
            iter.seq().len() == entries.len(),
            forall|i: int|
                0 <= i < iter.seq().len() ==> (#[trigger] iter.seq()[i])@.to_entry() == entries[i],
            map@ == from_entries(entries.take(iter.index())),
    {
        proof {
            let done = iter.index();
            assert(entries.take(done + 1) =~= entries.take(done).push(entries[done]));
            lemma_from_entries_push(entries.take(done), entries[done].0, entries[done].1);
        }
        map.insert(annotation.name, annotation.value);
    }
    assert(entries.take(entries.len() as int) =~= entries);
    map
}

impl FromSpecImpl<ProjectSchema> for Project {
    open spec fn obeys_from_spec() -> bool {
        false
    }

    open spec fn from_spec(schema: ProjectSchema) -> Project {
        choose|project: Project| project@ == schema@.to_project()
    }
}

impl From<ProjectSchema> for Project {
    /// The project that the record describes. Its file operations are the
    /// copies followed by the links; of the record's `sync_s`, `upstream`
    /// and `force_path` the project keeps nothing.
    fn from(schema: ProjectSchema) -> (r: Project)
        ensures
            r@ == schema@.to_project(),
    {
        let mut file_operations = match schema.copy_files {
            Some(files) => copy_operations(files),
            None => Vec::new(),
        };
        let mut links = match schema.link_files {
            Some(files) => link_operations(files),
            None => Vec::new(),
        };
        let ghost copies = file_operations.deep_view();
        let ghost linked = links.deep_view();
        assert(copies =~= or_empty(schema@.copy_files).map_values(
            |c: CopyFileSchemaView| c.to_operation(),
        ));
        assert(linked =~= or_empty(schema@.link_files).map_values(
            |l: LinkFileSchemaView| l.to_operation(),
        ));
        file_operations.append(&mut links);
        assert(file_operations.deep_view() =~= copies + linked);
        let annotations = match schema.annotations {
            Some(annotations) => annotation_map(annotations),
            None => KeyedMap::new(),
        };
        assert(annotations@ == schema@.annotations()) by {
            if schema.annotations is None {
                assert(or_empty(schema@.annotations).map_values(
                    |a: AnnotationSchemaView| a.to_entry(),
                ).len() == 0);
            }
        }
        Project {
            name: schema.name,
            path: schema.path,
            remote: schema.remote,
            revision: schema.revision,
            dest_branch: schema.dest_branch,
            groups: schema.groups,
            sync_c: schema.sync_c,
            clone_depth: schema.clone_depth,
            file_operations,
            annotations,
        }
    }
}

/// The remotes by name.
fn remote_map(remotes: Vec<RemoteSchema>) -> (r: KeyedMap<Remote>)
    ensures
        r@ == from_entries(remotes.deep_view().map_values(|r: RemoteSchemaView| r.to_entry())),
{
    let ghost entries = remotes.deep_view().map_values(|r: RemoteSchemaView| r.to_entry());
    let mut map: KeyedMap<Remote> = KeyedMap::new();
    assert(entries.take(0) =~= Seq::empty());
    for remote in iter: remotes
        invariant
            iter.seq().len() == entries.len(),
            forall|i: int|
                0 <= i < iter.seq().len() ==> (#[trigger] iter.seq()[i])@.to_entry() == entries[i],
            map@ == from_entries(entries.take(iter.index())),
    {
        proof {
            let done = iter.index();
            assert(entries.take(done + 1) =~= entries.take(done).push(entries[done]));
            lemma_from_entries_push(entries.take(done), entries[done].0, entries[done].1);
        }
        let name = remote.name.clone();
        map.insert(name, Remote::from(remote));
    }
    assert(entries.take(entries.len() as int) =~= entries);
    map
}

/// The projects by key.
fn project_map(projects: Vec<ProjectSchema>) -> (r: KeyedMap<Project>)
    ensures
        r@ == from_entries(projects.deep_view().map_values(|p: ProjectSchemaView| p.to_entry())),
{
    let ghost entries = projects.deep_view().map_values(|p: ProjectSchemaView| p.to_entry());
    let mut map: KeyedMap<Project> = KeyedMap::new();
    assert(entries.take(0) =~= Seq::empty());
    for project in iter: projects
        invariant
            iter.seq().len() == entries.len(),
            forall|i: int|
                0 <= i < iter.seq().len() ==> (#[trigger] iter.seq()[i])@.to_entry() == entries[i],
            map@ == from_entries(entries.take(iter.index())),
    {
        proof {
            let done = iter.index();
            assert(entries.take(done + 1) =~= entries.take(done).push(entries[done]));
            lemma_from_entries_push(entries.take(done), entries[done].0, entries[done].1);
        }
        let key = match &project.path {
            Some(path) => path.clone(),
            None => project.name.clone(),
        };
        map.insert(key, Project::from(project));
    }
    assert(entries.take(entries.len() as int) =~= entries);
    map
}

impl Manifest {
    /// Builds the manifest that a decoded document describes.
    ///
    /// Remotes are filed by name and projects by the path where they are
    /// checked out; a later record takes the place of an earlier one with the
    /// same key. The optional blocks besides the default stay empty. This
    /// never fails: a project that names a remote which is not there is found
    /// out when the project is resolved, not here.
    ///
    /// `manifest_root` is the directory that the names of included manifests
    /// are relative to. Included manifests are not read, so neither is it.
    pub fn construct_from_schema(schema: ManifestSchema, manifest_root: &str) -> (r: Result<
        Manifest,
        ResolveError,
    >)
        ensures
            r is Ok,
            r->Ok_0@ == schema@.to_manifest(),
    {
        let remotes = remote_map(schema.remote);
        let projects = project_map(schema.project);
        let default = match schema.default {
            Some(default) => Some(crate::model::Default::from(default)),
            None => None,
        };
        Ok(
            Manifest {
                remotes,
                projects,
                default,
                manifest_server: None,
                superproject: None,
                contactinfo: None,
                repo_hooks: None,
            },
        )
    }
}

/// Of the projects with one key, the manifest holds the one that comes last
/// in the document.
pub proof fn lemma_last_project_wins(schema: ManifestSchemaView, i: int)
    requires
        0 <= i < schema.project.len(),
        forall|j: int|
            i < j < schema.project.len() ==> (#[trigger] schema.project[j]).key()
                != schema.project[i].key(),
    ensures
        schema.to_manifest().projects.contains_key(schema.project[i].key()),
        schema.to_manifest().projects[schema.project[i].key()] == schema.project[i].to_project(),
{
    let entries = schema.project.map_values(|p: ProjectSchemaView| p.to_entry());
    assert(entries[i] == schema.project[i].to_entry());
    assert forall|j: int| i < j < entries.len() implies (#[trigger] entries[j]).0 != entries[i].0 by {
        assert(entries[j] == schema.project[j].to_entry());
    }
    lemma_from_entries_last_wins(entries, i);
}

/// Of the remotes with one name, the manifest holds the one that comes last
/// in the document.
pub proof fn lemma_last_remote_wins(schema: ManifestSchemaView, i: int)
    requires
        0 <= i < schema.remote.len(),
        forall|j: int|
            i < j < schema.remote.len() ==> (#[trigger] schema.remote[j]).name
                != schema.remote[i].name,
    ensures
        schema.to_manifest().remotes.contains_key(schema.remote[i].name),
        schema.to_manifest().remotes[schema.remote[i].name] == schema.remote[i].to_remote(),
{
    let entries = schema.remote.map_values(|r: RemoteSchemaView| r.to_entry());
    assert(entries[i] == schema.remote[i].to_entry());
    assert forall|j: int| i < j < entries.len() implies (#[trigger] entries[j]).0 != entries[i].0 by {
        assert(entries[j] == schema.remote[j].to_entry());
    }
    lemma_from_entries_last_wins(entries, i);
}

/// The manifest holds a project under a key exactly when the document has a
/// project with that key, and a remote under a name exactly when the
/// document has a remote of that name; so it never holds more projects or
/// remotes than the document has records.
pub proof fn lemma_manifest_keys(schema: ManifestSchemaView)
    ensures
        schema.to_manifest().projects.dom().finite(),
        schema.to_manifest().projects.len() <= schema.project.len(),
        forall|key: Seq<char>| #[trigger]
            schema.to_manifest().projects.contains_key(key) <==> exists|i: int|
                0 <= i < schema.project.len() && (#[trigger] schema.project[i]).key() == key,
        schema.to_manifest().remotes.dom().finite(),
        schema.to_manifest().remotes.len() <= schema.remote.len(),
        forall|name: Seq<char>| #[trigger]
            schema.to_manifest().remotes.contains_key(name) <==> exists|i: int|
                0 <= i < schema.remote.len() && (#[trigger] schema.remote[i]).name == name,
{
    let projects = schema.project.map_values(|p: ProjectSchemaView| p.to_entry());
    lemma_from_entries_keys(projects);
    assert forall|key: Seq<char>| #[trigger]
        schema.to_manifest().projects.contains_key(key) <==> exists|i: int|
            0 <= i < schema.project.len() && (#[trigger] schema.project[i]).key() == key by {
        if schema.to_manifest().projects.contains_key(key) {
            let i = choose|i: int| 0 <= i < projects.len() && (#[trigger] projects[i]).0 == key;
            assert(schema.project[i].key() == key);
        }
        if exists|i: int| 0 <= i < schema.project.len() && (#[trigger] schema.project[i]).key() == key {
            let i = choose|i: int|
                0 <= i < schema.project.len() && (#[trigger] schema.project[i]).key() == key;
            assert(projects[i].0 == key);
        }
    }
    let remotes = schema.remote.map_values(|r: RemoteSchemaView| r.to_entry());
    lemma_from_entries_keys(remotes);
    assert forall|name: Seq<char>| #[trigger]
        schema.to_manifest().remotes.contains_key(name) <==> exists|i: int|
            0 <= i < schema.remote.len() && (#[trigger] schema.remote[i]).name == name by {
        if schema.to_manifest().remotes.contains_key(name) {
            let i = choose|i: int| 0 <= i < remotes.len() && (#[trigger] remotes[i]).0 == name;
            assert(schema.remote[i].name == name);
        }
        if exists|i: int| 0 <= i < schema.remote.len() && (#[trigger] schema.remote[i]).name == name {
            let i = choose|i: int|
                0 <= i < schema.remote.len() && (#[trigger] schema.remote[i]).name == name;
            assert(remotes[i].0 == name);
        }
    }
}

/// Every remote of the manifest is filed under its own name, and every
/// project under the path where it is checked out.
pub proof fn lemma_manifest_filed_by_key(schema: ManifestSchemaView)
    ensures
        forall|name: Seq<char>| #[trigger]
            schema.to_manifest().remotes.contains_key(name) ==> schema.to_manifest().remotes[name].name
                == name,
        forall|key: Seq<char>| #[trigger]
            schema.to_manifest().projects.contains_key(key)
                ==> schema.to_manifest().projects[key].path() == key,
{
    let remotes = schema.remote.map_values(|r: RemoteSchemaView| r.to_entry());
    lemma_from_entries_values(remotes);
    assert forall|name: Seq<char>| #[trigger]
        schema.to_manifest().remotes.contains_key(name) implies schema.to_manifest().remotes[name].name
        == name by {
        let i = choose|i: int|
            0 <= i < remotes.len() && #[trigger] remotes[i] == (name, from_entries(remotes)[name]);
        assert(remotes[i] == schema.remote[i].to_entry());
    }
    let projects = schema.project.map_values(|p: ProjectSchemaView| p.to_entry());
    lemma_from_entries_values(projects);
    assert forall|key: Seq<char>| #[trigger]
        schema.to_manifest().projects.contains_key(key) implies schema.to_manifest().projects[key].path()
        == key by {
        let i = choose|i: int|
            0 <= i < projects.len() && #[trigger] projects[i] == (key, from_entries(projects)[key]);
        assert(projects[i] == schema.project[i].to_entry());
    }
}

} // verus!
