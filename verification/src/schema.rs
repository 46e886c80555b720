//! The manifest as a decoder hands it over: one record per element, each
//! attribute as written, nothing resolved yet.

use vstd::prelude::*;

verus! {

/// A `remote` element.
#[derive(Debug)]
pub struct RemoteSchema {
    pub name: String,
    pub alias: Option<String>,
    pub fetch: String,
    pub push_url: Option<String>,
    pub review: Option<String>,
    pub revision: Option<String>,
}

/// What a [`RemoteSchema`] stands for.
pub ghost struct RemoteSchemaView {
    pub name: Seq<char>,
    pub alias: Option<Seq<char>>,
    pub fetch: Seq<char>,
    pub push_url: Option<Seq<char>>,
    pub review: Option<Seq<char>>,
    pub revision: Option<Seq<char>>,
}

impl View for RemoteSchema {
    type V = RemoteSchemaView;

    open spec fn view(&self) -> RemoteSchemaView {
        RemoteSchemaView {
            name: self.name@,
            alias: self.alias.deep_view(),
            fetch: self.fetch@,
            push_url: self.push_url.deep_view(),
            review: self.review.deep_view(),
            revision: self.revision.deep_view(),
        }
    }
}

impl DeepView for RemoteSchema {
    type V = RemoteSchemaView;

    open spec fn deep_view(&self) -> RemoteSchemaView {
        self@
    }
}

/// The `default` element.
#[derive(Debug)]
pub struct DefaultSchema {
    pub remote: Option<String>,
    pub revision: Option<String>,
    pub dest_branch: Option<String>,
    pub upstream: Option<String>,
    pub sync_j: Option<u32>,
    pub sync_c: Option<bool>,
}

/// What a [`DefaultSchema`] stands for.
pub ghost struct DefaultSchemaView {
    pub remote: Option<Seq<char>>,
    pub revision: Option<Seq<char>>,
    pub dest_branch: Option<Seq<char>>,
    pub upstream: Option<Seq<char>>,
    pub sync_j: Option<u32>,
    pub sync_c: Option<bool>,
}

impl View for DefaultSchema {
    type V = DefaultSchemaView;

    open spec fn view(&self) -> DefaultSchemaView {
        DefaultSchemaView {
            remote: self.remote.deep_view(),
            revision: self.revision.deep_view(),
            dest_branch: self.dest_branch.deep_view(),
            upstream: self.upstream.deep_view(),
            sync_j: self.sync_j,
            sync_c: self.sync_c,
        }
    }
}

impl DeepView for DefaultSchema {
    type V = DefaultSchemaView;

    open spec fn deep_view(&self) -> DefaultSchemaView {
        self@
    }
}

/// A `copyfile` element of a project.
#[derive(Debug)]
pub struct CopyFileSchema {
    pub src: String,
    pub dest: String,
}

/// What a [`CopyFileSchema`] stands for.
pub ghost struct CopyFileSchemaView {
    pub src: Seq<char>,
    pub dest: Seq<char>,
}

impl View for CopyFileSchema {
    type V = CopyFileSchemaView;

    open spec fn view(&self) -> CopyFileSchemaView {
        CopyFileSchemaView { src: self.src@, dest: self.dest@ }
    }
}

impl DeepView for CopyFileSchema {
    type V = CopyFileSchemaView;

    open spec fn deep_view(&self) -> CopyFileSchemaView {
        self@
    }
}

/// A `linkfile` element of a project.
#[derive(Debug)]
pub struct LinkFileSchema {
    pub src: String,
    pub dest: String,
}

/// What a [`LinkFileSchema`] stands for.
pub ghost struct LinkFileSchemaView {
    pub src: Seq<char>,
    pub dest: Seq<char>,
}

impl View for LinkFileSchema {
    type V = LinkFileSchemaView;

    open spec fn view(&self) -> LinkFileSchemaView {
        LinkFileSchemaView { src: self.src@, dest: self.dest@ }
    }
}

impl DeepView for LinkFileSchema {
    type V = LinkFileSchemaView;

    open spec fn deep_view(&self) -> LinkFileSchemaView {
        self@
    }
}

/// An `annotation` element of a project.
#[derive(Debug)]
pub struct AnnotationSchema {
    pub name: String,
    pub value: String,
}

/// What an [`AnnotationSchema`] stands for.
pub ghost struct AnnotationSchemaView {
    pub name: Seq<char>,
    pub value: Seq<char>,
}

impl View for AnnotationSchema {
    type V = AnnotationSchemaView;

    open spec fn view(&self) -> AnnotationSchemaView {
        AnnotationSchemaView { name: self.name@, value: self.value@ }
    }
}

impl DeepView for AnnotationSchema {
    type V = AnnotationSchemaView;

    open spec fn deep_view(&self) -> AnnotationSchemaView {
        self@
    }
}

/// An `include` element: the name of another manifest file.
#[derive(Debug)]
pub struct IncludeSchema {
    pub name: String,
}

/// What an [`IncludeSchema`] stands for.
pub ghost struct IncludeSchemaView {
    pub name: Seq<char>,
}

impl View for IncludeSchema {
    type V = IncludeSchemaView;

    open spec fn view(&self) -> IncludeSchemaView {
        IncludeSchemaView { name: self.name@ }
    }
}

impl DeepView for IncludeSchema {
    type V = IncludeSchemaView;

    open spec fn deep_view(&self) -> IncludeSchemaView {
        self@
    }
}

/// A `project` element with its child elements.
#[derive(Debug)]
pub struct ProjectSchema {
    pub name: String,
    pub path: Option<String>,
    pub remote: Option<String>,
    pub revision: Option<String>,
    pub dest_branch: Option<String>,
    pub groups: Option<Vec<String>>,
    pub sync_c: Option<bool>,
    pub sync_s: Option<bool>,
    pub upstream: Option<String>,
    pub clone_depth: Option<u32>,
    pub force_path: Option<bool>,
    pub annotations: Option<Vec<AnnotationSchema>>,
    pub copy_files: Option<Vec<CopyFileSchema>>,
    pub link_files: Option<Vec<LinkFileSchema>>,
}

/// What a [`ProjectSchema`] stands for.
pub ghost struct ProjectSchemaView {
    pub name: Seq<char>,
    pub path: Option<Seq<char>>,
    pub remote: Option<Seq<char>>,
    pub revision: Option<Seq<char>>,
    pub dest_branch: Option<Seq<char>>,
    pub groups: Option<Seq<Seq<char>>>,
    pub sync_c: Option<bool>,
    pub sync_s: Option<bool>,
    pub upstream: Option<Seq<char>>,
    pub clone_depth: Option<u32>,
    pub force_path: Option<bool>,
    pub annotations: Option<Seq<AnnotationSchemaView>>,
    pub copy_files: Option<Seq<CopyFileSchemaView>>,
    pub link_files: Option<Seq<LinkFileSchemaView>>,
}

impl View for ProjectSchema {
    type V = ProjectSchemaView;

    open spec fn view(&self) -> ProjectSchemaView {
        ProjectSchemaView {
            name: self.name@,
            path: self.path.deep_view(),
            remote: self.remote.deep_view(),
            revision: self.revision.deep_view(),
            dest_branch: self.dest_branch.deep_view(),
            groups: self.groups.deep_view(),
            sync_c: self.sync_c,
            sync_s: self.sync_s,
            upstream: self.upstream.deep_view(),
            clone_depth: self.clone_depth,
            force_path: self.force_path,
            annotations: self.annotations.deep_view(),
            copy_files: self.copy_files.deep_view(),
            link_files: self.link_files.deep_view(),
        }
    }
}

impl DeepView for ProjectSchema {
    type V = ProjectSchemaView;

    open spec fn deep_view(&self) -> ProjectSchemaView {
        self@
    }
}

/// A whole manifest document.
#[derive(Debug)]
pub struct ManifestSchema {
    pub project: Vec<ProjectSchema>,
    pub remote: Vec<RemoteSchema>,
    pub default: Option<DefaultSchema>,
    pub includes: Option<Vec<IncludeSchema>>,
}

/// What a [`ManifestSchema`] stands for.
pub ghost struct ManifestSchemaView {
    pub project: Seq<ProjectSchemaView>,
    pub remote: Seq<RemoteSchemaView>,
    pub default: Option<DefaultSchemaView>,
    pub includes: Option<Seq<IncludeSchemaView>>,
}

impl View for ManifestSchema {
    type V = ManifestSchemaView;

    open spec fn view(&self) -> ManifestSchemaView {
        ManifestSchemaView {
            project: self.project.deep_view(),
            remote: self.remote.deep_view(),
            default: self.default.deep_view(),
            includes: self.includes.deep_view(),
        }
    }
}

} // verus!
