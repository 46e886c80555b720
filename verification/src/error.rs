//! Why a lookup in the manifest failed.

use vstd::prelude::*;

verus! {

/// A failed resolution. Each value names what was missing; the last two
/// project-level kinds carry the failure that led to them.
#[derive(Debug, PartialEq, Eq)]
pub enum ResolveError {
    /// Neither the project nor the manifest default names a remote.
    MissingRemote(String),
    /// No revision at project, default or remote level. The cause is there
    /// when the remote itself could not be named.
    MissingRevision(String, Option<Box<ResolveError>>),
    /// No destination branch on the project, and no revision either.
    MissingDestBranch(String, Box<ResolveError>),
    /// The URL, in canonical form, matches no configured remote.
    UnresolvedRemoteUrl(String),
    /// The named remote is absent from the manifest.
    UnknownRemoteReference(String),
}

/// What a [`ResolveError`] stands for.
pub ghost enum ResolveErrorView {
    MissingRemote(Seq<char>),
    MissingRevision(Seq<char>, Option<Box<ResolveErrorView>>),
    MissingDestBranch(Seq<char>, Box<ResolveErrorView>),
    UnresolvedRemoteUrl(Seq<char>),
    UnknownRemoteReference(Seq<char>),
}

/// The mathematical value of an error, cause by cause.
pub open spec fn error_view(error: ResolveError) -> ResolveErrorView
    decreases error,
{
    match error {
        ResolveError::MissingRemote(project) => ResolveErrorView::MissingRemote(project@),
        ResolveError::MissingRevision(project, cause) => ResolveErrorView::MissingRevision(
            project@,
            match cause {
                Some(inner) => Some(Box::new(error_view(*inner))),
                None => None,
            },
        ),
        ResolveError::MissingDestBranch(project, cause) => ResolveErrorView::MissingDestBranch(
            project@,
            Box::new(error_view(*cause)),
        ),
        ResolveError::UnresolvedRemoteUrl(url) => ResolveErrorView::UnresolvedRemoteUrl(url@),
        ResolveError::UnknownRemoteReference(name) => ResolveErrorView::UnknownRemoteReference(
            name@,
        ),
    }
}

impl View for ResolveError {
    type V = ResolveErrorView;

    open spec fn view(&self) -> ResolveErrorView {
        error_view(*self)
    }
}

/// The outcome of a lookup as a mathematical value.
pub open spec fn outcome(r: Result<String, ResolveError>) -> Result<Seq<char>, ResolveErrorView> {
    match r {
        Ok(value) => Ok(value@),
        Err(error) => Err(error@),
    }
}

} // verus!
