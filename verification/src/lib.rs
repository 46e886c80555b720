//! Resolution of a multi-repository manifest.
//!
//! A manifest lists remotes, projects and one optional default. A project may
//! leave out its remote or its revision; what it leaves out it has from the
//! default, and what the default leaves out it has from its remote. This
//! crate builds the manifest from a decoded document ([`construct`]),
//! answers what each project's remote, revision and destination branch are
//! ([`resolve`]), finds the configured remote behind a project's remote by
//! its URL, and applies late overrides to single projects ([`extend`]).
//!
//! Every type has a view, the mathematical value it stands for, and every
//! function says over those views what it returns.

pub mod config;
pub mod construct;
pub mod error;
pub mod extend;
pub mod keyed_map;
pub mod model;
pub mod resolve;
pub mod schema;
pub mod text;

pub use crate::config::{Config, RemoteConfig, TreeConfig};
pub use crate::error::ResolveError;
pub use crate::extend::ExtendProject;
pub use crate::keyed_map::KeyedMap;
pub use crate::model::{
    ContactInfo, FileOperation, Manifest, ManifestServer, Project, Remote, RepoHooks, SuperProject,
};
