//! What the caller knows of its own surroundings: the remotes it has
//! configured, and the remote its checkout came from.

use vstd::prelude::*;

verus! {

/// A remote as the caller has configured it.
#[derive(Debug, Default, PartialEq, Eq)]
pub struct RemoteConfig {
    pub name: String,
    pub url: String,
    pub other_urls: Option<Vec<String>>,
}

/// What a [`RemoteConfig`] stands for.
pub ghost struct RemoteConfigView {
    pub name: Seq<char>,
    pub url: Seq<char>,
    pub other_urls: Option<Seq<Seq<char>>>,
}

impl View for RemoteConfig {
    type V = RemoteConfigView;

    open spec fn view(&self) -> RemoteConfigView {
        RemoteConfigView {
            name: self.name@,
            url: self.url@,
            other_urls: self.other_urls.deep_view(),
        }
    }
}

impl DeepView for RemoteConfig {
    type V = RemoteConfigView;

    open spec fn deep_view(&self) -> RemoteConfigView {
        self@
    }
}

/// The caller's configuration, as far as resolution reads it.
#[derive(Debug, Default, PartialEq, Eq)]
pub struct Config {
    pub remotes: Vec<RemoteConfig>,
}

/// What a [`Config`] stands for.
pub ghost struct ConfigView {
    pub remotes: Seq<RemoteConfigView>,
}

impl View for Config {
    type V = ConfigView;

    open spec fn view(&self) -> ConfigView {
        ConfigView { remotes: self.remotes.deep_view() }
    }
}

/// The checkout that the manifest belongs to.
#[derive(Debug, Default, PartialEq, Eq)]
pub struct TreeConfig {
    /// The configured remote from which the manifest itself was fetched.
    pub remote: String,
}

/// What a [`TreeConfig`] stands for.
pub ghost struct TreeConfigView {
    pub remote: Seq<char>,
}

impl View for TreeConfig {
    type V = TreeConfigView;

    open spec fn view(&self) -> TreeConfigView {
        TreeConfigView { remote: self.remote@ }
    }
}

} // verus!
