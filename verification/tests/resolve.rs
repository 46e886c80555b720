use repo_manifest::{
    Config, KeyedMap, Manifest, Project, Remote, RemoteConfig, ResolveError, TreeConfig,
};

fn text(s: &str) -> String {
    s.to_owned()
}

fn remote(name: &str, fetch: &str, revision: Option<&str>) -> Remote {
    Remote { name: text(name), fetch: text(fetch), revision: revision.map(text), ..Remote::default() }
}

fn manifest(remotes: Vec<Remote>, default: Option<repo_manifest::model::Default>) -> Manifest {
    let mut by_name = KeyedMap::new();
    for r in remotes {
        by_name.insert(r.name.clone(), r);
    }
    Manifest { remotes: by_name, default, ..Manifest::default() }
}

fn default(remote: Option<&str>, revision: Option<&str>) -> repo_manifest::model::Default {
    repo_manifest::model::Default {
        remote: remote.map(text),
        revision: revision.map(text),
        ..repo_manifest::model::Default::default()
    }
}

fn project(name: &str) -> Project {
    Project { name: text(name), ..Project::default() }
}

fn configured(name: &str, url: &str, others: Option<Vec<&str>>) -> RemoteConfig {
    RemoteConfig {
        name: text(name),
        url: text(url),
        other_urls: others.map(|urls| urls.into_iter().map(text).collect()),
    }
}

fn tree(remote: &str) -> TreeConfig {
    TreeConfig { remote: text(remote) }
}

#[test]
fn find_remote_prefers_the_project() {
    let m = manifest(vec![], Some(default(Some("from-default"), None)));
    let p = Project { remote: Some(text("own")), ..project("p") };
    assert_eq!(p.find_remote(&m), Ok(text("own")));
}

#[test]
fn find_remote_falls_back_to_the_default() {
    let m = manifest(vec![], Some(default(Some("from-default"), None)));
    assert_eq!(project("p").find_remote(&m), Ok(text("from-default")));
}

#[test]
fn find_remote_fails_without_project_or_default_remote() {
    let no_default = manifest(vec![remote("r", "u", None)], None);
    assert_eq!(project("p").find_remote(&no_default), Err(ResolveError::MissingRemote(text("p"))));
    let default_without_remote = manifest(vec![], Some(default(None, Some("master"))));
    assert_eq!(
        project("q").find_remote(&default_without_remote),
        Err(ResolveError::MissingRemote(text("q")))
    );
}

#[test]
fn find_remote_does_not_ask_whether_the_remote_exists() {
    let m = manifest(vec![], None);
    let p = Project { remote: Some(text("ghost")), ..project("p") };
    assert_eq!(p.find_remote(&m), Ok(text("ghost")));
}

#[test]
fn find_revision_prefers_the_project() {
    let m = manifest(
        vec![remote("r", "u", Some("from-remote"))],
        Some(default(Some("r"), Some("from-default"))),
    );
    let p = Project { revision: Some(text("own")), ..project("p") };
    assert_eq!(p.find_revision(&m), Ok(text("own")));
}

#[test]
fn find_revision_of_the_project_needs_no_remote() {
    let m = manifest(vec![], None);
    let p = Project { revision: Some(text("own")), ..project("p") };
    assert_eq!(p.find_revision(&m), Ok(text("own")));
}

#[test]
fn find_revision_prefers_the_default_to_the_remote() {
    let m = manifest(
        vec![remote("r", "u", Some("from-remote"))],
        Some(default(Some("r"), Some("from-default"))),
    );
    assert_eq!(project("p").find_revision(&m), Ok(text("from-default")));
}

#[test]
fn find_revision_of_the_default_needs_no_remote() {
    let m = manifest(vec![], Some(default(None, Some("from-default"))));
    assert_eq!(project("p").find_revision(&m), Ok(text("from-default")));
}

#[test]
fn find_revision_falls_back_to_the_remote() {
    let m = manifest(vec![remote("r", "u", Some("from-remote"))], Some(default(Some("r"), None)));
    assert_eq!(project("p").find_revision(&m), Ok(text("from-remote")));
    let own_remote = Project { remote: Some(text("r")), ..project("q") };
    assert_eq!(own_remote.find_revision(&manifest(vec![remote("r", "u", Some("x"))], None)), Ok(text("x")));
}

#[test]
fn find_revision_fails_where_the_remote_has_none() {
    let m = manifest(vec![remote("r", "u", None)], Some(default(Some("r"), None)));
    assert_eq!(
        project("p").find_revision(&m),
        Err(ResolveError::MissingRevision(text("p"), None))
    );
}

#[test]
fn find_revision_fails_where_the_remote_is_not_there() {
    let m = manifest(vec![remote("other", "u", Some("main"))], Some(default(Some("r"), None)));
    assert_eq!(
        project("p").find_revision(&m),
        Err(ResolveError::MissingRevision(text("p"), None))
    );
}

#[test]
fn find_revision_fails_with_the_missing_remote_as_cause() {
    let m = manifest(vec![remote("r", "u", Some("main"))], None);
    assert_eq!(
        project("p").find_revision(&m),
        Err(ResolveError::MissingRevision(
            text("p"),
            Some(Box::new(ResolveError::MissingRemote(text("p"))))
        ))
    );
}

#[test]
fn find_dest_branch_prefers_the_project() {
    let m = manifest(vec![], Some(default(None, Some("master"))));
    let p = Project { dest_branch: Some(text("release")), ..project("p") };
    assert_eq!(p.find_dest_branch(&m), Ok(text("release")));
    let nothing_else = manifest(vec![], None);
    assert_eq!(p.find_dest_branch(&nothing_else), Ok(text("release")));
}

#[test]
fn find_dest_branch_is_the_revision_otherwise() {
    let m = manifest(vec![remote("r", "u", Some("from-remote"))], Some(default(Some("r"), None)));
    let p = project("p");
    assert_eq!(p.find_dest_branch(&m), p.find_revision(&m));
    assert_eq!(p.find_dest_branch(&m), Ok(text("from-remote")));
    let q = Project { revision: Some(text("v2")), ..project("q") };
    assert_eq!(q.find_dest_branch(&m), Ok(text("v2")));
}

#[test]
fn find_dest_branch_ignores_the_dest_branch_of_the_default() {
    let d = repo_manifest::model::Default {
        dest_branch: Some(text("default-dest")),
        revision: Some(text("master")),
        ..repo_manifest::model::Default::default()
    };
    let m = manifest(vec![], Some(d));
    assert_eq!(project("p").find_dest_branch(&m), Ok(text("master")));
}

#[test]
fn find_dest_branch_fails_with_the_revision_failure_as_cause() {
    let m = manifest(vec![remote("r", "u", None)], Some(default(Some("r"), None)));
    let p = project("p");
    let cause = p.find_revision(&m).unwrap_err();
    assert_eq!(cause, ResolveError::MissingRevision(text("p"), None));
    assert_eq!(
        p.find_dest_branch(&m),
        Err(ResolveError::MissingDestBranch(text("p"), Box::new(cause)))
    );
    let empty = manifest(vec![], None);
    assert_eq!(
        p.find_dest_branch(&empty),
        Err(ResolveError::MissingDestBranch(
            text("p"),
            Box::new(ResolveError::MissingRevision(
                text("p"),
                Some(Box::new(ResolveError::MissingRemote(text("p"))))
            ))
        ))
    );
}

#[test]
fn resolve_parent_reference_gives_the_remote_of_the_tree() {
    let m = manifest(vec![remote("aosp", "..", None)], Some(default(Some("aosp"), None)));
    let p = project("p");
    let empty = Config { remotes: vec![] };
    let (local, declared) = m.resolve_project_remote(&empty, &tree("origin"), &p).unwrap();
    assert_eq!(local, "origin");
    assert_eq!(declared.name, "aosp");
    let full = Config {
        remotes: vec![configured("trap", "..", None), configured("other", "https://host/repo", None)],
    };
    let (local, declared) = m.resolve_project_remote(&full, &tree("origin"), &p).unwrap();
    assert_eq!(local, "origin");
    assert_eq!(declared.fetch, "..");
}

#[test]
fn resolve_parent_reference_with_a_slash_is_an_ordinary_url() {
    let m = manifest(vec![remote("aosp", "../", None)], Some(default(Some("aosp"), None)));
    let p = project("p");
    let empty = Config { remotes: vec![] };
    assert_eq!(
        m.resolve_project_remote(&empty, &tree("origin"), &p),
        Err(ResolveError::UnresolvedRemoteUrl(text("..")))
    );
    let with_dots = Config { remotes: vec![configured("dots", "..", None)] };
    let (local, _) = m.resolve_project_remote(&with_dots, &tree("origin"), &p).unwrap();
    assert_eq!(local, "dots");
}

#[test]
fn resolve_matches_the_url_of_a_configured_remote() {
    let m = manifest(
        vec![remote("aosp", "ssh://git-repos.com/data/gitrepos", None)],
        Some(default(Some("aosp"), None)),
    );
    let config = Config {
        remotes: vec![
            configured("elsewhere", "ssh://git-repos.com/other", None),
            configured("mine", "ssh://git-repos.com/data/gitrepos", None),
        ],
    };
    let (local, declared) = m.resolve_project_remote(&config, &tree("origin"), &project("p")).unwrap();
    assert_eq!(local, "mine");
    assert_eq!(declared, m.remotes.get("aosp").unwrap());
}

#[test]
fn resolve_ignores_slashes_at_the_end_on_either_side() {
    let config = Config { remotes: vec![configured("mine", "https://host/repo", None)] };
    let with_slash = manifest(vec![remote("r", "https://host/repo/", None)], Some(default(Some("r"), None)));
    let (local, _) = with_slash.resolve_project_remote(&config, &tree("t"), &project("p")).unwrap();
    assert_eq!(local, "mine");
    let config_with_slashes = Config { remotes: vec![configured("mine", "https://host/repo///", None)] };
    let without = manifest(vec![remote("r", "https://host/repo", None)], Some(default(Some("r"), None)));
    let (local, _) =
        without.resolve_project_remote(&config_with_slashes, &tree("t"), &project("p")).unwrap();
    assert_eq!(local, "mine");
}

#[test]
fn resolve_does_not_fold_case() {
    let config = Config { remotes: vec![configured("mine", "https://HOST/repo", None)] };
    let m = manifest(vec![remote("r", "https://host/repo", None)], Some(default(Some("r"), None)));
    assert_eq!(
        m.resolve_project_remote(&config, &tree("t"), &project("p")),
        Err(ResolveError::UnresolvedRemoteUrl(text("https://host/repo")))
    );
}

#[test]
fn resolve_matches_one_of_the_other_urls() {
    let config = Config {
        remotes: vec![
            configured("first", "https://a", Some(vec![])),
            configured("second", "https://b", Some(vec!["https://c/", "https://host/repo/"])),
        ],
    };
    let m = manifest(vec![remote("r", "https://host/repo", None)], Some(default(Some("r"), None)));
    let (local, _) = m.resolve_project_remote(&config, &tree("t"), &project("p")).unwrap();
    assert_eq!(local, "second");
}

#[test]
fn resolve_takes_the_first_configured_remote_that_matches() {
    let config = Config {
        remotes: vec![
            configured("by-alias", "https://a", Some(vec!["https://host/repo"])),
            configured("by-url", "https://host/repo", None),
        ],
    };
    let m = manifest(vec![remote("r", "https://host/repo", None)], Some(default(Some("r"), None)));
    let (local, _) = m.resolve_project_remote(&config, &tree("t"), &project("p")).unwrap();
    assert_eq!(local, "by-alias");
}

#[test]
fn resolve_names_the_canonical_url_that_nothing_matches() {
    let config = Config { remotes: vec![configured("mine", "https://elsewhere", Some(vec!["https://too"]))] };
    let m = manifest(vec![remote("r", "https://host/repo//", None)], Some(default(Some("r"), None)));
    assert_eq!(
        m.resolve_project_remote(&config, &tree("t"), &project("p")),
        Err(ResolveError::UnresolvedRemoteUrl(text("https://host/repo")))
    );
    assert_eq!(
        m.resolve_project_remote(&Config { remotes: vec![] }, &tree("t"), &project("p")),
        Err(ResolveError::UnresolvedRemoteUrl(text("https://host/repo")))
    );
}

#[test]
fn resolve_fails_where_the_manifest_lacks_the_remote() {
    let m = manifest(vec![remote("r", "https://host/repo", None)], Some(default(Some("gone"), None)));
    let config = Config { remotes: vec![configured("mine", "https://host/repo", None)] };
    assert_eq!(
        m.resolve_project_remote(&config, &tree("t"), &project("p")),
        Err(ResolveError::UnknownRemoteReference(text("gone")))
    );
}

#[test]
fn resolve_fails_where_the_project_has_no_remote() {
    let m = manifest(vec![remote("r", "..", None)], None);
    let config = Config { remotes: vec![] };
    assert_eq!(
        m.resolve_project_remote(&config, &tree("t"), &project("p")),
        Err(ResolveError::MissingRemote(text("p")))
    );
}

#[test]
fn resolve_uses_the_remote_of_the_project_before_the_default() {
    let m = manifest(
        vec![remote("a", "https://a", None), remote("b", "https://b", None)],
        Some(default(Some("a"), None)),
    );
    let config = Config {
        remotes: vec![configured("local-a", "https://a", None), configured("local-b", "https://b", None)],
    };
    let p = Project { remote: Some(text("b")), ..project("p") };
    let (local, declared) = m.resolve_project_remote(&config, &tree("t"), &p).unwrap();
    assert_eq!(local, "local-b");
    assert_eq!(declared.name, "b");
}

#[test]
fn remote_config_serves_its_url_and_its_other_urls() {
    let r = configured("mine", "https://host/repo/", Some(vec!["ssh://host/repo", "git://host/repo//"]));
    assert!(r.serves("https://host/repo"));
    assert!(r.serves("ssh://host/repo"));
    assert!(r.serves("git://host/repo"));
    assert!(!r.serves("https://host/repo/"));
    assert!(!r.serves("https://host"));
    let bare = configured("bare", "", None);
    assert!(bare.serves(""));
    assert!(!bare.serves("/"));
}

#[test]
fn config_remote_for_finds_the_first_or_none() {
    let config = Config {
        remotes: vec![
            configured("one", "https://one", None),
            configured("two", "https://two", Some(vec!["https://one"])),
        ],
    };
    assert_eq!(config.remote_for("https://one"), Some(&text("one")));
    assert_eq!(config.remote_for("https://two"), Some(&text("two")));
    assert_eq!(config.remote_for("https://three"), None);
    assert_eq!(Config { remotes: vec![] }.remote_for("https://one"), None);
}
