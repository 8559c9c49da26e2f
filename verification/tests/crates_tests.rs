use rustwide::cmd::Binary;
use rustwide::crates::local::copy_plan;
use rustwide::crates::local::CopyAction;
use rustwide::crates::local::WalkEntry;
use rustwide::crates::registry::unpack_dest;
use rustwide::crates::registry::AlternativeRegistry;
use rustwide::crates::registry::Registry;
use rustwide::crates::registry::RegistryCrate;
use rustwide::crates::Crate;
use rustwide::crates::FetchPlan;
use rustwide::crates::GitRepo;
use rustwide::crates::PurgePlan;
use rustwide::crates::git::fetch_outcome;
use rustwide::crates::git::is_private_repo_diag;
use rustwide::prepare::PrepareError;
use rustwide::workspace::Workspace;

fn workspace() -> Workspace {
    Workspace {
        root: "/work".to_string(),
        user_agent: "rustwide-tests".to_string(),
        default_command_timeout: None,
        default_no_output_timeout: None,
        sandbox_image_name: "build-image".to_string(),
        rustup_profile: "minimal".to_string(),
        fetch_registry_index_during_builds: false,
        current_container_mounts: None,
    }
}

#[test]
fn registry_cache_archive_layout() {
    // The archive is named exactly `<crate>-<version>.crate` and lives
    // under `<registry-key>-sources/<crate>/`.
    let ws = workspace();
    let krate = Crate::crates_io("lazy_static", "1.4.0");
    assert_eq!(
        krate.purge_from_cache(&ws),
        PurgePlan::RemoveFile(
            "/work/cache/cratesio-sources/lazy_static/lazy_static-1.4.0.crate".to_string()
        )
    );

    let alt = AlternativeRegistry::new("https://git.example.net/index");
    let krate = Crate::registry(alt, "foo", "0.4.0");
    assert_eq!(
        krate.purge_from_cache(&ws),
        PurgePlan::RemoveFile(
            "/work/cache/https%3A%2F%2Fgit.example.net%2Findex-sources/foo/foo-0.4.0.crate"
                .to_string()
        )
    );
}

#[test]
fn crates_io_download_url() {
    let k = RegistryCrate::new(Registry::CratesIo, "foo", "0.4.0", None);
    assert_eq!(
        k.fetch_url(None).unwrap(),
        "https://static.crates.io/crates/foo/foo-0.4.0.crate"
    );
}

#[test]
fn alternative_registry_template_url() {
    let alt = Registry::Alternative(AlternativeRegistry::new("https://git.example.net/index"));
    let k = RegistryCrate::new(alt, "foo", "0.4.0", None);
    let config = r#"{"dl": "https://dl.example.net/api/{crate}/{version}"}"#.to_string();
    assert_eq!(
        k.fetch_url(Some(&config)).unwrap(),
        "https://dl.example.net/api/foo/0.4.0"
    );
}

#[test]
fn alternative_registry_legacy_url() {
    let alt = Registry::Alternative(AlternativeRegistry::new("https://git.example.net/index"));
    let k = RegistryCrate::new(alt, "foo", "0.4.0", None);
    let config = r#"{"dl": "https://dl.example.net/api"}"#.to_string();
    assert_eq!(
        k.fetch_url(Some(&config)).unwrap(),
        "https://dl.example.net/api/foo/0.4.0/download"
    );
}

#[test]
fn alternative_registry_invalid_config() {
    let alt = Registry::Alternative(AlternativeRegistry::new("https://git.example.net/index"));
    let k = RegistryCrate::new(alt, "foo", "0.4.0", None);
    let config = "not json at all".to_string();
    assert!(k.fetch_url(Some(&config)).is_err());
}

#[test]
fn cached_registry_crate_fetches_nothing() {
    let ws = workspace();
    let krate = Crate::crates_io("foo", "0.4.0");
    match krate.fetch(&ws, true, None).unwrap() {
        FetchPlan::Nothing => {}
        _ => panic!("a cached crate must not be fetched again"),
    }
    match krate.fetch(&ws, false, None).unwrap() {
        FetchPlan::Download { url, dest } => {
            assert_eq!(url, "https://static.crates.io/crates/foo/foo-0.4.0.crate");
            assert_eq!(dest, "/work/cache/cratesio-sources/foo/foo-0.4.0.crate");
        }
        _ => panic!("an uncached crate must be downloaded"),
    }
}

#[test]
fn git_fetch_commands() {
    let ws = workspace();
    let repo = GitRepo::new("https://github.com/rust-lang/rust");
    let cached = "/work/cache/git-repos/https%3A%2F%2Fgithub.com%2Frust-lang%2Frust";
    assert_eq!(repo.cached_path(&ws), cached);

    let suppress = vec![
        "-c".to_string(),
        "credential.helper=".to_string(),
        "-c".to_string(),
        "credential.helper=/work/cargo-home/bin/git-credential-null".to_string(),
    ];
    assert_eq!(repo.suppress_password_prompt_args(&ws), suppress);

    let clone = repo.fetch(&ws, false);
    assert_eq!(clone.binary, Binary::Global("git".to_string()));
    let mut expected = suppress.clone();
    expected.extend(
        ["clone", "--bare", "https://github.com/rust-lang/rust", cached]
            .iter()
            .map(|s| s.to_string()),
    );
    assert_eq!(clone.args, expected);

    let update = repo.fetch(&ws, true);
    let mut expected = suppress;
    expected.extend(
        [
            "-c",
            "remote.origin.fetch=refs/heads/*:refs/heads/*",
            "fetch",
            "origin",
            "--force",
            "--prune",
        ]
        .iter()
        .map(|s| s.to_string()),
    );
    assert_eq!(update.args, expected);
    assert_eq!(update.cd.as_deref(), Some(cached));
}

#[test]
fn private_repository_is_classified_without_prompting() {
    // The credential helper refuses instead of prompting, and the refusal
    // classifies the failed fetch.
    let line = "fatal: credential helper '/x/git-credential-null' told us to quit";
    assert!(is_private_repo_diag(line));
    assert!(!is_private_repo_diag("fatal: repository not found"));
    assert_eq!(
        fetch_outcome(true, true),
        Err(Some(PrepareError::PrivateGitRepository))
    );
    assert_eq!(fetch_outcome(true, false), Err(None));
    assert_eq!(fetch_outcome(false, false), Ok(()));
}

#[test]
fn git_commit_reads_the_first_line() {
    let repo = Crate::git("https://example.com/repo");
    let sha = "0123456789abcdef0123456789abcdef01234567";
    assert_eq!(repo.git_commit(&vec![sha.to_string()]), Some(sha.to_string()));
    assert_eq!(repo.git_commit(&Vec::new()), None);
    assert_eq!(repo.git_commit(&vec![String::new()]), None);
    let local = Crate::local("/src");
    assert_eq!(local.git_commit(&vec![sha.to_string()]), None);
}

#[test]
fn test_copy_dir() {
    let entries = vec![
        WalkEntry { rel_path: "dir".to_string(), is_dir: true },
        WalkEntry { rel_path: "foo".to_string(), is_dir: false },
        WalkEntry { rel_path: "dir/bar".to_string(), is_dir: false },
    ];
    let plan = copy_plan(&entries);
    assert_eq!(
        plan,
        vec![
            CopyAction::CreateDir("dir".to_string()),
            CopyAction::CopyFile("foo".to_string()),
            CopyAction::CopyFile("dir/bar".to_string()),
        ]
    );
}

#[test]
fn test_no_copy_target() {
    let entries = vec![
        WalkEntry { rel_path: "target".to_string(), is_dir: true },
        WalkEntry { rel_path: "target/a.out".to_string(), is_dir: false },
        WalkEntry { rel_path: "src".to_string(), is_dir: true },
        WalkEntry { rel_path: "src/main.rs".to_string(), is_dir: false },
        WalkEntry { rel_path: "targeted".to_string(), is_dir: false },
    ];
    let plan = copy_plan(&entries);
    assert_eq!(
        plan,
        vec![
            CopyAction::CreateDir("src".to_string()),
            CopyAction::CopyFile("src/main.rs".to_string()),
            CopyAction::CopyFile("targeted".to_string()),
        ]
    );
}

#[test]
fn unpack_strips_the_first_component() {
    assert_eq!(unpack_dest("/dest", "foo-1.0.0/src/lib.rs"), "/dest/src/lib.rs");
    assert_eq!(unpack_dest("/dest", "foo-1.0.0/Cargo.toml"), "/dest/Cargo.toml");
    assert_eq!(unpack_dest("/dest", "foo-1.0.0"), "/dest");
    assert_eq!(unpack_dest("/dest", "foo-1.0.0/"), "/dest");
}

#[test]
fn download_error_names_the_crate() {
    let k = RegistryCrate::new(Registry::CratesIo, "foo", "0.4.0", None);
    assert_eq!(k.download_error_message(), "unable to download foo version 0.4.0");
}
