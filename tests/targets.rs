use rrcm::path::Platform;
use rrcm::targets::{
    entry_paths, git_args, join_path, select_deploy_paths, DeployPath, DeployTarget,
};
use rrcm::path::{PathError, PathErrorKind};

#[test]
fn join_adds_one_separator() {
    assert_eq!(join_path(Platform::Linux, "/a", "b"), "/a/b");
    assert_eq!(join_path(Platform::Linux, "/a/", "b"), "/a/b");
    assert_eq!(join_path(Platform::Linux, "", "b"), "b");
    assert_eq!(join_path(Platform::Windows, "C:\\a", "b"), "C:\\a\\b");
}

#[test]
fn entries_pair_source_and_destination() {
    let dp = DeployPath {
        from: "/d/repo/home".to_string(),
        to: "/home/u".to_string(),
    };
    let names = vec![".vimrc".to_string(), ".profile".to_string()];
    let pairs = entry_paths(Platform::Linux, &dp, &names);
    assert_eq!(
        pairs,
        vec![
            ("/d/repo/home/.vimrc".to_string(), "/home/u/.vimrc".to_string()),
            (
                "/d/repo/home/.profile".to_string(),
                "/home/u/.profile".to_string()
            ),
        ]
    );
}

#[test]
fn missing_sources_and_failed_destinations_are_skipped() {
    let targets = vec![
        DeployTarget {
            from: "/d/r/home".to_string(),
            to: Ok("/home/u".to_string()),
        },
        DeployTarget {
            from: "/d/r/config".to_string(),
            to: Ok("/home/u/.config".to_string()),
        },
        DeployTarget {
            from: "/d/r/local".to_string(),
            to: Err(PathError {
                kind: PathErrorKind::UndefinedEnvironmentVariable,
                template: "${NOPE}".to_string(),
                name: "NOPE".to_string(),
            }),
        },
    ];
    let paths = select_deploy_paths(&targets, &vec![true, false, true]);
    assert_eq!(paths.len(), 1);
    assert_eq!(paths[0].from, "/d/r/home");
    assert_eq!(paths[0].to, "/home/u");
}

#[test]
fn git_args_pull_or_clone() {
    assert_eq!(git_args(true, "https://x/r.git", "/d/r", false, true), vec!["pull"]);
    assert_eq!(git_args(true, "https://x/r.git", "/d/r", true, false), vec!["pull", "-q"]);
    assert_eq!(
        git_args(false, "https://x/r.git", "/d/r", false, false),
        vec!["clone", "https://x/r.git", "/d/r"]
    );
    assert_eq!(
        git_args(false, "https://x/r.git", "/d/r", true, true),
        vec!["clone", "https://x/r.git", "/d/r", "-v", "-q"]
    );
}
