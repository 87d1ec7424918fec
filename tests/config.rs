use indexmap::IndexMap;
use rrcm::config::{AppConfig, OsPath, Repository};
use rrcm::path::{BaseDirs, Environment, PathErrorKind, Platform};

fn no_base_dirs() -> BaseDirs {
    BaseDirs {
        config_home: None,
        data_home: None,
        cache_home: None,
        state_home: None,
        runtime_dir: None,
        roaming_app_data: None,
        local_app_data: None,
        documents: None,
        desktop: None,
        profile: None,
    }
}

fn env_of(platform: Platform, vars: &[(&str, &str)]) -> Environment {
    Environment {
        platform,
        vars: vars
            .iter()
            .map(|(k, v)| (k.to_string(), v.to_string()))
            .collect(),
        base_dirs: no_base_dirs(),
    }
}

#[test]
fn test_app_config() {
    let config = AppConfig::default();
    assert_eq!(
        config.dotfiles.windows,
        Some("%USERPROFILE%\\dotfiles".to_string())
    );
    assert_eq!(config.dotfiles.mac, Some("${HOME}/.dotfiles".to_string()));
    assert_eq!(config.dotfiles.linux, Some("${HOME}/.dotfiles".to_string()));
    assert_eq!(config.repos.len(), 0);
}

#[test]
fn test_os_path() {
    let os_path = OsPath {
        windows: Some("%USERPROFILE%\\dotfiles".to_string()),
        mac: Some("${HOME}/.dotfiles".to_string()),
        linux: Some("${HOME}/.dotfiles".to_string()),
    };
    let linux = env_of(Platform::Linux, &[("HOME", "/home/user")]);
    assert_eq!(os_path.to_pathbuf(&linux).unwrap(), "/home/user/.dotfiles");
    let mac = env_of(Platform::Mac, &[("HOME", "/Users/user")]);
    assert_eq!(os_path.to_pathbuf(&mac).unwrap(), "/Users/user/.dotfiles");
    let windows = env_of(Platform::Windows, &[("USERPROFILE", "C:\\Users\\user")]);
    assert_eq!(
        os_path.to_pathbuf(&windows).unwrap(),
        "C:\\Users\\user\\dotfiles"
    );
}

#[test]
fn os_path_without_variant_for_platform() {
    let os_path = OsPath {
        windows: Some("%USERPROFILE%".to_string()),
        mac: None,
        linux: Some("${HOME}".to_string()),
    };
    let mac = env_of(Platform::Mac, &[("HOME", "/Users/user")]);
    let err = os_path.to_pathbuf(&mac).unwrap_err();
    assert_eq!(err.kind, PathErrorKind::PathNotDefined);
}

#[test]
fn app_config_resolves_dotfiles() {
    let config = AppConfig::default();
    let linux = env_of(Platform::Linux, &[("HOME", "/root")]);
    assert_eq!(config.to_pathbuf(&linux).unwrap(), "/root/.dotfiles");
    let bare = env_of(Platform::Linux, &[]);
    let err = config.to_pathbuf(&bare).unwrap_err();
    assert_eq!(err.kind, PathErrorKind::UndefinedEnvironmentVariable);
    assert_eq!(err.name, "HOME");
    assert_eq!(err.template, "${HOME}/.dotfiles");
}

#[test]
fn repository_mapping_keeps_order() {
    let mut deploy = IndexMap::new();
    deploy.insert(
        "home".to_string(),
        OsPath {
            windows: None,
            mac: None,
            linux: Some("${HOME}".to_string()),
        },
    );
    deploy.insert(
        "config".to_string(),
        OsPath {
            windows: None,
            mac: None,
            linux: Some("${HOME}/.config".to_string()),
        },
    );
    let repo = Repository {
        name: "dots".to_string(),
        url: "https://example.com/dots.git".to_string(),
        deploy,
    };
    let env = env_of(Platform::Linux, &[("HOME", "/home/u")]);
    let targets = rrcm::targets::create_deploy_path("/d/dots", &repo, &env);
    assert_eq!(targets.len(), 2);
    assert_eq!(targets[0].from, "/d/dots/home");
    assert_eq!(targets[0].to.as_ref().unwrap(), "/home/u");
    assert_eq!(targets[1].from, "/d/dots/config");
    assert_eq!(targets[1].to.as_ref().unwrap(), "/home/u/.config");
}

fn repo(name: &str) -> Repository {
    Repository {
        name: name.to_string(),
        url: format!("https://example.com/{}.git", name),
        deploy: IndexMap::new(),
    }
}

#[test]
fn repositories_selected_by_name() {
    let mut config = AppConfig::default();
    config.repos = vec![repo("a"), repo("b"), repo("a")];
    assert_eq!(config.selected_repos(&None), vec![0, 1, 2]);
    assert_eq!(config.selected_repos(&Some("a".to_string())), vec![0, 2]);
    assert_eq!(config.selected_repos(&Some("b".to_string())), vec![1]);
    assert!(config.selected_repos(&Some("c".to_string())).is_empty());
}
