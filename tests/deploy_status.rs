use std::collections::hash_map::DefaultHasher;
use std::collections::HashSet;
use std::hash::{Hash, Hasher};
use rrcm::deploy_status::{get_status, DeployStatus, DeployStatusKind, Probe};

fn conflict(cause: &str) -> DeployStatus {
    DeployStatus::Conflict {
        cause: cause.to_string(),
    }
}

#[test]
fn deploy_status_eq_ignores_cause() {
    assert!(DeployStatus::UnDeployed == DeployStatus::UnDeployed);
    assert!(DeployStatus::Deployed == DeployStatus::Deployed);
    assert!(DeployStatus::UnManaged == DeployStatus::UnManaged);
    assert!(conflict("cause") == conflict("cause"));
    assert!(conflict("cause1") == conflict("cause2"));
    assert!(DeployStatus::UnDeployed != DeployStatus::Deployed);
    assert!(DeployStatus::UnDeployed != DeployStatus::UnManaged);
    assert!(DeployStatus::UnDeployed != conflict("cause"));
    assert!(DeployStatus::Deployed != DeployStatus::UnManaged);
    assert!(DeployStatus::Deployed != conflict("cause"));
    assert!(DeployStatus::UnManaged != conflict("cause"));
}

#[test]
fn deploy_status_kind_groups_conflicts() {
    let kinds: HashSet<DeployStatusKind> = [conflict("a"), conflict("b"), DeployStatus::Deployed]
        .iter()
        .map(|s| s.kind())
        .collect();
    assert_eq!(kinds.len(), 2);
}

fn hash_of(s: &DeployStatus) -> u64 {
    let mut hasher = DefaultHasher::new();
    s.hash(&mut hasher);
    hasher.finish()
}

#[test]
fn deploy_status_hash_follows_kind() {
    let all = [
        DeployStatus::UnDeployed,
        DeployStatus::Deployed,
        DeployStatus::UnManaged,
        conflict("cause"),
    ];
    for a in all.iter() {
        for b in all.iter() {
            assert_eq!(hash_of(a) == hash_of(b), a.kind() == b.kind());
        }
    }
    assert_eq!(hash_of(&conflict("cause1")), hash_of(&conflict("cause2")));
    let set: HashSet<DeployStatus> = [conflict("a"), conflict("b"), DeployStatus::Deployed]
        .iter()
        .cloned()
        .collect();
    assert_eq!(set.len(), 2);
}

#[test]
fn deploy_status_display() {
    assert_eq!(DeployStatus::UnDeployed.to_string(), "UnDeployed");
    assert_eq!(DeployStatus::Deployed.to_string(), "Deployed");
    assert_eq!(DeployStatus::UnManaged.to_string(), "UnManaged");
    assert_eq!(conflict("cause").to_string(), "Conflict");
}

#[test]
fn classifier_covers_every_case() {
    let from = Some("/repo/home/.vimrc".to_string());
    let to = "/home/u/.vimrc";
    assert_eq!(
        get_status(&None, to, &Probe::Missing).kind(),
        DeployStatusKind::UnManaged
    );
    assert_eq!(
        get_status(&None, to, &Probe::Other).kind(),
        DeployStatusKind::UnManaged
    );
    assert_eq!(
        get_status(&from, to, &Probe::Missing).kind(),
        DeployStatusKind::UnDeployed
    );
    let linked = Probe::Symlink {
        target: "/repo/home/.vimrc".to_string(),
    };
    assert_eq!(
        get_status(&from, to, &linked).kind(),
        DeployStatusKind::Deployed
    );
    match get_status(&from, to, &Probe::Other) {
        DeployStatus::Conflict { cause } => {
            assert_eq!(cause, "Other file exists. /home/u/.vimrc")
        }
        other => panic!("unexpected {:?}", other),
    }
    let elsewhere = Probe::Symlink {
        target: "/elsewhere/.vimrc".to_string(),
    };
    match get_status(&from, to, &elsewhere) {
        DeployStatus::Conflict { cause } => {
            assert_eq!(cause, "Symlink to different path. /elsewhere/.vimrc")
        }
        other => panic!("unexpected {:?}", other),
    }
    // The same inputs give the same state.
    assert_eq!(
        get_status(&from, to, &elsewhere).kind(),
        get_status(&from, to, &elsewhere).kind()
    );
}
