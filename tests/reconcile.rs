use rrcm::deploy_status::{get_status, DeployStatus, DeployStatusKind, Probe};
use rrcm::reconcile::{
    deploy_decision, plan_deploy, plan_undeploy, summarize, undeploy_decision, DeployAction,
    DeployEntry, EntryError, UndeployAction,
};

fn entry(status: DeployStatus) -> DeployEntry {
    DeployEntry {
        status,
        from: "/repo/home/.test.cfg".to_string(),
        to: "/home/u/.test.cfg".to_string(),
    }
}

/// The probe that a deploy action leaves behind, as the filesystem would show it.
fn linked(from: &str) -> Probe {
    Probe::Symlink {
        target: from.to_string(),
    }
}

#[test]
fn scenario_deploy_then_undeploy() {
    let from = "/repo/home/.test.cfg";
    let to = "/home/u/.test.cfg";
    let src = Some(from.to_string());

    let before = get_status(&src, to, &Probe::Missing);
    assert_eq!(before.kind(), DeployStatusKind::UnDeployed);
    assert_eq!(
        deploy_decision(&entry(before), false).unwrap(),
        DeployAction::Link
    );

    let deployed = get_status(&src, to, &linked(from));
    assert_eq!(deployed.kind(), DeployStatusKind::Deployed);
    assert_eq!(
        undeploy_decision(&entry(deployed)).unwrap(),
        UndeployAction::Unlink
    );

    let after = get_status(&src, to, &Probe::Missing);
    assert_eq!(after.kind(), DeployStatusKind::UnDeployed);
}

#[test]
fn deploy_twice_is_a_no_op() {
    let from = "/repo/home/.test.cfg";
    let src = Some(from.to_string());
    let first = deploy_decision(&entry(get_status(&src, "/h/x", &Probe::Missing)), false);
    assert_eq!(first.unwrap(), DeployAction::Link);
    let second = deploy_decision(&entry(get_status(&src, "/h/x", &linked(from))), false);
    assert_eq!(second.unwrap(), DeployAction::Keep);
}

#[test]
fn round_trip_restores_links() {
    let from = "/repo/home/.test.cfg";
    let src = Some(from.to_string());
    let deployed = get_status(&src, "/h/x", &linked(from));
    assert_eq!(
        undeploy_decision(&entry(deployed)).unwrap(),
        UndeployAction::Unlink
    );
    let again = deploy_decision(&entry(get_status(&src, "/h/x", &Probe::Missing)), false);
    assert_eq!(again.unwrap(), DeployAction::Link);
}

#[test]
fn force_resolves_conflict() {
    let from = "/repo/home/.test.cfg";
    let src = Some(from.to_string());
    let status = get_status(&src, "/home/u/.test.cfg", &Probe::Other);
    assert_eq!(status.kind(), DeployStatusKind::Conflict);
    match deploy_decision(&entry(status.clone()), false) {
        Err(EntryError::Conflict { from, to, cause }) => {
            assert_eq!(from, "/repo/home/.test.cfg");
            assert_eq!(to, "/home/u/.test.cfg");
            assert_eq!(cause, "Other file exists. /home/u/.test.cfg");
        }
        other => panic!("unexpected {:?}", other),
    }
    assert_eq!(
        deploy_decision(&entry(status), true).unwrap(),
        DeployAction::Replace
    );
    let after = get_status(&src, "/home/u/.test.cfg", &linked(from));
    assert_eq!(after.kind(), DeployStatusKind::Deployed);
}

#[test]
fn unmanaged_is_refused() {
    match deploy_decision(&entry(DeployStatus::UnManaged), true) {
        Err(EntryError::UnManaged { to }) => assert_eq!(to, "/home/u/.test.cfg"),
        other => panic!("unexpected {:?}", other),
    }
    let e = undeploy_decision(&entry(DeployStatus::UnManaged)).unwrap_err();
    assert!(e.is_refusal());
}

#[test]
fn undeploy_leaves_conflicts() {
    let status = DeployStatus::Conflict {
        cause: "Other file exists. /x".to_string(),
    };
    assert_eq!(
        undeploy_decision(&entry(status)).unwrap(),
        UndeployAction::Keep
    );
    assert_eq!(
        undeploy_decision(&entry(DeployStatus::UnDeployed)).unwrap(),
        UndeployAction::Keep
    );
}

#[test]
fn plans_decide_each_entry() {
    let entries = vec![
        entry(DeployStatus::UnDeployed),
        entry(DeployStatus::Deployed),
        entry(DeployStatus::Conflict {
            cause: "c".to_string(),
        }),
        entry(DeployStatus::UnManaged),
    ];
    let plan = plan_deploy(&entries, false);
    assert_eq!(plan.len(), 4);
    assert_eq!(*plan[0].as_ref().unwrap(), DeployAction::Link);
    assert_eq!(*plan[1].as_ref().unwrap(), DeployAction::Keep);
    assert!(plan[2].is_err());
    assert!(plan[3].is_err());
    let forced = plan_deploy(&entries, true);
    assert_eq!(*forced[2].as_ref().unwrap(), DeployAction::Replace);
    let undo = plan_undeploy(&entries);
    assert_eq!(*undo[0].as_ref().unwrap(), UndeployAction::Keep);
    assert_eq!(*undo[1].as_ref().unwrap(), UndeployAction::Unlink);
    assert_eq!(*undo[2].as_ref().unwrap(), UndeployAction::Keep);
    assert!(undo[3].is_err());
}

#[test]
fn summary_partitions_outcomes() {
    let outcomes = vec![
        Ok(()),
        Err(EntryError::UnManaged {
            to: "/a".to_string(),
        }),
        Ok(()),
        Err(EntryError::Io {
            path: "/b".to_string(),
            message: "denied".to_string(),
        }),
        Ok(()),
    ];
    let report = summarize(outcomes);
    assert_eq!(report.succeeded, 3);
    assert_eq!(report.failures.len(), 2);
    assert!(report.failures[0].is_refusal());
    assert!(!report.failures[1].is_refusal());
}
