//! The decisions of deploy and undeploy, entry by entry.
//!
//! An entry is a source path and a destination path. Deploy brings the
//! destination to a symbolic link to the source; undeploy removes such a link.
//! Each entry is decided on its own, so that one failure leaves the others to
//! be carried out, and the failures of a batch are collected at its end.
use crate::deploy_status::{conflict_cause, status_kind, DeployStatus, DeployStatusKind, Dest};
use vstd::prelude::*;

verus! {

/// One entry of a deploy target: its status and its two paths.
#[derive(Clone, Debug)]
pub struct DeployEntry {
    pub status: DeployStatus,
    pub from: String,
    pub to: String,
}

/// What deploy does with an entry.
#[derive(Clone, Copy, Debug, PartialEq, Eq, Structural)]
pub enum DeployAction {
    /// Create the link `to -> from`.
    Link,
    /// Remove what stands at `to` (to the trash where there is one), then
    /// create the link.
    Replace,
    /// The entry is deployed already.
    Keep,
}

/// What undeploy does with an entry.
#[derive(Clone, Copy, Debug, PartialEq, Eq, Structural)]
pub enum UndeployAction {
    /// Remove the link at `to`.
    Unlink,
    /// Leave the entry as it is.
    Keep,
}

/// Why a policy refuses an entry.
#[derive(Clone, Copy, Debug, PartialEq, Eq, Structural)]
pub enum Refusal {
    /// Something else stands at the destination and force was not asked for.
    Conflict,
    /// The destination has no managed source.
    UnManaged,
}

/// Why an entry was not brought to the state asked for.
#[derive(Clone, Debug)]
pub enum EntryError {
    /// A conflict at the destination, without force.
    Conflict { from: String, to: String, cause: String },
    /// The destination has no managed source.
    UnManaged { to: String },
    /// A filesystem operation on `path` failed.
    Io { path: String, message: String },
}

impl EntryError {
    /// The refusal that this error reports; `None` for a filesystem failure.
    pub open spec fn refusal(&self) -> Option<Refusal> {
        match self {
            EntryError::Conflict { .. } => Some(Refusal::Conflict),
            EntryError::UnManaged { .. } => Some(Refusal::UnManaged),
            EntryError::Io { .. } => None,
        }
    }

    /// Whether this error is a refusal of policy, as against a failure of the
    /// filesystem.
    pub fn is_refusal(&self) -> (r: bool)
        ensures
            r == self.refusal() is Some,
    {
        match self {
            EntryError::Io { .. } => false,
            _ => true,
        }
    }
}

/// What deploy does with an entry of status kind `k`.
pub open spec fn deploy_decision_spec(k: DeployStatusKind, force: bool) -> Result<
    DeployAction,
    Refusal,
> {
    match k {
        DeployStatusKind::UnDeployed => Ok(DeployAction::Link),
        DeployStatusKind::Deployed => Ok(DeployAction::Keep),
        DeployStatusKind::Conflict => if force {
            Ok(DeployAction::Replace)
        } else {
            Err(Refusal::Conflict)
        },
        DeployStatusKind::UnManaged => Err(Refusal::UnManaged),
    }
}

/// What undeploy does with an entry of status kind `k`: conflicting content
/// is never touched.
pub open spec fn undeploy_decision_spec(k: DeployStatusKind) -> Result<UndeployAction, Refusal> {
    match k {
        DeployStatusKind::Deployed => Ok(UndeployAction::Unlink),
        DeployStatusKind::UnDeployed => Ok(UndeployAction::Keep),
        DeployStatusKind::Conflict => Ok(UndeployAction::Keep),
        DeployStatusKind::UnManaged => Err(Refusal::UnManaged),
    }
}

/// `e` is the error that refusal `r` of `entry` is reported with.
pub open spec fn reports(e: EntryError, r: Refusal, entry: DeployEntry) -> bool {
    &&& e.refusal() == Some(r)
    &&& match e {
        EntryError::Conflict { from, to, cause } => {
            &&& from@ == entry.from@
            &&& to@ == entry.to@
            &&& entry.status matches DeployStatus::Conflict { cause: c } && cause@ == c@
        },
        EntryError::UnManaged { to } => to@ == entry.to@,
        EntryError::Io { .. } => false,
    }
}

/// `r` is decision `d` on `entry`.
pub open spec fn decided<A>(r: Result<A, EntryError>, d: Result<A, Refusal>, entry: DeployEntry) -> bool {
    match (r, d) {
        (Ok(a), Ok(b)) => a == b,
        (Err(e), Err(x)) => reports(e, x, entry),
        _ => false,
    }
}

fn refuse(entry: &DeployEntry, r: Refusal) -> (e: EntryError)
    requires
        r == Refusal::Conflict ==> entry.status is Conflict,
    ensures
        reports(e, r, *entry),
{
    match r {
        Refusal::Conflict => match &entry.status {
            DeployStatus::Conflict { cause } => EntryError::Conflict {
                from: entry.from.clone(),
                to: entry.to.clone(),
                cause: cause.clone(),
            },
            _ => EntryError::UnManaged { to: entry.to.clone() },
        },
        Refusal::UnManaged => EntryError::UnManaged { to: entry.to.clone() },
    }
}

/// What deploy does with `entry`; with `force`, a conflicting destination is
/// replaced.
pub fn deploy_decision(entry: &DeployEntry, force: bool) -> (r: Result<DeployAction, EntryError>)
    ensures
        decided(r, deploy_decision_spec(entry.status.kind_spec(), force), *entry),
{
    match entry.status.kind() {
        DeployStatusKind::UnDeployed => Ok(DeployAction::Link),
        DeployStatusKind::Deployed => Ok(DeployAction::Keep),
        DeployStatusKind::Conflict => {
            if force {
                Ok(DeployAction::Replace)
            } else {
                Err(refuse(entry, Refusal::Conflict))
            }
        },
        DeployStatusKind::UnManaged => Err(refuse(entry, Refusal::UnManaged)),
    }
}

/// What undeploy does with `entry`.
pub fn undeploy_decision(entry: &DeployEntry) -> (r: Result<UndeployAction, EntryError>)
    ensures
        decided(r, undeploy_decision_spec(entry.status.kind_spec()), *entry),
{
    match entry.status.kind() {
        DeployStatusKind::Deployed => Ok(UndeployAction::Unlink),
        DeployStatusKind::UnDeployed => Ok(UndeployAction::Keep),
        DeployStatusKind::Conflict => Ok(UndeployAction::Keep),
        DeployStatusKind::UnManaged => Err(refuse(entry, Refusal::UnManaged)),
    }
}

/// The deploy decision on each of `entries`, in order.
pub fn plan_deploy(entries: &Vec<DeployEntry>, force: bool) -> (r: Vec<Result<DeployAction, EntryError>>)
    ensures
        r@.len() == entries@.len(),
        forall|i: int|
            0 <= i < entries@.len() ==> decided(
                #[trigger] r@[i],
                deploy_decision_spec(entries@[i].status.kind_spec(), force),
                entries@[i],
            ),
{
    let mut r: Vec<Result<DeployAction, EntryError>> = Vec::new();
    let mut i: usize = 0;
    while i < entries.len()
        invariant
            i <= entries@.len(),
            r@.len() == i,
            forall|j: int|
                0 <= j < i ==> decided(
                    #[trigger] r@[j],
                    deploy_decision_spec(entries@[j].status.kind_spec(), force),
                    entries@[j],
                ),
        decreases entries@.len() - i,
    {
        r.push(deploy_decision(&entries[i], force));
        i = i + 1;
    }
    r
}

/// The undeploy decision on each of `entries`, in order.
pub fn plan_undeploy(entries: &Vec<DeployEntry>) -> (r: Vec<Result<UndeployAction, EntryError>>)
    ensures
        r@.len() == entries@.len(),
        forall|i: int|
            0 <= i < entries@.len() ==> decided(
                #[trigger] r@[i],
                undeploy_decision_spec(entries@[i].status.kind_spec()),
                entries@[i],
            ),
{
    let mut r: Vec<Result<UndeployAction, EntryError>> = Vec::new();
    let mut i: usize = 0;
    while i < entries.len()
        invariant
            i <= entries@.len(),
            r@.len() == i,
            forall|j: int|
                0 <= j < i ==> decided(
                    #[trigger] r@[j],
                    undeploy_decision_spec(entries@[j].status.kind_spec()),
                    entries@[j],
                ),
        decreases entries@.len() - i,
    {
        r.push(undeploy_decision(&entries[i]));
        i = i + 1;
    }
    r
}

/// The errors among `outcomes`, in order.
pub open spec fn failures_of(outcomes: Seq<Result<(), EntryError>>) -> Seq<EntryError>
    decreases outcomes.len(),
{
    if outcomes.len() == 0 {
        Seq::empty()
    } else {
        let init = failures_of(outcomes.drop_last());
        match outcomes.last() {
            Ok(_) => init,
            Err(e) => init.push(e),
        }
    }
}

/// The outcome of a batch: how many entries succeeded, and the failures of
/// the others in order.
#[derive(Clone, Debug)]
pub struct BatchReport {
    pub succeeded: usize,
    pub failures: Vec<EntryError>,
}

/// Partitions the outcomes of a batch into the count of successes and the
/// failures.
pub fn summarize(outcomes: Vec<Result<(), EntryError>>) -> (r: BatchReport)
    ensures
        r.failures@ == failures_of(outcomes@),
        r.succeeded + r.failures@.len() == outcomes@.len(),
{
    let ghost all = outcomes@;
    let mut rest = outcomes;
    let mut failures: Vec<EntryError> = Vec::new();
    let mut succeeded: usize = 0;
    let mut k: usize = 0;
    let n = rest.len();
    assert(all.take(0) =~= Seq::<Result<(), EntryError>>::empty());
    while rest.len() > 0
        invariant
            k <= all.len(),
            all.len() == n,
            rest@ == all.skip(k as int),
            failures@ == failures_of(all.take(k as int)),
            succeeded + failures@.len() == k,
        decreases rest@.len(),
    {
        let o = rest.remove(0);
        assert(all.take(k + 1).drop_last() =~= all.take(k as int));
        assert(all.skip(k as int).drop_first() =~= all.skip(k + 1));
        match o {
            Ok(_) => {
                succeeded = succeeded + 1;
            },
            Err(e) => {
                failures.push(e);
            },
        }
        k = k + 1;
    }
    assert(all.take(k as int) =~= all);
    BatchReport { succeeded, failures }
}

/// What stands at the destination of an entry with source `from` after deploy,
/// where `d` stood before.
pub open spec fn after_deploy(from: Option<Seq<char>>, d: Dest, force: bool) -> Dest {
    match (from, deploy_decision_spec(status_kind(from, d), force)) {
        (Some(f), Ok(DeployAction::Link)) => Dest::LinkTo(f),
        (Some(f), Ok(DeployAction::Replace)) => Dest::LinkTo(f),
        _ => d,
    }
}

/// What stands at the destination of an entry with source `from` after
/// undeploy, where `d` stood before.
pub open spec fn after_undeploy(from: Option<Seq<char>>, d: Dest) -> Dest {
    match undeploy_decision_spec(status_kind(from, d)) {
        Ok(UndeployAction::Unlink) => Dest::Missing,
        _ => d,
    }
}

/// Deploying twice leaves what deploying once left. The second run finds
/// deployed every entry that the first run did not refuse, and it refuses
/// exactly what the first one refused.
pub proof fn lemma_deploy_idempotent(from: Option<Seq<char>>, d: Dest, force: bool)
    ensures
        after_deploy(from, after_deploy(from, d, force), force) == after_deploy(from, d, force),
        deploy_decision_spec(status_kind(from, d), force) is Ok ==> {
            &&& status_kind(from, after_deploy(from, d, force)) == DeployStatusKind::Deployed
            &&& deploy_decision_spec(status_kind(from, after_deploy(from, d, force)), force) == Ok::<
                DeployAction,
                Refusal,
            >(DeployAction::Keep)
        },
        deploy_decision_spec(status_kind(from, d), force) is Err ==> deploy_decision_spec(
            status_kind(from, after_deploy(from, d, force)),
            force,
        ) == deploy_decision_spec(status_kind(from, d), force),
{
}

/// A tree of deploy entries: for each, its source made absolute (`None`
/// where it does not exist) and what stands at its destination.
pub type Tree = Seq<(Option<Seq<char>>, Dest)>;

/// The tree after deploy.
pub open spec fn deploy_tree(t: Tree, force: bool) -> Tree {
    t.map_values(|e: (Option<Seq<char>>, Dest)| (e.0, after_deploy(e.0, e.1, force)))
}

/// The tree after undeploy.
pub open spec fn undeploy_tree(t: Tree) -> Tree {
    t.map_values(|e: (Option<Seq<char>>, Dest)| (e.0, after_undeploy(e.0, e.1)))
}

/// Deploying a tree twice leaves it as deploying it once did.
pub proof fn lemma_deploy_tree_idempotent(t: Tree, force: bool)
    ensures
        deploy_tree(deploy_tree(t, force), force) == deploy_tree(t, force),
{
    assert forall|i: int| 0 <= i < t.len() implies #[trigger] deploy_tree(
        deploy_tree(t, force),
        force,
    )[i] == deploy_tree(t, force)[i] by {
        lemma_deploy_idempotent(t[i].0, t[i].1, force);
    }
    assert(deploy_tree(deploy_tree(t, force), force) =~= deploy_tree(t, force));
}

/// Deploy, then undeploy, then deploy again restores the links that the
/// first deploy made, across the whole tree.
pub proof fn lemma_deploy_tree_round_trip(t: Tree, force: bool)
    ensures
        deploy_tree(undeploy_tree(deploy_tree(t, force)), force) == deploy_tree(t, force),
{
    assert forall|i: int| 0 <= i < t.len() implies #[trigger] deploy_tree(
        undeploy_tree(deploy_tree(t, force)),
        force,
    )[i] == deploy_tree(t, force)[i] by {
        lemma_deploy_undeploy_round_trip(t[i].0, t[i].1, force);
    }
    assert(deploy_tree(undeploy_tree(deploy_tree(t, force)), force) =~= deploy_tree(t, force));
}

/// Deploy, then undeploy, then deploy again leaves at the destination what the
/// first deploy left.
pub proof fn lemma_deploy_undeploy_round_trip(from: Option<Seq<char>>, d: Dest, force: bool)
    ensures
        after_deploy(from, after_undeploy(from, after_deploy(from, d, force)), force)
            == after_deploy(from, d, force),
{
}

/// The classification is total and decided by the inputs alone: a missing
/// source gives `UnManaged` whatever the destination holds; otherwise a missing
/// destination gives `UnDeployed`, a link to the source `Deployed`, and a file
/// or a link elsewhere `Conflict`, each with its own cause.
pub proof fn lemma_status_cases(from: Option<Seq<char>>, to: Seq<char>, d: Dest)
    ensures
        from is None ==> status_kind(from, d) == DeployStatusKind::UnManaged,
        from is Some && d is Missing ==> status_kind(from, d) == DeployStatusKind::UnDeployed,
        from is Some && d is Other ==> {
            &&& status_kind(from, d) == DeployStatusKind::Conflict
            &&& conflict_cause(to, d) == "Other file exists. "@ + to
        },
        forall|f: Seq<char>, t: Seq<char>|
            from == Some(f) && d == Dest::LinkTo(t) ==> {
                &&& (t == f ==> status_kind(from, d) == DeployStatusKind::Deployed)
                &&& (t != f ==> status_kind(from, d) == DeployStatusKind::Conflict
                    && conflict_cause(to, d) == "Symlink to different path. "@ + t)
            },
{
}

/// A destination that holds a file, or a link elsewhere, is a conflict. Deploy
/// without force refuses it and leaves it as it is; deploy with force puts the
/// link to the source in its place, which is then deployed.
pub proof fn lemma_force_resolves_conflict(f: Seq<char>, d: Dest)
    requires
        d is Other || (d is LinkTo && d->LinkTo_0 != f),
    ensures
        status_kind(Some(f), d) == DeployStatusKind::Conflict,
        deploy_decision_spec(status_kind(Some(f), d), false) == Err::<DeployAction, Refusal>(
            Refusal::Conflict,
        ),
        after_deploy(Some(f), d, false) == d,
        after_deploy(Some(f), d, true) == Dest::LinkTo(f),
        status_kind(Some(f), after_deploy(Some(f), d, true)) == DeployStatusKind::Deployed,
{
}

} // verus!
