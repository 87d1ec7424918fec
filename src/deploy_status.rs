//! The deploy status of an entry: how a destination relates to its source.
use crate::path::opt_view;
use vstd::prelude::*;

verus! {

/// The state of a deploy entry. Two statuses are equal when their kinds are:
/// the cause of a conflict does not take part.
#[derive(Clone, Debug)]
pub enum DeployStatus {
    /// The source exists and nothing stands at the destination.
    UnDeployed,
    /// The destination is a symbolic link to the source.
    Deployed,
    /// Something else stands at the destination.
    Conflict { cause: String },
    /// The source does not exist.
    UnManaged,
}

/// The tag of a [`DeployStatus`], without the cause of a conflict.
#[derive(Clone, Copy, Debug, PartialEq, Eq, Structural, Hash)]
pub enum DeployStatusKind {
    UnDeployed,
    Deployed,
    Conflict,
    UnManaged,
}

/// The name that a status is displayed with.
pub open spec fn kind_label(k: DeployStatusKind) -> Seq<char> {
    match k {
        DeployStatusKind::UnDeployed => "UnDeployed"@,
        DeployStatusKind::Deployed => "Deployed"@,
        DeployStatusKind::Conflict => "Conflict"@,
        DeployStatusKind::UnManaged => "UnManaged"@,
    }
}

impl DeployStatus {
    pub open spec fn kind_spec(&self) -> DeployStatusKind {
        match self {
            DeployStatus::UnDeployed => DeployStatusKind::UnDeployed,
            DeployStatus::Deployed => DeployStatusKind::Deployed,
            DeployStatus::Conflict { .. } => DeployStatusKind::Conflict,
            DeployStatus::UnManaged => DeployStatusKind::UnManaged,
        }
    }

    /// The kind of this status.
    pub fn kind(&self) -> (r: DeployStatusKind)
        ensures
            r == self.kind_spec(),
    {
        match self {
            DeployStatus::UnDeployed => DeployStatusKind::UnDeployed,
            DeployStatus::Deployed => DeployStatusKind::Deployed,
            DeployStatus::Conflict { .. } => DeployStatusKind::Conflict,
            DeployStatus::UnManaged => DeployStatusKind::UnManaged,
        }
    }

    /// The name of this status, as it is displayed.
    pub fn to_string(&self) -> (r: String)
        ensures
            r@ == kind_label(self.kind_spec()),
    {
        match self {
            DeployStatus::UnDeployed => String::from_str("UnDeployed"),
            DeployStatus::Deployed => String::from_str("Deployed"),
            DeployStatus::Conflict { .. } => String::from_str("Conflict"),
            DeployStatus::UnManaged => String::from_str("UnManaged"),
        }
    }
}

impl PartialEq for DeployStatus {
    fn eq(&self, other: &DeployStatus) -> (r: bool) {
        self.kind() == other.kind()
    }
}

impl vstd::std_specs::cmp::PartialEqSpecImpl for DeployStatus {
    open spec fn obeys_eq_spec() -> bool {
        true
    }

    open spec fn eq_spec(&self, other: &DeployStatus) -> bool {
        self.kind_spec() == other.kind_spec()
    }
}

impl Eq for DeployStatus {

}

/// Relies on `Hash` for `u8`, which feeds the byte to the hasher; nothing is
/// claimed of the state it leaves.
pub assume_specification<Hr: std::hash::Hasher>[ <u8 as std::hash::Hash>::hash::<Hr> ](
    data: &u8,
    state: &mut Hr,
);

/// Hashes the kind alone, so that statuses that are equal hash alike.
impl core::hash::Hash for DeployStatus {
    fn hash<H: core::hash::Hasher>(&self, state: &mut H) {
        let tag: u8 = match self {
            DeployStatus::UnDeployed => 0,
            DeployStatus::Deployed => 1,
            DeployStatus::UnManaged => 2,
            DeployStatus::Conflict { .. } => 3,
        };
        tag.hash(state)
    }
}

/// What stands at a destination path, as a probe of the filesystem finds it.
#[derive(Clone, Debug)]
pub enum Probe {
    /// Nothing.
    Missing,
    /// A file or directory that is not a symbolic link.
    Other,
    /// A symbolic link; `target` is its target made absolute.
    Symlink { target: String },
}

/// The mathematical form of a [`Probe`].
pub enum Dest {
    Missing,
    Other,
    LinkTo(Seq<char>),
}

impl View for Probe {
    type V = Dest;

    open spec fn view(&self) -> Dest {
        match self {
            Probe::Missing => Dest::Missing,
            Probe::Other => Dest::Other,
            Probe::Symlink { target } => Dest::LinkTo(target@),
        }
    }
}

/// The status of an entry whose source is `from` (made absolute; `None` where
/// it does not exist) and whose destination holds `to`.
pub open spec fn status_kind(from: Option<Seq<char>>, to: Dest) -> DeployStatusKind {
    match from {
        None => DeployStatusKind::UnManaged,
        Some(f) => match to {
            Dest::Missing => DeployStatusKind::UnDeployed,
            Dest::Other => DeployStatusKind::Conflict,
            Dest::LinkTo(t) => if t == f {
                DeployStatusKind::Deployed
            } else {
                DeployStatusKind::Conflict
            },
        },
    }
}

/// The cause given for a conflict at destination path `to`.
pub open spec fn conflict_cause(to: Seq<char>, d: Dest) -> Seq<char> {
    match d {
        Dest::LinkTo(t) => "Symlink to different path. "@ + t,
        _ => "Other file exists. "@ + to,
    }
}

/// Classifies the entry whose source is `from` (made absolute; `None` where it
/// does not exist) and whose destination path `to` holds what `probe` found.
pub fn get_status(from: &Option<String>, to: &str, probe: &Probe) -> (r: DeployStatus)
    ensures
        r.kind_spec() == status_kind(opt_view(*from), probe@),
        r matches DeployStatus::Conflict { cause } ==> cause@ == conflict_cause(to@, probe@),
{
    match from {
        None => DeployStatus::UnManaged,
        Some(f) => match probe {
            Probe::Missing => DeployStatus::UnDeployed,
            Probe::Other => DeployStatus::Conflict {
                cause: String::from_str("Other file exists. ").concat(to),
            },
            Probe::Symlink { target } => {
                if *target == *f {
                    DeployStatus::Deployed
                } else {
                    DeployStatus::Conflict {
                        cause: String::from_str("Symlink to different path. ").concat(
                            target.as_str(),
                        ),
                    }
                }
            },
        },
    }
}

} // verus!
