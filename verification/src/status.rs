//! The mission status state machine.
//!
//! A mission moves along `Open -> InProgress -> {Completed, Failed}`, with one
//! recovery edge: a failed mission can be restarted (`Failed -> InProgress`).
//! Joining and leaving keep the status unchanged.

use vstd::prelude::*;

verus! {

/// The lifecycle stage of a mission.
#[derive(Clone, Copy, Debug, PartialEq, Eq, Structural)]
pub enum MissionStatus {
    Open,
    InProgress,
    Completed,
    Failed,
}

impl MissionStatus {
    /// The states from which a mission may be started (moved to `InProgress`).
    pub open spec fn spec_startable(self) -> bool {
        self == MissionStatus::Open || self == MissionStatus::Failed
    }

    /// Exec twin of [`Self::spec_startable`].
    #[verifier::when_used_as_spec(spec_startable)]
    pub fn startable(self) -> (r: bool)
        ensures
            r == self.spec_startable(),
    {
        match self {
            MissionStatus::Open => true,
            MissionStatus::Failed => true,
            _ => false,
        }
    }

    /// The allowed edges of the status state machine.
    pub open spec fn spec_can_transition(self, to: MissionStatus) -> bool {
        ||| (self.spec_startable() && to == MissionStatus::InProgress)
        ||| (self == MissionStatus::InProgress && to == MissionStatus::Completed)
        ||| (self == MissionStatus::InProgress && to == MissionStatus::Failed)
    }

    /// Exec twin of [`Self::spec_can_transition`].
    #[verifier::when_used_as_spec(spec_can_transition)]
    pub fn can_transition(self, to: MissionStatus) -> (r: bool)
        ensures
            r == self.spec_can_transition(to),
    {
        match (self, to) {
            (MissionStatus::Open, MissionStatus::InProgress) => true,
            (MissionStatus::Failed, MissionStatus::InProgress) => true,
            (MissionStatus::InProgress, MissionStatus::Completed) => true,
            (MissionStatus::InProgress, MissionStatus::Failed) => true,
            _ => false,
        }
    }

    /// The status state machine admits exactly four edges: `Open` to
    /// `InProgress`, `Failed` to `InProgress`, `InProgress` to `Completed`
    /// and `InProgress` to `Failed`; every other pair of statuses is not a
    /// transition.
    pub proof fn lemma_status_edges(self, to: MissionStatus)
        ensures
            self.spec_can_transition(to) <==> ((self == MissionStatus::Open && to
                == MissionStatus::InProgress) || (self == MissionStatus::Failed && to
                == MissionStatus::InProgress) || (self == MissionStatus::InProgress && to
                == MissionStatus::Completed) || (self == MissionStatus::InProgress && to
                == MissionStatus::Failed)),
    {
    }

    /// The status rendered as the wire/storage label used by the transport layer.
    pub fn as_label(self) -> (r: String)
        ensures
            self == MissionStatus::Open ==> r@ == "Open"@,
            self == MissionStatus::InProgress ==> r@ == "InProgress"@,
            self == MissionStatus::Completed ==> r@ == "Completed"@,
            self == MissionStatus::Failed ==> r@ == "Failed"@,
    {
        match self {
            MissionStatus::Open => "Open".to_owned(),
            MissionStatus::InProgress => "InProgress".to_owned(),
            MissionStatus::Completed => "Completed".to_owned(),
            MissionStatus::Failed => "Failed".to_owned(),
        }
    }
}

} // verus!
