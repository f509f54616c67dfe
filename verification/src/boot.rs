//! The boot flow: which slot to boot, what to record in the state journal,
//! and the errors that end a boot attempt.

use vstd::prelude::*;

verus! {

/// A region descriptor failed to parse.
#[derive(Debug, PartialEq, Eq, Structural, Clone, Copy)]
pub enum DescriptorError {
    InvalidSignature,
    InvalidAppSlot,
    InvalidSlotCount,
    InvalidHeaderCrc { found: u32, expected: u32 },
    InvalidAppCrc { address: usize, found: u32, expected: u32 },
}

/// Why a boot attempt was aborted.
#[derive(Debug, PartialEq, Eq, Structural, Clone, Copy)]
pub enum BootError {
    /// Image is too large to fit.
    TooLarge,
    /// Image cannot possibly be this small.
    TooSmall,
    /// Image did not contain the correct markers.
    Markers,
    /// Image requested to be copied into a disallowed memory region.
    MemoryRegion,
    /// What was copied from the NVM seems to have changed after the initial read.
    ChangeAfterRead,
    /// Image failed to authenticate.
    Authenticate,
    /// Reading or writing the memory holding the image failed.
    IO,
    /// The memory holding the image reported corrupted contents.
    Integrity,
    /// The requested slot does not exist.
    SlotUnknown,
    /// Failed to read the descriptor.
    Descriptor(DescriptorError),
}

impl From<DescriptorError> for BootError {
    fn from(value: DescriptorError) -> (r: Self)
        ensures
            r == BootError::Descriptor(value),
    {
        BootError::Descriptor(value)
    }
}

impl vstd::std_specs::convert::FromSpecImpl<DescriptorError> for BootError {
    open spec fn obeys_from_spec() -> bool {
        true
    }

    open spec fn from_spec(value: DescriptorError) -> Self {
        BootError::Descriptor(value)
    }
}


/// Where the boot of the image in the target slot stands, as recorded in the
/// state journal.
#[derive(Debug, PartialEq, Eq, Structural, Clone, Copy)]
pub enum Status {
    /// The target slot was never booted.
    Initial,
    /// A boot of the target slot was started and not confirmed yet.
    Attempting,
    /// The target slot failed to boot, or to be confirmed.
    Failed,
    /// The application in the target slot confirmed that it works.
    Confirmed,
}

/// An image slot.
#[derive(Debug, PartialEq, Eq, Structural, Clone, Copy)]
pub struct Slot(pub u8);

/// A state journal entry: the status of the target slot, and the slot to fall
/// back to.
#[derive(Debug, PartialEq, Eq, Structural, Clone, Copy)]
pub struct State {
    pub status: Status,
    pub target: Slot,
    pub backup: Slot,
}

impl State {
    /// A new entry.
    pub fn new(status: Status, target: Slot, backup: Slot) -> (s: Self)
        ensures
            s == (State { status, target, backup }),
    {
        State { status, target, backup }
    }

    /// The same entry with another status.
    pub fn with_status(&self, status: Status) -> (s: Self)
        ensures
            s == (State { status, ..*self }),
    {
        State { status, target: self.target, backup: self.backup }
    }
}

/// Which slot a boot is meant for.
#[derive(Debug, PartialEq, Eq, Structural, Clone, Copy)]
pub enum BootIntent {
    Target,
    Backup,
}

/// The status to record before booting, if any, and which slot to boot.
///
/// A target never booted is marked `Attempting` so that its application can
/// confirm it; a target found still `Attempting` was not confirmed, so it is
/// marked `Failed` and the backup is booted; a failed target leaves the backup
/// to boot; a confirmed target boots.
pub open spec fn spec_intent(status: Status) -> (Option<Status>, BootIntent) {
    match status {
        Status::Initial => (Some(Status::Attempting), BootIntent::Target),
        Status::Attempting => (Some(Status::Failed), BootIntent::Backup),
        Status::Failed => (None, BootIntent::Backup),
        Status::Confirmed => (None, BootIntent::Target),
    }
}

/// Decides the status to record before booting and which slot to boot.
pub fn boot_intent(status: Status) -> (r: (Option<Status>, BootIntent))
    ensures
        r == spec_intent(status),
{
    match status {
        Status::Initial => (Some(Status::Attempting), BootIntent::Target),
        Status::Attempting => (Some(Status::Failed), BootIntent::Backup),
        Status::Failed => (None, BootIntent::Backup),
        Status::Confirmed => (None, BootIntent::Target),
    }
}

/// The slot an intent stands for.
pub open spec fn spec_intent_slot(state: State, intent: BootIntent) -> Slot {
    match intent {
        BootIntent::Target => state.target,
        BootIntent::Backup => state.backup,
    }
}

/// The state to start from: the latest journal entry, or, for a journal with
/// none, a never-booted slot 0 with slot 0 as backup.
pub open spec fn spec_initial_state(latest: Option<State>) -> State {
    match latest {
        Some(s) => s,
        None => State { status: Status::Initial, target: Slot(0), backup: Slot(0) },
    }
}

/// The next operation of the boot flow.
#[derive(Debug, PartialEq, Eq, Structural, Clone, Copy)]
pub enum FlowAction {
    /// Append this state to the journal; a failure to do so is fatal.
    Store(State),
    /// Check and boot the image in this slot; returns only if the boot failed.
    Attempt(Slot),
    /// Give up booting.
    Abort,
}

/// Where the boot flow stands.
#[derive(Debug, PartialEq, Eq, Structural, Clone, Copy)]
pub enum FlowPhase {
    /// Recording the intent before attempting the slot.
    StoringIntent(Slot),
    /// Attempting the intended slot.
    FirstAttempt(Slot),
    /// Recording the failure of the intended slot.
    StoringFailure(Slot),
    /// Attempting the backup slot.
    BackupAttempt,
    /// Given up.
    Done,
}

/// The boot flow of the bootloader.
pub struct BootFlow {
    state: State,
    persisted: bool,
    phase: FlowPhase,
}

impl BootFlow {
    /// The current state.
    pub closed spec fn spec_state(&self) -> State {
        self.state
    }

    /// Whether the current state is the latest entry of the journal.
    pub closed spec fn spec_persisted(&self) -> bool {
        self.persisted
    }

    pub closed spec fn spec_phase(&self) -> FlowPhase {
        self.phase
    }

    pub closed spec fn wf(&self) -> bool {
        match self.phase {
            FlowPhase::StoringIntent(_) => !self.persisted,
            FlowPhase::FirstAttempt(_) => self.persisted,
            FlowPhase::StoringFailure(_) => !self.persisted && self.state.status == Status::Failed,
            FlowPhase::BackupAttempt => self.persisted && self.state.status == Status::Failed,
            FlowPhase::Done => self.persisted && self.state.status == Status::Failed,
        }
    }

    fn after_failure(&mut self, slot: Slot) -> (a: FlowAction)
        requires
            old(self).persisted,
            old(self).state.status == Status::Failed,
        ensures
            final(self).state == old(self).state,
            final(self).persisted,
            if slot != old(self).state.backup {
                a == FlowAction::Attempt(old(self).state.backup) && final(self).phase
                    == FlowPhase::BackupAttempt
            } else {
                a == FlowAction::Abort && final(self).phase == FlowPhase::Done
            },
    {
        if slot != self.state.backup {
            self.phase = FlowPhase::BackupAttempt;
            FlowAction::Attempt(self.state.backup)
        } else {
            self.phase = FlowPhase::Done;
            FlowAction::Abort
        }
    }

    /// Starts the flow from the latest journal entry, if any.
    ///
    /// The status decides the intent: when a new status must be recorded the
    /// first operation stores it, otherwise the intended slot is attempted.
    pub fn new(latest: Option<State>) -> (r: (Self, FlowAction))
        ensures
            r.0.wf(),
            ({
                let s0 = spec_initial_state(latest);
                let (new_status, intent) = spec_intent(s0.status);
                let slot = spec_intent_slot(s0, intent);
                match new_status {
                    Some(st) => {
                        &&& r.0.spec_state() == (State { status: st, ..s0 })
                        &&& r.1 == FlowAction::Store(State { status: st, ..s0 })
                        &&& r.0.spec_phase() == FlowPhase::StoringIntent(slot)
                    },
                    None => {
                        &&& r.0.spec_state() == s0
                        &&& r.1 == FlowAction::Attempt(slot)
                        &&& r.0.spec_phase() == FlowPhase::FirstAttempt(slot)
                    },
                }
            }),
    {
        let (state, persisted) = match latest {
            Some(s) => (s, true),
            None => (State::new(Status::Initial, Slot(0), Slot(0)), false),
        };
        let (new_status, intent) = boot_intent(state.status);
        let slot = match intent {
            BootIntent::Target => state.target,
            BootIntent::Backup => state.backup,
        };
        match new_status {
            Some(st) => {
                let s1 = state.with_status(st);
                (BootFlow { state: s1, persisted: false, phase: FlowPhase::StoringIntent(slot) }, FlowAction::Store(s1))
            },
            None => {
                (BootFlow { state, persisted: true, phase: FlowPhase::FirstAttempt(slot) }, FlowAction::Attempt(slot))
            },
        }
    }

    /// The state was stored in the journal.
    pub fn on_stored(&mut self) -> (a: FlowAction)
        requires
            old(self).wf(),
            old(self).spec_phase() is StoringIntent || old(self).spec_phase() is StoringFailure,
        ensures
            final(self).wf(),
            final(self).spec_state() == old(self).spec_state(),
            final(self).spec_persisted(),
            match old(self).spec_phase() {
                FlowPhase::StoringIntent(slot) => a == FlowAction::Attempt(slot) && final(self).spec_phase() == FlowPhase::FirstAttempt(slot),
                FlowPhase::StoringFailure(slot) => if slot != old(self).spec_state().backup {
                    a == FlowAction::Attempt(old(self).spec_state().backup) && final(self).spec_phase()
                        == FlowPhase::BackupAttempt
                } else {
                    a == FlowAction::Abort && final(self).spec_phase() == FlowPhase::Done
                },
                _ => false,
            },
    {
        self.persisted = true;
        match self.phase {
            FlowPhase::StoringIntent(slot) => {
                self.phase = FlowPhase::FirstAttempt(slot);
                FlowAction::Attempt(slot)
            },
            FlowPhase::StoringFailure(slot) => self.after_failure(slot),
            _ => FlowAction::Abort,
        }
    }

    /// The attempted slot did not boot.
    ///
    /// After the intended slot fails the state is marked `Failed` (stored
    /// first when it was not already), then the backup slot is attempted if it
    /// is another slot; after the backup fails the flow gives up.
    pub fn on_attempt_failed(&mut self, error: BootError) -> (a: FlowAction)
        requires
            old(self).wf(),
            old(self).spec_phase() is FirstAttempt || old(self).spec_phase() is BackupAttempt,
        ensures
            final(self).wf(),
            match old(self).spec_phase() {
                FlowPhase::FirstAttempt(slot) => if old(self).spec_state().status != Status::Failed {
                    let failed = State { status: Status::Failed, ..old(self).spec_state() };
                    &&& final(self).spec_state() == failed
                    &&& a == FlowAction::Store(failed)
                    &&& final(self).spec_phase() == FlowPhase::StoringFailure(slot)
                } else {
                    &&& final(self).spec_state() == old(self).spec_state()
                    &&& if slot != old(self).spec_state().backup {
                        a == FlowAction::Attempt(old(self).spec_state().backup) && final(self).spec_phase() == FlowPhase::BackupAttempt
                    } else {
                        a == FlowAction::Abort && final(self).spec_phase() == FlowPhase::Done
                    }
                },
                FlowPhase::BackupAttempt => a == FlowAction::Abort && final(self).spec_state() == old(self).spec_state() && final(self).spec_phase() == FlowPhase::Done,
                _ => false,
            },
    {
        match self.phase {
            FlowPhase::FirstAttempt(slot) => {
                if self.state.status != Status::Failed {
                    self.state = self.state.with_status(Status::Failed);
                    self.persisted = false;
                    self.phase = FlowPhase::StoringFailure(slot);
                    FlowAction::Store(self.state)
                } else {
                    self.after_failure(slot)
                }
            },
            _ => {
                self.phase = FlowPhase::Done;
                FlowAction::Abort
            },
        }
    }
}

/// Every slot is attempted while the journal's latest entry is the flow's
/// state, and the flow gives up, or turns to the backup, only once that entry
/// marks the target as failed.
pub proof fn lemma_flow_records_before_acting(f: BootFlow)
    requires
        f.wf(),
    ensures
        f.spec_phase() is FirstAttempt ==> f.spec_persisted(),
        f.spec_phase() is BackupAttempt ==> f.spec_persisted() && f.spec_state().status
            == Status::Failed,
        f.spec_phase() is Done ==> f.spec_persisted() && f.spec_state().status == Status::Failed,
{
}

/// A target whose application never confirms it is booted once: the first
/// boot records `Attempting` and boots the target; the next boot finds it
/// unconfirmed, records `Failed` and boots the backup; every later boot boots
/// the backup and records nothing, until the application changes the state.
pub proof fn lemma_unconfirmed_target_not_retried(s: State)
    requires
        s.status == Status::Initial,
    ensures
        spec_intent(s.status) == (Some(Status::Attempting), BootIntent::Target),
        spec_intent_slot(s, BootIntent::Target) == s.target,
        spec_intent(Status::Attempting) == (Some(Status::Failed), BootIntent::Backup),
        spec_intent_slot(State { status: Status::Attempting, ..s }, BootIntent::Backup) == s.backup,
        spec_intent(Status::Failed) == (None::<Status>, BootIntent::Backup),
        spec_intent_slot(State { status: Status::Failed, ..s }, BootIntent::Backup) == s.backup,
{
}

} // verus!
