//! Camera lifecycle rules: which acquisition and recording state a camera handle is in, what
//! must be undone, in which order, when the handle is closed, and the GenICam node writes
//! behind the UserSet operations.

use vstd::prelude::*;

verus! {

/// An operation on an open camera that changes its lifecycle state when it succeeds.
#[derive(Debug, Clone, Copy, PartialEq, Eq, Structural)]
pub enum CameraOp {
    /// Start image acquisition.
    Start,
    /// Stop image acquisition.
    Stop,
    /// Start the AVI recorder.
    RecordStart,
    /// Finalize the AVI recorder.
    RecordStop,
}

/// One native call made when a camera handle is closed.
#[derive(Debug, Clone, Copy, PartialEq, Eq, Structural)]
pub enum ShutdownStep {
    /// Finalize the active recording.
    StopRecording,
    /// Stop the running acquisition.
    StopAcquisition,
    /// Close and destroy the device handle.
    Close,
}

/// Lifecycle state of an open camera handle.
#[derive(Debug, Clone, Copy, PartialEq, Eq, Structural)]
pub struct CameraState {
    /// Acquisition was started and not stopped since.
    pub started: bool,
    /// A recording was started and not finalized since.
    pub recording: bool,
}

/// The state after `op` was attempted in state `s`; a failed operation changes nothing.
pub open spec fn spec_apply(s: CameraState, op: CameraOp, succeeded: bool) -> CameraState {
    if !succeeded {
        s
    } else {
        match op {
            CameraOp::Start => CameraState { started: true, ..s },
            CameraOp::Stop => CameraState { started: false, ..s },
            CameraOp::RecordStart => CameraState { recording: true, ..s },
            CameraOp::RecordStop => CameraState { recording: false, ..s },
        }
    }
}

/// The native calls that closing a handle in state `s` makes, in order: finalize the
/// recording if one is active, then stop acquisition if it runs, then close the device.
pub open spec fn spec_shutdown_plan(s: CameraState) -> Seq<ShutdownStep> {
    (if s.recording {
        seq![ShutdownStep::StopRecording]
    } else {
        Seq::empty()
    }) + (if s.started {
        seq![ShutdownStep::StopAcquisition]
    } else {
        Seq::empty()
    }) + seq![ShutdownStep::Close]
}

impl CameraState {
    /// The state of a freshly opened camera: not acquiring, not recording.
    pub fn opened() -> (s: CameraState)
        ensures
            !s.started,
            !s.recording,
    {
        CameraState { started: false, recording: false }
    }

    /// Records the outcome of an attempted operation.
    pub fn apply(&mut self, op: CameraOp, succeeded: bool)
        ensures
            *final(self) == spec_apply(*old(self), op, succeeded),
            !succeeded ==> *final(self) == *old(self),
            succeeded && op == CameraOp::Start ==> final(self).started && final(self).recording
                == old(self).recording,
            succeeded && op == CameraOp::Stop ==> !final(self).started && final(self).recording
                == old(self).recording,
            succeeded && op == CameraOp::RecordStart ==> final(self).recording
                && final(self).started == old(self).started,
            succeeded && op == CameraOp::RecordStop ==> !final(self).recording
                && final(self).started == old(self).started,
    {
        if succeeded {
            match op {
                CameraOp::Start => self.started = true,
                CameraOp::Stop => self.started = false,
                CameraOp::RecordStart => self.recording = true,
                CameraOp::RecordStop => self.recording = false,
            }
        }
    }

    /// The native calls to make, in order, when the handle is closed.
    pub fn shutdown_plan(&self) -> (plan: Vec<ShutdownStep>)
        ensures
            plan@ == spec_shutdown_plan(*self),
    {
        let mut plan: Vec<ShutdownStep> = Vec::new();
        if self.recording {
            plan.push(ShutdownStep::StopRecording);
        }
        if self.started {
            plan.push(ShutdownStep::StopAcquisition);
        }
        plan.push(ShutdownStep::Close);
        assert(plan@ =~= spec_shutdown_plan(*self));
        plan
    }
}

/// Closing a handle releases resources in the required order whatever state it is in: the
/// device is closed exactly once and last, the recording is finalized exactly when one is
/// active, acquisition is stopped exactly when it runs, and a recording is finalized before
/// acquisition stops.
pub proof fn lemma_shutdown_order(s: CameraState)
    ensures
        spec_shutdown_plan(s).len() >= 1,
        spec_shutdown_plan(s).last() == ShutdownStep::Close,
        forall|i: int|
            0 <= i < spec_shutdown_plan(s).len() - 1 ==> spec_shutdown_plan(s)[i]
                != ShutdownStep::Close,
        spec_shutdown_plan(s).contains(ShutdownStep::StopRecording) <==> s.recording,
        spec_shutdown_plan(s).contains(ShutdownStep::StopAcquisition) <==> s.started,
        s.recording ==> spec_shutdown_plan(s)[0] == ShutdownStep::StopRecording,
        s.started ==> spec_shutdown_plan(s)[spec_shutdown_plan(s).len() - 2]
            == ShutdownStep::StopAcquisition,
{
    let p = spec_shutdown_plan(s);
    if s.recording && s.started {
        assert(p =~= seq![ShutdownStep::StopRecording, ShutdownStep::StopAcquisition, ShutdownStep::Close]);
        assert(p[0] == ShutdownStep::StopRecording);
        assert(p[1] == ShutdownStep::StopAcquisition);
    } else if s.recording {
        assert(p =~= seq![ShutdownStep::StopRecording, ShutdownStep::Close]);
        assert(p[0] == ShutdownStep::StopRecording);
        assert(!p.contains(ShutdownStep::StopAcquisition));
    } else if s.started {
        assert(p =~= seq![ShutdownStep::StopAcquisition, ShutdownStep::Close]);
        assert(p[0] == ShutdownStep::StopAcquisition);
        assert(!p.contains(ShutdownStep::StopRecording));
    } else {
        assert(p =~= seq![ShutdownStep::Close]);
        assert(!p.contains(ShutdownStep::StopRecording));
        assert(!p.contains(ShutdownStep::StopAcquisition));
    }
}

/// A successful operation changes only the flag it is about: starting or stopping
/// acquisition leaves the recording state as it was, and starting or stopping a recording
/// leaves the acquisition state as it was. A failed operation changes nothing.
pub proof fn lemma_apply_changes_only_its_flag(s: CameraState, op: CameraOp, succeeded: bool)
    ensures
        !succeeded ==> spec_apply(s, op, succeeded) == s,
        succeeded && op == CameraOp::Start ==> spec_apply(s, op, succeeded) == (CameraState {
            started: true,
            recording: s.recording,
        }),
        succeeded && op == CameraOp::Stop ==> spec_apply(s, op, succeeded) == (CameraState {
            started: false,
            recording: s.recording,
        }),
        succeeded && op == CameraOp::RecordStart ==> spec_apply(s, op, succeeded) == (
        CameraState { started: s.started, recording: true }),
        succeeded && op == CameraOp::RecordStop ==> spec_apply(s, op, succeeded) == (
        CameraState { started: s.started, recording: false }),
{
}

/// Stopping acquisition while a recording is active still leaves the recording to be
/// finalized when the handle is closed.
pub proof fn lemma_stop_keeps_recording_finalized(s: CameraState)
    requires
        s.recording,
    ensures
        spec_shutdown_plan(spec_apply(s, CameraOp::Stop, true)).contains(ShutdownStep::StopRecording),
{
    lemma_apply_changes_only_its_flag(s, CameraOp::Stop, true);
    lemma_shutdown_order(spec_apply(s, CameraOp::Stop, true));
}

/// An operation that succeeded is never undone again on close: after a successful stop no
/// acquisition stop is planned, after a successful record stop no recording stop is
/// planned, and a failed operation leaves the plan as it was.
pub proof fn lemma_completed_operations_not_repeated(s: CameraState, op: CameraOp, succeeded: bool)
    ensures
        succeeded && op == CameraOp::Stop ==> !spec_shutdown_plan(spec_apply(s, op, succeeded)).contains(
            ShutdownStep::StopAcquisition,
        ),
        succeeded && op == CameraOp::RecordStop ==> !spec_shutdown_plan(
            spec_apply(s, op, succeeded),
        ).contains(ShutdownStep::StopRecording),
        succeeded && op == CameraOp::Start ==> spec_shutdown_plan(spec_apply(s, op, succeeded)).contains(
            ShutdownStep::StopAcquisition,
        ),
        succeeded && op == CameraOp::RecordStart ==> spec_shutdown_plan(
            spec_apply(s, op, succeeded),
        ).contains(ShutdownStep::StopRecording),
        !succeeded ==> spec_shutdown_plan(spec_apply(s, op, succeeded)) == spec_shutdown_plan(s),
{
    lemma_shutdown_order(spec_apply(s, op, succeeded));
}

/// A GenICam node write made on behalf of a higher-level camera operation.
#[derive(Debug, Clone)]
pub enum NodeWrite {
    /// Select an enumeration entry by its symbolic name.
    SetEnum {
        /// Node name.
        name: &'static str,
        /// Symbolic entry name.
        value: String,
    },
    /// Execute a command node once.
    Command {
        /// Node name.
        name: &'static str,
    },
}

/// `w` selects `value` in the enumeration node `name`.
pub open spec fn is_set_enum(w: NodeWrite, name: Seq<char>, value: Seq<char>) -> bool {
    w matches NodeWrite::SetEnum { name: n, value: v } && n@ == name && v@ == value
}

/// `w` executes the command node `name`.
pub open spec fn is_command(w: NodeWrite, name: Seq<char>) -> bool {
    w matches NodeWrite::Command { name: n } && n@ == name
}

/// The node writes that save the current settings into the UserSet slot `user_set`: select
/// the slot in `UserSetSelector`, then execute `UserSetSave`. A failed write ends the
/// sequence.
pub fn user_set_save(user_set: &str) -> (writes: Vec<NodeWrite>)
    ensures
        writes.len() == 2,
        is_set_enum(writes[0], "UserSetSelector"@, user_set@),
        is_command(writes[1], "UserSetSave"@),
{
    let mut writes: Vec<NodeWrite> = Vec::new();
    writes.push(NodeWrite::SetEnum { name: "UserSetSelector", value: user_set.to_owned() });
    writes.push(NodeWrite::Command { name: "UserSetSave" });
    writes
}

/// The node writes that load the UserSet slot `user_set` immediately: select the slot in
/// `UserSetSelector`, then execute `UserSetLoad`. A failed write ends the sequence.
pub fn user_set_load(user_set: &str) -> (writes: Vec<NodeWrite>)
    ensures
        writes.len() == 2,
        is_set_enum(writes[0], "UserSetSelector"@, user_set@),
        is_command(writes[1], "UserSetLoad"@),
{
    let mut writes: Vec<NodeWrite> = Vec::new();
    writes.push(NodeWrite::SetEnum { name: "UserSetSelector", value: user_set.to_owned() });
    writes.push(NodeWrite::Command { name: "UserSetLoad" });
    writes
}

/// The node write that makes the camera load the UserSet slot `user_set` at its next
/// startup: select it in `UserSetDefault`.
pub fn user_set_default(user_set: &str) -> (writes: Vec<NodeWrite>)
    ensures
        writes.len() == 1,
        is_set_enum(writes[0], "UserSetDefault"@, user_set@),
{
    let mut writes: Vec<NodeWrite> = Vec::new();
    writes.push(NodeWrite::SetEnum { name: "UserSetDefault", value: user_set.to_owned() });
    writes
}

} // verus!
