//! The capture orchestrator: a two-state machine driving the
//! Idle → Waiting → Idle lifecycle of one capture, together with the
//! selection store it reads. Transitions return effects as data; the
//! surrounding application performs them and posts the answers back as
//! events, so at most one capture is ever in flight and no transition
//! blocks the interactive surface.

use vstd::prelude::*;
use crate::items::TestItem;
use crate::numeral::{decimal_string, spec_decimal};
use crate::text::{file_name_of, spec_file_name};

verus! {

/// The lifecycle of the single capture slot. Idle is both the initial and
/// the terminal state between operations.
#[derive(Clone, Copy, Debug, PartialEq, Eq, Structural)]
pub enum OrchestratorState {
    Idle,
    Waiting,
}

/// One capture request: the identifier the filename derives from and the
/// directory the image goes to. Created on a valid start and consumed by
/// exactly one attempt.
#[derive(Clone, Debug, PartialEq, Eq)]
pub struct CaptureRequest {
    pub identifier: String,
    pub target_directory: String,
}

/// The terminal result of one attempt, fed back in to drive the transition
/// back to Idle.
#[derive(Clone, Debug, PartialEq, Eq)]
pub enum CaptureOutcome {
    /// The path the image was written to.
    Success(String),
    /// The human-readable reason the attempt failed.
    Failure(String),
}

/// An effect the state machine asks of its surroundings. Effects are data,
/// not calls, so the machine stays testable without a real window or
/// filesystem.
#[derive(Clone, Debug, PartialEq, Eq)]
pub enum Effect {
    /// Hide the application window; fire-and-forget, not awaited.
    Minimize,
    /// Fire a delay-elapsed signal after this many milliseconds.
    StartDelay(u64),
    /// Run the capture executor for this request, off the responsive path.
    RunCapture(CaptureRequest),
    /// Restore the application window; fire-and-forget.
    Restore,
}

/// The settle interval between the minimize request and the capture, in
/// milliseconds. It is trusted, not measured, to let the window manager
/// finish hiding the window.
pub const DEFAULT_SETTLE_MS: u64 = 1500;

/// The orchestrator's whole state: the capture slot, the pending request,
/// the loaded item list with its directory and selection, and the status
/// line the UI shows.
pub struct Orchestrator {
    pub state: OrchestratorState,
    pub pending: Option<CaptureRequest>,
    pub items: Vec<TestItem>,
    pub selected: Option<usize>,
    pub directory: Option<String>,
    pub status: String,
    pub last_capture: Option<String>,
    pub settle_ms: u64,
}

/// What a valid start does: the slot moves to Waiting, the pending request
/// is pinned to the selected item's code and the loaded directory, the
/// status line announces the capture, exactly the minimize and delay
/// effects are emitted, and everything else is kept.
pub open spec fn spec_start_transition(
    pre: Orchestrator,
    post: Orchestrator,
    effects: Seq<Effect>,
) -> bool {
    match (pre.selected, pre.directory) {
        (Some(sel), Some(dir)) => {
            &&& post.state is Waiting
            &&& (post.pending matches Some(req) && req.identifier@ == pre.items@[sel as int].code@
                && req.target_directory@ == dir@)
            &&& post.status@ == "Action: Minimizing and capturing..."@
            &&& post.last_capture == pre.last_capture
            &&& post.items == pre.items
            &&& post.selected == pre.selected
            &&& post.directory == pre.directory
            &&& post.settle_ms == pre.settle_ms
            &&& effects == seq![Effect::Minimize, Effect::StartDelay(pre.settle_ms)]
        },
        _ => false,
    }
}

/// While a capture is in flight — the state is Waiting — no start is
/// possible, so a second `start` (or trigger key) during one is the silent
/// no-op of `start`'s contract: the state is unchanged and no effect is
/// emitted, however many times it is tried.
pub proof fn lemma_waiting_blocks_start(o: Orchestrator)
    requires
        o.state is Waiting,
    ensures
        !o.can_start(),
{
}

impl Orchestrator {
    /// The concurrency invariant: the slot is Waiting exactly while a
    /// request is in flight.
    pub open spec fn wf(self) -> bool {
        self.state is Waiting <==> self.pending is Some
    }

    /// A capture may start: the slot is idle, a directory is loaded, and the
    /// selection points at an entry of the item list.
    pub open spec fn can_start(self) -> bool {
        &&& self.state is Idle
        &&& self.directory is Some
        &&& match self.selected {
            Some(i) => i < self.items.len(),
            None => false,
        }
    }

    /// A fresh orchestrator: idle, nothing loaded, nothing selected, the
    /// ready prompt showing.
    pub fn new(settle_ms: u64) -> (r: Orchestrator)
        ensures
            r.wf(),
            r.state is Idle,
            r.pending is None,
            r.items@ == Seq::<TestItem>::empty(),
            r.selected is None,
            r.directory is None,
            r.last_capture is None,
            r.settle_ms == settle_ms,
            r.status@ == "System ready. Load an Excel file to begin."@,
    {
        Orchestrator {
            state: OrchestratorState::Idle,
            pending: None,
            items: Vec::new(),
            selected: None,
            directory: None,
            status: String::from_str("System ready. Load an Excel file to begin."),
            last_capture: None,
            settle_ms,
        }
    }

    /// Installs a freshly loaded item list and its directory, and reports the
    /// record count in the status line. Selection and the capture slot are
    /// untouched.
    pub fn load_items(&mut self, items: Vec<TestItem>, directory: String)
        requires
            old(self).wf(),
        ensures
            final(self).wf(),
            final(self).items@ == items@,
            (final(self).directory matches Some(d) && d@ == directory@),
            final(self).status@ == "Loaded "@ + spec_decimal(items@.len()) + " records."@,
            final(self).state == old(self).state,
            final(self).pending == old(self).pending,
            final(self).selected == old(self).selected,
            final(self).last_capture == old(self).last_capture,
            final(self).settle_ms == old(self).settle_ms,
    {
        let count = items.len();
        self.items = items;
        self.directory = Some(directory);
        let mut msg = String::from_str("Loaded ");
        let d = decimal_string(count as u64);
        msg.append(d.as_str());
        msg.append(" records.");
        self.status = msg;
    }

    /// Records the operator's selection. The index is taken as given; whether
    /// it points into the current list is checked where it matters, at start.
    pub fn select_item(&mut self, index: usize)
        requires
            old(self).wf(),
        ensures
            final(self).wf(),
            final(self).selected == Some(index),
            final(self).state == old(self).state,
            final(self).pending == old(self).pending,
            final(self).items == old(self).items,
            final(self).directory == old(self).directory,
            final(self).status == old(self).status,
            final(self).last_capture == old(self).last_capture,
            final(self).settle_ms == old(self).settle_ms,
    {
        self.selected = Some(index);
    }

    /// Whether a capture may start now.
    pub fn can_start_now(&self) -> (r: bool)
        ensures
            r == self.can_start(),
    {
        let dir_ok = self.directory.is_some();
        match (self.state, self.selected) {
            (OrchestratorState::Idle, Some(i)) => dir_ok && i < self.items.len(),
            _ => false,
        }
    }

    /// Starts a capture. The preconditions — slot idle, an item selected,
    /// a directory loaded — are checked here, not demanded of the caller: a
    /// call that violates them, a second start while Waiting among them, is
    /// a silent no-op that changes nothing and emits no effect. A valid
    /// start performs `spec_start_transition`.
    pub fn start(&mut self) -> (effects: Vec<Effect>)
        requires
            old(self).wf(),
        ensures
            final(self).wf(),
            old(self).can_start() ==> spec_start_transition(*old(self), *final(self), effects@),
            !old(self).can_start() ==> *final(self) == *old(self) && effects@ == Seq::<
                Effect,
            >::empty(),
    {
        if !self.can_start_now() {
            return Vec::new();
        }
        let i = match self.selected {
            Some(i) => i,
            None => {
                proof {
                    assert(false);
                }
                0
            },
        };
        let identifier = self.items[i].code.clone();
        let target_directory = match &self.directory {
            Some(d) => d.clone(),
            None => {
                proof {
                    assert(false);
                }
                String::new()
            },
        };
        self.pending = Some(CaptureRequest { identifier, target_directory });
        self.state = OrchestratorState::Waiting;
        self.status = String::from_str("Action: Minimizing and capturing...");
        let mut effects: Vec<Effect> = Vec::new();
        effects.push(Effect::Minimize);
        effects.push(Effect::StartDelay(self.settle_ms));
        proof {
            assert(effects@ =~= seq![Effect::Minimize, Effect::StartDelay(self.settle_ms)]);
        }
        effects
    }

    /// The designated trigger key is equivalent to starting a capture: the
    /// same preconditions guard it, and pressing it while Waiting or with no
    /// selection is the same silent no-op.
    pub fn on_trigger_key(&mut self) -> (effects: Vec<Effect>)
        requires
            old(self).wf(),
        ensures
            final(self).wf(),
            old(self).can_start() ==> spec_start_transition(*old(self), *final(self), effects@),
            !old(self).can_start() ==> *final(self) == *old(self) && effects@ == Seq::<
                Effect,
            >::empty(),
    {
        self.start()
    }

    /// The settle delay has elapsed. While a request is in flight this is
    /// the one place the capture executor is invoked — as an effect, so the
    /// pixel grab never runs on the responsive path. The state itself does
    /// not change; without a pending request the signal is ignored.
    pub fn on_delay_elapsed(&mut self) -> (effects: Vec<Effect>)
        requires
            old(self).wf(),
        ensures
            final(self).wf(),
            *final(self) == *old(self),
            old(self).state is Idle ==> effects@ == Seq::<Effect>::empty(),
            old(self).state is Waiting ==> (old(self).pending matches Some(req) && effects@
                == seq![Effect::RunCapture(req)]),
    {
        match &self.pending {
            Some(req) => {
                let request = CaptureRequest {
                    identifier: req.identifier.clone(),
                    target_directory: req.target_directory.clone(),
                };
                let mut effects: Vec<Effect> = Vec::new();
                effects.push(Effect::RunCapture(request));
                proof {
                    assert(effects@ =~= seq![Effect::RunCapture(old(self).pending->0)]);
                }
                effects
            },
            None => Vec::new(),
        }
    }

    /// The in-flight capture finished. The slot returns to Idle whatever the
    /// outcome — a failure must never leave the machine stuck in Waiting —
    /// the status line reports the saved file name or the failure reason, a
    /// success is recorded as the last capture, and exactly one restore
    /// effect is emitted.
    pub fn on_capture_complete(&mut self, outcome: CaptureOutcome) -> (effects: Vec<Effect>)
        requires
            old(self).wf(),
        ensures
            final(self).wf(),
            final(self).state is Idle,
            final(self).pending is None,
            final(self).items == old(self).items,
            final(self).selected == old(self).selected,
            final(self).directory == old(self).directory,
            final(self).settle_ms == old(self).settle_ms,
            (outcome matches CaptureOutcome::Success(path) ==> (final(self).last_capture matches Some(
                p,
            ) && p@ == path@) && final(self).status@ == "File saved: "@ + spec_file_name(path@)),
            (outcome matches CaptureOutcome::Failure(reason) ==> final(self).status@ == "Error: "@
                + reason@ && final(self).last_capture == old(self).last_capture),
            effects@ == seq![Effect::Restore],
    {
        self.state = OrchestratorState::Idle;
        self.pending = None;
        match outcome {
            CaptureOutcome::Success(path) => {
                let name = file_name_of(path.as_str());
                let mut msg = String::from_str("File saved: ");
                msg.append(name.as_str());
                self.status = msg;
                self.last_capture = Some(path);
            },
            CaptureOutcome::Failure(reason) => {
                let mut msg = String::from_str("Error: ");
                msg.append(reason.as_str());
                self.status = msg;
            },
        }
        let mut effects: Vec<Effect> = Vec::new();
        effects.push(Effect::Restore);
        proof {
            assert(effects@ =~= seq![Effect::Restore]);
        }
        effects
    }
}

} // verus!
