//! The tray controller: the worker thread's state machine over the tray
//! handle, driven by events drained from the channel.
//!
//! The controller owns the tray affordance. On a toggle event it flips the
//! external auto-launch state and mirrors the result in the checkable menu
//! item; on a theme or scale event it re-selects the icon, skipping the
//! update when the parameters did not change; on an exit event it leaves
//! `Running`, and the drain loop consumes nothing further. The ordering
//! invariant of shutdown — destroy the tray handle first, only then signal
//! the pump thread's queue to stop — is part of the exit plan's contract.

use vstd::prelude::*;
use crate::events::Event;
use crate::icon::IconAsset;
use crate::icon::IconParam;
use crate::icon::select_icon;
use crate::icon::selected_asset;

verus! {

/// Life-cycle of the controller: it runs until an exit event arrives,
/// tears down while exiting, and is terminated once the pump thread has
/// been signalled (or the process is being terminated directly).
#[derive(Debug, Clone, Copy, PartialEq, Eq, Structural)]
pub enum Phase {
    Running,
    Exiting,
    Terminated,
}

/// The shutdown steps, in the order they must run: the tray handle is
/// destroyed strictly before the pump thread's queue is asked to stop,
/// because tray teardown waits on that queue and would deadlock behind a
/// stopped one.
#[derive(Debug, Clone, Copy, PartialEq, Eq, Structural)]
pub enum ExitStep {
    DestroyTray,
    SignalPumpQuit,
}

/// How shutdown ends: the quit sentinel reached the pump thread and both
/// threads stop cooperatively, or signalling failed and the process must be
/// terminated directly — the single acceptable abrupt-termination path.
#[derive(Debug, Clone, Copy, PartialEq, Eq, Structural)]
pub enum ExitOutcome {
    QuitSignaled,
    TerminateProcess,
}

/// Process exit code of the abrupt-termination fallback.
pub const FALLBACK_EXIT_CODE: i32 = -1;

/// The worker thread's view of the tray affordance: its life-cycle phase,
/// the icon parameters last applied, and the checkable auto-launch menu
/// item's displayed state (`None` when the item was omitted because the
/// auto-launch mechanism could not be queried at startup).
pub struct TrayController {
    pub phase: Phase,
    pub icon: IconParam,
    pub menu_checked: Option<bool>,
}

/// The external state requested by a toggle: the opposite of the state
/// that was read.
pub open spec fn toggle_target(enabled: bool) -> bool {
    !enabled
}

/// One successful toggle from external state `enabled`: the new external
/// state, and the checkable item's new displayed state.
pub open spec fn after_toggle(enabled: bool) -> (bool, Option<bool>) {
    (toggle_target(enabled), Some(toggle_target(enabled)))
}

impl TrayController {
    /// A freshly built tray: running, showing the icon selected for the
    /// initial parameters, with the auto-launch item present and checked
    /// exactly as the startup snapshot of the external state reported.
    pub fn new(initial_icon: IconParam, auto_launch_snapshot: Option<bool>) -> (controller: Self)
        ensures
            controller.phase == Phase::Running,
            controller.icon == initial_icon,
            controller.menu_checked == auto_launch_snapshot,
    {
        TrayController { phase: Phase::Running, icon: initial_icon, menu_checked: auto_launch_snapshot }
    }

    /// Whether the drain loop should keep consuming events.
    pub fn wants_more_events(&self) -> (more: bool)
        ensures
            more == (self.phase == Phase::Running),
    {
        match self.phase {
            Phase::Running => true,
            Phase::Exiting => false,
            Phase::Terminated => false,
        }
    }

    /// React to the exit event: leave `Running` and hand back the shutdown
    /// steps in their required order — destroy the tray handle first, then
    /// signal the pump thread's queue.
    pub fn handle_exit(&mut self) -> (steps: Vec<ExitStep>)
        requires
            old(self).phase == Phase::Running,
        ensures
            final(self).phase == Phase::Exiting,
            final(self).icon == old(self).icon,
            final(self).menu_checked == old(self).menu_checked,
            steps@ == seq![ExitStep::DestroyTray, ExitStep::SignalPumpQuit],
    {
        self.phase = Phase::Exiting;
        let mut steps: Vec<ExitStep> = Vec::new();
        steps.push(ExitStep::DestroyTray);
        steps.push(ExitStep::SignalPumpQuit);
        proof {
            assert(steps@ =~= seq![ExitStep::DestroyTray, ExitStep::SignalPumpQuit]);
        }
        steps
    }

    /// Conclude the shutdown after the quit signal was attempted. The only
    /// transition out of `Exiting` is to `Terminated`; a failed signal is
    /// the single case that terminates the process directly.
    pub fn finish_exit(&mut self, signal_ok: bool) -> (outcome: ExitOutcome)
        requires
            old(self).phase == Phase::Exiting,
        ensures
            final(self).phase == Phase::Terminated,
            final(self).icon == old(self).icon,
            final(self).menu_checked == old(self).menu_checked,
            outcome == (if signal_ok {
                ExitOutcome::QuitSignaled
            } else {
                ExitOutcome::TerminateProcess
            }),
    {
        self.phase = Phase::Terminated;
        if signal_ok {
            ExitOutcome::QuitSignaled
        } else {
            ExitOutcome::TerminateProcess
        }
    }

    /// The mutation a toggle event asks of the external auto-launch
    /// mechanism, from a fresh read of its state: the opposite state, or
    /// nothing when the read failed (degraded-continue: the display is left
    /// unchanged until the next attempt).
    pub fn toggle_request(&self, fresh_read: Option<bool>) -> (request: Option<bool>)
        requires
            self.phase == Phase::Running,
        ensures
            request == match fresh_read {
                Some(enabled) => Some(toggle_target(enabled)),
                None => None::<bool>,
            },
    {
        match fresh_read {
            Some(enabled) => Some(!enabled),
            None => None,
        }
    }

    /// Record the outcome of the requested mutation: on success the
    /// checkable item mirrors the new external state; on failure nothing
    /// changes and the display keeps its prior state.
    pub fn confirm_toggle(&mut self, target: bool, mutation_ok: bool)
        requires
            old(self).phase == Phase::Running,
        ensures
            mutation_ok ==> final(self).menu_checked == Some(target),
            !mutation_ok ==> final(self).menu_checked == old(self).menu_checked,
            final(self).phase == old(self).phase,
            final(self).icon == old(self).icon,
    {
        if mutation_ok {
            self.menu_checked = Some(target);
        }
    }

    /// React to a theme or scale event with freshly probed parameters:
    /// when they differ from the last applied ones, remember them and hand
    /// back the newly selected asset; when they are equal, change nothing
    /// and request no redundant icon swap.
    pub fn handle_display_change(&mut self, fresh: IconParam) -> (update: Option<IconAsset>)
        requires
            old(self).phase == Phase::Running,
        ensures
            fresh == old(self).icon ==> *final(self) == *old(self) && update == None::<IconAsset>,
            fresh != old(self).icon ==> final(self).icon == fresh && update == Some(
                selected_asset(fresh),
            ),
            final(self).phase == old(self).phase,
            final(self).menu_checked == old(self).menu_checked,
    {
        if self.icon == fresh {
            None
        } else {
            self.icon = fresh;
            Some(select_icon(fresh))
        }
    }
}

/// How many of the queued events the worker consumes, in delivery order:
/// everything up to and including the first exit event, or all of them when
/// no exit event is queued.
pub open spec fn drained_count(events: Seq<Event>) -> int
    decreases events.len(),
{
    if events.len() == 0 {
        0
    } else if events[0] == Event::Exit {
        1
    } else {
        1 + drained_count(events.subrange(1, events.len() as int))
    }
}

/// The drained count never exceeds the queue length.
pub proof fn lemma_drained_count_bounds(events: Seq<Event>)
    ensures
        0 <= drained_count(events) <= events.len(),
    decreases events.len(),
{
    if events.len() > 0 && events[0] != Event::Exit {
        lemma_drained_count_bounds(events.subrange(1, events.len() as int));
    }
}

/// The drained count counts exactly up to the first exit event: a prefix
/// free of exit events is consumed whole, and an exit event right after it
/// is the last event consumed.
pub proof fn lemma_drained_count_prefix(events: Seq<Event>, i: int)
    requires
        0 <= i <= events.len(),
        forall|j: int| 0 <= j < i ==> events[j] != Event::Exit,
    ensures
        i < events.len() && events[i] == Event::Exit ==> drained_count(events) == i + 1,
        i == events.len() ==> drained_count(events) == events.len(),
    decreases i,
{
    if events.len() == 0 {
        return ;
    }
    if i == 0 {
        if events[0] != Event::Exit {
            lemma_drained_count_bounds(events.subrange(1, events.len() as int));
        }
        return ;
    }
    let rest = events.subrange(1, events.len() as int);
    assert(forall|j: int| 0 <= j < i - 1 ==> rest[j] != Event::Exit);
    lemma_drained_count_prefix(rest, i - 1);
}

/// Once an exit event is queued, the worker consumes no event queued after
/// it: every position past the first exit event lies beyond the drained
/// prefix.
pub proof fn lemma_exit_stops_drain(events: Seq<Event>, i: int, j: int)
    requires
        0 <= i < j < events.len(),
        events[i] == Event::Exit,
        forall|k: int| 0 <= k < i ==> events[k] != Event::Exit,
    ensures
        drained_count(events) <= j,
{
    lemma_drained_count_prefix(events, i);
}

/// The events the worker consumes, in delivery order: the queued prefix up
/// to and including the first exit event. Nothing queued after an exit
/// event is processed.
pub fn drain_plan(events: &Vec<Event>) -> (consumed: Vec<Event>)
    ensures
        consumed@ == events@.subrange(0, drained_count(events@)),
{
    let n: usize = events.len();
    let mut consumed: Vec<Event> = Vec::new();
    let mut i: usize = 0;
    while i < n
        invariant
            i <= n,
            n == events@.len(),
            consumed@ == events@.subrange(0, i as int),
            forall|j: int| 0 <= j < i ==> events@[j] != Event::Exit,
        decreases n - i,
    {
        let event = events[i];
        consumed.push(event);
        proof {
            assert(events@.subrange(0, i + 1 as int) =~= events@.subrange(0, i as int).push(
                events@[i as int],
            ));
        }
        i = i + 1;
        if event == Event::Exit {
            proof {
                lemma_drained_count_prefix(events@, i - 1 as int);
            }
            return consumed;
        }
    }
    proof {
        lemma_drained_count_prefix(events@, n as int);
    }
    consumed
}

/// Toggling the auto-launch feature twice from any initial external state
/// returns to that state, and after each successful toggle the checkable
/// menu item shows exactly the new external state.
pub proof fn lemma_toggle_round_trip(enabled: bool)
    ensures
        toggle_target(toggle_target(enabled)) == enabled,
        after_toggle(enabled).1 == Some(after_toggle(enabled).0),
        after_toggle(after_toggle(enabled).0).0 == enabled,
{
}

} // verus!
