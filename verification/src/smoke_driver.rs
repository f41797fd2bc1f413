//! The smoke-scenario driver: it routes the scenario's actions one after another and marks
//! each step passed once the observed application state shows the action complete.

use vstd::prelude::*;
use crate::smoke_visual::{spec_contract_passes, SmokeVisualCheckpoint, VisualEvidenceMap};

verus! {

/// One step of a smoke scenario.
#[derive(Clone, Debug)]
pub enum SmokeAction {
    /// Reach the checkpoint's state and capture its evidence.
    VisualCheckpoint(SmokeVisualCheckpoint),
    /// Close every window and shut the application down.
    CloseAll,
}

impl SmokeAction {
    /// A copy of the action.
    pub fn duplicate(&self) -> (r: Self)
        ensures
            r == *self,
    {
        match self {
            SmokeAction::VisualCheckpoint(checkpoint) => SmokeAction::VisualCheckpoint(
                checkpoint.duplicate(),
            ),
            SmokeAction::CloseAll => SmokeAction::CloseAll,
        }
    }
}

/// Evidence the application has published so far.
#[derive(Clone, Debug, Default)]
pub struct SmokeCounters {
    /// Completed visual checkpoints, by checkpoint id.
    pub visual: VisualEvidenceMap,
}

/// Whether the report's binding to the main window was verified.
#[derive(Clone, Debug, Default)]
pub struct SmokeBindingEvidence {
    pub verified: bool,
    pub component_verified: bool,
    pub actual_label: Option<String>,
}

/// The application state the driver observes on a tick.
#[derive(Clone, Debug)]
pub struct SmokeObservation {
    pub window_realized: bool,
    pub shutdown_complete: bool,
    pub binding: Option<SmokeBindingEvidence>,
    pub counters: SmokeCounters,
}

/// What completion of an action is judged against.
pub struct CompletionContext<'a> {
    pub observed: &'a SmokeObservation,
    /// Completion also needs a verified binding to the main window.
    pub binding_required: bool,
}

impl<'a> CompletionContext<'a> {
    /// Judges completion on `observed`, without requiring a binding.
    pub fn new(observed: &'a SmokeObservation) -> (r: Self)
        ensures
            r.observed == observed,
            !r.binding_required,
    {
        CompletionContext { observed, binding_required: false }
    }

    /// The same context, now requiring a verified binding.
    pub fn require_binding(self) -> (r: Self)
        ensures
            r.observed == self.observed,
            r.binding_required,
    {
        CompletionContext { observed: self.observed, binding_required: true }
    }
}

/// Whether the binding of `observed` is verified for the window and its component.
pub open spec fn spec_binding_verified(observed: SmokeObservation) -> bool {
    observed.binding matches Some(b) && b.verified && b.component_verified
}

/// The evidence of `observed` completes `checkpoint`: it is recorded under the checkpoint's
/// id, names that id, shows the checkpoint's state in the expected layout mode, and meets the
/// visual contract.
pub open spec fn spec_visual_evidence_completes(
    checkpoint: SmokeVisualCheckpoint,
    observed: SmokeObservation,
) -> bool {
    let visual = observed.counters.visual@;
    &&& visual.contains_key(checkpoint.id@)
    &&& visual[checkpoint.id@].checkpoint_id@ == checkpoint.id@
    &&& visual[checkpoint.id@].state == checkpoint.state
    &&& visual[checkpoint.id@].layout == checkpoint.expected_mode
    &&& spec_contract_passes(visual[checkpoint.id@])
}

/// Whether `action` is complete in `observed`; with `binding_required` a verified binding is
/// needed as well.
pub open spec fn spec_action_complete(
    action: SmokeAction,
    observed: SmokeObservation,
    binding_required: bool,
) -> bool {
    &&& binding_required ==> spec_binding_verified(observed)
    &&& match action {
        SmokeAction::VisualCheckpoint(checkpoint) => spec_visual_evidence_completes(
            checkpoint,
            observed,
        ),
        SmokeAction::CloseAll => observed.shutdown_complete,
    }
}

/// Whether `action` is complete in the observation of `context`.
pub fn action_is_complete(action: &SmokeAction, context: &CompletionContext) -> (r: bool)
    ensures
        r == spec_action_complete(*action, *context.observed, context.binding_required),
{
    let observed = context.observed;
    if context.binding_required {
        match &observed.binding {
            Some(binding) => {
                if !(binding.verified && binding.component_verified) {
                    return false;
                }
            },
            None => {
                return false;
            },
        }
    }
    match action {
        SmokeAction::VisualCheckpoint(checkpoint) => match observed.counters.visual.get(
            &checkpoint.id,
        ) {
            Some(evidence) => evidence.checkpoint_id == checkpoint.id && evidence.state
                == checkpoint.state && evidence.layout == checkpoint.expected_mode
                && evidence.contract_passes(),
            None => false,
        },
        SmokeAction::CloseAll => observed.shutdown_complete,
    }
}

/// The actions of a smoke scenario, in order.
#[derive(Clone, Debug)]
pub struct SmokeScenario {
    pub actions: Vec<SmokeAction>,
}

impl SmokeScenario {
    pub fn new(actions: Vec<SmokeAction>) -> (r: Self)
        ensures
            r.actions@ == actions@,
    {
        SmokeScenario { actions }
    }
}

/// What a driver starts from.
#[derive(Clone, Debug)]
pub struct SmokeDriverInit {
    pub scenario: SmokeScenario,
}

impl SmokeDriverInit {
    pub fn new(scenario: SmokeScenario) -> (r: Self)
        ensures
            r.scenario.actions@ == scenario.actions@,
    {
        SmokeDriverInit { scenario }
    }
}

/// Progress of one scenario step.
#[derive(Clone, Copy, Debug, PartialEq, Eq, Structural)]
pub enum SmokeStepState {
    Pending,
    Running,
    Passed,
    Failed,
}

/// The report entry of one step.
#[derive(Clone, Copy, Debug)]
pub struct SmokeStepReport {
    pub state: SmokeStepState,
}

/// The report of a scenario, one entry per step.
#[derive(Clone, Debug)]
pub struct SmokeReport {
    pub steps: Vec<SmokeStepReport>,
}

/// What the driver asks the application to do.
#[derive(Clone, Debug)]
pub enum SmokeDecision {
    /// Carry out this action.
    Route(SmokeAction),
}

/// The abstract state of a driver.
pub struct SmokeDriverView {
    pub actions: Seq<SmokeAction>,
    pub current: int,
    pub routed: bool,
    pub steps: Seq<SmokeStepState>,
}

/// Drives a smoke scenario step by step.
pub struct SmokeDriver {
    actions: Vec<SmokeAction>,
    current: usize,
    routed: bool,
    report: SmokeReport,
}

impl View for SmokeDriver {
    type V = SmokeDriverView;

    closed spec fn view(&self) -> SmokeDriverView {
        SmokeDriverView {
            actions: self.actions@,
            current: self.current as int,
            routed: self.routed,
            steps: self.report.steps@.map_values(|s: SmokeStepReport| s.state),
        }
    }
}

/// Steps before the current one passed, later ones wait, the current one waits or runs, and a
/// routed step is the current, running one.
pub open spec fn spec_driver_wf(v: SmokeDriverView) -> bool {
    &&& v.steps.len() == v.actions.len()
    &&& 0 <= v.current <= v.actions.len()
    &&& forall|i: int| 0 <= i < v.current ==> v.steps[i] == SmokeStepState::Passed
    &&& forall|i: int| v.current < i < v.steps.len() ==> v.steps[i] == SmokeStepState::Pending
    &&& v.current < v.actions.len() ==> (v.steps[v.current] == SmokeStepState::Pending
        || v.steps[v.current] == SmokeStepState::Running)
    &&& v.routed ==> v.current < v.actions.len() && v.steps[v.current]
        == SmokeStepState::Running
}

/// The current step is complete: its action is complete in `now` (no binding required), and a
/// visual checkpoint must moreover have been routed since it was last deferred.
pub open spec fn spec_step_complete(v: SmokeDriverView, now: SmokeObservation) -> bool {
    let action = v.actions[v.current];
    &&& action is VisualCheckpoint ==> v.routed
    &&& spec_action_complete(action, now, false)
}

/// One tick of the driver on the observation `now`: a waiting step starts and is routed; a
/// running step that is complete passes and the next step starts and is routed; a running step
/// whose route was deferred is routed again; otherwise nothing changes.
pub open spec fn spec_tick(v: SmokeDriverView, now: SmokeObservation) -> (SmokeDriverView, Option<
    SmokeDecision,
>) {
    if v.current >= v.actions.len() {
        (v, None)
    } else if v.steps[v.current] == SmokeStepState::Pending {
        (
            SmokeDriverView {
                steps: v.steps.update(v.current, SmokeStepState::Running),
                routed: true,
                ..v
            },
            Some(SmokeDecision::Route(v.actions[v.current])),
        )
    } else if spec_step_complete(v, now) {
        let passed = v.steps.update(v.current, SmokeStepState::Passed);
        let next = v.current + 1;
        if next < v.actions.len() {
            (
                SmokeDriverView {
                    steps: passed.update(next, SmokeStepState::Running),
                    current: next,
                    routed: true,
                    ..v
                },
                Some(SmokeDecision::Route(v.actions[next])),
            )
        } else {
            (SmokeDriverView { steps: passed, current: next, routed: false, ..v }, None)
        }
    } else if !v.routed {
        (SmokeDriverView { routed: true, ..v }, Some(SmokeDecision::Route(v.actions[v.current])))
    } else {
        (v, None)
    }
}

impl SmokeDriver {
    pub closed spec fn wf(&self) -> bool {
        &&& spec_driver_wf(self@)
        &&& self.report.steps@.len() == self.actions@.len()
    }

    /// A driver at the first step of the scenario, every step waiting.
    pub fn new(init: SmokeDriverInit) -> (r: Self)
        ensures
            r.wf(),
            r@.actions == init.scenario.actions@,
            r@.current == 0,
            !r@.routed,
            forall|i: int| 0 <= i < r@.steps.len() ==> r@.steps[i] == SmokeStepState::Pending,
    {
        let actions = init.scenario.actions;
        let mut steps: Vec<SmokeStepReport> = Vec::new();
        let mut i: usize = 0;
        while i < actions.len()
            invariant
                i <= actions@.len(),
                steps@.len() == i,
                forall|j: int| 0 <= j < i ==> steps@[j].state == SmokeStepState::Pending,
            decreases actions@.len() - i,
        {
            steps.push(SmokeStepReport { state: SmokeStepState::Pending });
            i = i + 1;
        }
        SmokeDriver { actions, current: 0, routed: false, report: SmokeReport { steps } }
    }

    /// The report so far.
    pub fn report(&self) -> (r: &SmokeReport)
        ensures
            r.steps@.map_values(|s: SmokeStepReport| s.state) == self@.steps,
    {
        &self.report
    }

    fn set_step(&mut self, index: usize, state: SmokeStepState)
        requires
            index < old(self).report.steps@.len(),
        ensures
            final(self).actions == old(self).actions,
            final(self).current == old(self).current,
            final(self).routed == old(self).routed,
            final(self).report.steps@.len() == old(self).report.steps@.len(),
            final(self)@.steps == old(self)@.steps.update(index as int, state),
    {
        self.report.steps.set(index, SmokeStepReport { state });
        proof {
            assert(self@.steps =~= old(self)@.steps.update(index as int, state));
        }
    }

    /// Advances the scenario on the observation `now` (see `spec_tick`).
    pub fn tick(&mut self, now: &SmokeObservation) -> (r: Option<SmokeDecision>)
        requires
            old(self).wf(),
        ensures
            final(self).wf(),
            (final(self)@, r) == spec_tick(old(self)@, *now),
    {
        if self.current >= self.actions.len() {
            return None;
        }
        let current = self.current;
        let state = self.report.steps[current].state;
        if state == SmokeStepState::Pending {
            self.set_step(current, SmokeStepState::Running);
            self.routed = true;
            return Some(SmokeDecision::Route(self.actions[current].duplicate()));
        }
        let gated = match &self.actions[current] {
            SmokeAction::VisualCheckpoint(_) => !self.routed,
            SmokeAction::CloseAll => false,
        };
        let complete = !gated && action_is_complete(
            &self.actions[current],
            &CompletionContext::new(now),
        );
        if complete {
            self.set_step(current, SmokeStepState::Passed);
            let next = current + 1;
            self.current = next;
            if next < self.actions.len() {
                self.set_step(next, SmokeStepState::Running);
                self.routed = true;
                Some(SmokeDecision::Route(self.actions[next].duplicate()))
            } else {
                self.routed = false;
                None
            }
        } else if !self.routed {
            self.routed = true;
            Some(SmokeDecision::Route(self.actions[current].duplicate()))
        } else {
            None
        }
    }

    /// Marks the current route as not carried through: the current step cannot pass as a
    /// visual checkpoint until it has been routed again.
    pub fn defer_current_route(&mut self)
        requires
            old(self).wf(),
        ensures
            final(self).wf(),
            final(self)@ == (SmokeDriverView { routed: false, ..old(self)@ }),
    {
        self.routed = false;
    }
}

/// A visual checkpoint whose route was deferred does not pass on the next tick, whatever
/// evidence is observed: its step keeps running and the checkpoint is routed again.
pub proof fn lemma_deferred_checkpoint_is_rerouted(v: SmokeDriverView, now: SmokeObservation)
    requires
        spec_driver_wf(v),
        v.current < v.actions.len(),
        v.actions[v.current] is VisualCheckpoint,
        v.steps[v.current] == SmokeStepState::Running,
        !v.routed,
    ensures
        spec_tick(v, now).0.steps[v.current] == SmokeStepState::Running,
        spec_tick(v, now).0.current == v.current,
        spec_tick(v, now).1 == Some(SmokeDecision::Route(v.actions[v.current])),
{
}

/// A step passes only when its action is complete in the observation of that tick.
pub proof fn lemma_step_passes_only_when_complete(v: SmokeDriverView, now: SmokeObservation)
    requires
        spec_driver_wf(v),
        v.current < v.actions.len(),
    ensures
        spec_tick(v, now).0.steps[v.current] == SmokeStepState::Passed ==> spec_action_complete(
            v.actions[v.current],
            now,
            false,
        ),
{
}

/// On each tick the current step moves as follows. A waiting step starts running and its
/// action is routed. A running step passes exactly when it is complete: a close-all step once
/// shutdown is complete; a visual checkpoint, routed since it was last deferred, once the
/// evidence recorded under its id names that id, shows its state in the expected layout mode
/// and meets the visual contract. The step after a passed one starts running and is routed;
/// a step that does not pass keeps running.
pub proof fn lemma_steps_pass_when_complete(v: SmokeDriverView, now: SmokeObservation)
    requires
        spec_driver_wf(v),
        v.current < v.actions.len(),
    ensures
        ({
            let action = v.actions[v.current];
            let visual = now.counters.visual@;
            let complete = match action {
                SmokeAction::CloseAll => now.shutdown_complete,
                SmokeAction::VisualCheckpoint(c) => {
                    &&& v.routed
                    &&& visual.contains_key(c.id@)
                    &&& visual[c.id@].checkpoint_id@ == c.id@
                    &&& visual[c.id@].state == c.state
                    &&& visual[c.id@].layout == c.expected_mode
                    &&& spec_contract_passes(visual[c.id@])
                },
            };
            let (after, decision) = spec_tick(v, now);
            &&& v.steps[v.current] == SmokeStepState::Pending ==> after.current == v.current
                && after.steps[v.current] == SmokeStepState::Running && decision == Some(
                SmokeDecision::Route(action),
            )
            &&& v.steps[v.current] == SmokeStepState::Running ==> {
                &&& (after.steps[v.current] == SmokeStepState::Passed) <==> complete
                &&& !complete ==> after.current == v.current && after.steps[v.current]
                    == SmokeStepState::Running
                &&& complete ==> after.current == v.current + 1
                &&& complete && v.current + 1 < v.actions.len() ==> after.steps[v.current + 1]
                    == SmokeStepState::Running && decision == Some(
                    SmokeDecision::Route(v.actions[v.current + 1]),
                )
                &&& complete && v.current + 1 == v.actions.len() ==> decision is None
            }
        }),
{
}

} // verus!
