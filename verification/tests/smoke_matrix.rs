use rshell::pane_tree::{PaneId, PaneTree, SplitAxis};
use rshell::smoke_fixtures::{import_checkpoint, passing_import_evidence, passing_visual_evidence};
use rshell::smoke_matrix::{
    advance_smoke_checkpoint, advance_smoke_pane_shape, begin_smoke_checkpoint,
    close_visual_checkpoint, closable_visual_state, reset_for_checkpoint, finish_visual_checkpoint,
    empty_focus_step, smoke_checkpoint_ready, smoke_checkpoint_surface, CommandButtonFacts,
    EmptyFocusStep, ModalKind, PaneAction, SessionState, SmokeAdvance, SmokeBegin,
    SmokeClosingView, SmokeCommand, SmokeReadinessView, SmokeSurface, SmokeUiState, VisualCheckpointPhase,
};
use rshell::smoke_visual::{SmokeVisualState, VisualEvidenceMap};

fn view() -> SmokeReadinessView {
    SmokeReadinessView {
        terminal_canvas_mapped: false,
        content_dialog_mapped: false,
        session_states: Vec::new(),
        tab_count: 1,
        active_pane_tree: Some(PaneTree::leaf(PaneId(1))),
        editor_open: false,
        editor_mapped: false,
        open_modal: None,
        settings_mapped: false,
        import_mapped: false,
        recovery_displayed: false,
    }
}

fn ui() -> SmokeUiState {
    SmokeUiState {
        visual_stage_count: None,
        modal_escape_verified: false,
        modal_focus_restore_verified: false,
        pending_visual: None,
        visuals: VisualEvidenceMap::new(),
        visual_checkpoint: VisualCheckpointPhase::Observed,
        visual_completion_tick_pending: false,
    }
}

fn closed() -> SmokeClosingView {
    SmokeClosingView { surface_visible: false, modal_open: false, background_sensitive: true }
}

#[test]
fn beginning_a_checkpoint_sets_its_surface_in_motion() {
    assert_eq!(begin_smoke_checkpoint(SmokeVisualState::Empty), SmokeBegin::CloseAllTabs);
    assert_eq!(begin_smoke_checkpoint(SmokeVisualState::Editor), SmokeBegin::CreateConnection);
    assert_eq!(begin_smoke_checkpoint(SmokeVisualState::Settings), SmokeBegin::OpenSettings);
    assert_eq!(begin_smoke_checkpoint(SmokeVisualState::Import), SmokeBegin::OpenImport);
    assert_eq!(begin_smoke_checkpoint(SmokeVisualState::HostKey), SmokeBegin::Nothing);
    assert_eq!(begin_smoke_checkpoint(SmokeVisualState::Grid), SmokeBegin::RevealActiveTab);
    assert_eq!(smoke_checkpoint_surface(SmokeVisualState::Import), Some(SmokeSurface::Import));
    assert_eq!(
        smoke_checkpoint_surface(SmokeVisualState::Authentication),
        Some(SmokeSurface::Interaction)
    );
    assert_eq!(smoke_checkpoint_surface(SmokeVisualState::Grid), None);
    assert!(closable_visual_state(SmokeVisualState::Import));
    assert!(!closable_visual_state(SmokeVisualState::HostKey));
}

#[test]
fn readiness_follows_the_observed_shell() {
    let mut v = view();
    assert!(smoke_checkpoint_ready(SmokeVisualState::Single, &v));
    assert!(!smoke_checkpoint_ready(SmokeVisualState::Connected, &v));
    v.session_states = vec![SessionState::Connecting, SessionState::Connected];
    assert!(smoke_checkpoint_ready(SmokeVisualState::Connected, &v));
    v.session_states = vec![SessionState::Crashed];
    assert!(smoke_checkpoint_ready(SmokeVisualState::Failure, &v));
    v.open_modal = Some(ModalKind::Interaction);
    assert!(!smoke_checkpoint_ready(SmokeVisualState::HostKey, &v));
    v.session_states = vec![SessionState::AwaitingHostKey];
    assert!(smoke_checkpoint_ready(SmokeVisualState::HostKey, &v));
    v.open_modal = Some(ModalKind::Import);
    assert!(!smoke_checkpoint_ready(SmokeVisualState::Import, &v));
    v.import_mapped = true;
    assert!(smoke_checkpoint_ready(SmokeVisualState::Import, &v));
    v.tab_count = 20;
    assert!(smoke_checkpoint_ready(SmokeVisualState::TwentyTabs, &v));
    v.active_pane_tree = None;
    assert!(!smoke_checkpoint_ready(SmokeVisualState::Single, &v));
}

#[test]
fn pane_shapes_issue_one_command_per_pane_count() {
    let leaf = PaneTree::leaf(PaneId(1));
    let mut stage = None;
    assert_eq!(
        advance_smoke_pane_shape(&mut stage, SmokeVisualState::TopBottom3, Some(&leaf)),
        SmokeAdvance::Issue(SmokeCommand::ActivePaneAction(PaneAction::SplitVertical))
    );
    assert_eq!(stage, Some(1));
    assert_eq!(
        advance_smoke_pane_shape(&mut stage, SmokeVisualState::TopBottom3, Some(&leaf)),
        SmokeAdvance::Settled(false)
    );
    let two = leaf.clone().split(PaneId(1), SplitAxis::Vertical, PaneId(2)).unwrap();
    assert_eq!(
        advance_smoke_pane_shape(&mut stage, SmokeVisualState::TopBottom3, Some(&two)),
        SmokeAdvance::Issue(SmokeCommand::ActivePaneAction(PaneAction::SplitHorizontal))
    );
    let three = two.clone().split(PaneId(2), SplitAxis::Horizontal, PaneId(3)).unwrap();
    assert_eq!(
        advance_smoke_pane_shape(&mut stage, SmokeVisualState::TopBottom3, Some(&three)),
        SmokeAdvance::Settled(true)
    );
    assert_eq!(stage, None);
    assert_eq!(
        advance_smoke_pane_shape(&mut stage, SmokeVisualState::HSplit, Some(&two)),
        SmokeAdvance::Issue(SmokeCommand::ActivePaneAction(PaneAction::Close))
    );
    let mut stage = None;
    assert_eq!(
        advance_smoke_pane_shape(&mut stage, SmokeVisualState::Single, None),
        SmokeAdvance::Issue(SmokeCommand::NewLocalTab)
    );
}

#[test]
fn grid_shape_follows_the_planned_split() {
    let two = PaneTree::leaf(PaneId(1)).split(PaneId(1), SplitAxis::Horizontal, PaneId(2)).unwrap();
    let mut stage = None;
    assert_eq!(
        advance_smoke_pane_shape(&mut stage, SmokeVisualState::Grid, Some(&two)),
        SmokeAdvance::Issue(SmokeCommand::PaneAction {
            pane: PaneId(1),
            action: PaneAction::SplitVertical,
        })
    );
    let parallel = two.split(PaneId(1), SplitAxis::Horizontal, PaneId(3)).unwrap();
    let mut stage = None;
    assert_eq!(
        advance_smoke_pane_shape(&mut stage, SmokeVisualState::Grid, Some(&parallel)),
        SmokeAdvance::Issue(SmokeCommand::ActivePaneAction(PaneAction::Close))
    );
}

#[test]
fn advancing_waits_for_modals_and_counts_tabs() {
    let mut state = ui();
    let mut v = view();
    v.content_dialog_mapped = true;
    assert_eq!(
        advance_smoke_checkpoint(&mut state, SmokeVisualState::Connected, &v),
        SmokeAdvance::Settled(false)
    );
    v.content_dialog_mapped = false;
    v.open_modal = Some(ModalKind::Settings);
    assert_eq!(
        advance_smoke_checkpoint(&mut state, SmokeVisualState::Connected, &v),
        SmokeAdvance::Settled(false)
    );
    v.open_modal = None;
    v.tab_count = 5;
    assert_eq!(
        advance_smoke_checkpoint(&mut state, SmokeVisualState::TwentyTabs, &v),
        SmokeAdvance::Issue(SmokeCommand::NewLocalTab)
    );
    assert_eq!(state.visual_stage_count, Some(5));
    assert_eq!(
        advance_smoke_checkpoint(&mut state, SmokeVisualState::TwentyTabs, &v),
        SmokeAdvance::Settled(false)
    );
    v.tab_count = 20;
    assert_eq!(
        advance_smoke_checkpoint(&mut state, SmokeVisualState::TwentyTabs, &v),
        SmokeAdvance::Settled(true)
    );
    assert_eq!(state.visual_stage_count, None);
    v.tab_count = 0;
    v.terminal_canvas_mapped = true;
    assert_eq!(
        advance_smoke_checkpoint(&mut state, SmokeVisualState::Empty, &v),
        SmokeAdvance::Settled(false)
    );
    v.terminal_canvas_mapped = false;
    assert_eq!(
        advance_smoke_checkpoint(&mut state, SmokeVisualState::Empty, &v),
        SmokeAdvance::FocusEmptyCommandBar
    );
}

#[test]
fn closing_a_modal_needs_its_surface_and_a_handled_escape() {
    let checkpoint = import_checkpoint();
    let mut state = ui();
    assert_eq!(close_visual_checkpoint(&mut state, &checkpoint, None), Err("visual_modal_unavailable"));
    assert_eq!(
        close_visual_checkpoint(&mut state, &checkpoint, Some(false)),
        Err("visual_escape_not_handled")
    );
    assert_eq!(close_visual_checkpoint(&mut state, &checkpoint, Some(true)), Ok(false));
    assert!(state.modal_escape_verified);
    assert_eq!(state.visual_checkpoint, VisualCheckpointPhase::Closing);
    let mut connected = checkpoint.clone();
    connected.state = SmokeVisualState::Connected;
    let mut state = ui();
    assert_eq!(close_visual_checkpoint(&mut state, &connected, None), Ok(true));
    assert_eq!(state.visual_checkpoint, VisualCheckpointPhase::Complete);
}

#[test]
fn finishing_publishes_only_passing_evidence_of_the_checkpoint() {
    let checkpoint = import_checkpoint();
    let mut state = ui();
    state.modal_escape_verified = true;
    let mut visible = closed();
    visible.surface_visible = true;
    assert_eq!(finish_visual_checkpoint(&mut state, &checkpoint, visible, Ok(true)), Ok(false));
    assert_eq!(finish_visual_checkpoint(&mut state, &checkpoint, closed(), Err("no_root")), Err("no_root"));
    assert_eq!(finish_visual_checkpoint(&mut state, &checkpoint, closed(), Ok(false)), Ok(false));
    assert_eq!(
        finish_visual_checkpoint(&mut state, &checkpoint, closed(), Ok(true)),
        Err("visual_evidence_missing")
    );

    state.pending_visual = Some(passing_visual_evidence());
    assert_eq!(
        finish_visual_checkpoint(&mut state, &checkpoint, closed(), Ok(true)),
        Err("visual_evidence_mismatch")
    );
    assert!(state.visuals.get(&checkpoint.id).is_none());

    let mut stale = passing_import_evidence(&checkpoint);
    stale.accessibility.focus_restored = false;
    stale.accessibility.escape_cancelled = false;
    state.pending_visual = Some(stale);
    assert_eq!(finish_visual_checkpoint(&mut state, &checkpoint, closed(), Ok(true)), Ok(true));
    let published = state.visuals.get(&checkpoint.id).unwrap();
    assert!(published.accessibility.focus_restored && published.accessibility.escape_cancelled);
    assert!(state.pending_visual.is_none());
    assert!(state.visual_completion_tick_pending);
    assert_eq!(state.visual_checkpoint, VisualCheckpointPhase::Complete);
}

#[test]
fn finishing_without_a_verified_escape_fails_the_contract() {
    let checkpoint = import_checkpoint();
    let mut state = ui();
    state.pending_visual = Some(passing_import_evidence(&checkpoint));
    assert_eq!(
        finish_visual_checkpoint(&mut state, &checkpoint, closed(), Ok(true)),
        Err("visual_checkpoint_incomplete")
    );
    assert!(state.visuals.get(&checkpoint.id).is_none());
    assert!(state.pending_visual.is_some());
}

fn button(in_command_bar: bool, width: i32) -> CommandButtonFacts {
    CommandButtonFacts {
        mapped: true,
        width,
        height: 36,
        sensitive: true,
        focusable: true,
        in_command_bar,
        has_focus: false,
        is_root_focus: false,
    }
}

#[test]
fn empty_focus_targets_the_first_eligible_command_button() {
    assert_eq!(empty_focus_step(&Vec::new()), EmptyFocusStep::NoButton);
    let outside = button(false, 40);
    let unallocated = button(true, 0);
    assert_eq!(empty_focus_step(&vec![outside, unallocated]), EmptyFocusStep::NoButton);
    let first = button(true, 40);
    let second = button(true, 40);
    assert_eq!(
        empty_focus_step(&vec![outside, unallocated, first, second]),
        EmptyFocusStep::Grab(2)
    );
    let mut focused = first;
    focused.has_focus = true;
    assert_eq!(empty_focus_step(&vec![outside, focused, second]), EmptyFocusStep::Grab(1));
    focused.is_root_focus = true;
    assert_eq!(empty_focus_step(&vec![outside, focused, second]), EmptyFocusStep::Ready);
    let mut later_focused = second;
    later_focused.has_focus = true;
    later_focused.is_root_focus = true;
    assert_eq!(empty_focus_step(&vec![first, later_focused]), EmptyFocusStep::Grab(0));
}

#[test]
fn a_new_closable_checkpoint_starts_unverified() {
    let checkpoint = import_checkpoint();
    let mut state = ui();
    state.modal_escape_verified = true;
    state.modal_focus_restore_verified = true;
    state.visual_checkpoint = VisualCheckpointPhase::Complete;
    state.pending_visual = Some(passing_visual_evidence());
    reset_for_checkpoint(&mut state, &checkpoint);
    assert!(!state.modal_escape_verified && !state.modal_focus_restore_verified);
    assert!(state.pending_visual.is_none());
    assert_eq!(state.visual_checkpoint, VisualCheckpointPhase::Observed);

    state.pending_visual = Some(passing_import_evidence(&checkpoint));
    state.modal_escape_verified = true;
    let mut connected = checkpoint.clone();
    connected.state = SmokeVisualState::Connected;
    connected.id = "standard-import".into();
    reset_for_checkpoint(&mut state, &connected);
    assert!(state.pending_visual.is_some());
    assert!(state.modal_escape_verified);
}
