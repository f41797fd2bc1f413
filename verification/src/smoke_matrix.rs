//! Decisions of the visual smoke matrix: how a checkpoint begins, when the shell has reached
//! the checkpoint's state, which command moves it closer, and how a modal checkpoint is
//! closed and its evidence published. The application gathers what it observes into
//! `SmokeReadinessView`, calls these functions, and carries out the command they return.

use vstd::prelude::*;
use crate::pane_tree::{
    is_grid, nested_axes, next_grid_split, root_split, spec_is_grid, spec_nested_axes,
    spec_next_grid_split, spec_root_split, PaneId, PaneTree, SplitAxis,
};
use crate::smoke_visual::{
    modal_visual_state, spec_contract_passes, spec_modal_visual_state,
    SmokeVisualCheckpoint, SmokeVisualCheckpointEvidence, SmokeVisualState, VisualEvidenceMap,
};

verus! {

/// The lifecycle state of a terminal session.
#[derive(Clone, Copy, Debug, PartialEq, Eq, Structural)]
pub enum SessionState {
    Connecting,
    Connected,
    AwaitingHostKey,
    AwaitingAuthentication,
    Disconnected,
    Failed,
    Crashed,
}

/// The kind of modal dialog open over the shell.
#[derive(Clone, Copy, Debug, PartialEq, Eq, Structural)]
pub enum ModalKind {
    Settings,
    Import,
    Interaction,
}

/// An operation on a pane.
#[derive(Clone, Copy, Debug, PartialEq, Eq, Structural)]
pub enum PaneAction {
    SplitHorizontal,
    SplitVertical,
    Close,
}

/// A command the application carries out for the smoke matrix.
#[derive(Clone, Copy, Debug, PartialEq, Eq, Structural)]
pub enum SmokeCommand {
    /// Open a new local terminal tab.
    NewLocalTab,
    /// Activate `pane`, then apply `action` to it.
    PaneAction { pane: PaneId, action: PaneAction },
    /// Apply `action` to the active pane.
    ActivePaneAction(PaneAction),
}

/// The outcome of advancing a checkpoint.
#[derive(Clone, Copy, Debug, PartialEq, Eq, Structural)]
pub enum SmokeAdvance {
    /// Nothing to do; whether the checkpoint's state is reached.
    Settled(bool),
    /// Carry out the command; the state is not reached yet.
    Issue(SmokeCommand),
    /// The empty shell is reached: focus an enabled command-bar button; the checkpoint is
    /// ready once that button holds the focus.
    FocusEmptyCommandBar,
}

/// What beginning a checkpoint sets in motion.
#[derive(Clone, Copy, Debug, PartialEq, Eq, Structural)]
pub enum SmokeBegin {
    /// Close every open tab.
    CloseAllTabs,
    /// Open the connection editor for a new connection.
    CreateConnection,
    OpenSettings,
    OpenImport,
    /// Bring the active tab into view.
    RevealActiveTab,
    /// The checkpoint advances on its own.
    Nothing,
}

/// The surface that shows a checkpoint's modal.
#[derive(Clone, Copy, Debug, PartialEq, Eq, Structural)]
pub enum SmokeSurface {
    Editor,
    Settings,
    Import,
    /// The host-key and authentication interaction dialog.
    Interaction,
}

/// What the application observed of the shell, for readiness decisions.
#[derive(Clone, Debug)]
pub struct SmokeReadinessView {
    /// A terminal canvas is mapped somewhere in the shell.
    pub terminal_canvas_mapped: bool,
    /// A content-dialog surface is mapped somewhere in the shell.
    pub content_dialog_mapped: bool,
    pub session_states: Vec<SessionState>,
    pub tab_count: usize,
    /// The pane layout of the active tab, if a tab is active.
    pub active_pane_tree: Option<PaneTree>,
    pub editor_open: bool,
    pub editor_mapped: bool,
    pub open_modal: Option<ModalKind>,
    pub settings_mapped: bool,
    pub import_mapped: bool,
    /// A recovery notice is displayed.
    pub recovery_displayed: bool,
}

/// Where a visual checkpoint's closing stands.
#[derive(Clone, Copy, Debug, PartialEq, Eq, Structural)]
pub enum VisualCheckpointPhase {
    Observed,
    Closing,
    Complete,
}

/// Smoke state kept by the main window between ticks.
#[derive(Clone, Debug)]
pub struct SmokeUiState {
    /// The pane or tab count at which the last command was issued.
    pub visual_stage_count: Option<usize>,
    pub modal_escape_verified: bool,
    pub modal_focus_restore_verified: bool,
    /// Evidence captured for a modal checkpoint, held back until the modal has closed.
    pub pending_visual: Option<SmokeVisualCheckpointEvidence>,
    /// Published evidence, by checkpoint id.
    pub visuals: VisualEvidenceMap,
    pub visual_checkpoint: VisualCheckpointPhase,
    pub visual_completion_tick_pending: bool,
}

/// What the application observed of a closing modal checkpoint.
#[derive(Clone, Copy, Debug)]
pub struct SmokeClosingView {
    /// The checkpoint's surface is still visible.
    pub surface_visible: bool,
    /// A modal dialog is still open.
    pub modal_open: bool,
    /// The shell background accepts input again.
    pub background_sensitive: bool,
}

/// The amount of tabs the TwentyTabs checkpoint needs.
pub const TWENTY_TABS: usize = 20;

pub open spec fn spec_is_pane_shape(state: SmokeVisualState) -> bool {
    match state {
        SmokeVisualState::Single | SmokeVisualState::HSplit | SmokeVisualState::VSplit
        | SmokeVisualState::TopBottom3 | SmokeVisualState::Grid => true,
        _ => false,
    }
}

/// States whose checkpoint closes its modal with Escape before publishing evidence.
pub open spec fn spec_closable_visual_state(state: SmokeVisualState) -> bool {
    match state {
        SmokeVisualState::Editor | SmokeVisualState::Settings | SmokeVisualState::Import => true,
        _ => false,
    }
}

pub open spec fn spec_begin(state: SmokeVisualState) -> SmokeBegin {
    match state {
        SmokeVisualState::Empty => SmokeBegin::CloseAllTabs,
        SmokeVisualState::Editor => SmokeBegin::CreateConnection,
        SmokeVisualState::Settings => SmokeBegin::OpenSettings,
        SmokeVisualState::Import => SmokeBegin::OpenImport,
        SmokeVisualState::TwentyTabs | SmokeVisualState::HostKey
        | SmokeVisualState::Authentication => SmokeBegin::Nothing,
        _ => SmokeBegin::RevealActiveTab,
    }
}

pub open spec fn any_session(states: Seq<SessionState>, target: SessionState) -> bool {
    exists|i: int| 0 <= i < states.len() && states[i] == target
}

/// Whether the layout `tree` has the shape of the pane checkpoint `state`.
pub open spec fn spec_shape_ready(state: SmokeVisualState, tree: PaneTree) -> bool {
    match state {
        SmokeVisualState::Single => tree.count() == 1,
        SmokeVisualState::HSplit => spec_root_split(tree) == Some((SplitAxis::Horizontal, 2nat)),
        SmokeVisualState::VSplit => spec_root_split(tree) == Some((SplitAxis::Vertical, 2nat)),
        SmokeVisualState::TopBottom3 => tree.count() == 3 && spec_nested_axes(tree),
        SmokeVisualState::Grid => spec_is_grid(tree),
        _ => false,
    }
}

/// The shell is empty: no tab is open and no terminal canvas is mapped.
pub open spec fn spec_empty_ready(view: SmokeReadinessView) -> bool {
    view.tab_count == 0 && !view.terminal_canvas_mapped
}

/// A modal dialog is open or a content-dialog surface is mapped.
pub open spec fn spec_modal_surface_open(view: SmokeReadinessView) -> bool {
    view.open_modal is Some || view.content_dialog_mapped
}

/// Whether the shell observed in `view` shows the checkpoint state `state`.
pub open spec fn spec_checkpoint_ready(state: SmokeVisualState, view: SmokeReadinessView) -> bool {
    match state {
        SmokeVisualState::Empty => spec_empty_ready(view),
        SmokeVisualState::Connected => any_session(view.session_states@, SessionState::Connected),
        SmokeVisualState::TwentyTabs => view.tab_count >= TWENTY_TABS,
        SmokeVisualState::Single | SmokeVisualState::HSplit | SmokeVisualState::VSplit
        | SmokeVisualState::TopBottom3 | SmokeVisualState::Grid => match view.active_pane_tree {
            Some(tree) => spec_shape_ready(state, tree),
            None => false,
        },
        SmokeVisualState::Editor => view.editor_open && view.editor_mapped,
        SmokeVisualState::Settings => view.open_modal == Some(ModalKind::Settings)
            && view.settings_mapped,
        SmokeVisualState::Import => view.open_modal == Some(ModalKind::Import)
            && view.import_mapped,
        SmokeVisualState::HostKey => view.open_modal == Some(ModalKind::Interaction)
            && any_session(view.session_states@, SessionState::AwaitingHostKey),
        SmokeVisualState::Authentication => view.open_modal == Some(ModalKind::Interaction)
            && any_session(view.session_states@, SessionState::AwaitingAuthentication),
        SmokeVisualState::Failure => any_session(view.session_states@, SessionState::Failed)
            || any_session(view.session_states@, SessionState::Crashed),
        SmokeVisualState::Recovery => view.recovery_displayed,
    }
}

/// The pane operation that splits along `axis`.
pub open spec fn spec_split_action(axis: SplitAxis) -> PaneAction {
    match axis {
        SplitAxis::Horizontal => PaneAction::SplitHorizontal,
        SplitAxis::Vertical => PaneAction::SplitVertical,
    }
}

/// The operation on the active pane that moves a layout of `count` panes toward `state`:
/// split the single pane for the two-pane shapes, split twice for three panes, and close a
/// pane otherwise; a single pane that is not the shape opens a new tab instead.
pub open spec fn spec_shape_action(state: SmokeVisualState, count: nat) -> Option<PaneAction> {
    if state == SmokeVisualState::HSplit && count == 1 {
        Some(PaneAction::SplitHorizontal)
    } else if state == SmokeVisualState::VSplit && count == 1 {
        Some(PaneAction::SplitVertical)
    } else if state == SmokeVisualState::TopBottom3 && count == 1 {
        Some(PaneAction::SplitVertical)
    } else if state == SmokeVisualState::TopBottom3 && count == 2 {
        Some(PaneAction::SplitHorizontal)
    } else if count >= 2 {
        Some(PaneAction::Close)
    } else {
        None
    }
}

/// One step toward the pane checkpoint `state`, and the stage count afterwards. Without an
/// active tab a tab is opened. A layout of the wanted shape is ready. While the pane count has
/// not changed since the last command, nothing is issued. Otherwise a grid grows by its
/// planned split, or closes a pane when it cannot grow into a grid; other shapes apply
/// `spec_shape_action`.
pub open spec fn spec_advance_pane_shape(
    state: SmokeVisualState,
    active: Option<PaneTree>,
    stage: Option<usize>,
) -> (SmokeAdvance, Option<usize>) {
    match active {
        None => (SmokeAdvance::Issue(SmokeCommand::NewLocalTab), stage),
        Some(tree) => {
            let count = tree.count();
            if spec_shape_ready(state, tree) {
                (SmokeAdvance::Settled(true), None)
            } else if stage matches Some(c) && c == count {
                (SmokeAdvance::Settled(false), stage)
            } else if state == SmokeVisualState::Grid {
                (
                    match spec_next_grid_split(tree) {
                        Some((pane, axis)) => SmokeAdvance::Issue(
                            SmokeCommand::PaneAction { pane, action: spec_split_action(axis) },
                        ),
                        None => SmokeAdvance::Issue(
                            SmokeCommand::ActivePaneAction(PaneAction::Close),
                        ),
                    },
                    Some(count as usize),
                )
            } else {
                (
                    match spec_shape_action(state, count) {
                        Some(action) => SmokeAdvance::Issue(SmokeCommand::ActivePaneAction(action)),
                        None => SmokeAdvance::Issue(SmokeCommand::NewLocalTab),
                    },
                    Some(count as usize),
                )
            }
        },
    }
}

/// One step toward the checkpoint `state`, and the stage count afterwards. A non-modal
/// checkpoint waits while a modal surface is open; pane shapes advance by
/// `spec_advance_pane_shape`; the TwentyTabs checkpoint opens tabs one at a time until twenty
/// are open; otherwise readiness is `spec_checkpoint_ready`, and a ready empty shell still
/// needs its command-bar focus.
pub open spec fn spec_advance_checkpoint(
    state: SmokeVisualState,
    view: SmokeReadinessView,
    stage: Option<usize>,
) -> (SmokeAdvance, Option<usize>) {
    if !spec_modal_visual_state(state) && spec_modal_surface_open(view) {
        (SmokeAdvance::Settled(false), stage)
    } else if spec_is_pane_shape(state) {
        spec_advance_pane_shape(state, view.active_pane_tree, stage)
    } else if state == SmokeVisualState::TwentyTabs && view.tab_count < TWENTY_TABS {
        if stage == Some(view.tab_count) {
            (SmokeAdvance::Settled(false), stage)
        } else {
            (SmokeAdvance::Issue(SmokeCommand::NewLocalTab), Some(view.tab_count))
        }
    } else if spec_checkpoint_ready(state, view) && state == SmokeVisualState::Empty {
        (SmokeAdvance::FocusEmptyCommandBar, None)
    } else {
        (SmokeAdvance::Settled(spec_checkpoint_ready(state, view)), None)
    }
}

/// What beginning the checkpoint `state` sets in motion.
pub fn begin_smoke_checkpoint(state: SmokeVisualState) -> (r: SmokeBegin)
    ensures
        r == spec_begin(state),
{
    match state {
        SmokeVisualState::Empty => SmokeBegin::CloseAllTabs,
        SmokeVisualState::Editor => SmokeBegin::CreateConnection,
        SmokeVisualState::Settings => SmokeBegin::OpenSettings,
        SmokeVisualState::Import => SmokeBegin::OpenImport,
        SmokeVisualState::TwentyTabs | SmokeVisualState::HostKey
        | SmokeVisualState::Authentication => SmokeBegin::Nothing,
        _ => SmokeBegin::RevealActiveTab,
    }
}

pub open spec fn spec_checkpoint_surface(state: SmokeVisualState) -> Option<SmokeSurface> {
    match state {
        SmokeVisualState::Editor => Some(SmokeSurface::Editor),
        SmokeVisualState::Settings => Some(SmokeSurface::Settings),
        SmokeVisualState::Import => Some(SmokeSurface::Import),
        SmokeVisualState::HostKey | SmokeVisualState::Authentication => Some(
            SmokeSurface::Interaction,
        ),
        _ => None,
    }
}

/// The surface that shows the checkpoint `state`, for modal checkpoints.
pub fn smoke_checkpoint_surface(state: SmokeVisualState) -> (r: Option<SmokeSurface>)
    ensures
        r == spec_checkpoint_surface(state),
        r is Some <==> spec_modal_visual_state(state),
{
    match state {
        SmokeVisualState::Editor => Some(SmokeSurface::Editor),
        SmokeVisualState::Settings => Some(SmokeSurface::Settings),
        SmokeVisualState::Import => Some(SmokeSurface::Import),
        SmokeVisualState::HostKey | SmokeVisualState::Authentication => Some(
            SmokeSurface::Interaction,
        ),
        _ => None,
    }
}

/// Whether the checkpoint `state` closes its modal with Escape before publishing evidence.
pub fn closable_visual_state(state: SmokeVisualState) -> (r: bool)
    ensures
        r == spec_closable_visual_state(state),
        r <==> (state == SmokeVisualState::Editor || state == SmokeVisualState::Settings || state
            == SmokeVisualState::Import),
{
    match state {
        SmokeVisualState::Editor | SmokeVisualState::Settings | SmokeVisualState::Import => true,
        _ => false,
    }
}

fn is_pane_shape(state: SmokeVisualState) -> (r: bool)
    ensures
        r == spec_is_pane_shape(state),
{
    match state {
        SmokeVisualState::Single | SmokeVisualState::HSplit | SmokeVisualState::VSplit
        | SmokeVisualState::TopBottom3 | SmokeVisualState::Grid => true,
        _ => false,
    }
}

fn has_session(states: &Vec<SessionState>, target: SessionState) -> (r: bool)
    ensures
        r == any_session(states@, target),
{
    let mut i: usize = 0;
    while i < states.len()
        invariant
            i <= states@.len(),
            forall|j: int| 0 <= j < i ==> states@[j] != target,
        decreases states@.len() - i,
    {
        if states[i] == target {
            return true;
        }
        i = i + 1;
    }
    false
}

fn pane_count(tree: &PaneTree) -> (r: usize)
    ensures
        r == tree.count(),
{
    let ids = tree.pane_ids();
    proof {
        crate::pane_tree::lemma_ids_count(*tree);
    }
    ids.len()
}

fn shape_ready(state: SmokeVisualState, tree: &PaneTree) -> (r: bool)
    ensures
        r == spec_shape_ready(state, *tree),
{
    match state {
        SmokeVisualState::Single => pane_count(tree) == 1,
        SmokeVisualState::HSplit => match root_split(tree) {
            Some((axis, count)) => axis == SplitAxis::Horizontal && count == 2,
            None => false,
        },
        SmokeVisualState::VSplit => match root_split(tree) {
            Some((axis, count)) => axis == SplitAxis::Vertical && count == 2,
            None => false,
        },
        SmokeVisualState::TopBottom3 => pane_count(tree) == 3 && nested_axes(tree),
        SmokeVisualState::Grid => is_grid(tree),
        _ => false,
    }
}

/// Whether the shell observed in `view` shows the checkpoint state `state`.
pub fn smoke_checkpoint_ready(state: SmokeVisualState, view: &SmokeReadinessView) -> (r: bool)
    ensures
        r == spec_checkpoint_ready(state, *view),
{
    match state {
        SmokeVisualState::Empty => view.tab_count == 0 && !view.terminal_canvas_mapped,
        SmokeVisualState::Connected => has_session(&view.session_states, SessionState::Connected),
        SmokeVisualState::TwentyTabs => view.tab_count >= TWENTY_TABS,
        SmokeVisualState::Single | SmokeVisualState::HSplit | SmokeVisualState::VSplit
        | SmokeVisualState::TopBottom3 | SmokeVisualState::Grid => match &view.active_pane_tree {
            Some(tree) => shape_ready(state, tree),
            None => false,
        },
        SmokeVisualState::Editor => view.editor_open && view.editor_mapped,
        SmokeVisualState::Settings => view.open_modal == Some(ModalKind::Settings)
            && view.settings_mapped,
        SmokeVisualState::Import => view.open_modal == Some(ModalKind::Import)
            && view.import_mapped,
        SmokeVisualState::HostKey => view.open_modal == Some(ModalKind::Interaction)
            && has_session(&view.session_states, SessionState::AwaitingHostKey),
        SmokeVisualState::Authentication => view.open_modal == Some(ModalKind::Interaction)
            && has_session(&view.session_states, SessionState::AwaitingAuthentication),
        SmokeVisualState::Failure => has_session(&view.session_states, SessionState::Failed)
            || has_session(&view.session_states, SessionState::Crashed),
        SmokeVisualState::Recovery => view.recovery_displayed,
    }
}

fn split_action(axis: SplitAxis) -> (r: PaneAction)
    ensures
        r == spec_split_action(axis),
{
    match axis {
        SplitAxis::Horizontal => PaneAction::SplitHorizontal,
        SplitAxis::Vertical => PaneAction::SplitVertical,
    }
}

/// One step toward the pane checkpoint `state`; records the stage count in `stage`
/// (see `spec_advance_pane_shape`).
pub fn advance_smoke_pane_shape(
    stage: &mut Option<usize>,
    state: SmokeVisualState,
    active: Option<&PaneTree>,
) -> (r: SmokeAdvance)
    ensures
        (r, *final(stage)) == spec_advance_pane_shape(
            state,
            match active {
                Some(tree) => Some(*tree),
                None => None,
            },
            *old(stage),
        ),
{
    let tree = match active {
        None => {
            return SmokeAdvance::Issue(SmokeCommand::NewLocalTab);
        },
        Some(tree) => tree,
    };
    let count = pane_count(tree);
    if shape_ready(state, tree) {
        *stage = None;
        return SmokeAdvance::Settled(true);
    }
    if *stage == Some(count) {
        return SmokeAdvance::Settled(false);
    }
    *stage = Some(count);
    if state == SmokeVisualState::Grid {
        return match next_grid_split(tree) {
            Some((pane, axis)) => SmokeAdvance::Issue(
                SmokeCommand::PaneAction { pane, action: split_action(axis) },
            ),
            None => SmokeAdvance::Issue(SmokeCommand::ActivePaneAction(PaneAction::Close)),
        };
    }
    let action = if state == SmokeVisualState::HSplit && count == 1 {
        Some(PaneAction::SplitHorizontal)
    } else if state == SmokeVisualState::VSplit && count == 1 {
        Some(PaneAction::SplitVertical)
    } else if state == SmokeVisualState::TopBottom3 && count == 1 {
        Some(PaneAction::SplitVertical)
    } else if state == SmokeVisualState::TopBottom3 && count == 2 {
        Some(PaneAction::SplitHorizontal)
    } else if count >= 2 {
        Some(PaneAction::Close)
    } else {
        None
    };
    match action {
        Some(action) => SmokeAdvance::Issue(SmokeCommand::ActivePaneAction(action)),
        None => SmokeAdvance::Issue(SmokeCommand::NewLocalTab),
    }
}

/// What the application observed of one button of the empty shell.
#[derive(Clone, Copy, Debug, PartialEq, Eq, Structural)]
pub struct CommandButtonFacts {
    pub mapped: bool,
    /// Allocated width, in logical pixels.
    pub width: i32,
    /// Allocated height, in logical pixels.
    pub height: i32,
    pub sensitive: bool,
    pub focusable: bool,
    /// An ancestor of the button carries the `command-bar` class.
    pub in_command_bar: bool,
    /// The button has the keyboard focus.
    pub has_focus: bool,
    /// The button is the focus widget of its root.
    pub is_root_focus: bool,
}

/// What preparing the empty shell's command-bar focus calls for.
#[derive(Clone, Copy, Debug, PartialEq, Eq, Structural)]
pub enum EmptyFocusStep {
    /// No command-bar button can take the focus; the checkpoint is not ready.
    NoButton,
    /// The command-bar button holds the focus; the checkpoint is ready.
    Ready,
    /// Grab the focus for the button at this index (then redraw); not ready yet.
    Grab(usize),
}

/// A button that can show the empty shell's focus ring: mapped, allocated, sensitive,
/// focusable, and inside the command bar.
pub open spec fn spec_focus_eligible(b: CommandButtonFacts) -> bool {
    &&& b.mapped
    &&& b.width > 0
    &&& b.height > 0
    &&& b.sensitive
    &&& b.focusable
    &&& b.in_command_bar
}

/// `i` is the first eligible button.
pub open spec fn spec_first_eligible(buttons: Seq<CommandButtonFacts>, i: int) -> bool {
    &&& 0 <= i < buttons.len()
    &&& spec_focus_eligible(buttons[i])
    &&& forall|j: int| 0 <= j < i ==> !spec_focus_eligible(#[trigger] buttons[j])
}

fn focus_eligible(b: &CommandButtonFacts) -> (r: bool)
    ensures
        r == spec_focus_eligible(*b),
{
    b.mapped && b.width > 0 && b.height > 0 && b.sensitive && b.focusable && b.in_command_bar
}

/// The empty shell's focus step: the first eligible button (`spec_focus_eligible`) is
/// ready when it has the focus and is its root's focus widget, and is asked to grab the
/// focus otherwise; without an eligible button there is nothing to focus.
pub fn empty_focus_step(buttons: &Vec<CommandButtonFacts>) -> (r: EmptyFocusStep)
    ensures
        r == EmptyFocusStep::NoButton <==> forall|i: int|
            0 <= i < buttons@.len() ==> !spec_focus_eligible(#[trigger] buttons@[i]),
        r == EmptyFocusStep::Ready <==> exists|i: int|
            spec_first_eligible(buttons@, i) && buttons@[i].has_focus && buttons@[i].is_root_focus,
        r matches EmptyFocusStep::Grab(i) ==> spec_first_eligible(buttons@, i as int) && !(
        buttons@[i as int].has_focus && buttons@[i as int].is_root_focus),
{
    let mut i: usize = 0;
    while i < buttons.len()
        invariant
            i <= buttons@.len(),
            forall|j: int| 0 <= j < i ==> !spec_focus_eligible(#[trigger] buttons@[j]),
        decreases buttons@.len() - i,
    {
        let button = &buttons[i];
        if focus_eligible(button) {
            proof {
                assert(spec_first_eligible(buttons@, i as int));
                assert forall|k: int| spec_first_eligible(buttons@, k) implies k == i by {
                    if k < i {
                        assert(!spec_focus_eligible(buttons@[k]));
                    } else if k > i {
                        assert(!spec_focus_eligible(buttons@[i as int]));
                    }
                }
            }
            if button.has_focus && button.is_root_focus {
                return EmptyFocusStep::Ready;
            } else {
                return EmptyFocusStep::Grab(i);
            }
        }
        i = i + 1;
    }
    EmptyFocusStep::NoButton
}

/// One step toward the checkpoint `state` on the shell observed in `view`
/// (see `spec_advance_checkpoint`); only the stage count of `ui` changes.
pub fn advance_smoke_checkpoint(
    ui: &mut SmokeUiState,
    state: SmokeVisualState,
    view: &SmokeReadinessView,
) -> (r: SmokeAdvance)
    ensures
        (r, final(ui).visual_stage_count) == spec_advance_checkpoint(
            state,
            *view,
            old(ui).visual_stage_count,
        ),
        final(ui).modal_escape_verified == old(ui).modal_escape_verified,
        final(ui).modal_focus_restore_verified == old(ui).modal_focus_restore_verified,
        final(ui).pending_visual == old(ui).pending_visual,
        final(ui).visuals == old(ui).visuals,
        final(ui).visual_checkpoint == old(ui).visual_checkpoint,
        final(ui).visual_completion_tick_pending == old(ui).visual_completion_tick_pending,
{
    if !modal_visual_state(state) && (view.open_modal.is_some() || view.content_dialog_mapped) {
        return SmokeAdvance::Settled(false);
    }
    if is_pane_shape(state) {
        return advance_smoke_pane_shape(
            &mut ui.visual_stage_count,
            state,
            view.active_pane_tree.as_ref(),
        );
    }
    if state == SmokeVisualState::TwentyTabs && view.tab_count < TWENTY_TABS {
        if ui.visual_stage_count == Some(view.tab_count) {
            return SmokeAdvance::Settled(false);
        }
        ui.visual_stage_count = Some(view.tab_count);
        return SmokeAdvance::Issue(SmokeCommand::NewLocalTab);
    }
    ui.visual_stage_count = None;
    let ready = smoke_checkpoint_ready(state, view);
    if ready && state == SmokeVisualState::Empty {
        return SmokeAdvance::FocusEmptyCommandBar;
    }
    SmokeAdvance::Settled(ready)
}

/// Prepares the smoke state for a newly begun checkpoint: evidence held back for another
/// checkpoint id is dropped, a closable modal starts with its Escape and focus-return results
/// unverified (never borrowed from an earlier modal), and the checkpoint is observed afresh.
pub fn reset_for_checkpoint(ui: &mut SmokeUiState, checkpoint: &SmokeVisualCheckpoint)
    ensures
        final(ui).pending_visual == match old(ui).pending_visual {
            Some(p) => if p.checkpoint_id@ == checkpoint.id@ {
                Some(p)
            } else {
                None
            },
            None => None,
        },
        spec_closable_visual_state(checkpoint.state) ==> !final(ui).modal_escape_verified
            && !final(ui).modal_focus_restore_verified,
        !spec_closable_visual_state(checkpoint.state) ==> final(ui).modal_escape_verified
            == old(ui).modal_escape_verified && final(ui).modal_focus_restore_verified == old(
            ui,
        ).modal_focus_restore_verified,
        final(ui).visual_checkpoint == VisualCheckpointPhase::Observed,
        final(ui).visual_stage_count == old(ui).visual_stage_count,
        final(ui).visuals == old(ui).visuals,
        final(ui).visual_completion_tick_pending == old(ui).visual_completion_tick_pending,
{
    let stale = match &ui.pending_visual {
        Some(pending) => pending.checkpoint_id != checkpoint.id,
        None => false,
    };
    if stale {
        ui.pending_visual = None;
    }
    if closable_visual_state(checkpoint.state) {
        ui.modal_escape_verified = false;
        ui.modal_focus_restore_verified = false;
    }
    ui.visual_checkpoint = VisualCheckpointPhase::Observed;
}

/// Starts closing the checkpoint's modal. A closable checkpoint needs its surface
/// (`escape` is `None` without one) and an Escape press it handled (`escape` is its outcome);
/// then Escape counts as verified and the checkpoint is closing. Other checkpoints are
/// complete at once.
pub fn close_visual_checkpoint(
    ui: &mut SmokeUiState,
    checkpoint: &SmokeVisualCheckpoint,
    escape: Option<bool>,
) -> (r: Result<bool, &'static str>)
    ensures
        spec_closable_visual_state(checkpoint.state) ==> match escape {
            None => r matches Err(e) && e@ == "visual_modal_unavailable"@ && *final(ui) == *old(
                ui,
            ),
            Some(false) => r matches Err(e) && e@ == "visual_escape_not_handled"@ && *final(ui)
                == *old(ui),
            Some(true) => r == Ok::<bool, &'static str>(false) && *final(ui) == (SmokeUiState {
                modal_escape_verified: true,
                visual_checkpoint: VisualCheckpointPhase::Closing,
                ..*old(ui)
            }),
        },
        !spec_closable_visual_state(checkpoint.state) ==> r == Ok::<bool, &'static str>(true)
            && *final(ui) == (SmokeUiState {
            visual_checkpoint: VisualCheckpointPhase::Complete,
            ..*old(ui)
        }),
{
    if closable_visual_state(checkpoint.state) {
        match escape {
            None => Err("visual_modal_unavailable"),
            Some(false) => Err("visual_escape_not_handled"),
            Some(true) => {
                ui.modal_escape_verified = true;
                ui.visual_checkpoint = VisualCheckpointPhase::Closing;
                Ok(false)
            },
        }
    } else {
        ui.visual_checkpoint = VisualCheckpointPhase::Complete;
        Ok(true)
    }
}

/// The evidence held back for `checkpoint` after the closed modal's focus and Escape results
/// are recorded in it.
pub open spec fn spec_finalized_evidence(
    pending: SmokeVisualCheckpointEvidence,
    escape_verified: bool,
) -> SmokeVisualCheckpointEvidence {
    SmokeVisualCheckpointEvidence {
        accessibility: crate::smoke_visual::SmokeAccessibilityEvidence {
            focus_restored: true,
            escape_cancelled: escape_verified,
            ..pending.accessibility
        },
        ..pending
    }
}

/// Finishes a closing modal checkpoint. It waits (`Ok(false)`) while the surface is visible, a
/// modal is open, the background is insensitive, or the focus (`focus`: whether it returned to
/// the control that had it before the checkpoint) has not returned. Then the held-back
/// evidence must exist, belong to the checkpoint and, with the focus and Escape results
/// recorded, meet the visual contract; only then is it published under the checkpoint's id
/// and the checkpoint complete.
pub fn finish_visual_checkpoint(
    ui: &mut SmokeUiState,
    checkpoint: &SmokeVisualCheckpoint,
    closing: SmokeClosingView,
    focus: Result<bool, &'static str>,
) -> (r: Result<bool, &'static str>)
    ensures
        final(ui).visuals@ != old(ui).visuals@ ==> r == Ok::<bool, &'static str>(true)
            && spec_contract_passes(final(ui).visuals@[checkpoint.id@]),
        closing.surface_visible || closing.modal_open || !closing.background_sensitive ==> r
            == Ok::<bool, &'static str>(false) && *final(ui) == *old(ui),
        !(closing.surface_visible || closing.modal_open || !closing.background_sensitive) ==> {
            match focus {
                Err(e) => r == Err::<bool, &'static str>(e) && *final(ui) == *old(ui),
                Ok(false) => r == Ok::<bool, &'static str>(false) && *final(ui) == (SmokeUiState {
                    modal_focus_restore_verified: false,
                    ..*old(ui)
                }),
                Ok(true) => match old(ui).pending_visual {
                    None => r matches Err(e) && e@ == "visual_evidence_missing"@ && *final(ui)
                        == (SmokeUiState { modal_focus_restore_verified: true, ..*old(ui) }),
                    Some(pending) => {
                        let finalized = spec_finalized_evidence(
                            pending,
                            old(ui).modal_escape_verified,
                        );
                        if pending.checkpoint_id@ != checkpoint.id@ {
                            r matches Err(e) && e@ == "visual_evidence_mismatch"@ && *final(ui)
                                == (SmokeUiState {
                                modal_focus_restore_verified: true,
                                ..*old(ui)
                            })
                        } else if !spec_contract_passes(finalized) {
                            r matches Err(e) && e@ == "visual_checkpoint_incomplete"@
                                && *final(ui) == (SmokeUiState {
                                modal_focus_restore_verified: true,
                                pending_visual: Some(finalized),
                                ..*old(ui)
                            })
                        } else {
                            &&& r == Ok::<bool, &'static str>(true)
                            &&& final(ui).visuals@ == old(ui).visuals@.insert(
                                checkpoint.id@,
                                finalized,
                            )
                            &&& final(ui).pending_visual is None
                            &&& final(ui).modal_focus_restore_verified
                            &&& final(ui).modal_escape_verified == old(ui).modal_escape_verified
                            &&& final(ui).visual_checkpoint == VisualCheckpointPhase::Complete
                            &&& final(ui).visual_completion_tick_pending
                            &&& final(ui).visual_stage_count == old(ui).visual_stage_count
                        }
                    },
                },
            }
        },
{
    if closing.surface_visible || closing.modal_open || !closing.background_sensitive {
        return Ok(false);
    }
    let restored = match focus {
        Err(e) => {
            return Err(e);
        },
        Ok(restored) => restored,
    };
    ui.modal_focus_restore_verified = restored;
    if !restored {
        return Ok(false);
    }
    let escape_verified = ui.modal_escape_verified;
    let mut evidence = match ui.pending_visual.take() {
        None => {
            return Err("visual_evidence_missing");
        },
        Some(evidence) => evidence,
    };
    if evidence.checkpoint_id != checkpoint.id {
        ui.pending_visual = Some(evidence);
        return Err("visual_evidence_mismatch");
    }
    evidence.accessibility.focus_restored = restored;
    evidence.accessibility.escape_cancelled = escape_verified;
    if !evidence.contract_passes() {
        ui.pending_visual = Some(evidence);
        return Err("visual_checkpoint_incomplete");
    }
    ui.visuals.insert(checkpoint.id.clone(), evidence);
    ui.visual_checkpoint = VisualCheckpointPhase::Complete;
    ui.visual_completion_tick_pending = true;
    Ok(true)
}

/// The connection editor, settings and import checkpoints, and no others, close their dialog
/// with Escape and publish their evidence only once it has closed; each of them has a surface
/// to press Escape on. Every other checkpoint is complete as soon as it is closed.
pub proof fn lemma_dialog_checkpoints_close_with_escape(state: SmokeVisualState)
    ensures
        spec_closable_visual_state(state) <==> (state == SmokeVisualState::Editor || state
            == SmokeVisualState::Settings || state == SmokeVisualState::Import),
        spec_closable_visual_state(state) ==> spec_modal_visual_state(state)
            && spec_checkpoint_surface(state) is Some,
{
}

/// The failure checkpoint is shown exactly when some session has failed or crashed.
pub proof fn lemma_failure_shown_for_failed_or_crashed(view: SmokeReadinessView)
    ensures
        spec_checkpoint_ready(SmokeVisualState::Failure, view) <==> exists|i: int|
            0 <= i < view.session_states@.len() && (view.session_states@[i]
                == SessionState::Failed || view.session_states@[i] == SessionState::Crashed),
{
    let s = view.session_states@;
    if exists|i: int| 0 <= i < s.len() && (s[i] == SessionState::Failed || s[i] == SessionState::Crashed) {
        let i = choose|i: int|
            0 <= i < s.len() && (s[i] == SessionState::Failed || s[i] == SessionState::Crashed);
        assert(any_session(s, s[i]));
    }
}

/// Which sessions show the session checkpoints: Connected needs a connected session; the
/// host-key and authentication checkpoints need the interaction dialog open and a session
/// waiting for that answer.
pub proof fn lemma_session_checkpoints_follow_sessions(view: SmokeReadinessView)
    ensures
        spec_checkpoint_ready(SmokeVisualState::Connected, view) <==> exists|i: int|
            0 <= i < view.session_states@.len() && view.session_states@[i]
                == SessionState::Connected,
        spec_checkpoint_ready(SmokeVisualState::HostKey, view) <==> (view.open_modal == Some(
            ModalKind::Interaction,
        ) && exists|i: int|
            0 <= i < view.session_states@.len() && view.session_states@[i]
                == SessionState::AwaitingHostKey),
        spec_checkpoint_ready(SmokeVisualState::Authentication, view) <==> (view.open_modal
            == Some(ModalKind::Interaction) && exists|i: int|
            0 <= i < view.session_states@.len() && view.session_states@[i]
                == SessionState::AwaitingAuthentication),
{
}

/// What the shell must show for the checkpoints that are neither pane layouts nor sessions:
/// no tab and no terminal for the empty shell, twenty tabs, the editor open and mapped, the
/// settings or import dialog open as the modal and mapped, and a recovery notice.
pub proof fn lemma_shell_checkpoints_follow_view(view: SmokeReadinessView)
    ensures
        spec_checkpoint_ready(SmokeVisualState::Empty, view) <==> (view.tab_count == 0
            && !view.terminal_canvas_mapped),
        spec_checkpoint_ready(SmokeVisualState::TwentyTabs, view) <==> view.tab_count >= 20,
        spec_checkpoint_ready(SmokeVisualState::Editor, view) <==> (view.editor_open
            && view.editor_mapped),
        spec_checkpoint_ready(SmokeVisualState::Settings, view) <==> (view.open_modal == Some(
            ModalKind::Settings,
        ) && view.settings_mapped),
        spec_checkpoint_ready(SmokeVisualState::Import, view) <==> (view.open_modal == Some(
            ModalKind::Import,
        ) && view.import_mapped),
        spec_checkpoint_ready(SmokeVisualState::Recovery, view) <==> view.recovery_displayed,
{
}

/// The layouts the pane checkpoints accept: one pane; a root split along the horizontal
/// (HSplit) or vertical (VSplit) axis holding two panes; three panes whose root split has a
/// child split across it; a 2x2 grid. A pane checkpoint is ready exactly on such a layout.
pub proof fn lemma_pane_checkpoint_layouts(view: SmokeReadinessView, tree: PaneTree)
    requires
        view.active_pane_tree == Some(tree),
    ensures
        spec_checkpoint_ready(SmokeVisualState::Single, view) <==> tree.count() == 1,
        spec_checkpoint_ready(SmokeVisualState::HSplit, view) <==> (tree is Split && tree->axis
            == SplitAxis::Horizontal && tree.count() == 2),
        spec_checkpoint_ready(SmokeVisualState::VSplit, view) <==> (tree is Split && tree->axis
            == SplitAxis::Vertical && tree.count() == 2),
        spec_checkpoint_ready(SmokeVisualState::TopBottom3, view) <==> (tree.count() == 3
            && spec_nested_axes(tree)),
        spec_checkpoint_ready(SmokeVisualState::Grid, view) <==> spec_is_grid(tree),
{
}

/// From a single pane, the HSplit checkpoint splits the active pane horizontally and the
/// VSplit checkpoint splits it vertically, and that one split gives the checkpoint's layout:
/// a root split along that axis holding the two panes.
pub proof fn lemma_two_pane_checkpoint_splits_once(
    state: SmokeVisualState,
    pane: PaneId,
    new_pane: PaneId,
    stage: Option<usize>,
)
    requires
        state == SmokeVisualState::HSplit || state == SmokeVisualState::VSplit,
        pane != new_pane,
        stage != Some(1usize),
    ensures
        ({
            let axis = if state == SmokeVisualState::HSplit {
                SplitAxis::Horizontal
            } else {
                SplitAxis::Vertical
            };
            let action = if state == SmokeVisualState::HSplit {
                PaneAction::SplitHorizontal
            } else {
                PaneAction::SplitVertical
            };
            let single = PaneTree::Leaf { pane_id: pane };
            let next = single.spec_split(pane, axis, new_pane);
            &&& spec_advance_pane_shape(state, Some(single), stage) == (
                SmokeAdvance::Issue(SmokeCommand::ActivePaneAction(action)),
                Some(1usize),
            )
            &&& next is Split && next->axis == axis && next.count() == 2
            &&& spec_shape_ready(state, next)
        }),
{
    reveal_with_fuel(PaneTree::count, 3);
    reveal_with_fuel(PaneTree::spec_split, 2);
}

/// From a single pane, the TopBottom3 checkpoint first splits the pane vertically, then splits
/// the active pane of the two horizontally, whichever of the two is active; the second split
/// gives the checkpoint's layout.
pub proof fn lemma_three_pane_checkpoint_splits_twice(
    pane: PaneId,
    n1: PaneId,
    n2: PaneId,
    active: PaneId,
    stage: Option<usize>,
)
    requires
        pane != n1,
        pane != n2,
        n1 != n2,
        active == pane || active == n1,
        stage != Some(1usize),
    ensures
        ({
            let t0 = PaneTree::Leaf { pane_id: pane };
            let t1 = t0.spec_split(pane, SplitAxis::Vertical, n1);
            let t2 = t1.spec_split(active, SplitAxis::Horizontal, n2);
            &&& spec_advance_pane_shape(SmokeVisualState::TopBottom3, Some(t0), stage) == (
                SmokeAdvance::Issue(SmokeCommand::ActivePaneAction(PaneAction::SplitVertical)),
                Some(1usize),
            )
            &&& spec_advance_pane_shape(SmokeVisualState::TopBottom3, Some(t1), Some(1usize)) == (
                SmokeAdvance::Issue(SmokeCommand::ActivePaneAction(PaneAction::SplitHorizontal)),
                Some(2usize),
            )
            &&& t2.count() == 3
            &&& spec_nested_axes(t2)
            &&& spec_shape_ready(SmokeVisualState::TopBottom3, t2)
        }),
{
    reveal_with_fuel(PaneTree::count, 4);
    reveal_with_fuel(PaneTree::spec_split, 3);
    let t0 = PaneTree::Leaf { pane_id: pane };
    let t1 = t0.spec_split(pane, SplitAxis::Vertical, n1);
    assert(t1.count() == 2);
    assert(!spec_nested_axes(t1));
    let t2 = t1.spec_split(active, SplitAxis::Horizontal, n2);
    assert(t2.count() == 3);
}

/// A pane checkpoint that is not reached on a layout of several panes, other than the three-pane
/// checkpoint on two panes and the grid, closes the active pane.
pub proof fn lemma_surplus_panes_are_closed(
    state: SmokeVisualState,
    tree: PaneTree,
    stage: Option<usize>,
)
    requires
        state == SmokeVisualState::Single || state == SmokeVisualState::HSplit || state
            == SmokeVisualState::VSplit || (state == SmokeVisualState::TopBottom3 && tree.count()
            != 2),
        tree.count() >= 2,
        !spec_shape_ready(state, tree),
        !(stage matches Some(c) && c == tree.count()),
    ensures
        spec_advance_pane_shape(state, Some(tree), stage).0 == SmokeAdvance::Issue(
            SmokeCommand::ActivePaneAction(PaneAction::Close),
        ),
{
}

/// How checkpoints begin, and the surface they are captured on: the empty shell closes every
/// tab; the connection editor, settings and import checkpoints open their dialog and are
/// captured on it; the host-key and authentication checkpoints wait for the interaction dialog
/// and are captured on it, as the twenty-tab checkpoint waits for its tabs; every other
/// checkpoint brings the active tab into view and has no dialog surface.
pub proof fn lemma_checkpoints_begin_on_their_surface(state: SmokeVisualState)
    ensures
        state == SmokeVisualState::Empty ==> spec_begin(state) == SmokeBegin::CloseAllTabs,
        state == SmokeVisualState::Editor ==> spec_begin(state) == SmokeBegin::CreateConnection
            && spec_checkpoint_surface(state) == Some(SmokeSurface::Editor),
        state == SmokeVisualState::Settings ==> spec_begin(state) == SmokeBegin::OpenSettings
            && spec_checkpoint_surface(state) == Some(SmokeSurface::Settings),
        state == SmokeVisualState::Import ==> spec_begin(state) == SmokeBegin::OpenImport
            && spec_checkpoint_surface(state) == Some(SmokeSurface::Import),
        state == SmokeVisualState::HostKey || state == SmokeVisualState::Authentication
            ==> spec_begin(state) == SmokeBegin::Nothing && spec_checkpoint_surface(state)
            == Some(SmokeSurface::Interaction),
        state == SmokeVisualState::TwentyTabs ==> spec_begin(state) == SmokeBegin::Nothing,
        state == SmokeVisualState::Connected || state == SmokeVisualState::Single || state
            == SmokeVisualState::HSplit || state == SmokeVisualState::VSplit || state
            == SmokeVisualState::TopBottom3 || state == SmokeVisualState::Grid || state
            == SmokeVisualState::Failure || state == SmokeVisualState::Recovery ==> spec_begin(
            state,
        ) == SmokeBegin::RevealActiveTab && spec_checkpoint_surface(state) is None,
        state == SmokeVisualState::Empty || state == SmokeVisualState::TwentyTabs
            ==> spec_checkpoint_surface(state) is None,
{
}

/// A checkpoint captured without a dialog waits, issuing nothing and keeping its stage, while
/// a modal dialog is open or a content dialog is mapped.
pub proof fn lemma_plain_checkpoints_wait_for_dialogs(
    state: SmokeVisualState,
    view: SmokeReadinessView,
    stage: Option<usize>,
)
    requires
        !(state == SmokeVisualState::Editor || state == SmokeVisualState::Settings || state
            == SmokeVisualState::Import || state == SmokeVisualState::HostKey || state
            == SmokeVisualState::Authentication),
        view.open_modal is Some || view.content_dialog_mapped,
    ensures
        spec_advance_checkpoint(state, view, stage) == (SmokeAdvance::Settled(false), stage),
{
}

/// The twenty-tab checkpoint opens one new tab per tab count until twenty tabs are open, and
/// is then reached; the empty shell, once reached, asks for the command-bar focus.
pub proof fn lemma_tab_checkpoints_advance(view: SmokeReadinessView, stage: Option<usize>)
    requires
        view.open_modal is None,
        !view.content_dialog_mapped,
    ensures
        view.tab_count < 20 && stage != Some(view.tab_count) ==> spec_advance_checkpoint(
            SmokeVisualState::TwentyTabs,
            view,
            stage,
        ) == (SmokeAdvance::Issue(SmokeCommand::NewLocalTab), Some(view.tab_count)),
        view.tab_count < 20 && stage == Some(view.tab_count) ==> spec_advance_checkpoint(
            SmokeVisualState::TwentyTabs,
            view,
            stage,
        ) == (SmokeAdvance::Settled(false), stage),
        view.tab_count >= 20 ==> spec_advance_checkpoint(
            SmokeVisualState::TwentyTabs,
            view,
            stage,
        ) == (SmokeAdvance::Settled(true), None::<usize>),
        view.tab_count == 0 && !view.terminal_canvas_mapped ==> spec_advance_checkpoint(
            SmokeVisualState::Empty,
            view,
            stage,
        ) == (SmokeAdvance::FocusEmptyCommandBar, None::<usize>),
{
}

/// The grid checkpoint, short of a grid, activates the pane that the planned split names and
/// splits it along the planned axis: horizontally for the horizontal axis, vertically for the
/// vertical one.
pub proof fn lemma_grid_checkpoint_issues_planned_split(tree: PaneTree, stage: Option<usize>)
    requires
        !spec_is_grid(tree),
        !(stage matches Some(c) && c == tree.count()),
        spec_next_grid_split(tree) is Some,
    ensures
        ({
            let (pane, axis) = spec_next_grid_split(tree)->0;
            spec_advance_pane_shape(SmokeVisualState::Grid, Some(tree), stage).0
                == SmokeAdvance::Issue(
                SmokeCommand::PaneAction {
                    pane,
                    action: if axis == SplitAxis::Horizontal {
                        PaneAction::SplitHorizontal
                    } else {
                        PaneAction::SplitVertical
                    },
                },
            )
        }),
{
}

/// The empty shell's focus goes to a button only when it is mapped, has a positive width and
/// height, is sensitive and focusable, and sits in the command bar; the first such button is
/// the one chosen, and every button before it misses one of these.
pub proof fn lemma_empty_focus_target(buttons: Seq<CommandButtonFacts>, i: int)
    ensures
        spec_first_eligible(buttons, i) <==> {
            &&& 0 <= i < buttons.len()
            &&& buttons[i].mapped && buttons[i].width > 0 && buttons[i].height > 0
                && buttons[i].sensitive && buttons[i].focusable && buttons[i].in_command_bar
            &&& forall|j: int|
                0 <= j < i ==> !(#[trigger] buttons[j].mapped && buttons[j].width > 0
                    && buttons[j].height > 0 && buttons[j].sensitive && buttons[j].focusable
                    && buttons[j].in_command_bar)
        },
{
    assert forall|j: int| 0 <= j < buttons.len() implies spec_focus_eligible(buttons[j]) == (
    buttons[j].mapped && buttons[j].width > 0 && buttons[j].height > 0 && buttons[j].sensitive
        && buttons[j].focusable && buttons[j].in_command_bar) by {}
}

} // verus!
