//! Visual smoke checkpoints: what a checkpoint asks for, the evidence a capture records,
//! the contract that evidence must meet, and the evidence store keyed by checkpoint id.

use vstd::prelude::*;

verus! {

/// The shell state a visual checkpoint captures.
#[derive(Clone, Copy, Debug, PartialEq, Eq, Structural)]
pub enum SmokeVisualState {
    Empty,
    Connected,
    TwentyTabs,
    Single,
    HSplit,
    VSplit,
    TopBottom3,
    Grid,
    Editor,
    Settings,
    Import,
    HostKey,
    Authentication,
    Failure,
    Recovery,
}

/// The layout mode the shell picks for its width.
#[derive(Clone, Copy, Debug, PartialEq, Eq, Structural)]
pub enum ShellLayoutMode {
    Compact,
    Standard,
    Wide,
}

/// How toolbar icons were rendered.
#[derive(Clone, Copy, Debug, PartialEq, Eq, Structural)]
pub enum IconBackend {
    InternalVector,
}

/// A visual checkpoint of a smoke scenario: the state to reach at the requested size and
/// the layout mode expected there.
#[derive(Clone, Debug)]
pub struct SmokeVisualCheckpoint {
    pub id: String,
    pub state: SmokeVisualState,
    pub width: i32,
    pub height: i32,
    pub expected_mode: ShellLayoutMode,
}

impl SmokeVisualCheckpoint {
    /// A copy of the checkpoint.
    pub fn duplicate(&self) -> (r: Self)
        ensures
            r == *self,
    {
        SmokeVisualCheckpoint {
            id: self.id.clone(),
            state: self.state,
            width: self.width,
            height: self.height,
            expected_mode: self.expected_mode,
        }
    }
}

/// Facts collected from the realized widgets of a capture. Floating-point measurements are
/// recorded as their IEEE 754 bit patterns.
#[derive(Clone, Debug)]
pub struct SmokeVisualFacts {
    pub requested_width: i32,
    pub requested_height: i32,
    pub realized_width: i32,
    pub realized_height: i32,
    pub command_bar: bool,
    pub dense_sidebar: bool,
    pub tab_strip: bool,
    pub pane_command_row: bool,
    pub terminal_canvas: bool,
    pub content_dialog: bool,
    pub embedded_icon_count: u32,
    pub icon_logical_size: u32,
    pub icon_texture_width: u32,
    pub icon_texture_height: u32,
    pub icon_backend: Option<IconBackend>,
    pub effective_scale_bits: u64,
    pub effective_dpi_bits: u64,
    pub measured_cell_width_bits: u64,
    pub measured_cell_height_bits: u64,
    pub dpi_fallback_used: bool,
    pub focus_or_selection_treatment: bool,
    pub terminal_glyph_clipped_cells: u32,
    pub terminal_min_line_separation_bits: u64,
}

/// Facts measured on the saved screenshot.
#[derive(Clone, Debug)]
pub struct SmokePngEvidence {
    pub width: i32,
    pub height: i32,
    pub non_empty: bool,
    pub luminance_buckets: u32,
    pub dark_regions_required: u32,
    pub dark_regions_passed: u32,
    pub focus_or_selection_thickness_px: u32,
}

/// Scale and DPI facts of a capture; floating-point values are IEEE 754 bit patterns.
#[derive(Clone, Debug)]
pub struct SmokeDpiEvidence {
    pub logical_width: i32,
    pub logical_height: i32,
    pub effective_scale_bits: u64,
    pub effective_dpi_bits: u64,
    pub cell_width_bits: u64,
    pub cell_height_bits: u64,
    pub icon_logical_size: u32,
    pub icon_texture_width: u32,
    pub icon_texture_height: u32,
    pub dpi_fallback_used: bool,
}

/// Keyboard and focus behaviour observed on a modal surface.
#[derive(Clone, Debug, Default)]
pub struct SmokeAccessibilityEvidence {
    pub background_insensitive: bool,
    pub focus_contained: bool,
    pub focus_restored: bool,
    pub escape_cancelled: bool,
}

/// Everything recorded for one visual checkpoint.
#[derive(Clone, Debug)]
pub struct SmokeVisualCheckpointEvidence {
    pub checkpoint_id: String,
    pub state: SmokeVisualState,
    pub layout: ShellLayoutMode,
    pub facts: SmokeVisualFacts,
    pub png: SmokePngEvidence,
    pub dpi: SmokeDpiEvidence,
    pub accessibility: SmokeAccessibilityEvidence,
}

/// Bit pattern of the `f64` value 1.0: the least terminal line separation, in pixels.
pub const MIN_LINE_SEPARATION_BITS: u64 = 0x3ff0_0000_0000_0000;
/// Bit pattern of the `f64` positive infinity: separations from here on are not finite.
pub const F64_INFINITY_BITS: u64 = 0x7ff0_0000_0000_0000;
/// The thickness of the focus or selection treatment a screenshot must show, in pixels.
pub const MIN_FOCUS_THICKNESS_PX: u32 = 2;

/// States whose checkpoint shows a modal surface over the shell.
pub open spec fn spec_modal_visual_state(state: SmokeVisualState) -> bool {
    match state {
        SmokeVisualState::Editor | SmokeVisualState::Settings | SmokeVisualState::Import
        | SmokeVisualState::HostKey | SmokeVisualState::Authentication => true,
        _ => false,
    }
}

/// Whether a terminal line separation, given as `f64` bits, is a finite value of at least
/// one pixel. Non-negative finite `f64` values order like their bit patterns.
pub open spec fn spec_line_separation_sufficient(bits: u64) -> bool {
    MIN_LINE_SEPARATION_BITS <= bits < F64_INFINITY_BITS
}

/// The contract every captured checkpoint must meet: a non-empty screenshot, no clipped
/// terminal glyph, terminal lines at least one pixel apart, a visible focus or selection
/// treatment of at least two pixels, and, for modal states, a content dialog whose background
/// is insensitive, whose focus is contained, and which Escape cancels with focus restored;
/// non-modal states show no content dialog.
pub open spec fn spec_contract_passes(e: SmokeVisualCheckpointEvidence) -> bool {
    &&& e.png.non_empty
    &&& e.facts.terminal_glyph_clipped_cells == 0
    &&& spec_line_separation_sufficient(e.facts.terminal_min_line_separation_bits)
    &&& e.facts.focus_or_selection_treatment
    &&& e.png.focus_or_selection_thickness_px >= MIN_FOCUS_THICKNESS_PX
    &&& if spec_modal_visual_state(e.state) {
        &&& e.facts.content_dialog
        &&& e.accessibility.background_insensitive
        &&& e.accessibility.focus_contained
        &&& e.accessibility.focus_restored
        &&& e.accessibility.escape_cancelled
    } else {
        !e.facts.content_dialog
    }
}

/// Whether `state` is captured with a modal surface open.
pub fn modal_visual_state(state: SmokeVisualState) -> (r: bool)
    ensures
        r == spec_modal_visual_state(state),
{
    match state {
        SmokeVisualState::Editor | SmokeVisualState::Settings | SmokeVisualState::Import
        | SmokeVisualState::HostKey | SmokeVisualState::Authentication => true,
        _ => false,
    }
}

impl SmokeVisualCheckpointEvidence {
    /// Whether the evidence meets the visual contract (`spec_contract_passes`).
    pub fn contract_passes(&self) -> (r: bool)
        ensures
            r == spec_contract_passes(*self),
    {
        let facts = &self.facts;
        let png = &self.png;
        let access = &self.accessibility;
        let common = png.non_empty && facts.terminal_glyph_clipped_cells == 0
            && MIN_LINE_SEPARATION_BITS <= facts.terminal_min_line_separation_bits
            && facts.terminal_min_line_separation_bits < F64_INFINITY_BITS
            && facts.focus_or_selection_treatment && png.focus_or_selection_thickness_px
            >= MIN_FOCUS_THICKNESS_PX;
        if !common {
            return false;
        }
        if modal_visual_state(self.state) {
            facts.content_dialog && access.background_insensitive && access.focus_contained
                && access.focus_restored && access.escape_cancelled
        } else {
            !facts.content_dialog
        }
    }
}

/// The visual contract, fact by fact: every capture needs a non-empty screenshot, no clipped
/// terminal glyph, a finite terminal line separation of at least one pixel (the `f64` bits
/// from 1.0 up to, not including, infinity), a focus or selection treatment at least two
/// pixels thick. A capture over the connection editor, settings, import, host-key or
/// authentication dialog also needs the dialog shown, the background insensitive, the focus
/// held inside the dialog, Escape cancelling it and the focus returned afterwards; any other
/// capture must show no dialog.
pub proof fn lemma_contract_facts(e: SmokeVisualCheckpointEvidence)
    ensures
        spec_contract_passes(e) <==> {
            &&& e.png.non_empty
            &&& e.facts.terminal_glyph_clipped_cells == 0
            &&& 0x3ff0_0000_0000_0000u64 <= e.facts.terminal_min_line_separation_bits
            &&& e.facts.terminal_min_line_separation_bits < 0x7ff0_0000_0000_0000u64
            &&& e.facts.focus_or_selection_treatment
            &&& e.png.focus_or_selection_thickness_px >= 2
            &&& if e.state == SmokeVisualState::Editor || e.state == SmokeVisualState::Settings
                || e.state == SmokeVisualState::Import || e.state == SmokeVisualState::HostKey
                || e.state == SmokeVisualState::Authentication {
                &&& e.facts.content_dialog
                &&& e.accessibility.background_insensitive
                &&& e.accessibility.focus_contained
                &&& e.accessibility.focus_restored
                &&& e.accessibility.escape_cancelled
            } else {
                !e.facts.content_dialog
            }
        },
{
}

/// Passing evidence of a dialog checkpoint shows the dialog, and each of its accessibility
/// facts holds: the background is insensitive, the focus stays inside the dialog, Escape
/// cancels it, and the focus comes back.
pub proof fn lemma_dialog_evidence_is_accessible(e: SmokeVisualCheckpointEvidence)
    requires
        spec_contract_passes(e),
        e.state == SmokeVisualState::Editor || e.state == SmokeVisualState::Settings || e.state
            == SmokeVisualState::Import || e.state == SmokeVisualState::HostKey || e.state
            == SmokeVisualState::Authentication,
    ensures
        e.facts.content_dialog,
        e.accessibility.background_insensitive,
        e.accessibility.focus_contained,
        e.accessibility.focus_restored,
        e.accessibility.escape_cancelled,
{
}

/// Evidence keyed by checkpoint id; a later entry for an id replaces an earlier one.
pub open spec fn entries_map(entries: Seq<(String, SmokeVisualCheckpointEvidence)>) -> Map<
    Seq<char>,
    SmokeVisualCheckpointEvidence,
>
    decreases entries.len(),
{
    if entries.len() == 0 {
        Map::empty()
    } else {
        entries_map(entries.drop_last()).insert(entries.last().0@, entries.last().1)
    }
}

/// Visual evidence recorded per checkpoint id.
#[derive(Clone, Debug)]
pub struct VisualEvidenceMap {
    entries: Vec<(String, SmokeVisualCheckpointEvidence)>,
}

impl View for VisualEvidenceMap {
    type V = Map<Seq<char>, SmokeVisualCheckpointEvidence>;

    closed spec fn view(&self) -> Map<Seq<char>, SmokeVisualCheckpointEvidence> {
        entries_map(self.entries@)
    }
}

/// The evidence `entries_map` keeps for `key` is that of the last entry with `key`.
proof fn lemma_entries_map_last(entries: Seq<(String, SmokeVisualCheckpointEvidence)>, key: Seq<char>)
    ensures
        (forall|j: int| 0 <= j < entries.len() ==> entries[j].0@ != key) ==> !entries_map(
            entries,
        ).contains_key(key),
        forall|i: int|
            0 <= i < entries.len() && entries[i].0@ == key && (forall|j: int|
                i < j < entries.len() ==> entries[j].0@ != key) ==> entries_map(
                entries,
            ).contains_key(key) && entries_map(entries)[key] == entries[i].1,
    decreases entries.len(),
{
    if entries.len() > 0 {
        let init = entries.drop_last();
        lemma_entries_map_last(init, key);
        assert forall|i: int|
            0 <= i < entries.len() && entries[i].0@ == key && (forall|j: int|
                i < j < entries.len() ==> entries[j].0@ != key) implies entries_map(
            entries,
        ).contains_key(key) && entries_map(entries)[key] == entries[i].1 by {
            if i < entries.len() - 1 {
                assert(init[i] == entries[i]);
                assert forall|j: int| i < j < init.len() implies init[j].0@ != key by {
                    assert(init[j] == entries[j]);
                }
            }
        }
        if forall|j: int| 0 <= j < entries.len() ==> entries[j].0@ != key {
            assert forall|j: int| 0 <= j < init.len() implies init[j].0@ != key by {
                assert(init[j] == entries[j]);
            }
        }
    }
}

impl VisualEvidenceMap {
    /// An empty store.
    pub fn new() -> (r: Self)
        ensures
            r@ == Map::<Seq<char>, SmokeVisualCheckpointEvidence>::empty(),
    {
        VisualEvidenceMap { entries: Vec::new() }
    }

    /// Records `value` for `key`, replacing any evidence recorded for `key` before.
    pub fn insert(&mut self, key: String, value: SmokeVisualCheckpointEvidence)
        ensures
            final(self)@ == old(self)@.insert(key@, value),
    {
        self.entries.push((key, value));
        proof {
            assert(self.entries@.drop_last() == old(self).entries@);
        }
    }

    /// The evidence recorded for `key`, if any.
    pub fn get(&self, key: &String) -> (r: Option<&SmokeVisualCheckpointEvidence>)
        ensures
            r is Some <==> self@.contains_key(key@),
            r matches Some(e) ==> *e == self@[key@],
    {
        let mut i = self.entries.len();
        while i > 0
            invariant
                i <= self.entries@.len(),
                forall|j: int| i <= j < self.entries@.len() ==> self.entries@[j].0@ != key@,
            decreases i,
        {
            i = i - 1;
            if self.entries[i].0 == *key {
                proof {
                    lemma_entries_map_last(self.entries@, key@);
                }
                return Some(&self.entries[i].1);
            }
        }
        proof {
            lemma_entries_map_last(self.entries@, key@);
        }
        None
    }
}

impl Default for VisualEvidenceMap {
    fn default() -> (r: Self)
        ensures
            r@ == Map::<Seq<char>, SmokeVisualCheckpointEvidence>::empty(),
    {
        VisualEvidenceMap::new()
    }
}

} // verus!
