//! Reference values for exercising the visual smoke contract: a quiet observation, a
//! connected-state capture that meets the contract, and an Import modal checkpoint with a
//! capture that meets it too.

use vstd::prelude::*;
use crate::smoke_driver::{
    action_is_complete, spec_action_complete, CompletionContext, SmokeAction, SmokeCounters,
    SmokeObservation,
};
use crate::smoke_visual::{
    spec_contract_passes, IconBackend, ShellLayoutMode, SmokeAccessibilityEvidence,
    SmokeDpiEvidence, SmokePngEvidence, SmokeVisualCheckpoint, SmokeVisualCheckpointEvidence,
    SmokeVisualFacts, SmokeVisualState,
};

verus! {

/// Bit pattern of the `f64` value 1.0.
pub const F64_ONE_BITS: u64 = 0x3ff0_0000_0000_0000;
/// Bit pattern of the `f64` value 2.0.
pub const F64_TWO_BITS: u64 = 0x4000_0000_0000_0000;
/// Bit pattern of the `f64` value 9.0.
pub const F64_NINE_BITS: u64 = 0x4022_0000_0000_0000;
/// Bit pattern of the `f64` value 18.0.
pub const F64_EIGHTEEN_BITS: u64 = 0x4032_0000_0000_0000;
/// Bit pattern of the `f64` value 96.0.
pub const F64_NINETY_SIX_BITS: u64 = 0x4058_0000_0000_0000;

/// An observation of a window not yet realized, with no binding and the given counters.
pub fn observation(counters: SmokeCounters) -> (r: SmokeObservation)
    ensures
        !r.window_realized,
        !r.shutdown_complete,
        r.binding is None,
        r.counters == counters,
{
    SmokeObservation { window_realized: false, shutdown_complete: false, binding: None, counters }
}

/// Whether `action` is complete in `observed` with a verified main-window binding.
pub fn visual_is_complete(action: &SmokeAction, observed: &SmokeObservation) -> (r: bool)
    ensures
        r == spec_action_complete(*action, *observed, true),
{
    action_is_complete(action, &CompletionContext::new(observed).require_binding())
}

/// The Import modal checkpoint at the standard 1360x860 size.
pub fn import_checkpoint() -> (r: SmokeVisualCheckpoint)
    ensures
        r.id@ == "standard-import"@,
        r.state == SmokeVisualState::Import,
        r.width == 1360,
        r.height == 860,
        r.expected_mode == ShellLayoutMode::Standard,
{
    SmokeVisualCheckpoint {
        id: String::from_str("standard-import"),
        state: SmokeVisualState::Import,
        width: 1360,
        height: 860,
        expected_mode: ShellLayoutMode::Standard,
    }
}

/// Facts of a standard 1360x860 capture of the connected shell at scale 1.
pub fn passing_visual_facts() -> (r: SmokeVisualFacts)
    ensures
        r == passing_visual_facts_spec(),
{
    SmokeVisualFacts {
        requested_width: 1360,
        requested_height: 860,
        realized_width: 1360,
        realized_height: 852,
        command_bar: true,
        dense_sidebar: true,
        tab_strip: true,
        pane_command_row: true,
        terminal_canvas: true,
        content_dialog: false,
        embedded_icon_count: 13,
        icon_logical_size: 16,
        icon_texture_width: 16,
        icon_texture_height: 16,
        icon_backend: Some(IconBackend::InternalVector),
        effective_scale_bits: F64_ONE_BITS,
        effective_dpi_bits: F64_NINETY_SIX_BITS,
        measured_cell_width_bits: F64_NINE_BITS,
        measured_cell_height_bits: F64_EIGHTEEN_BITS,
        dpi_fallback_used: false,
        focus_or_selection_treatment: true,
        terminal_glyph_clipped_cells: 0,
        terminal_min_line_separation_bits: F64_TWO_BITS,
    }
}

/// Evidence of the "standard-connected" checkpoint that meets the visual contract.
pub fn passing_visual_evidence() -> (r: SmokeVisualCheckpointEvidence)
    ensures
        r.checkpoint_id@ == "standard-connected"@,
        r.state == SmokeVisualState::Connected,
        r.layout == ShellLayoutMode::Standard,
        r.facts == passing_visual_facts_spec(),
        r.png == passing_visual_evidence_png(),
        r.dpi == passing_visual_evidence_dpi(),
        r.accessibility == (SmokeAccessibilityEvidence {
            background_insensitive: false,
            focus_contained: false,
            focus_restored: false,
            escape_cancelled: false,
        }),
        spec_contract_passes(r),
{
    let facts = passing_visual_facts();
    SmokeVisualCheckpointEvidence {
        checkpoint_id: String::from_str("standard-connected"),
        state: SmokeVisualState::Connected,
        layout: ShellLayoutMode::Standard,
        facts,
        png: SmokePngEvidence {
            width: 1360,
            height: 852,
            non_empty: true,
            luminance_buckets: 4,
            dark_regions_required: 4,
            dark_regions_passed: 4,
            focus_or_selection_thickness_px: 2,
        },
        dpi: SmokeDpiEvidence {
            logical_width: 1360,
            logical_height: 852,
            effective_scale_bits: F64_ONE_BITS,
            effective_dpi_bits: F64_NINETY_SIX_BITS,
            cell_width_bits: F64_NINE_BITS,
            cell_height_bits: F64_EIGHTEEN_BITS,
            icon_logical_size: 16,
            icon_texture_width: 16,
            icon_texture_height: 16,
            dpi_fallback_used: false,
        },
        accessibility: SmokeAccessibilityEvidence {
            background_insensitive: false,
            focus_contained: false,
            focus_restored: false,
            escape_cancelled: false,
        },
    }
}

/// The screenshot facts of the passing capture.
pub open spec fn passing_visual_evidence_png() -> SmokePngEvidence {
    SmokePngEvidence {
        width: 1360,
        height: 852,
        non_empty: true,
        luminance_buckets: 4,
        dark_regions_required: 4,
        dark_regions_passed: 4,
        focus_or_selection_thickness_px: 2,
    }
}

/// The scale facts of the passing capture: scale 1, 96 DPI, 9x18 px cells, 16 px icons.
pub open spec fn passing_visual_evidence_dpi() -> SmokeDpiEvidence {
    SmokeDpiEvidence {
        logical_width: 1360,
        logical_height: 852,
        effective_scale_bits: F64_ONE_BITS,
        effective_dpi_bits: F64_NINETY_SIX_BITS,
        cell_width_bits: F64_NINE_BITS,
        cell_height_bits: F64_EIGHTEEN_BITS,
        icon_logical_size: 16,
        icon_texture_width: 16,
        icon_texture_height: 16,
        dpi_fallback_used: false,
    }
}

/// The facts that `passing_visual_facts` returns.
pub open spec fn passing_visual_facts_spec() -> SmokeVisualFacts {
    SmokeVisualFacts {
        requested_width: 1360,
        requested_height: 860,
        realized_width: 1360,
        realized_height: 852,
        command_bar: true,
        dense_sidebar: true,
        tab_strip: true,
        pane_command_row: true,
        terminal_canvas: true,
        content_dialog: false,
        embedded_icon_count: 13,
        icon_logical_size: 16,
        icon_texture_width: 16,
        icon_texture_height: 16,
        icon_backend: Some(IconBackend::InternalVector),
        effective_scale_bits: F64_ONE_BITS,
        effective_dpi_bits: F64_NINETY_SIX_BITS,
        measured_cell_width_bits: F64_NINE_BITS,
        measured_cell_height_bits: F64_EIGHTEEN_BITS,
        dpi_fallback_used: false,
        focus_or_selection_treatment: true,
        terminal_glyph_clipped_cells: 0,
        terminal_min_line_separation_bits: F64_TWO_BITS,
    }
}

/// The passing capture re-labelled for `checkpoint`, showing a content dialog whose
/// background is insensitive, whose focus is contained and restored, and which Escape
/// cancelled. It meets the visual contract whenever the checkpoint's state is modal.
pub fn passing_import_evidence(checkpoint: &SmokeVisualCheckpoint) -> (r:
    SmokeVisualCheckpointEvidence)
    ensures
        r.checkpoint_id@ == checkpoint.id@,
        r.state == checkpoint.state,
        r.layout == ShellLayoutMode::Standard,
        r.facts == (SmokeVisualFacts { content_dialog: true, ..passing_visual_facts_spec() }),
        r.accessibility == (SmokeAccessibilityEvidence {
            background_insensitive: true,
            focus_contained: true,
            focus_restored: true,
            escape_cancelled: true,
        }),
        r.png == passing_visual_evidence_png(),
        r.dpi == passing_visual_evidence_dpi(),
        crate::smoke_visual::spec_modal_visual_state(checkpoint.state) ==> spec_contract_passes(r),
{
    let mut evidence = passing_visual_evidence();
    evidence.checkpoint_id = checkpoint.id.clone();
    evidence.state = checkpoint.state;
    evidence.facts.content_dialog = true;
    evidence.accessibility.background_insensitive = true;
    evidence.accessibility.focus_contained = true;
    evidence.accessibility.focus_restored = true;
    evidence.accessibility.escape_cancelled = true;
    evidence
}

} // verus!
