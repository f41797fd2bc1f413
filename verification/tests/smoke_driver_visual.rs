use rshell::smoke_driver::{
    action_is_complete, CompletionContext, SmokeAction, SmokeBindingEvidence, SmokeCounters,
    SmokeDecision, SmokeDriver, SmokeDriverInit, SmokeScenario, SmokeStepState,
};
use rshell::smoke_fixtures::{
    import_checkpoint, observation, passing_import_evidence, passing_visual_evidence,
    passing_visual_facts, visual_is_complete,
};
use rshell::smoke_visual::{
    modal_visual_state, ShellLayoutMode, SmokeVisualCheckpoint, SmokeVisualState,
    VisualEvidenceMap,
};

#[test]
fn captured_modal_cannot_pass_a_deferred_route() {
    let checkpoint = import_checkpoint();
    let init = SmokeDriverInit::new(SmokeScenario::new(vec![
        SmokeAction::VisualCheckpoint(checkpoint.clone()),
        SmokeAction::CloseAll,
    ]));
    let mut driver = SmokeDriver::new(init);
    let mut now = observation(SmokeCounters::default());
    assert!(matches!(
        driver.tick(&now),
        Some(SmokeDecision::Route(SmokeAction::VisualCheckpoint(_)))
    ));
    driver.defer_current_route();

    let evidence = passing_import_evidence(&checkpoint);
    assert!(evidence.contract_passes());
    now.counters.visual.insert(evidence.checkpoint_id.clone(), evidence);

    assert!(matches!(
        driver.tick(&now),
        Some(SmokeDecision::Route(SmokeAction::VisualCheckpoint(_)))
    ));
    assert_eq!(driver.report().steps[0].state, SmokeStepState::Running);
}

#[test]
fn captured_modal_passes_after_its_final_route() {
    let checkpoint = import_checkpoint();
    let init = SmokeDriverInit::new(SmokeScenario::new(vec![
        SmokeAction::VisualCheckpoint(checkpoint.clone()),
        SmokeAction::CloseAll,
    ]));
    let mut driver = SmokeDriver::new(init);
    let mut now = observation(SmokeCounters::default());
    assert!(matches!(
        driver.tick(&now),
        Some(SmokeDecision::Route(SmokeAction::VisualCheckpoint(_)))
    ));

    let evidence = passing_import_evidence(&checkpoint);
    now.counters.visual.insert(evidence.checkpoint_id.clone(), evidence);

    assert!(matches!(driver.tick(&now), Some(SmokeDecision::Route(SmokeAction::CloseAll))));
    assert_eq!(driver.report().steps[0].state, SmokeStepState::Passed);
}

#[test]
fn visual_checkpoint_uses_exact_persisted_evidence_and_verified_main_window_binding() {
    let checkpoint = SmokeVisualCheckpoint {
        id: "standard-connected".into(),
        state: SmokeVisualState::Connected,
        width: 1_360,
        height: 860,
        expected_mode: ShellLayoutMode::Standard,
    };
    let action = SmokeAction::VisualCheckpoint(checkpoint.clone());
    let mut observed = observation(SmokeCounters::default());
    observed.binding = Some(SmokeBindingEvidence {
        verified: true,
        component_verified: true,
        actual_label: Some("main_window".into()),
    });
    assert!(!visual_is_complete(&action, &observed));

    observed.counters.visual.insert("wrong-key".into(), passing_visual_evidence());
    assert!(!visual_is_complete(&action, &observed));

    let mut failing = passing_visual_evidence();
    failing.png.non_empty = false;
    observed.counters.visual.insert(checkpoint.id.clone(), failing);
    assert!(!visual_is_complete(&action, &observed));

    let mut wrong = passing_visual_evidence();
    wrong.checkpoint_id = "wrong-id".into();
    observed.counters.visual.insert(checkpoint.id.clone(), wrong);
    assert!(!visual_is_complete(&action, &observed));

    let mut wrong = passing_visual_evidence();
    wrong.state = SmokeVisualState::Empty;
    observed.counters.visual.insert(checkpoint.id.clone(), wrong);
    assert!(!visual_is_complete(&action, &observed));

    let mut wrong = passing_visual_evidence();
    wrong.layout = ShellLayoutMode::Compact;
    observed.counters.visual.insert(checkpoint.id.clone(), wrong);
    assert!(!visual_is_complete(&action, &observed));

    observed.counters.visual.insert(checkpoint.id.clone(), passing_visual_evidence());
    observed.binding.as_mut().unwrap().verified = false;
    assert!(!visual_is_complete(&action, &observed));

    observed.binding.as_mut().unwrap().verified = true;
    observed.binding.as_mut().unwrap().component_verified = false;
    assert!(!action_is_complete(
        &action,
        &CompletionContext::new(&observed).require_binding(),
    ));

    observed.binding.as_mut().unwrap().component_verified = true;
    assert!(visual_is_complete(&action, &observed));
}

#[test]
fn visual_contract_rejects_terminal_clipping_and_insufficient_line_separation() {
    let mut evidence = passing_visual_evidence();
    evidence.facts.terminal_glyph_clipped_cells = 1;
    assert!(!evidence.contract_passes());

    evidence.facts.terminal_glyph_clipped_cells = 0;
    evidence.facts.terminal_min_line_separation_bits = 0.5_f64.to_bits();
    assert!(!evidence.contract_passes());

    evidence.facts.terminal_min_line_separation_bits = 2.0_f64.to_bits();
    assert!(evidence.contract_passes());
}

#[test]
fn line_separation_must_be_finite_and_at_least_one_pixel() {
    let mut evidence = passing_visual_evidence();
    evidence.facts.terminal_min_line_separation_bits = 1.0_f64.to_bits();
    assert!(evidence.contract_passes());
    evidence.facts.terminal_min_line_separation_bits = 0.999_f64.to_bits();
    assert!(!evidence.contract_passes());
    evidence.facts.terminal_min_line_separation_bits = f64::INFINITY.to_bits();
    assert!(!evidence.contract_passes());
    evidence.facts.terminal_min_line_separation_bits = f64::NAN.to_bits();
    assert!(!evidence.contract_passes());
    evidence.facts.terminal_min_line_separation_bits = (-2.0_f64).to_bits();
    assert!(!evidence.contract_passes());
}

#[test]
fn focus_treatment_and_modal_accessibility_are_required() {
    let mut evidence = passing_visual_evidence();
    evidence.png.focus_or_selection_thickness_px = 1;
    assert!(!evidence.contract_passes());

    let mut evidence = passing_visual_evidence();
    evidence.facts.focus_or_selection_treatment = false;
    assert!(!evidence.contract_passes());

    let mut evidence = passing_visual_evidence();
    evidence.facts.content_dialog = true;
    assert!(!evidence.contract_passes());

    let checkpoint = import_checkpoint();
    let evidence = passing_import_evidence(&checkpoint);
    assert!(evidence.contract_passes());
    let mut stale = evidence.clone();
    stale.accessibility.escape_cancelled = false;
    assert!(!stale.contract_passes());
    let mut no_dialog = evidence;
    no_dialog.facts.content_dialog = false;
    assert!(!no_dialog.contract_passes());
}

#[test]
fn fixtures_describe_the_standard_captures() {
    let facts = passing_visual_facts();
    assert_eq!((facts.requested_width, facts.requested_height), (1_360, 860));
    assert_eq!(facts.effective_dpi_bits, 96.0_f64.to_bits());
    assert_eq!(facts.measured_cell_height_bits, 18.0_f64.to_bits());
    let evidence = passing_visual_evidence();
    assert_eq!(evidence.checkpoint_id, "standard-connected");
    assert_eq!(evidence.dpi.effective_scale_bits, 1.0_f64.to_bits());
    let checkpoint = import_checkpoint();
    assert_eq!(checkpoint.id, "standard-import");
    assert!(modal_visual_state(checkpoint.state));
    assert!(!modal_visual_state(SmokeVisualState::Connected));
}

#[test]
fn evidence_map_reads_back_the_latest_write() {
    let mut map = VisualEvidenceMap::new();
    let key = String::from("standard-connected");
    assert!(map.get(&key).is_none());
    map.insert(key.clone(), passing_visual_evidence());
    let mut replaced = passing_visual_evidence();
    replaced.png.non_empty = false;
    map.insert(key.clone(), replaced);
    map.insert("other".into(), passing_visual_evidence());
    assert!(!map.get(&key).unwrap().png.non_empty);
    assert!(map.get(&"other".to_string()).unwrap().png.non_empty);
    assert!(map.get(&"missing".to_string()).is_none());
}

#[test]
fn close_all_completes_on_shutdown_and_scenario_ends() {
    let init = SmokeDriverInit::new(SmokeScenario::new(vec![SmokeAction::CloseAll]));
    let mut driver = SmokeDriver::new(init);
    let mut now = observation(SmokeCounters::default());
    assert!(matches!(driver.tick(&now), Some(SmokeDecision::Route(SmokeAction::CloseAll))));
    assert!(driver.tick(&now).is_none());
    assert_eq!(driver.report().steps[0].state, SmokeStepState::Running);
    now.shutdown_complete = true;
    assert!(driver.tick(&now).is_none());
    assert_eq!(driver.report().steps[0].state, SmokeStepState::Passed);
    assert!(driver.tick(&now).is_none());
}
