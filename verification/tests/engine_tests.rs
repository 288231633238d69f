use teg_core::engine::{EngineError, PhaseFlowControl, PhaseFlowEvent, RecordingObserver};
use teg_core::rules::{Action, Constraint, ConstraintValue, Phase, ResultMapping, RuleSet};
use teg_core::validation::validate;

fn teg_rules() -> RuleSet {
    RuleSet {
        id: "teg".to_string(),
        default_phase: "setup".to_string(),
        phases: vec![
            Phase {
                id: "setup".to_string(),
                actions: vec![Action {
                    kind: "end_phase".to_string(),
                    constraints: vec![],
                    results: vec![ResultMapping {
                        label: "done".to_string(),
                        next_phase: "place".to_string(),
                        effects: vec![],
                    }],
                }],
                next_phase: None,
            },
            Phase {
                id: "place".to_string(),
                actions: vec![],
                next_phase: None,
            },
        ],
        goals: vec![],
    }
}

fn teg_engine() -> PhaseFlowControl<RecordingObserver> {
    let rules = teg_rules();
    validate(&rules).expect("the teg rule set must validate");
    PhaseFlowControl::new(rules)
}

fn action_executed(phase: &str, action: &str, result: &str) -> PhaseFlowEvent {
    PhaseFlowEvent::ActionExecuted {
        phase: phase.to_string(),
        action: action.to_string(),
        result: result.to_string(),
    }
}

fn phase_changed(from: &str, to: &str) -> PhaseFlowEvent {
    PhaseFlowEvent::PhaseChanged {
        from: from.to_string(),
        to: to.to_string(),
    }
}

#[test]
fn engine_starts_in_default_phase() {
    let engine = teg_engine();
    assert_eq!(engine.current_phase(), "setup");
}

#[test]
fn execute_action_transitions_and_notifies_every_observer() {
    let mut engine = teg_engine();
    engine.add_observer(RecordingObserver::new());
    engine.add_observer(RecordingObserver::new());

    assert_eq!(engine.execute_action("end_phase", "done"), Ok(()));
    assert_eq!(engine.current_phase(), "place");

    let expected = vec![
        action_executed("setup", "end_phase", "done"),
        phase_changed("setup", "place"),
    ];
    for observer in engine.observers() {
        assert_eq!(observer.log, expected);
    }
}

#[test]
fn execute_action_with_unknown_action_changes_nothing() {
    let mut engine = teg_engine();
    engine.add_observer(RecordingObserver::new());

    assert_eq!(
        engine.execute_action("attack", "done"),
        Err(EngineError::ActionNotFound)
    );
    assert_eq!(engine.current_phase(), "setup");
    assert!(engine.observers()[0].log.is_empty());
}

#[test]
fn execute_action_with_unknown_result_changes_nothing() {
    let mut engine = teg_engine();
    engine.add_observer(RecordingObserver::new());

    assert_eq!(
        engine.execute_action("end_phase", "fail"),
        Err(EngineError::InvalidActionOrResult)
    );
    assert_eq!(engine.current_phase(), "setup");
    assert!(engine.observers()[0].log.is_empty());
}

#[test]
fn is_action_allowed_is_a_pure_query() {
    let mut engine = teg_engine();
    engine.add_observer(RecordingObserver::new());

    let phase_before = engine.current_phase().to_string();
    let actions_before = engine.available_actions();
    assert!(engine.is_action_allowed("end_phase"));
    assert!(!engine.is_action_allowed("attack"));
    assert!(engine.is_action_allowed("end_phase"));
    assert_eq!(engine.current_phase(), phase_before);
    assert_eq!(engine.available_actions(), actions_before);
    assert!(engine.observers()[0].log.is_empty());
}

#[test]
fn available_actions_lists_declared_kinds_in_order() {
    let mut rules = teg_rules();
    rules.phases[0].actions.insert(
        0,
        Action {
            kind: "place_figure".to_string(),
            constraints: vec![],
            results: vec![ResultMapping {
                label: "done".to_string(),
                next_phase: "setup".to_string(),
                effects: vec![],
            }],
        },
    );
    validate(&rules).expect("the extended rule set must validate");
    let engine: PhaseFlowControl<RecordingObserver> = PhaseFlowControl::new(rules);
    assert_eq!(
        engine.available_actions(),
        vec!["place_figure".to_string(), "end_phase".to_string()]
    );
}

#[test]
fn available_actions_is_empty_for_unmatched_current_phase() {
    let mut rules = teg_rules();
    rules.default_phase = "nowhere".to_string();
    validate(&rules).expect("a dangling default phase still validates");
    let engine: PhaseFlowControl<RecordingObserver> = PhaseFlowControl::new(rules);
    assert_eq!(engine.current_phase(), "nowhere");
    assert!(engine.available_actions().is_empty());
}

#[test]
fn check_constraints_succeeds_without_constraints() {
    let mut engine = teg_engine();
    engine.add_observer(RecordingObserver::new());

    assert_eq!(engine.check_constraints("end_phase"), Ok(true));
    assert_eq!(engine.current_phase(), "setup");
    assert_eq!(
        engine.observers()[0].log,
        vec![PhaseFlowEvent::ConstraintChecked {
            phase: "setup".to_string(),
            action: "end_phase".to_string(),
            success: true,
        }]
    );
}

#[test]
fn check_constraints_reads_the_action_context() {
    let mut rules = teg_rules();
    rules.phases[0].actions[0].constraints.push(Constraint {
        field: "ready".to_string(),
        value: ConstraintValue::Boolean(true),
    });
    validate(&rules).expect("the constrained rule set must validate");
    let mut engine: PhaseFlowControl<RecordingObserver> = PhaseFlowControl::new(rules);
    engine.add_observer(RecordingObserver::new());

    assert_eq!(engine.check_constraints("end_phase"), Ok(false));
    engine.update_context("ready".to_string(), ConstraintValue::Boolean(false));
    assert_eq!(engine.check_constraints("end_phase"), Ok(false));
    engine.update_context("ready".to_string(), ConstraintValue::Boolean(true));
    assert_eq!(engine.check_constraints("end_phase"), Ok(true));

    let successes: Vec<bool> = engine.observers()[0]
        .log
        .iter()
        .map(|event| match event {
            PhaseFlowEvent::ConstraintChecked { success, .. } => *success,
            _ => panic!("only constraint checks were made"),
        })
        .collect();
    assert_eq!(successes, vec![false, false, true]);
}

#[test]
fn check_constraints_with_unknown_action_emits_nothing() {
    let mut engine = teg_engine();
    engine.add_observer(RecordingObserver::new());

    assert_eq!(
        engine.check_constraints("attack"),
        Err(EngineError::ActionNotFound)
    );
    assert!(engine.observers()[0].log.is_empty());
}

#[test]
fn context_updates_are_read_back_last_write_wins() {
    let mut engine = teg_engine();
    engine.update_context("limit".to_string(), ConstraintValue::Number(3));
    assert_eq!(
        engine.context_value("limit"),
        Some(&ConstraintValue::Number(3))
    );
    engine.update_context("limit".to_string(), ConstraintValue::Number(7));
    assert_eq!(
        engine.context_value("limit"),
        Some(&ConstraintValue::Number(7))
    );
    assert_eq!(engine.context_value("unset"), None);
    engine.update_context(
        "label".to_string(),
        ConstraintValue::Text("turn".to_string()),
    );
    assert_eq!(
        engine.context_value("label"),
        Some(&ConstraintValue::Text("turn".to_string()))
    );
}

#[test]
fn observers_added_later_see_only_later_events() {
    let mut rules = teg_rules();
    // Let the second phase lead back to the first so two transitions exist.
    rules.phases[1].actions.push(Action {
        kind: "end_phase".to_string(),
        constraints: vec![],
        results: vec![ResultMapping {
            label: "done".to_string(),
            next_phase: "setup".to_string(),
            effects: vec![],
        }],
    });
    validate(&rules).expect("the cyclic rule set must validate");
    let mut engine: PhaseFlowControl<RecordingObserver> = PhaseFlowControl::new(rules);

    engine.add_observer(RecordingObserver::new());
    assert_eq!(engine.execute_action("end_phase", "done"), Ok(()));
    engine.add_observer(RecordingObserver::new());
    assert_eq!(engine.execute_action("end_phase", "done"), Ok(()));

    let first = &engine.observers()[0].log;
    let second = &engine.observers()[1].log;
    assert_eq!(
        *first,
        vec![
            action_executed("setup", "end_phase", "done"),
            phase_changed("setup", "place"),
            action_executed("place", "end_phase", "done"),
            phase_changed("place", "setup"),
        ]
    );
    assert_eq!(
        *second,
        vec![
            action_executed("place", "end_phase", "done"),
            phase_changed("place", "setup"),
        ]
    );
}
