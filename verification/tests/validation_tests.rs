use teg_core::rules::{
    Action, Constraint, ConstraintValue, Phase, ResultMapping, RuleSet, StateChange,
};
use teg_core::validation::{validate, validate_state_change, ValidationError};

fn simple_action(kind: &str, results: Vec<(&str, &str)>) -> Action {
    Action {
        kind: kind.to_string(),
        constraints: vec![],
        results: results
            .into_iter()
            .map(|(label, next)| ResultMapping {
                label: label.to_string(),
                next_phase: next.to_string(),
                effects: vec![],
            })
            .collect(),
    }
}

fn simple_phase(id: &str, actions: Vec<Action>, next: Option<&str>) -> Phase {
    Phase {
        id: id.to_string(),
        actions,
        next_phase: next.map(|s| s.to_string()),
    }
}

fn simple_rule_set(id: &str, default_phase: &str, phases: Vec<Phase>) -> RuleSet {
    RuleSet {
        id: id.to_string(),
        default_phase: default_phase.to_string(),
        phases,
        goals: vec![],
    }
}

#[test]
fn validate_accepts_minimal_rule_set() {
    let rs = simple_rule_set(
        "teg",
        "setup",
        vec![
            simple_phase(
                "setup",
                vec![simple_action("end_phase", vec![("done", "place")])],
                None,
            ),
            simple_phase("place", vec![], None),
        ],
    );
    assert_eq!(validate(&rs), Ok(()));
}

#[test]
fn validate_rejects_empty_rule_set_id() {
    let rs = simple_rule_set("", "setup", vec![simple_phase("setup", vec![], None)]);
    assert_eq!(validate(&rs), Err(ValidationError::EmptyId));
}

#[test]
fn validate_reports_empty_id_before_later_faults() {
    // An empty rule-set id wins over a duplicated phase id.
    let rs = simple_rule_set(
        "",
        "a",
        vec![simple_phase("a", vec![], None), simple_phase("a", vec![], None)],
    );
    assert_eq!(validate(&rs), Err(ValidationError::EmptyId));
}

#[test]
fn validate_rejects_duplicate_phase_id() {
    let rs = simple_rule_set(
        "teg",
        "setup",
        vec![
            simple_phase("setup", vec![], None),
            simple_phase("place", vec![], None),
            simple_phase("setup", vec![], None),
        ],
    );
    assert_eq!(
        validate(&rs),
        Err(ValidationError::DuplicatePhaseId("setup".to_string()))
    );
}

#[test]
fn validate_rejects_unknown_phase_reference() {
    let rs = simple_rule_set(
        "teg",
        "setup",
        vec![simple_phase("setup", vec![], Some("missing"))],
    );
    assert_eq!(
        validate(&rs),
        Err(ValidationError::UnknownPhaseReference(
            "setup".to_string(),
            "missing".to_string()
        ))
    );
}

#[test]
fn validate_reports_duplicate_before_unknown_reference() {
    let rs = simple_rule_set(
        "teg",
        "a",
        vec![
            simple_phase("a", vec![], Some("missing")),
            simple_phase("a", vec![], None),
        ],
    );
    assert_eq!(
        validate(&rs),
        Err(ValidationError::DuplicatePhaseId("a".to_string()))
    );
}

#[test]
fn validate_rejects_unrecognized_action_kind() {
    let rs = simple_rule_set(
        "teg",
        "setup",
        vec![simple_phase(
            "setup",
            vec![simple_action("fly", vec![("done", "setup")])],
            None,
        )],
    );
    assert_eq!(
        validate(&rs),
        Err(ValidationError::InvalidActionKind(
            "setup".to_string(),
            "fly".to_string()
        ))
    );
}

#[test]
fn validate_rejects_empty_constraint_field() {
    let mut action = simple_action("end_phase", vec![("done", "setup")]);
    action.constraints.push(Constraint {
        field: "".to_string(),
        value: ConstraintValue::Boolean(true),
    });
    let rs = simple_rule_set("teg", "setup", vec![simple_phase("setup", vec![action], None)]);
    assert_eq!(
        validate(&rs),
        Err(ValidationError::EmptyConstraintField("end_phase".to_string()))
    );
}

#[test]
fn validate_rejects_duplicate_result_label() {
    let action = simple_action("end_phase", vec![("done", "setup"), ("done", "place")]);
    let rs = simple_rule_set(
        "teg",
        "setup",
        vec![
            simple_phase("setup", vec![action], None),
            simple_phase("place", vec![], None),
        ],
    );
    assert_eq!(
        validate(&rs),
        Err(ValidationError::DuplicateResultLabel(
            "end_phase".to_string(),
            "done".to_string()
        ))
    );
}

#[test]
fn validate_accepts_distinct_result_labels() {
    let action = simple_action("end_phase", vec![("done", "setup"), ("fail", "place")]);
    let rs = simple_rule_set(
        "teg",
        "setup",
        vec![
            simple_phase("setup", vec![action], None),
            simple_phase("place", vec![], None),
        ],
    );
    assert_eq!(validate(&rs), Ok(()));
}

#[test]
fn validate_rejects_invalid_state_change_in_rule_set() {
    let mut action = simple_action("move_figures", vec![("done", "setup")]);
    action.results[0].effects.push(StateChange::MoveFigures {
        from: "A".to_string(),
        to: "A".to_string(),
        count: 5,
    });
    let rs = simple_rule_set("teg", "setup", vec![simple_phase("setup", vec![action], None)]);
    assert_eq!(
        validate(&rs),
        Err(ValidationError::InvalidStateChange(StateChange::MoveFigures {
            from: "A".to_string(),
            to: "A".to_string(),
            count: 5,
        }))
    );
}

#[test]
fn move_figures_between_same_locations_fails_validation() {
    let sc = StateChange::MoveFigures {
        from: "A".to_string(),
        to: "A".to_string(),
        count: 5,
    };
    assert!(validate_state_change(&sc).is_err());
}

#[test]
fn move_figures_with_zero_count_fails_validation() {
    let sc = StateChange::MoveFigures {
        from: "A".to_string(),
        to: "B".to_string(),
        count: 0,
    };
    assert!(validate_state_change(&sc).is_err());
}

#[test]
fn move_figures_with_positive_count_passes_validation() {
    let sc = StateChange::MoveFigures {
        from: "A".to_string(),
        to: "B".to_string(),
        count: 1,
    };
    assert_eq!(validate_state_change(&sc), Ok(()));
}

#[test]
fn change_owner_requires_non_empty_names() {
    let missing_field = StateChange::ChangeOwner {
        field_id: "".to_string(),
        new_owner: "blue".to_string(),
    };
    assert!(validate_state_change(&missing_field).is_err());
    let missing_owner = StateChange::ChangeOwner {
        field_id: "f1".to_string(),
        new_owner: "".to_string(),
    };
    assert!(validate_state_change(&missing_owner).is_err());
    let complete = StateChange::ChangeOwner {
        field_id: "f1".to_string(),
        new_owner: "blue".to_string(),
    };
    assert_eq!(validate_state_change(&complete), Ok(()));
}

#[test]
fn validate_accepts_a_rule_set_without_phases() {
    let rs = simple_rule_set("teg", "setup", vec![]);
    assert_eq!(validate(&rs), Ok(()));
}

#[test]
fn move_figures_with_the_largest_count_passes_validation() {
    let sc = StateChange::MoveFigures {
        from: "A".to_string(),
        to: "B".to_string(),
        count: u32::MAX,
    };
    assert_eq!(validate_state_change(&sc), Ok(()));
}

#[test]
fn validate_is_deterministic() {
    let good = simple_rule_set(
        "teg",
        "setup",
        vec![simple_phase(
            "setup",
            vec![simple_action("end_phase", vec![("done", "setup")])],
            None,
        )],
    );
    assert_eq!(validate(&good), validate(&good));
    let bad = simple_rule_set(
        "teg",
        "setup",
        vec![
            simple_phase("x", vec![], None),
            simple_phase("x", vec![], None),
        ],
    );
    assert_eq!(validate(&bad), validate(&bad));
    assert_eq!(
        validate(&bad),
        Err(ValidationError::DuplicatePhaseId("x".to_string()))
    );
}
