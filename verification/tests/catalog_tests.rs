use teg_core::catalog::{check_references, check_unique_ids, contains_id, CatalogError};
use teg_core::fields::{
    FieldElement, FieldRelation, FieldSet, FieldStructure, FieldValidationError,
};
use teg_core::figures::{Figure, FigureBox, FigureSet, FigureValidationError};
use teg_core::game::GameDefinition;
use teg_core::pieces::{Piece, PieceSet, PieceStructure, PieceValidationError};
use teg_core::state::{FieldStatus, GamePhase, GameState, Participant};
use teg_core::validator::Validatable;

#[test]
fn unique_ids_pass_the_catalog_check() {
    assert_eq!(check_unique_ids(&vec![1, 2, 3]), Ok(()));
    assert_eq!(check_unique_ids(&vec![]), Ok(()));
}

#[test]
fn the_first_repeated_id_is_reported() {
    assert_eq!(
        check_unique_ids(&vec![1, 2, 1, 2]),
        Err(CatalogError::DuplicateId(1))
    );
}

#[test]
fn uniqueness_does_not_depend_on_insertion_order() {
    assert_eq!(check_unique_ids(&vec![1, 2, 3]), Ok(()));
    assert_eq!(check_unique_ids(&vec![3, 2, 1]), Ok(()));
    assert!(check_unique_ids(&vec![3, 1, 3]).is_err());
    assert!(check_unique_ids(&vec![3, 3, 1]).is_err());
}

#[test]
fn resolvable_references_pass_the_catalog_check() {
    assert_eq!(
        check_references(&vec![1, 2], &vec![(10, 1), (11, 2), (12, 1)]),
        Ok(())
    );
}

#[test]
fn the_first_unresolvable_reference_is_reported() {
    assert_eq!(
        check_references(&vec![1, 2], &vec![(10, 1), (11, 9), (12, 8)]),
        Err(CatalogError::UnknownReference(11, 9))
    );
}

#[test]
fn contains_id_decides_membership() {
    assert!(contains_id(&vec![4, 7], 7));
    assert!(!contains_id(&vec![4, 7], 5));
}

fn figure(value: u32) -> Figure {
    Figure {
        value,
        image: format!("figure_{}.png", value),
    }
}

fn figure_box(name: &str, values: Vec<u32>) -> FigureBox {
    FigureBox {
        name: name.to_string(),
        figures: values.into_iter().map(figure).collect(),
    }
}

#[test]
fn a_consistent_figure_set_validates() {
    let set = FigureSet {
        name: "Classic".to_string(),
        boxes: vec![figure_box("red", vec![1, 5, 10]), figure_box("blue", vec![1, 5])],
    };
    assert_eq!(set.validate(), Ok(()));
}

#[test]
fn a_figure_set_without_boxes_is_rejected() {
    let set = FigureSet {
        name: "Classic".to_string(),
        boxes: vec![],
    };
    assert_eq!(
        set.validate(),
        Err(FigureValidationError::EmptySet("Classic".to_string()))
    );
}

#[test]
fn a_repeated_figure_box_name_is_rejected() {
    let set = FigureSet {
        name: "Classic".to_string(),
        boxes: vec![figure_box("red", vec![1]), figure_box("red", vec![2])],
    };
    assert_eq!(
        set.validate(),
        Err(FigureValidationError::DuplicateBoxName("red".to_string()))
    );
}

#[test]
fn an_empty_figure_box_is_rejected() {
    let set = FigureSet {
        name: "Classic".to_string(),
        boxes: vec![figure_box("red", vec![1]), figure_box("blue", vec![])],
    };
    assert_eq!(
        set.validate(),
        Err(FigureValidationError::EmptyBox("blue".to_string()))
    );
}

#[test]
fn a_repeated_figure_value_is_rejected() {
    let set = FigureSet {
        name: "Classic".to_string(),
        boxes: vec![figure_box("red", vec![1, 5, 5])],
    };
    assert_eq!(
        set.validate(),
        Err(FigureValidationError::DuplicateValue(5))
    );
}

fn piece_set(name: &str, values: Vec<u32>) -> PieceSet {
    PieceSet {
        name: name.to_string(),
        pieces: values
            .into_iter()
            .map(|value| Piece { value, image: None })
            .collect(),
    }
}

#[test]
fn a_consistent_piece_structure_validates() {
    let ps = PieceStructure {
        sets: vec![piece_set("infantry", vec![1]), piece_set("cavalry", vec![5])],
    };
    assert_eq!(ps.validate(), Ok(()));
}

#[test]
fn a_repeated_piece_set_name_is_rejected() {
    let ps = PieceStructure {
        sets: vec![piece_set("infantry", vec![1]), piece_set("infantry", vec![5])],
    };
    assert_eq!(
        ps.validate(),
        Err(PieceValidationError::DuplicateSetName("infantry".to_string()))
    );
}

#[test]
fn an_empty_piece_set_is_rejected() {
    let ps = PieceStructure {
        sets: vec![piece_set("infantry", vec![1]), piece_set("navy", vec![])],
    };
    assert_eq!(
        ps.validate(),
        Err(PieceValidationError::EmptySet("navy".to_string()))
    );
}

fn element(id: u64, set_id: u64) -> FieldElement {
    FieldElement {
        id,
        name: format!("field {}", id),
        set_id,
        position: (0, 0),
    }
}

fn field_set(id: u64) -> FieldSet {
    FieldSet {
        id,
        name: format!("set {}", id),
        color: (0, 0, 0),
        bonus: 2,
    }
}

#[test]
fn a_consistent_board_validates() {
    let fs = FieldStructure {
        elements: vec![element(1, 100), element(2, 100)],
        sets: vec![field_set(100)],
        relations: vec![FieldRelation(1, 2), FieldRelation(2, 1)],
    };
    assert_eq!(fs.validate(), Ok(()));
}

#[test]
fn a_repeated_set_id_is_rejected() {
    let fs = FieldStructure {
        elements: vec![element(1, 100)],
        sets: vec![field_set(100), field_set(100)],
        relations: vec![],
    };
    assert_eq!(fs.validate(), Err(FieldValidationError::DuplicateSetId(100)));
}

#[test]
fn a_repeated_field_id_is_rejected() {
    let fs = FieldStructure {
        elements: vec![element(1, 100), element(1, 100)],
        sets: vec![field_set(100)],
        relations: vec![],
    };
    assert_eq!(fs.validate(), Err(FieldValidationError::DuplicateFieldId(1)));
}

#[test]
fn a_field_with_an_undeclared_set_is_rejected() {
    let fs = FieldStructure {
        elements: vec![element(1, 100), element(2, 9)],
        sets: vec![field_set(100)],
        relations: vec![],
    };
    assert_eq!(fs.validate(), Err(FieldValidationError::MissingSet(9)));
}

#[test]
fn a_relation_to_an_undeclared_field_is_rejected() {
    let fs = FieldStructure {
        elements: vec![element(1, 100)],
        sets: vec![field_set(100)],
        relations: vec![FieldRelation(1, 7)],
    };
    assert_eq!(
        fs.validate(),
        Err(FieldValidationError::InvalidRelation(1, 7))
    );
}

fn game_definition(id: &str, name: &str) -> GameDefinition {
    GameDefinition {
        id: id.to_string(),
        name: name.to_string(),
        author: "anon".to_string(),
        version: "1.0".to_string(),
        description: "a variant".to_string(),
        board: "".to_string(),
        cards: "".to_string(),
        dices: "".to_string(),
        pieces: "".to_string(),
        rule: "".to_string(),
    }
}

#[test]
fn a_named_game_definition_validates() {
    assert_eq!(game_definition("teg", "TEG").validate(), Ok(()));
}

#[test]
fn a_game_definition_without_id_is_rejected() {
    assert_eq!(
        game_definition("", "TEG").validate(),
        Err("GameDefinition: 'id' must not be empty.".to_string())
    );
}

#[test]
fn a_game_definition_without_name_is_rejected() {
    assert_eq!(
        game_definition("teg", "").validate(),
        Err("GameDefinition: 'name' must not be empty.".to_string())
    );
}

#[test]
fn a_game_definition_with_a_whitespace_id_is_rejected() {
    assert_eq!(
        game_definition(" ", "TEG").validate(),
        Err("GameDefinition: 'id' must not be empty.".to_string())
    );
}

#[test]
fn a_game_definition_with_a_whitespace_name_is_rejected() {
    assert_eq!(
        game_definition("teg", " \t\n\u{a0}").validate(),
        Err("GameDefinition: 'name' must not be empty.".to_string())
    );
}

#[test]
fn a_fresh_game_state_starts_unowned_in_setup() {
    let state = GameState::new(
        &vec![4, 7],
        vec![Participant {
            id: 1,
            name: "blue".to_string(),
            active: true,
            available_units: 20,
        }],
    );
    assert_eq!(state.current_participant, 0);
    assert_eq!(state.phase, GamePhase::Setup);
    assert_eq!(
        state.fields,
        vec![
            (4, FieldStatus { owner_id: None, units: 0 }),
            (7, FieldStatus { owner_id: None, units: 0 }),
        ]
    );
    assert_eq!(state.participants.len(), 1);
    assert!(state.participants[0].active);
}
