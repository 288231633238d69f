//! The board catalog: fields, their grouping into sets, and their relations.
//!
//! A [`FieldStructure`] is consistent when every field's `set_id` names a
//! declared [`FieldSet`] and every [`FieldRelation`] connects two declared
//! fields — the referential-integrity contract of [`crate::catalog`],
//! instantiated for the board.

use vstd::prelude::*;

use crate::catalog::{
    check_references, check_unique_ids, contains_id, id_dup_scan_from, ids_unique,
    ref_miss_scan_from, refs_valid, CatalogError,
};

verus! {

/// Unique identifier of a field (a single tile on the board).
pub type FieldId = u64;

/// Unique identifier of a field set (a group of related fields).
pub type FieldSetId = u64;

/// A single field on the game board. Each field belongs to exactly one
/// field set and has a position used for display.
#[derive(Debug, PartialEq, Eq)]
pub struct FieldElement {
    /// Unique identifier of the field.
    pub id: FieldId,
    /// Display name of the field.
    pub name: String,
    /// Identifier of the set this field belongs to.
    pub set_id: FieldSetId,
    /// Logical position used for display purposes.
    pub position: (i64, i64),
}

/// A logical group of fields, used for bonus points and visual grouping.
#[derive(Debug, PartialEq, Eq)]
pub struct FieldSet {
    /// Unique identifier of the set.
    pub id: FieldSetId,
    /// Display name of the set.
    pub name: String,
    /// Color assigned to this set, as red, green and blue parts.
    pub color: (u8, u8, u8),
    /// Bonus awarded when all fields of the set are controlled.
    pub bonus: u32,
}

/// A directed adjacency between two fields.
#[derive(Debug, Clone, Copy, PartialEq, Eq, Structural, Hash)]
pub struct FieldRelation(pub FieldId, pub FieldId);

/// The complete definition of a game board.
#[derive(Debug, PartialEq, Eq)]
pub struct FieldStructure {
    /// All field elements, in declared order.
    pub elements: Vec<FieldElement>,
    /// All field sets, in declared order.
    pub sets: Vec<FieldSet>,
    /// Directed relations between fields, in declared order.
    pub relations: Vec<FieldRelation>,
}

/// A consistency failure of a board structure.
#[derive(Debug, Clone, Copy, PartialEq, Eq, Structural)]
pub enum FieldValidationError {
    /// Two sets carry the given id.
    DuplicateSetId(FieldSetId),
    /// Two fields carry the given id.
    DuplicateFieldId(FieldId),
    /// A field names this set id, but no set carries it.
    MissingSet(FieldSetId),
    /// A relation names a field id that no field carries.
    InvalidRelation(FieldId, FieldId),
}

/// The ids of the declared sets, in order.
pub open spec fn set_ids_of(sets: Seq<FieldSet>) -> Seq<u64> {
    sets.map_values(|s: FieldSet| s.id)
}

/// The ids of the declared fields, in order.
pub open spec fn element_ids_of(elements: Seq<FieldElement>) -> Seq<u64> {
    elements.map_values(|e: FieldElement| e.id)
}

/// The set references of the fields: each field's own id paired with the id
/// of the set it claims to belong to.
pub open spec fn element_set_refs(elements: Seq<FieldElement>) -> Seq<(u64, u64)> {
    elements.map_values(|e: FieldElement| (e.id, e.set_id))
}

/// Whether some declared set carries the identifier `id`.
pub open spec fn set_id_declared(sets: Seq<FieldSet>, id: FieldSetId) -> bool {
    exists|k: int| 0 <= k < sets.len() && sets[k].id == id
}

/// Whether some declared field carries the identifier `id`.
pub open spec fn element_id_declared(elements: Seq<FieldElement>, id: FieldId) -> bool {
    exists|k: int| 0 <= k < elements.len() && elements[k].id == id
}

/// Whether both endpoints of a relation are declared fields.
pub open spec fn relation_ok(elements: Seq<FieldElement>, r: FieldRelation) -> bool {
    element_id_declared(elements, r.0) && element_id_declared(elements, r.1)
}

/// The first relation of `relations[k..]` with an undeclared endpoint.
pub open spec fn bad_relation_scan_from(
    elements: Seq<FieldElement>,
    relations: Seq<FieldRelation>,
    k: int,
) -> Option<FieldRelation>
    decreases relations.len() - k,
    when 0 <= k <= relations.len()
{
    if k == relations.len() {
        None
    } else if !relation_ok(elements, relations[k]) {
        Some(relations[k])
    } else {
        bad_relation_scan_from(elements, relations, k + 1)
    }
}

/// A board structure is consistent: set ids and field ids are unique, every
/// field's set exists, and every relation connects declared fields.
pub open spec fn field_structure_valid(fs: &FieldStructure) -> bool {
    &&& ids_unique(set_ids_of(fs.sets@))
    &&& ids_unique(element_ids_of(fs.elements@))
    &&& forall|j: int|
        0 <= j < fs.elements@.len() ==> set_id_declared(fs.sets@, #[trigger] fs.elements@[j].set_id)
    &&& forall|k: int|
        0 <= k < fs.relations@.len() ==> relation_ok(fs.elements@, #[trigger] fs.relations@[k])
}

/// The verdict of board validation, as a pure function of the structure:
/// set-id uniqueness, then field-id uniqueness, then the fields' set
/// references, then the relations, each in declared order.
pub open spec fn field_structure_fault(fs: &FieldStructure) -> Option<FieldValidationError> {
    match id_dup_scan_from(set_ids_of(fs.sets@), 0) {
        Some(d) => Some(FieldValidationError::DuplicateSetId(d)),
        None => match id_dup_scan_from(element_ids_of(fs.elements@), 0) {
            Some(d) => Some(FieldValidationError::DuplicateFieldId(d)),
            None => match ref_miss_scan_from(
                set_ids_of(fs.sets@),
                element_set_refs(fs.elements@),
                0,
            ) {
                Some(m) => Some(FieldValidationError::MissingSet(m.1)),
                None => match bad_relation_scan_from(fs.elements@, fs.relations@, 0) {
                    Some(r) => Some(FieldValidationError::InvalidRelation(r.0, r.1)),
                    None => None,
                },
            },
        },
    }
}

/// The extracted set ids contain an id exactly when a declared set carries
/// it.
proof fn lemma_set_ids_contain(sets: Seq<FieldSet>, id: u64)
    ensures
        set_ids_of(sets).contains(id) <==> set_id_declared(sets, id),
{
    if set_ids_of(sets).contains(id) {
        let k = choose|k: int| 0 <= k < set_ids_of(sets).len() && set_ids_of(sets)[k] == id;
        assert(sets[k].id == id);
    }
    if set_id_declared(sets, id) {
        let k = choose|k: int| 0 <= k < sets.len() && sets[k].id == id;
        assert(set_ids_of(sets)[k] == id);
    }
}

/// The extracted field ids contain an id exactly when a declared field
/// carries it.
proof fn lemma_element_ids_contain(elements: Seq<FieldElement>, id: u64)
    ensures
        element_ids_of(elements).contains(id) <==> element_id_declared(elements, id),
{
    if element_ids_of(elements).contains(id) {
        let k = choose|k: int|
            0 <= k < element_ids_of(elements).len() && element_ids_of(elements)[k] == id;
        assert(elements[k].id == id);
    }
    if element_id_declared(elements, id) {
        let k = choose|k: int| 0 <= k < elements.len() && elements[k].id == id;
        assert(element_ids_of(elements)[k] == id);
    }
}

/// The set references resolve exactly when every field's set is declared.
proof fn lemma_set_refs_valid(fs: &FieldStructure)
    ensures
        refs_valid(set_ids_of(fs.sets@), element_set_refs(fs.elements@)) <==> forall|j: int|
            0 <= j < fs.elements@.len() ==> set_id_declared(
                fs.sets@,
                #[trigger] fs.elements@[j].set_id,
            ),
{
    let ids = set_ids_of(fs.sets@);
    let refs = element_set_refs(fs.elements@);
    if refs_valid(ids, refs) {
        assert forall|j: int| 0 <= j < fs.elements@.len() implies set_id_declared(
            fs.sets@,
            #[trigger] fs.elements@[j].set_id,
        ) by {
            assert(ids.contains(refs[j].1));
            lemma_set_ids_contain(fs.sets@, fs.elements@[j].set_id);
        }
    }
    if forall|j: int|
        0 <= j < fs.elements@.len() ==> set_id_declared(
            fs.sets@,
            #[trigger] fs.elements@[j].set_id,
        ) {
        assert forall|k: int| 0 <= k < refs.len() implies ids.contains(#[trigger] refs[k].1) by {
            assert(set_id_declared(fs.sets@, fs.elements@[k].set_id));
            lemma_set_ids_contain(fs.sets@, fs.elements@[k].set_id);
        }
    }
}

/// The relation scan accepts a suffix exactly when every relation of it is
/// acceptable.
proof fn lemma_bad_relation_scan_none(
    elements: Seq<FieldElement>,
    relations: Seq<FieldRelation>,
    k: int,
)
    requires
        0 <= k <= relations.len(),
    ensures
        bad_relation_scan_from(elements, relations, k) is None <==> forall|i: int|
            k <= i < relations.len() ==> relation_ok(elements, #[trigger] relations[i]),
    decreases relations.len() - k,
{
    if k < relations.len() && relation_ok(elements, relations[k]) {
        lemma_bad_relation_scan_none(elements, relations, k + 1);
    }
}

impl FieldStructure {
    /// Checks the board for structural consistency: set ids and field ids
    /// must be unique, every field's `set_id` must name a declared set, and
    /// every relation must connect two declared fields. The first fault, in
    /// declared order, is reported.
    #[verifier::loop_isolation(false)]
    pub fn validate(&self) -> (r: Result<(), FieldValidationError>)
        ensures
            r is Ok <==> field_structure_valid(self),
            r == match field_structure_fault(self) {
                None => Ok::<(), FieldValidationError>(()),
                Some(e) => Err(e),
            },
    {
        proof {
            lemma_set_refs_valid(self);
            lemma_bad_relation_scan_none(self.elements@, self.relations@, 0);
        }
        let en = self.elements.len();
        let mut set_ids: Vec<u64> = Vec::new();
        let mut i: usize = 0;
        while i < self.sets.len()
            invariant
                0 <= i <= self.sets@.len(),
                set_ids@.len() == i,
                forall|x: int| 0 <= x < i ==> set_ids@[x] == #[trigger] self.sets@[x].id,
            decreases self.sets@.len() - i,
        {
            set_ids.push(self.sets[i].id);
            i += 1;
        }
        proof {
            assert(set_ids@ =~= set_ids_of(self.sets@));
        }
        match check_unique_ids(&set_ids) {
            Ok(_) => {},
            Err(CatalogError::DuplicateId(d)) => {
                return Err(FieldValidationError::DuplicateSetId(d));
            },
            Err(CatalogError::UnknownReference(_, _)) => {
                proof {
                    assert(false);
                }
                return Err(FieldValidationError::DuplicateSetId(0));
            },
        }
        let mut elem_ids: Vec<u64> = Vec::new();
        let mut i: usize = 0;
        while i < en
            invariant
                0 <= i <= en,
                elem_ids@.len() == i,
                forall|x: int| 0 <= x < i ==> elem_ids@[x] == #[trigger] self.elements@[x].id,
            decreases en - i,
        {
            elem_ids.push(self.elements[i].id);
            i += 1;
        }
        proof {
            assert(elem_ids@ =~= element_ids_of(self.elements@));
        }
        match check_unique_ids(&elem_ids) {
            Ok(_) => {},
            Err(CatalogError::DuplicateId(d)) => {
                return Err(FieldValidationError::DuplicateFieldId(d));
            },
            Err(CatalogError::UnknownReference(_, _)) => {
                proof {
                    assert(false);
                }
                return Err(FieldValidationError::DuplicateFieldId(0));
            },
        }
        let mut set_refs: Vec<(u64, u64)> = Vec::new();
        let mut i: usize = 0;
        while i < en
            invariant
                0 <= i <= en,
                set_refs@.len() == i,
                forall|x: int|
                    0 <= x < i ==> set_refs@[x] == (
                    #[trigger] self.elements@[x].id,
                    self.elements@[x].set_id,
                ),
            decreases en - i,
        {
            set_refs.push((self.elements[i].id, self.elements[i].set_id));
            i += 1;
        }
        proof {
            assert(set_refs@ =~= element_set_refs(self.elements@));
        }
        match check_references(&set_ids, &set_refs) {
            Ok(_) => {},
            Err(CatalogError::UnknownReference(_, to)) => {
                return Err(FieldValidationError::MissingSet(to));
            },
            Err(CatalogError::DuplicateId(_)) => {
                proof {
                    assert(false);
                }
                return Err(FieldValidationError::MissingSet(0));
            },
        }

        let rn = self.relations.len();
        let mut k: usize = 0;
        while k < rn
            invariant
                0 <= k <= rn,
                bad_relation_scan_from(self.elements@, self.relations@, 0)
                    == bad_relation_scan_from(self.elements@, self.relations@, k as int),
            decreases rn - k,
        {
            let a = self.relations[k].0;
            let b = self.relations[k].1;
            proof {
                lemma_element_ids_contain(self.elements@, a);
                lemma_element_ids_contain(self.elements@, b);
            }
            if !contains_id(&elem_ids, a) || !contains_id(&elem_ids, b) {
                return Err(FieldValidationError::InvalidRelation(a, b));
            }
            k += 1;
        }
        Ok(())
    }
}

} // verus!
