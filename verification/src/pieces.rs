//! Piece sets: named collections of game pieces.
//!
//! A [`PieceStructure`] holds every piece set of one game variant. It is
//! consistent when no two sets share a name and every set holds at least one
//! piece.

use vstd::prelude::*;

verus! {

/// One game piece with a unit value and an optional image path.
#[derive(Debug, PartialEq, Eq)]
pub struct Piece {
    /// Logical unit value of this piece.
    pub value: u32,
    /// Path to the image representing this piece, if any.
    pub image: Option<String>,
}

/// A named collection of pieces.
#[derive(Debug, PartialEq, Eq)]
pub struct PieceSet {
    /// Name of the set; unique within its structure.
    pub name: String,
    /// The pieces of the set, in declared order.
    pub pieces: Vec<Piece>,
}

/// All piece sets of one game variant.
#[derive(Debug, PartialEq, Eq)]
pub struct PieceStructure {
    /// The sets, in declared order.
    pub sets: Vec<PieceSet>,
}

/// A consistency failure of a piece structure.
#[derive(Debug, PartialEq, Eq)]
pub enum PieceValidationError {
    /// Two sets carry the given name.
    DuplicateSetName(String),
    /// The named set holds no piece.
    EmptySet(String),
}

/// The mathematical value of a [`PieceValidationError`].
pub enum PieceFault {
    DuplicateSetName(Seq<char>),
    EmptySet(Seq<char>),
}

impl View for PieceValidationError {
    type V = PieceFault;

    open spec fn view(&self) -> PieceFault {
        match self {
            PieceValidationError::DuplicateSetName(name) => PieceFault::DuplicateSetName(name@),
            PieceValidationError::EmptySet(name) => PieceFault::EmptySet(name@),
        }
    }
}

/// Whether the set at index `j` repeats the name of an earlier set.
pub open spec fn set_name_duplicate_at(sets: Seq<PieceSet>, j: int) -> bool {
    exists|i: int| 0 <= i < j && sets[i].name@ == sets[j].name@
}

/// No two sets share a name.
pub open spec fn set_names_unique(sets: Seq<PieceSet>) -> bool {
    forall|i: int, j: int| 0 <= i < j < sets.len() ==> sets[i].name@ != sets[j].name@
}

/// The first fault among the sets `sets[j..]`, if any: a repeated set name,
/// or an empty set.
pub open spec fn set_scan_from(sets: Seq<PieceSet>, j: int) -> Option<PieceFault>
    decreases sets.len() - j,
    when 0 <= j <= sets.len()
{
    if j == sets.len() {
        None
    } else if set_name_duplicate_at(sets, j) {
        Some(PieceFault::DuplicateSetName(sets[j].name@))
    } else if sets[j].pieces@.len() == 0 {
        Some(PieceFault::EmptySet(sets[j].name@))
    } else {
        set_scan_from(sets, j + 1)
    }
}

/// A piece structure is consistent: set names are unique and no set is
/// empty.
pub open spec fn piece_structure_valid(ps: &PieceStructure) -> bool {
    &&& set_names_unique(ps.sets@)
    &&& forall|j: int| 0 <= j < ps.sets@.len() ==> #[trigger] ps.sets@[j].pieces@.len() > 0
}

/// The set at index `k` neither repeats an earlier name nor is empty.
pub open spec fn set_ok_at(sets: Seq<PieceSet>, k: int) -> bool {
    !set_name_duplicate_at(sets, k) && sets[k].pieces@.len() > 0
}

/// The set scan accepts a suffix exactly when no set of it repeats an
/// earlier name or is empty.
proof fn lemma_set_scan_none(sets: Seq<PieceSet>, j: int)
    requires
        0 <= j <= sets.len(),
    ensures
        set_scan_from(sets, j) is None <==> forall|k: int|
            j <= k < sets.len() ==> #[trigger] set_ok_at(sets, k),
    decreases sets.len() - j,
{
    if j < sets.len() && set_ok_at(sets, j) {
        lemma_set_scan_none(sets, j + 1);
    }
}

/// Set names are unique exactly when no index repeats an earlier name.
proof fn lemma_set_names_unique_no_duplicate(sets: Seq<PieceSet>)
    ensures
        set_names_unique(sets) <==> forall|k: int|
            0 <= k < sets.len() ==> !set_name_duplicate_at(sets, k),
{
    if forall|k: int| 0 <= k < sets.len() ==> !set_name_duplicate_at(sets, k) {
        assert forall|i: int, j: int| 0 <= i < j < sets.len() implies sets[i].name@
            != sets[j].name@ by {
            assert(!set_name_duplicate_at(sets, j));
        }
    }
}

impl PieceStructure {
    /// Checks the integrity of the piece structure: set names must be unique
    /// and every set must hold at least one piece. Sets are checked in
    /// declared order and the first fault is reported.
    #[verifier::loop_isolation(false)]
    pub fn validate(&self) -> (r: Result<(), PieceValidationError>)
        ensures
            r is Ok <==> piece_structure_valid(self),
            r matches Err(e) ==> Some(e@) == set_scan_from(self.sets@, 0),
    {
        proof {
            lemma_set_scan_none(self.sets@, 0);
            lemma_set_names_unique_no_duplicate(self.sets@);
            assert(piece_structure_valid(self) <==> forall|k: int|
                0 <= k < self.sets@.len() ==> #[trigger] set_ok_at(self.sets@, k)) by {
                if piece_structure_valid(self) {
                    assert forall|k: int| 0 <= k < self.sets@.len() implies #[trigger] set_ok_at(
                        self.sets@,
                        k,
                    ) by {
                        assert(self.sets@[k].pieces@.len() > 0);
                        assert(!set_name_duplicate_at(self.sets@, k));
                    }
                }
                if forall|k: int| 0 <= k < self.sets@.len() ==> #[trigger] set_ok_at(
                    self.sets@,
                    k,
                ) {
                    assert forall|j: int|
                        0 <= j < self.sets@.len() implies #[trigger] self.sets@[j].pieces@.len()
                        > 0 by {
                        assert(set_ok_at(self.sets@, j));
                    }
                    assert forall|j: int|
                        0 <= j < self.sets@.len() implies !set_name_duplicate_at(
                        self.sets@,
                        j,
                    ) by {
                        assert(set_ok_at(self.sets@, j));
                    }
                }
            }
        }
        let n = self.sets.len();
        let mut j: usize = 0;
        while j < n
            invariant
                0 <= j <= n,
                set_scan_from(self.sets@, 0) == set_scan_from(self.sets@, j as int),
            decreases n - j,
        {
            let mut i: usize = 0;
            while i < j
                invariant
                    0 <= i <= j,
                    forall|k: int| 0 <= k < i ==> self.sets@[k].name@ != self.sets@[j as int].name@,
                decreases j - i,
            {
                if self.sets[i].name == self.sets[j].name {
                    proof {
                        assert(set_name_duplicate_at(self.sets@, j as int));
                    }
                    return Err(PieceValidationError::DuplicateSetName(self.sets[j].name.clone()));
                }
                i += 1;
            }
            proof {
                assert(!set_name_duplicate_at(self.sets@, j as int));
            }
            if self.sets[j].pieces.len() == 0 {
                return Err(PieceValidationError::EmptySet(self.sets[j].name.clone()));
            }
            j += 1;
        }
        Ok(())
    }
}

} // verus!
