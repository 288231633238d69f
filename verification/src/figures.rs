//! Figure sets: the playing material each participant draws from.
//!
//! A [`FigureSet`] consists of named boxes (typically one per player); each
//! box holds figures of differing unit value. A set is consistent when it has
//! at least one box, no two boxes share a name, no box is empty, and no box
//! repeats a figure value.

use vstd::prelude::*;

use crate::catalog::{check_unique_ids, id_dup_scan_from, ids_unique, lemma_id_dup_scan,
    lemma_ids_unique_no_duplicate, CatalogError};

verus! {

/// One figure (piece) with a unit value and an image path.
#[derive(Debug, PartialEq, Eq)]
pub struct Figure {
    /// Logical unit value of this figure.
    pub value: u32,
    /// Path to the image representing this figure.
    pub image: String,
}

/// A named box of figures, typically one per player.
#[derive(Debug, PartialEq, Eq)]
pub struct FigureBox {
    /// Name of this box.
    pub name: String,
    /// Figures in this box, in declared order.
    pub figures: Vec<Figure>,
}

/// A figure set: a name and its boxes.
#[derive(Debug, PartialEq, Eq)]
pub struct FigureSet {
    /// Name of this figure set.
    pub name: String,
    /// The boxes of the set, in declared order.
    pub boxes: Vec<FigureBox>,
}

/// A consistency failure of a figure set.
#[derive(Debug, PartialEq, Eq)]
pub enum FigureValidationError {
    /// The named set has no boxes.
    EmptySet(String),
    /// Two boxes carry the given name.
    DuplicateBoxName(String),
    /// The named box has no figures.
    EmptyBox(String),
    /// A box repeats the given figure value.
    DuplicateValue(u32),
}

/// The mathematical value of a [`FigureValidationError`].
pub enum FigureFault {
    EmptySet(Seq<char>),
    DuplicateBoxName(Seq<char>),
    EmptyBox(Seq<char>),
    DuplicateValue(u64),
}

impl View for FigureValidationError {
    type V = FigureFault;

    open spec fn view(&self) -> FigureFault {
        match self {
            FigureValidationError::EmptySet(name) => FigureFault::EmptySet(name@),
            FigureValidationError::DuplicateBoxName(name) => FigureFault::DuplicateBoxName(name@),
            FigureValidationError::EmptyBox(name) => FigureFault::EmptyBox(name@),
            FigureValidationError::DuplicateValue(v) => FigureFault::DuplicateValue(*v as u64),
        }
    }
}

/// The values of a sequence of figures, as catalog ids.
pub open spec fn figure_values(figs: Seq<Figure>) -> Seq<u64> {
    figs.map_values(|f: Figure| f.value as u64)
}

/// A box is consistent: non-empty, with no figure value repeated.
pub open spec fn box_ok(b: FigureBox) -> bool {
    b.figures@.len() > 0 && ids_unique(figure_values(b.figures@))
}

/// Whether the box at index `k` repeats the name of an earlier box.
pub open spec fn box_name_duplicate_at(boxes: Seq<FigureBox>, k: int) -> bool {
    exists|i: int| 0 <= i < k && boxes[i].name@ == boxes[k].name@
}

/// No two boxes share a name.
pub open spec fn box_names_unique(boxes: Seq<FigureBox>) -> bool {
    forall|i: int, j: int| 0 <= i < j < boxes.len() ==> boxes[i].name@ != boxes[j].name@
}

/// The box at index `k` is acceptable in place: it neither repeats an
/// earlier name nor is itself inconsistent.
pub open spec fn box_ok_at(boxes: Seq<FigureBox>, k: int) -> bool {
    !box_name_duplicate_at(boxes, k) && box_ok(boxes[k])
}

/// A figure set is consistent: it has boxes, box names are unique, and every
/// box is consistent.
pub open spec fn figure_set_valid(s: &FigureSet) -> bool {
    &&& s.boxes@.len() > 0
    &&& box_names_unique(s.boxes@)
    &&& forall|k: int| 0 <= k < s.boxes@.len() ==> box_ok(#[trigger] s.boxes@[k])
}

/// The first fault among the boxes `boxes[k..]`, if any: a repeated box
/// name, an empty box, or a repeated figure value inside a box.
pub open spec fn box_scan_from(boxes: Seq<FigureBox>, k: int) -> Option<FigureFault>
    decreases boxes.len() - k,
    when 0 <= k <= boxes.len()
{
    if k == boxes.len() {
        None
    } else if box_name_duplicate_at(boxes, k) {
        Some(FigureFault::DuplicateBoxName(boxes[k].name@))
    } else if boxes[k].figures@.len() == 0 {
        Some(FigureFault::EmptyBox(boxes[k].name@))
    } else {
        match id_dup_scan_from(figure_values(boxes[k].figures@), 0) {
            Some(d) => Some(FigureFault::DuplicateValue(d)),
            None => box_scan_from(boxes, k + 1),
        }
    }
}

/// The verdict of figure-set validation, as a pure function of the set.
pub open spec fn figure_set_fault(s: &FigureSet) -> Option<FigureFault> {
    if s.boxes@.len() == 0 {
        Some(FigureFault::EmptySet(s.name@))
    } else {
        box_scan_from(s.boxes@, 0)
    }
}

/// The box scan accepts a suffix exactly when every box of it is acceptable
/// in place.
proof fn lemma_box_scan_none(boxes: Seq<FigureBox>, k: int)
    requires
        0 <= k <= boxes.len(),
    ensures
        box_scan_from(boxes, k) is None <==> forall|i: int|
            k <= i < boxes.len() ==> #[trigger] box_ok_at(boxes, i),
    decreases boxes.len() - k,
{
    if k < boxes.len() {
        lemma_id_dup_scan(figure_values(boxes[k].figures@), 0);
        lemma_ids_unique_no_duplicate(figure_values(boxes[k].figures@));
        if box_ok_at(boxes, k) {
            lemma_box_scan_none(boxes, k + 1);
        }
    }
}

/// Box names are unique exactly when no index repeats an earlier name.
proof fn lemma_box_names_unique_no_duplicate(boxes: Seq<FigureBox>)
    ensures
        box_names_unique(boxes) <==> forall|k: int|
            0 <= k < boxes.len() ==> !box_name_duplicate_at(boxes, k),
{
    if forall|k: int| 0 <= k < boxes.len() ==> !box_name_duplicate_at(boxes, k) {
        assert forall|i: int, j: int| 0 <= i < j < boxes.len() implies boxes[i].name@
            != boxes[j].name@ by {
            assert(!box_name_duplicate_at(boxes, j));
        }
    }
}

impl FigureSet {
    /// Checks the integrity of the figure set: it must have at least one
    /// box, no two boxes may share a name, no box may be empty, and no box
    /// may repeat a figure value. Boxes are checked in declared order and
    /// the first fault is reported.
    #[verifier::loop_isolation(false)]
    pub fn validate(&self) -> (r: Result<(), FigureValidationError>)
        ensures
            r is Ok <==> figure_set_valid(self),
            r matches Err(e) ==> Some(e@) == figure_set_fault(self),
    {
        proof {
            lemma_box_scan_none(self.boxes@, 0);
            lemma_box_names_unique_no_duplicate(self.boxes@);
            assert((box_names_unique(self.boxes@) && forall|k: int|
                0 <= k < self.boxes@.len() ==> box_ok(#[trigger] self.boxes@[k])) <==> forall|
                k: int,
            | 0 <= k < self.boxes@.len() ==> #[trigger] box_ok_at(self.boxes@, k)) by {
                if box_names_unique(self.boxes@) && forall|k: int|
                    0 <= k < self.boxes@.len() ==> box_ok(#[trigger] self.boxes@[k]) {
                    assert forall|k: int| 0 <= k < self.boxes@.len() implies #[trigger] box_ok_at(
                        self.boxes@,
                        k,
                    ) by {
                        assert(box_ok(self.boxes@[k]));
                        assert(!box_name_duplicate_at(self.boxes@, k));
                    }
                }
                if forall|k: int| 0 <= k < self.boxes@.len() ==> #[trigger] box_ok_at(
                    self.boxes@,
                    k,
                ) {
                    assert forall|k: int| 0 <= k < self.boxes@.len() implies box_ok(
                        #[trigger] self.boxes@[k],
                    ) by {
                        assert(box_ok_at(self.boxes@, k));
                    }
                    assert forall|k: int|
                        0 <= k < self.boxes@.len() implies !box_name_duplicate_at(
                        self.boxes@,
                        k,
                    ) by {
                        assert(box_ok_at(self.boxes@, k));
                    }
                }
            }
        }
        if self.boxes.len() == 0 {
            return Err(FigureValidationError::EmptySet(self.name.clone()));
        }
        let n = self.boxes.len();
        let mut k: usize = 0;
        while k < n
            invariant
                0 <= k <= n,
                box_scan_from(self.boxes@, 0) == box_scan_from(self.boxes@, k as int),
            decreases n - k,
        {
            let mut e: usize = 0;
            while e < k
                invariant
                    0 <= e <= k,
                    forall|x: int| 0 <= x < e ==> self.boxes@[x].name@ != self.boxes@[k as int].name@,
                decreases k - e,
            {
                if self.boxes[e].name == self.boxes[k].name {
                    proof {
                        assert(box_name_duplicate_at(self.boxes@, k as int));
                    }
                    return Err(FigureValidationError::DuplicateBoxName(self.boxes[k].name.clone()));
                }
                e += 1;
            }
            proof {
                assert(!box_name_duplicate_at(self.boxes@, k as int));
            }
            let b = &self.boxes[k];
            if b.figures.len() == 0 {
                return Err(FigureValidationError::EmptyBox(b.name.clone()));
            }
            let m = b.figures.len();
            let mut vals: Vec<u64> = Vec::new();
            let mut i: usize = 0;
            while i < m
                invariant
                    0 <= i <= m,
                    vals@.len() == i,
                    forall|x: int| 0 <= x < i ==> vals@[x] == #[trigger] b.figures@[x].value as u64,
                decreases m - i,
            {
                vals.push(b.figures[i].value as u64);
                i += 1;
            }
            proof {
                assert(vals@ =~= figure_values(b.figures@));
            }
            match check_unique_ids(&vals) {
                Ok(_) => {},
                Err(CatalogError::DuplicateId(d)) => {
                    proof {
                        lemma_id_dup_scan(vals@, 0);
                    }
                    return Err(FigureValidationError::DuplicateValue(d as u32));
                },
                Err(CatalogError::UnknownReference(_, _)) => {
                    proof {
                        assert(false);
                    }
                    return Err(FigureValidationError::EmptySet(self.name.clone()));
                },
            }
            k += 1;
        }
        Ok(())
    }
}

} // verus!
