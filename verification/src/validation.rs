//! The referential-integrity validator for rule sets.
//!
//! [`validate`] checks a [`RuleSet`] once, before an engine is built from it,
//! and fails fast on the first violation in a fixed order: the rule-set id,
//! then phase-id uniqueness, then phase references, then every action of
//! every phase. The verdict is a pure function of the rule set, written down
//! as [`validate_spec`]; [`rule_set_valid`] states the same acceptance
//! condition declaratively, and the two agree.

use vstd::prelude::*;

use crate::rules::{
    has_phase_id, is_recognized_kind, kind_recognized, phase_id_exists, state_change_valid, Action,
    Constraint, Phase, ResultMapping, RuleSet, StateChange, StateChangeView,
};

verus! {

/// A load-time validation failure. The whole configuration load aborts on
/// the first one encountered.
#[derive(Debug, PartialEq, Eq)]
pub enum ValidationError {
    /// The rule set's own identifier is empty.
    EmptyId,
    /// Two phases carry the named identifier.
    DuplicatePhaseId(String),
    /// The first named phase declares the second name as its successor, but
    /// no phase carries that identifier.
    UnknownPhaseReference(String, String),
    /// The named phase declares an action whose kind is not recognized; the
    /// second name is that kind.
    InvalidActionKind(String, String),
    /// An action of the named kind carries a constraint with an empty field.
    EmptyConstraintField(String),
    /// An action of the first-named kind maps the second-named result label
    /// to a next phase twice.
    DuplicateResultLabel(String, String),
    /// The carried state change violates its invariant.
    InvalidStateChange(StateChange),
}

/// The mathematical value of a [`ValidationError`].
pub enum ValidationFault {
    EmptyId,
    DuplicatePhaseId(Seq<char>),
    UnknownPhaseReference(Seq<char>, Seq<char>),
    InvalidActionKind(Seq<char>, Seq<char>),
    EmptyConstraintField(Seq<char>),
    DuplicateResultLabel(Seq<char>, Seq<char>),
    InvalidStateChange(StateChangeView),
}

impl View for ValidationError {
    type V = ValidationFault;

    open spec fn view(&self) -> ValidationFault {
        match self {
            ValidationError::EmptyId => ValidationFault::EmptyId,
            ValidationError::DuplicatePhaseId(id) => ValidationFault::DuplicatePhaseId(id@),
            ValidationError::UnknownPhaseReference(from, to) => {
                ValidationFault::UnknownPhaseReference(from@, to@)
            },
            ValidationError::InvalidActionKind(phase, kind) => {
                ValidationFault::InvalidActionKind(phase@, kind@)
            },
            ValidationError::EmptyConstraintField(kind) => {
                ValidationFault::EmptyConstraintField(kind@)
            },
            ValidationError::DuplicateResultLabel(kind, label) => {
                ValidationFault::DuplicateResultLabel(kind@, label@)
            },
            ValidationError::InvalidStateChange(sc) => ValidationFault::InvalidStateChange(sc@),
        }
    }
}

/// Whether the phase at index `j` repeats the identifier of an earlier phase.
pub open spec fn duplicate_at(phases: Seq<Phase>, j: int) -> bool {
    exists|i: int| 0 <= i < j && phases[i].id@ == phases[j].id@
}

/// No two phases share an identifier.
pub open spec fn phase_ids_unique(phases: Seq<Phase>) -> bool {
    forall|i: int, j: int| 0 <= i < j < phases.len() ==> phases[i].id@ != phases[j].id@
}

/// The identifier of the first phase of `phases[j..]` that repeats an
/// earlier identifier, if any.
pub open spec fn dup_scan_from(phases: Seq<Phase>, j: int) -> Option<Seq<char>>
    decreases phases.len() - j,
    when 0 <= j <= phases.len()
{
    if j == phases.len() {
        None
    } else if duplicate_at(phases, j) {
        Some(phases[j].id@)
    } else {
        dup_scan_from(phases, j + 1)
    }
}

/// Every declared successor phase exists among the phases.
pub open spec fn phase_refs_valid(phases: Seq<Phase>) -> bool {
    forall|j: int|
        0 <= j < phases.len() ==> (#[trigger] phases[j].next_phase matches Some(t) ==> has_phase_id(
            phases,
            t@,
        ))
}

/// The first dangling successor reference in `phases[j..]`, if any, as the
/// pair of the referring phase's identifier and the missing identifier.
pub open spec fn ref_scan_from(phases: Seq<Phase>, j: int) -> Option<(Seq<char>, Seq<char>)>
    decreases phases.len() - j,
    when 0 <= j <= phases.len()
{
    if j == phases.len() {
        None
    } else {
        match phases[j].next_phase {
            Some(t) => if !has_phase_id(phases, t@) {
                Some((phases[j].id@, t@))
            } else {
                ref_scan_from(phases, j + 1)
            },
            None => ref_scan_from(phases, j + 1),
        }
    }
}

/// Every constraint names a non-empty context field.
pub open spec fn constraint_fields_ok(cs: Seq<Constraint>) -> bool {
    forall|i: int| 0 <= i < cs.len() ==> #[trigger] cs[i].field@.len() > 0
}

/// Whether the result mapping at index `j` repeats the label of an earlier
/// mapping of the same action.
pub open spec fn label_duplicate_at(results: Seq<ResultMapping>, j: int) -> bool {
    exists|i: int| 0 <= i < j && results[i].label@ == results[j].label@
}

/// No two result mappings of one action share a label.
pub open spec fn result_labels_unique(results: Seq<ResultMapping>) -> bool {
    forall|i: int, j: int| 0 <= i < j < results.len() ==> results[i].label@ != results[j].label@
}

/// The label of the first result mapping of `results[j..]` that repeats an
/// earlier label, if any.
pub open spec fn label_dup_scan_from(results: Seq<ResultMapping>, j: int) -> Option<Seq<char>>
    decreases results.len() - j,
    when 0 <= j <= results.len()
{
    if j == results.len() {
        None
    } else if label_duplicate_at(results, j) {
        Some(results[j].label@)
    } else {
        label_dup_scan_from(results, j + 1)
    }
}

/// The label scan accepts a suffix exactly when no mapping of it repeats an
/// earlier label.
proof fn lemma_label_dup_scan_none(results: Seq<ResultMapping>, j: int)
    requires
        0 <= j <= results.len(),
    ensures
        label_dup_scan_from(results, j) is None <==> forall|k: int|
            j <= k < results.len() ==> !label_duplicate_at(results, k),
    decreases results.len() - j,
{
    if j < results.len() && !label_duplicate_at(results, j) {
        lemma_label_dup_scan_none(results, j + 1);
    }
}

/// Result labels are unique exactly when no index repeats an earlier label.
proof fn lemma_labels_unique_no_duplicate(results: Seq<ResultMapping>)
    ensures
        result_labels_unique(results) <==> forall|k: int|
            0 <= k < results.len() ==> !label_duplicate_at(results, k),
{
    if forall|k: int| 0 <= k < results.len() ==> !label_duplicate_at(results, k) {
        assert forall|i: int, j: int| 0 <= i < j < results.len() implies results[i].label@
            != results[j].label@ by {
            assert(!label_duplicate_at(results, j));
        }
    }
}

/// The first invalid state change among `effects[j..]`, if any.
pub open spec fn invalid_effect_from(effects: Seq<StateChange>, j: int) -> Option<StateChangeView>
    decreases effects.len() - j,
    when 0 <= j <= effects.len()
{
    if j == effects.len() {
        None
    } else if !state_change_valid(&effects[j]) {
        Some(effects[j]@)
    } else {
        invalid_effect_from(effects, j + 1)
    }
}

/// The first invalid state change declared by `results[j..]`, walking the
/// result mappings in order and each mapping's effects in order.
pub open spec fn invalid_result_effect_from(results: Seq<ResultMapping>, j: int) -> Option<
    StateChangeView,
>
    decreases results.len() - j,
    when 0 <= j <= results.len()
{
    if j == results.len() {
        None
    } else {
        match invalid_effect_from(results[j].effects@, 0) {
            Some(sc) => Some(sc),
            None => invalid_result_effect_from(results, j + 1),
        }
    }
}

/// Every state change declared by the result mappings is valid.
pub open spec fn effects_ok(results: Seq<ResultMapping>) -> bool {
    forall|i: int, j: int|
        0 <= i < results.len() && 0 <= j < results[i].effects@.len() ==> state_change_valid(
            &#[trigger] results[i].effects@[j],
        )
}

/// An action is acceptable: recognized kind, non-empty constraint fields, a
/// result mapping with no repeated label, and valid declared state changes.
pub open spec fn action_valid(a: Action) -> bool {
    &&& is_recognized_kind(a.kind@)
    &&& constraint_fields_ok(a.constraints@)
    &&& result_labels_unique(a.results@)
    &&& effects_ok(a.results@)
}

/// The fault of one action, checked in order: its kind, then its
/// constraints, then its result labels, then its declared state changes.
pub open spec fn action_fault(phase_id: Seq<char>, a: Action) -> Option<ValidationFault> {
    if !is_recognized_kind(a.kind@) {
        Some(ValidationFault::InvalidActionKind(phase_id, a.kind@))
    } else if !constraint_fields_ok(a.constraints@) {
        Some(ValidationFault::EmptyConstraintField(a.kind@))
    } else {
        match label_dup_scan_from(a.results@, 0) {
            Some(label) => Some(ValidationFault::DuplicateResultLabel(a.kind@, label)),
            None => match invalid_result_effect_from(a.results@, 0) {
                Some(sc) => Some(ValidationFault::InvalidStateChange(sc)),
                None => None,
            },
        }
    }
}

/// The first fault among the actions `p.actions[k..]` of one phase.
pub open spec fn action_scan_from(p: Phase, k: int) -> Option<ValidationFault>
    decreases p.actions@.len() - k,
    when 0 <= k <= p.actions@.len()
{
    if k == p.actions@.len() {
        None
    } else {
        match action_fault(p.id@, p.actions@[k]) {
            Some(f) => Some(f),
            None => action_scan_from(p, k + 1),
        }
    }
}

/// Every action of the phase is acceptable.
pub open spec fn phase_actions_valid(p: Phase) -> bool {
    forall|k: int| 0 <= k < p.actions@.len() ==> action_valid(#[trigger] p.actions@[k])
}

/// The first action fault among `phases[j..]`, walking phases in order and
/// each phase's actions in order.
pub open spec fn phases_action_scan_from(phases: Seq<Phase>, j: int) -> Option<ValidationFault>
    decreases phases.len() - j,
    when 0 <= j <= phases.len()
{
    if j == phases.len() {
        None
    } else {
        match action_scan_from(phases[j], 0) {
            Some(f) => Some(f),
            None => phases_action_scan_from(phases, j + 1),
        }
    }
}

/// The verdict of validation, as a pure function of the rule set: `None`
/// accepts; `Some` is the first violation in the fixed order of checks.
pub open spec fn validate_spec(rs: &RuleSet) -> Option<ValidationFault> {
    if rs.id@.len() == 0 {
        Some(ValidationFault::EmptyId)
    } else {
        match dup_scan_from(rs.phases@, 0) {
            Some(id) => Some(ValidationFault::DuplicatePhaseId(id)),
            None => match ref_scan_from(rs.phases@, 0) {
                Some((from, to)) => Some(ValidationFault::UnknownPhaseReference(from, to)),
                None => phases_action_scan_from(rs.phases@, 0),
            },
        }
    }
}

/// The declarative acceptance condition: a non-empty rule-set id, unique
/// phase ids, resolvable phase references, and acceptable actions.
pub open spec fn rule_set_valid(rs: &RuleSet) -> bool {
    &&& rs.id@.len() > 0
    &&& phase_ids_unique(rs.phases@)
    &&& phase_refs_valid(rs.phases@)
    &&& forall|j: int| 0 <= j < rs.phases@.len() ==> phase_actions_valid(#[trigger] rs.phases@[j])
}

/// The duplicate scan accepts a suffix exactly when no phase of that suffix
/// repeats an earlier identifier.
proof fn lemma_dup_scan_none(phases: Seq<Phase>, j: int)
    requires
        0 <= j <= phases.len(),
    ensures
        dup_scan_from(phases, j) is None <==> forall|k: int|
            j <= k < phases.len() ==> !duplicate_at(phases, k),
    decreases phases.len() - j,
{
    if j < phases.len() && !duplicate_at(phases, j) {
        lemma_dup_scan_none(phases, j + 1);
    }
}

/// Phase ids are unique exactly when no index repeats an earlier identifier.
proof fn lemma_unique_no_duplicate(phases: Seq<Phase>)
    ensures
        phase_ids_unique(phases) <==> forall|k: int|
            0 <= k < phases.len() ==> !duplicate_at(phases, k),
{
    if forall|k: int| 0 <= k < phases.len() ==> !duplicate_at(phases, k) {
        assert forall|i: int, j: int| 0 <= i < j < phases.len() implies phases[i].id@
            != phases[j].id@ by {
            assert(!duplicate_at(phases, j));
        }
    }
}

/// The reference scan accepts a suffix exactly when every successor
/// reference of that suffix resolves.
proof fn lemma_ref_scan_none(phases: Seq<Phase>, j: int)
    requires
        0 <= j <= phases.len(),
    ensures
        ref_scan_from(phases, j) is None <==> forall|k: int|
            j <= k < phases.len() ==> (#[trigger] phases[k].next_phase matches Some(t)
                ==> has_phase_id(phases, t@)),
    decreases phases.len() - j,
{
    if j < phases.len() {
        match phases[j].next_phase {
            Some(t) => {
                if has_phase_id(phases, t@) {
                    lemma_ref_scan_none(phases, j + 1);
                }
            },
            None => {
                lemma_ref_scan_none(phases, j + 1);
            },
        }
    }
}

/// The effect scan of one result mapping accepts exactly when every effect
/// from `j` on is valid.
proof fn lemma_invalid_effect_none(effects: Seq<StateChange>, j: int)
    requires
        0 <= j <= effects.len(),
    ensures
        invalid_effect_from(effects, j) is None <==> forall|k: int|
            j <= k < effects.len() ==> state_change_valid(&#[trigger] effects[k]),
    decreases effects.len() - j,
{
    if j < effects.len() && state_change_valid(&effects[j]) {
        lemma_invalid_effect_none(effects, j + 1);
    }
}

/// The effect scan over result mappings accepts exactly when every declared
/// state change from mapping `j` on is valid.
proof fn lemma_invalid_result_effect_none(results: Seq<ResultMapping>, j: int)
    requires
        0 <= j <= results.len(),
    ensures
        invalid_result_effect_from(results, j) is None <==> forall|i: int, k: int|
            j <= i < results.len() && 0 <= k < results[i].effects@.len() ==> state_change_valid(
                &#[trigger] results[i].effects@[k],
            ),
    decreases results.len() - j,
{
    if j < results.len() {
        lemma_invalid_effect_none(results[j].effects@, 0);
        if invalid_effect_from(results[j].effects@, 0) is None {
            lemma_invalid_result_effect_none(results, j + 1);
        }
    }
}

/// An action has no fault exactly when it is acceptable.
proof fn lemma_action_fault_none(phase_id: Seq<char>, a: Action)
    ensures
        action_fault(phase_id, a) is None <==> action_valid(a),
{
    lemma_label_dup_scan_none(a.results@, 0);
    lemma_labels_unique_no_duplicate(a.results@);
    lemma_invalid_result_effect_none(a.results@, 0);
}

/// The action scan of one phase accepts exactly when all its actions from
/// `k` on are acceptable.
proof fn lemma_action_scan_none(p: Phase, k: int)
    requires
        0 <= k <= p.actions@.len(),
    ensures
        action_scan_from(p, k) is None <==> forall|i: int|
            k <= i < p.actions@.len() ==> action_valid(#[trigger] p.actions@[i]),
    decreases p.actions@.len() - k,
{
    if k < p.actions@.len() {
        lemma_action_fault_none(p.id@, p.actions@[k]);
        if action_fault(p.id@, p.actions@[k]) is None {
            lemma_action_scan_none(p, k + 1);
        }
    }
}

/// The action scan over phases accepts exactly when every phase from `j` on
/// has only acceptable actions.
proof fn lemma_phases_action_scan_none(phases: Seq<Phase>, j: int)
    requires
        0 <= j <= phases.len(),
    ensures
        phases_action_scan_from(phases, j) is None <==> forall|k: int|
            j <= k < phases.len() ==> phase_actions_valid(#[trigger] phases[k]),
    decreases phases.len() - j,
{
    if j < phases.len() {
        lemma_action_scan_none(phases[j], 0);
        if action_scan_from(phases[j], 0) is None {
            lemma_phases_action_scan_none(phases, j + 1);
        }
    }
}

/// Law: validation accepts a rule set exactly when the declarative
/// acceptance condition [`rule_set_valid`] holds of it.
pub proof fn lemma_validate_spec_accepts(rs: &RuleSet)
    ensures
        validate_spec(rs) is None <==> rule_set_valid(rs),
{
    lemma_dup_scan_none(rs.phases@, 0);
    lemma_unique_no_duplicate(rs.phases@);
    lemma_ref_scan_none(rs.phases@, 0);
    lemma_phases_action_scan_none(rs.phases@, 0);
}

/// When some phase of the suffix repeats an earlier identifier, the
/// duplicate scan reports a repeated identifier.
proof fn lemma_dup_scan_some(phases: Seq<Phase>, j: int)
    requires
        0 <= j <= phases.len(),
        exists|k: int| j <= k < phases.len() && duplicate_at(phases, k),
    ensures
        dup_scan_from(phases, j) matches Some(d) && exists|k: int|
            j <= k < phases.len() && duplicate_at(phases, k) && phases[k].id@ == d,
    decreases phases.len() - j,
{
    if !duplicate_at(phases, j) {
        let k0 = choose|k: int| j <= k < phases.len() && duplicate_at(phases, k);
        assert(j + 1 <= k0 < phases.len() && duplicate_at(phases, k0));
        lemma_dup_scan_some(phases, j + 1);
    }
}

/// Law: a rule set with a non-empty id in which two phases share one
/// identifier is rejected with `DuplicatePhaseId` naming a shared identifier.
/// (With an empty rule-set id, `EmptyId` is reported first instead.)
pub proof fn lemma_duplicate_phase_id_rejected(rs: &RuleSet)
    requires
        rs.id@.len() > 0,
        !phase_ids_unique(rs.phases@),
    ensures
        validate_spec(rs) matches Some(f) && f matches ValidationFault::DuplicatePhaseId(d)
            && exists|i: int, j: int|
            0 <= i < j < rs.phases@.len() && rs.phases@[i].id@ == d && rs.phases@[j].id@ == d,
{
    lemma_unique_no_duplicate(rs.phases@);
    lemma_dup_scan_some(rs.phases@, 0);
    let k = choose|k: int|
        0 <= k < rs.phases@.len() && duplicate_at(rs.phases@, k) && rs.phases@[k].id@
            == dup_scan_from(rs.phases@, 0)->Some_0;
    let i = choose|i: int| 0 <= i < k && rs.phases@[i].id@ == rs.phases@[k].id@;
    assert(0 <= i < k < rs.phases@.len() && rs.phases@[i].id@ == rs.phases@[k].id@);
}

/// Whether the phase at index `j` declares a successor that no phase
/// carries.
pub open spec fn dangling_at(phases: Seq<Phase>, j: int) -> bool {
    match phases[j].next_phase {
        Some(t) => !has_phase_id(phases, t@),
        None => false,
    }
}

/// When some phase of the suffix declares a dangling successor, the
/// reference scan reports one.
proof fn lemma_ref_scan_some(phases: Seq<Phase>, j: int)
    requires
        0 <= j <= phases.len(),
        exists|k: int| j <= k < phases.len() && dangling_at(phases, k),
    ensures
        ref_scan_from(phases, j) matches Some((from, to)) && !has_phase_id(phases, to) && exists|
            k: int,
        |
            j <= k < phases.len() && phases[k].id@ == from && (phases[k].next_phase matches Some(t)
                && t@ == to),
    decreases phases.len() - j,
{
    if !dangling_at(phases, j) {
        let k0 = choose|k: int| j <= k < phases.len() && dangling_at(phases, k);
        assert(j + 1 <= k0 < phases.len() && dangling_at(phases, k0));
        lemma_ref_scan_some(phases, j + 1);
    }
}

/// Law: a rule set with a non-empty id, unique phase ids, and a `next_phase`
/// pointing outside the declared phase-id set is rejected with
/// `UnknownPhaseReference` naming the referring phase and the missing
/// identifier. (An empty rule-set id or a duplicated phase id is reported
/// first instead.)
pub proof fn lemma_unknown_reference_rejected(rs: &RuleSet)
    requires
        rs.id@.len() > 0,
        phase_ids_unique(rs.phases@),
        exists|k: int| 0 <= k < rs.phases@.len() && dangling_at(rs.phases@, k),
    ensures
        validate_spec(rs) matches Some(f) && f matches ValidationFault::UnknownPhaseReference(
            from,
            to,
        ) && !has_phase_id(rs.phases@, to) && exists|k: int|
            0 <= k < rs.phases@.len() && rs.phases@[k].id@ == from && (
            rs.phases@[k].next_phase matches Some(t) && t@ == to),
{
    lemma_unique_no_duplicate(rs.phases@);
    lemma_dup_scan_none(rs.phases@, 0);
    lemma_ref_scan_some(rs.phases@, 0);
}

/// Checks a rule set for referential integrity, failing fast on the first
/// violation: the rule-set id must be non-empty, phase ids must be unique,
/// every declared successor phase must exist, and every action of every
/// phase must be acceptable (a recognized kind, non-empty constraint fields,
/// no repeated result label, valid state changes). The verdict is a pure
/// function of the rule set.
#[verifier::loop_isolation(false)]
pub fn validate(rs: &RuleSet) -> (r: Result<(), ValidationError>)
    ensures
        r is Ok <==> rule_set_valid(rs),
        r matches Err(e) ==> Some(e@) == validate_spec(rs),
{
    proof {
        lemma_validate_spec_accepts(rs);
    }
    if rs.id.as_str().is_empty() {
        return Err(ValidationError::EmptyId);
    }
    let phases = &rs.phases;
    let n = phases.len();

    let mut j: usize = 0;
    while j < n
        invariant
            0 <= j <= n,
            dup_scan_from(phases@, 0) == dup_scan_from(phases@, j as int),
        decreases n - j,
    {
        let mut i: usize = 0;
        while i < j
            invariant
                0 <= i <= j,
                forall|k: int| 0 <= k < i ==> phases@[k].id@ != phases@[j as int].id@,
            decreases j - i,
        {
            if phases[i].id == phases[j].id {
                proof {
                    assert(duplicate_at(phases@, j as int));
                }
                return Err(ValidationError::DuplicatePhaseId(phases[j].id.clone()));
            }
            i += 1;
        }
        proof {
            assert(!duplicate_at(phases@, j as int));
        }
        j += 1;
    }

    let mut j: usize = 0;
    while j < n
        invariant
            0 <= j <= n,
            ref_scan_from(phases@, 0) == ref_scan_from(phases@, j as int),
        decreases n - j,
    {
        match &phases[j].next_phase {
            Some(t) => {
                if !phase_id_exists(phases, t) {
                    return Err(
                        ValidationError::UnknownPhaseReference(phases[j].id.clone(), t.clone()),
                    );
                }
            },
            None => {},
        }
        j += 1;
    }

    let mut j: usize = 0;
    while j < n
        invariant
            0 <= j <= n,
            phases_action_scan_from(phases@, 0) == phases_action_scan_from(phases@, j as int),
        decreases n - j,
    {
        let p = &phases[j];
        let m = p.actions.len();
        let mut k: usize = 0;
        while k < m
            invariant
                0 <= k <= m,
                action_scan_from(phases@[j as int], 0) == action_scan_from(
                    phases@[j as int],
                    k as int,
                ),
            decreases m - k,
        {
            let a = &p.actions[k];
            if !kind_recognized(&a.kind) {
                return Err(ValidationError::InvalidActionKind(p.id.clone(), a.kind.clone()));
            }
            let cn = a.constraints.len();
            let mut c: usize = 0;
            while c < cn
                invariant
                    0 <= c <= cn,
                    forall|x: int| 0 <= x < c ==> #[trigger] a.constraints@[x].field@.len() > 0,
                decreases cn - c,
            {
                if a.constraints[c].field.as_str().is_empty() {
                    return Err(ValidationError::EmptyConstraintField(a.kind.clone()));
                }
                c += 1;
            }
            let rn = a.results.len();
            let mut rj: usize = 0;
            while rj < rn
                invariant
                    0 <= rj <= rn,
                    label_dup_scan_from(a.results@, 0) == label_dup_scan_from(
                        a.results@,
                        rj as int,
                    ),
                decreases rn - rj,
            {
                let mut ii: usize = 0;
                while ii < rj
                    invariant
                        0 <= ii <= rj,
                        forall|x: int|
                            0 <= x < ii ==> a.results@[x].label@ != a.results@[rj as int].label@,
                    decreases rj - ii,
                {
                    if a.results[ii].label == a.results[rj].label {
                        proof {
                            assert(label_duplicate_at(a.results@, rj as int));
                        }
                        return Err(
                            ValidationError::DuplicateResultLabel(
                                a.kind.clone(),
                                a.results[rj].label.clone(),
                            ),
                        );
                    }
                    ii += 1;
                }
                proof {
                    assert(!label_duplicate_at(a.results@, rj as int));
                }
                rj += 1;
            }
            let mut ri: usize = 0;
            while ri < rn
                invariant
                    0 <= ri <= rn,
                    invalid_result_effect_from(a.results@, 0) == invalid_result_effect_from(
                        a.results@,
                        ri as int,
                    ),
                decreases rn - ri,
            {
                let rm = &a.results[ri];
                let en = rm.effects.len();
                let mut ei: usize = 0;
                while ei < en
                    invariant
                        0 <= ei <= en,
                        invalid_effect_from(rm.effects@, 0) == invalid_effect_from(
                            rm.effects@,
                            ei as int,
                        ),
                    decreases en - ei,
                {
                    match validate_state_change(&rm.effects[ei]) {
                        Ok(_) => {},
                        Err(e) => {
                            return Err(e);
                        },
                    }
                    ei += 1;
                }
                ri += 1;
            }
            k += 1;
        }
        j += 1;
    }
    Ok(())
}

/// Checks one declared state change against its invariant.
pub fn validate_state_change(sc: &StateChange) -> (r: Result<(), ValidationError>)
    ensures
        r is Ok <==> state_change_valid(sc),
        r matches Err(e) ==> (e matches ValidationError::InvalidStateChange(bad) && bad == *sc),
{
    match sc {
        StateChange::MoveFigures { from, to, count } => {
            if *from == *to || *count == 0 {
                Err(
                    ValidationError::InvalidStateChange(
                        StateChange::MoveFigures {
                            from: from.clone(),
                            to: to.clone(),
                            count: *count,
                        },
                    ),
                )
            } else {
                Ok(())
            }
        },
        StateChange::ChangeOwner { field_id, new_owner } => {
            if field_id.as_str().is_empty() || new_owner.as_str().is_empty() {
                Err(
                    ValidationError::InvalidStateChange(
                        StateChange::ChangeOwner {
                            field_id: field_id.clone(),
                            new_owner: new_owner.clone(),
                        },
                    ),
                )
            } else {
                Ok(())
            }
        },
    }
}

} // verus!
