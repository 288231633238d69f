//! The configuration model: the declarative description of one game variant.
//!
//! A [`RuleSet`] owns an ordered sequence of [`Phase`]s. Each phase declares
//! the [`Action`]s that are legal while it is active; each action carries
//! [`Constraint`]s that must hold in the runtime context and a mapping from
//! result labels to the phase that follows. A [`StateChange`] is the declared
//! effect of an action outcome. Values of this model are produced by an
//! external loader and are immutable once validated.

use vstd::prelude::*;

verus! {

/// An untyped constraint value: a number, a truth value, or a piece of text.
#[derive(Debug, PartialEq, Eq)]
pub enum ConstraintValue {
    Number(i64),
    Boolean(bool),
    Text(String),
}

/// The mathematical value of a [`ConstraintValue`].
pub enum ValueView {
    Number(i64),
    Boolean(bool),
    Text(Seq<char>),
}

impl View for ConstraintValue {
    type V = ValueView;

    open spec fn view(&self) -> ValueView {
        match self {
            ConstraintValue::Number(n) => ValueView::Number(*n),
            ConstraintValue::Boolean(b) => ValueView::Boolean(*b),
            ConstraintValue::Text(s) => ValueView::Text(s@),
        }
    }
}

/// A named precondition on an action: the runtime context attribute `field`
/// must hold exactly `value` for the constraint to be satisfied.
#[derive(Debug, PartialEq, Eq)]
pub struct Constraint {
    /// Name of the runtime context attribute this constraint reads.
    pub field: String,
    /// The value the attribute must have.
    pub value: ConstraintValue,
}

/// The declared effect of an action outcome.
#[derive(Debug, PartialEq, Eq)]
pub enum StateChange {
    /// Move `count` figures from one location to another.
    /// Valid only when the locations differ and `count` is positive.
    MoveFigures { from: String, to: String, count: u32 },
    /// Hand a location to a new owner.
    /// Valid only when both names are non-empty.
    ChangeOwner { field_id: String, new_owner: String },
}

/// The mathematical value of a [`StateChange`].
pub enum StateChangeView {
    MoveFigures { from: Seq<char>, to: Seq<char>, count: u32 },
    ChangeOwner { field_id: Seq<char>, new_owner: Seq<char> },
}

impl View for StateChange {
    type V = StateChangeView;

    open spec fn view(&self) -> StateChangeView {
        match self {
            StateChange::MoveFigures { from, to, count } => StateChangeView::MoveFigures {
                from: from@,
                to: to@,
                count: *count,
            },
            StateChange::ChangeOwner { field_id, new_owner } => StateChangeView::ChangeOwner {
                field_id: field_id@,
                new_owner: new_owner@,
            },
        }
    }
}

/// Whether a declared state change satisfies its own invariant.
pub open spec fn state_change_valid(sc: &StateChange) -> bool {
    match sc {
        StateChange::MoveFigures { from, to, count } => from@ != to@ && *count > 0,
        StateChange::ChangeOwner { field_id, new_owner } => field_id@.len() > 0
            && new_owner@.len() > 0,
    }
}

/// One entry of an action's result mapping: when the action ends with
/// `label`, the game moves to the phase named `next_phase` and the listed
/// state changes are the outcome's declared effects.
#[derive(Debug, PartialEq, Eq)]
pub struct ResultMapping {
    /// The result label reported by the caller.
    pub label: String,
    /// Identifier of the phase that follows this outcome.
    pub next_phase: String,
    /// Declared effects of this outcome.
    pub effects: Vec<StateChange>,
}

/// A named operation available within a phase.
#[derive(Debug, PartialEq, Eq)]
pub struct Action {
    /// The kind of the action; must be one of the recognized kinds.
    pub kind: String,
    /// Preconditions checked against the runtime context, in declared order.
    pub constraints: Vec<Constraint>,
    /// Mapping from result labels to follow-up phases, in declared order.
    pub results: Vec<ResultMapping>,
}

/// A named state of the game-flow automaton.
#[derive(Debug, PartialEq, Eq)]
pub struct Phase {
    /// Identifier of the phase; unique within its rule set.
    pub id: String,
    /// Actions legal while this phase is active, in declared order.
    pub actions: Vec<Action>,
    /// Optional direct successor phase, by identifier.
    pub next_phase: Option<String>,
}

/// A goal that external player configuration can reference by id.
#[derive(Debug, PartialEq, Eq)]
pub struct Goal {
    /// Identifier of the goal; unique within its rule set.
    pub id: String,
    /// Descriptive payload shown to players.
    pub description: String,
}

/// The complete configuration of one game variant: all phases, the phase the
/// game starts in, and the goals players can be assigned.
#[derive(Debug, PartialEq, Eq)]
pub struct RuleSet {
    /// Identifier of the rule set.
    pub id: String,
    /// Identifier of the phase a fresh engine starts in.
    pub default_phase: String,
    /// All phases of the game, in declared order.
    pub phases: Vec<Phase>,
    /// Goals that external player configuration references by id.
    pub goals: Vec<Goal>,
}

/// Whether `kind` belongs to the fixed whitelist of recognized action kinds.
pub open spec fn is_recognized_kind(kind: Seq<char>) -> bool {
    ||| kind == "place_figure"@
    ||| kind == "attack"@
    ||| kind == "move_figures"@
    ||| kind == "end_phase"@
}

/// Decides membership in the whitelist of recognized action kinds.
pub fn kind_recognized(kind: &String) -> (r: bool)
    ensures
        r == is_recognized_kind(kind@),
{
    *kind == "place_figure".to_owned() || *kind == "attack".to_owned() || *kind
        == "move_figures".to_owned() || *kind == "end_phase".to_owned()
}

/// Whether some phase of `phases` carries the identifier `id`.
pub open spec fn has_phase_id(phases: Seq<Phase>, id: Seq<char>) -> bool {
    exists|i: int| 0 <= i < phases.len() && phases[i].id@ == id
}

/// The first phase of `phases[j..]` whose identifier is `id`, if any.
pub open spec fn phase_lookup_from(phases: Seq<Phase>, id: Seq<char>, j: int) -> Option<Phase>
    decreases phases.len() - j,
    when 0 <= j <= phases.len()
{
    if j == phases.len() {
        None
    } else if phases[j].id@ == id {
        Some(phases[j])
    } else {
        phase_lookup_from(phases, id, j + 1)
    }
}

/// The first phase of `phases` whose identifier is `id`, if any.
pub open spec fn phase_lookup(phases: Seq<Phase>, id: Seq<char>) -> Option<Phase> {
    phase_lookup_from(phases, id, 0)
}

/// The first action of `actions[j..]` with the given kind, if any.
pub open spec fn action_lookup_from(actions: Seq<Action>, kind: Seq<char>, j: int) -> Option<
    Action,
>
    decreases actions.len() - j,
    when 0 <= j <= actions.len()
{
    if j == actions.len() {
        None
    } else if actions[j].kind@ == kind {
        Some(actions[j])
    } else {
        action_lookup_from(actions, kind, j + 1)
    }
}

/// The first action of `actions` with the given kind, if any.
pub open spec fn action_lookup(actions: Seq<Action>, kind: Seq<char>) -> Option<Action> {
    action_lookup_from(actions, kind, 0)
}

/// The first result mapping of `results[j..]` with the given label, if any.
pub open spec fn result_lookup_from(
    results: Seq<ResultMapping>,
    label: Seq<char>,
    j: int,
) -> Option<ResultMapping>
    decreases results.len() - j,
    when 0 <= j <= results.len()
{
    if j == results.len() {
        None
    } else if results[j].label@ == label {
        Some(results[j])
    } else {
        result_lookup_from(results, label, j + 1)
    }
}

/// The first result mapping of `results` with the given label, if any.
pub open spec fn result_lookup(results: Seq<ResultMapping>, label: Seq<char>) -> Option<
    ResultMapping,
> {
    result_lookup_from(results, label, 0)
}

/// Finds the first phase with the given identifier, as an index.
#[verifier::loop_isolation(false)]
pub fn find_phase_index(phases: &Vec<Phase>, id: &String) -> (r: Option<usize>)
    ensures
        match r {
            Some(i) => i < phases@.len() && phases@[i as int].id@ == id@ && phase_lookup(
                phases@,
                id@,
            ) == Some(phases@[i as int]),
            None => phase_lookup(phases@, id@) is None && !has_phase_id(phases@, id@),
        },
{
    let n = phases.len();
    let mut i: usize = 0;
    while i < n
        invariant
            0 <= i <= n,
            phase_lookup(phases@, id@) == phase_lookup_from(phases@, id@, i as int),
        decreases n - i,
    {
        if phases[i].id == *id {
            return Some(i);
        }
        i += 1;
    }
    proof {
        lemma_phase_lookup_found(phases@, id@, 0);
    }
    None
}

/// Decides whether some phase of `phases` carries the identifier `id`.
pub fn phase_id_exists(phases: &Vec<Phase>, id: &String) -> (r: bool)
    ensures
        r == has_phase_id(phases@, id@),
{
    find_phase_index(phases, id).is_some()
}

/// A found phase is a member of the sequence and carries the identifier
/// that was looked up.
pub proof fn lemma_phase_lookup_found(phases: Seq<Phase>, id: Seq<char>, j: int)
    requires
        0 <= j <= phases.len(),
    ensures
        phase_lookup_from(phases, id, j) matches Some(p) ==> exists|i: int|
            j <= i < phases.len() && phases[i] == p && p.id@ == id,
        phase_lookup_from(phases, id, j) is None ==> forall|i: int|
            j <= i < phases.len() ==> phases[i].id@ != id,
    decreases phases.len() - j,
{
    if j < phases.len() && phases[j].id@ != id {
        lemma_phase_lookup_found(phases, id, j + 1);
    }
}

/// Finds the first action with the given kind, as an index.
#[verifier::loop_isolation(false)]
pub fn find_action_index(actions: &Vec<Action>, kind: &String) -> (r: Option<usize>)
    ensures
        match r {
            Some(i) => i < actions@.len() && actions@[i as int].kind@ == kind@ && action_lookup(
                actions@,
                kind@,
            ) == Some(actions@[i as int]),
            None => action_lookup(actions@, kind@) is None,
        },
{
    let n = actions.len();
    let mut i: usize = 0;
    while i < n
        invariant
            0 <= i <= n,
            action_lookup(actions@, kind@) == action_lookup_from(actions@, kind@, i as int),
        decreases n - i,
    {
        if actions[i].kind == *kind {
            return Some(i);
        }
        i += 1;
    }
    None
}

/// Finds the first result mapping with the given label, as an index.
#[verifier::loop_isolation(false)]
pub fn find_result_index(results: &Vec<ResultMapping>, label: &String) -> (r: Option<usize>)
    ensures
        match r {
            Some(i) => i < results@.len() && results@[i as int].label@ == label@ && result_lookup(
                results@,
                label@,
            ) == Some(results@[i as int]),
            None => result_lookup(results@, label@) is None,
        },
{
    let n = results.len();
    let mut i: usize = 0;
    while i < n
        invariant
            0 <= i <= n,
            result_lookup(results@, label@) == result_lookup_from(results@, label@, i as int),
        decreases n - i,
    {
        if results[i].label == *label {
            return Some(i);
        }
        i += 1;
    }
    None
}

/// The action the engine resolves for a phase identifier and an action kind:
/// the first action of that kind in the first phase with that identifier.
pub open spec fn resolve_action(rs: RuleSet, phase: Seq<char>, kind: Seq<char>) -> Option<Action> {
    match phase_lookup(rs.phases@, phase) {
        Some(p) => action_lookup(p.actions@, kind),
        None => None,
    }
}

/// Whether the phase named `phase` declares an action of the given kind.
pub open spec fn action_allowed(rs: RuleSet, phase: Seq<char>, kind: Seq<char>) -> bool {
    resolve_action(rs, phase, kind) is Some
}

} // verus!
