//! The runtime action context and the constraint evaluator.
//!
//! An [`ActionContext`] is the engine's mutable scratch data: a store of
//! named attributes, modelled as a map from attribute name to value, where a
//! later write to a name wins. The constraint evaluator reads it through
//! [`ActionContext::lookup`]: a [`Constraint`] is satisfied exactly when the
//! context holds the constraint's value under the constraint's field name.

use vstd::prelude::*;

use crate::rules::{Constraint, ConstraintValue, ValueView};

verus! {

/// One named attribute of the runtime context.
#[derive(Debug)]
pub struct ContextEntry {
    /// Name of the attribute.
    pub field: String,
    /// Current value of the attribute.
    pub value: ConstraintValue,
}

/// The map described by a sequence of context entries; a later entry for the
/// same field wins.
pub open spec fn entries_map(entries: Seq<ContextEntry>) -> Map<Seq<char>, ValueView>
    decreases entries.len(),
{
    if entries.len() == 0 {
        Map::empty()
    } else {
        entries_map(entries.drop_last()).insert(entries.last().field@, entries.last().value@)
    }
}

/// Mutable scratch data consulted by the constraint evaluator: a store of
/// named attributes, viewed as a map from attribute name to value.
#[derive(Debug)]
pub struct ActionContext {
    entries: Vec<ContextEntry>,
}

impl View for ActionContext {
    type V = Map<Seq<char>, ValueView>;

    closed spec fn view(&self) -> Map<Seq<char>, ValueView> {
        entries_map(self.entries@)
    }
}

/// When no entry of `entries[j..]` names `field`, the first `j` entries
/// already decide what the whole store holds under `field`.
proof fn lemma_entries_map_unmatched(entries: Seq<ContextEntry>, field: Seq<char>, j: int)
    requires
        0 <= j <= entries.len(),
        forall|k: int| j <= k < entries.len() ==> #[trigger] entries[k].field@ != field,
    ensures
        entries_map(entries).contains_key(field) == entries_map(entries.take(j)).contains_key(
            field,
        ),
        entries_map(entries).contains_key(field) ==> entries_map(entries)[field] == entries_map(
            entries.take(j),
        )[field],
    decreases entries.len() - j,
{
    if j == entries.len() {
        assert(entries.take(j) =~= entries);
    } else {
        assert(entries.take(j + 1).drop_last() =~= entries.take(j));
        assert(entries.take(j + 1).last() == entries[j]);
        lemma_entries_map_unmatched(entries, field, j + 1);
    }
}

impl ActionContext {
    /// An empty context: no attribute is set.
    pub fn new() -> (c: ActionContext)
        ensures
            c@ == Map::<Seq<char>, ValueView>::empty(),
    {
        ActionContext { entries: Vec::new() }
    }

    /// Sets the attribute `field` to `value`, replacing any earlier value.
    pub fn set(&mut self, field: String, value: ConstraintValue)
        ensures
            final(self)@ == old(self)@.insert(field@, value@),
    {
        let ghost gfield = field@;
        let ghost gvalue = value@;
        self.entries.push(ContextEntry { field, value });
        proof {
            assert(self.entries@.drop_last() =~= old(self).entries@);
            assert(self.entries@.last().field@ == gfield);
            assert(self.entries@.last().value@ == gvalue);
        }
    }

    /// Looks the attribute `field` up: the capability the constraint
    /// evaluator reads the context through.
    #[verifier::loop_isolation(false)]
    pub fn lookup(&self, field: &str) -> (r: Option<&ConstraintValue>)
        ensures
            match r {
                Some(v) => self@.contains_key(field@) && self@[field@] == v@,
                None => !self@.contains_key(field@),
            },
    {
        let field_s: String = field.to_owned();
        let mut j = self.entries.len();
        while j > 0
            invariant
                0 <= j <= self.entries.len(),
                forall|k: int|
                    j <= k < self.entries@.len() ==> #[trigger] self.entries@[k].field@ != field@,
            decreases j,
        {
            if self.entries[j - 1].field == field_s {
                proof {
                    lemma_entries_map_unmatched(self.entries@, field@, j as int);
                    assert(self.entries@.take(j as int).drop_last() =~= self.entries@.take(
                        j as int - 1,
                    ));
                    assert(self.entries@.take(j as int).last() == self.entries@[j as int - 1]);
                }
                return Some(&self.entries[j - 1].value);
            }
            j -= 1;
        }
        proof {
            lemma_entries_map_unmatched(self.entries@, field@, 0);
            assert(self.entries@.take(0) =~= Seq::<ContextEntry>::empty());
        }
        None
    }
}

/// Whether the context satisfies one constraint: it holds exactly the
/// constraint's value under the constraint's field name.
pub open spec fn constraint_satisfied(ctx: Map<Seq<char>, ValueView>, c: Constraint) -> bool {
    ctx.contains_key(c.field@) && ctx[c.field@] == c.value@
}

/// Whether the context satisfies every constraint of the list.
pub open spec fn constraints_satisfied(ctx: Map<Seq<char>, ValueView>, cs: Seq<Constraint>) -> bool {
    forall|i: int| 0 <= i < cs.len() ==> constraint_satisfied(ctx, #[trigger] cs[i])
}

/// Decides whether two constraint values are the same value.
pub fn values_equal(a: &ConstraintValue, b: &ConstraintValue) -> (r: bool)
    ensures
        r == (a@ == b@),
{
    match (a, b) {
        (ConstraintValue::Number(x), ConstraintValue::Number(y)) => *x == *y,
        (ConstraintValue::Boolean(x), ConstraintValue::Boolean(y)) => *x == *y,
        (ConstraintValue::Text(x), ConstraintValue::Text(y)) => *x == *y,
        _ => false,
    }
}

/// The constraint evaluator: decides whether the context satisfies every
/// constraint of the list.
#[verifier::loop_isolation(false)]
pub fn evaluate_constraints(ctx: &ActionContext, cs: &Vec<Constraint>) -> (r: bool)
    ensures
        r == constraints_satisfied(ctx@, cs@),
{
    let n = cs.len();
    let mut i: usize = 0;
    while i < n
        invariant
            0 <= i <= n,
            forall|k: int| 0 <= k < i ==> constraint_satisfied(ctx@, #[trigger] cs@[k]),
        decreases n - i,
    {
        let c = &cs[i];
        match ctx.lookup(c.field.as_str()) {
            Some(v) => {
                if !values_equal(v, &c.value) {
                    return false;
                }
            },
            None => {
                return false;
            },
        }
        i += 1;
    }
    true
}

} // verus!
