//! The phase-flow engine: the runtime interpreter of a validated rule set.
//!
//! A [`PhaseFlowControl`] owns one [`RuleSet`] for the life of a game
//! session. Its states are the declared phase identifiers; it starts in the
//! rule set's default phase, gates which actions are legal in the current
//! phase, evaluates constraints against the runtime [`ActionContext`], and
//! moves to the next phase when an action executes. Every state-affecting
//! call notifies all attached observers synchronously, in registration
//! order; the ghost sequence [`PhaseFlowControl::emitted`] records every
//! event ever sent, in emission order.

use vstd::prelude::*;

use crate::context::{constraints_satisfied, evaluate_constraints, ActionContext};
use crate::rules::{
    action_allowed, find_action_index, find_phase_index, find_result_index, phase_lookup,
    resolve_action, result_lookup, ConstraintValue, RuleSet, ValueView,
};
use crate::validation::rule_set_valid;

verus! {

/// An event observers are notified of.
#[derive(Debug, PartialEq, Eq)]
pub enum PhaseFlowEvent {
    /// The engine moved from the first phase to the second.
    PhaseChanged { from: String, to: String },
    /// The named action was executed in the named phase with the given
    /// result label. Describes the phase before the transition.
    ActionExecuted { phase: String, action: String, result: String },
    /// The named action's constraints were evaluated in the named phase,
    /// with the given outcome.
    ConstraintChecked { phase: String, action: String, success: bool },
}

/// The mathematical value of a [`PhaseFlowEvent`].
pub enum EventView {
    PhaseChanged { from: Seq<char>, to: Seq<char> },
    ActionExecuted { phase: Seq<char>, action: Seq<char>, result: Seq<char> },
    ConstraintChecked { phase: Seq<char>, action: Seq<char>, success: bool },
}

impl View for PhaseFlowEvent {
    type V = EventView;

    open spec fn view(&self) -> EventView {
        match self {
            PhaseFlowEvent::PhaseChanged { from, to } => EventView::PhaseChanged {
                from: from@,
                to: to@,
            },
            PhaseFlowEvent::ActionExecuted { phase, action, result } => EventView::ActionExecuted {
                phase: phase@,
                action: action@,
                result: result@,
            },
            PhaseFlowEvent::ConstraintChecked { phase, action, success } => {
                EventView::ConstraintChecked { phase: phase@, action: action@, success: *success }
            },
        }
    }
}

impl Clone for PhaseFlowEvent {
    /// A clone of an event is the same event.
    fn clone(&self) -> (res: Self)
        ensures
            res@ == self@,
    {
        match self {
            PhaseFlowEvent::PhaseChanged { from, to } => PhaseFlowEvent::PhaseChanged {
                from: from.clone(),
                to: to.clone(),
            },
            PhaseFlowEvent::ActionExecuted { phase, action, result } => {
                PhaseFlowEvent::ActionExecuted {
                    phase: phase.clone(),
                    action: action.clone(),
                    result: result.clone(),
                }
            },
            PhaseFlowEvent::ConstraintChecked { phase, action, success } => {
                PhaseFlowEvent::ConstraintChecked {
                    phase: phase.clone(),
                    action: action.clone(),
                    success: *success,
                }
            },
        }
    }
}

/// A listener the engine notifies of every event. Implementors account for
/// the events they have been handed in [`PhaseFlowObserver::received`];
/// a ghost field suffices where no run-time record is wanted.
pub trait PhaseFlowObserver: Sized {
    /// The events this observer has received, oldest first.
    spec fn received(&self) -> Seq<EventView>;

    /// Receives one event, synchronously, on the caller's stack.
    fn on_event(&mut self, event: &PhaseFlowEvent)
        ensures
            final(self).received() == old(self).received().push(event@),
    ;
}

/// An observer that keeps every event it receives, in order.
#[derive(Debug)]
pub struct RecordingObserver {
    /// The received events, oldest first.
    pub log: Vec<PhaseFlowEvent>,
}

impl RecordingObserver {
    /// An observer that has received nothing yet.
    pub fn new() -> (r: RecordingObserver)
        ensures
            r.received() == Seq::<EventView>::empty(),
            r.log@.len() == 0,
    {
        let r = RecordingObserver { log: Vec::new() };
        proof {
            assert(r.received() =~= Seq::<EventView>::empty());
        }
        r
    }
}

impl PhaseFlowObserver for RecordingObserver {
    open spec fn received(&self) -> Seq<EventView> {
        self.log@.map_values(|e: PhaseFlowEvent| e@)
    }

    fn on_event(&mut self, event: &PhaseFlowEvent) {
        self.log.push(event.clone());
        proof {
            assert(self.received() =~= old(self).received().push(event@));
        }
    }
}

/// A per-call engine failure: recoverable, reported to the caller, never a
/// crash.
#[derive(Debug, Clone, Copy, PartialEq, Eq, Structural)]
pub enum EngineError {
    /// The current phase declares no action of the requested kind (or the
    /// current phase identifier matches no declared phase).
    ActionNotFound,
    /// The resolved action's result mapping has no entry for the requested
    /// result label.
    InvalidActionOrResult,
}

/// The phase-flow engine. One game session owns one engine; the engine owns
/// its rule set and mutates only the current phase and the action context.
pub struct PhaseFlowControl<O: PhaseFlowObserver> {
    config: RuleSet,
    current_phase: String,
    action_context: ActionContext,
    observers: Vec<O>,
    events: Ghost<Seq<EventView>>,
}

impl<O: PhaseFlowObserver> PhaseFlowControl<O> {
    /// The rule set this engine interprets.
    pub closed spec fn rules(&self) -> RuleSet {
        self.config
    }

    /// The identifier of the phase the engine is currently in.
    pub closed spec fn phase_id(&self) -> Seq<char> {
        self.current_phase@
    }

    /// The runtime context, as a map from attribute name to value.
    pub closed spec fn context(&self) -> Map<Seq<char>, ValueView> {
        self.action_context@
    }

    /// The attached observers, in registration order.
    pub closed spec fn observer_seq(&self) -> Seq<O> {
        self.observers@
    }

    /// Every event emitted so far, in emission order.
    pub closed spec fn emitted(&self) -> Seq<EventView> {
        self.events@
    }

    /// Builds an engine from a validated rule set, taken by ownership. The
    /// engine starts in the rule set's default phase, with an empty context
    /// and no observers.
    pub fn new(config: RuleSet) -> (e: Self)
        requires
            rule_set_valid(&config),
        ensures
            e.rules() == config,
            e.phase_id() == config.default_phase@,
            e.context() == Map::<Seq<char>, ValueView>::empty(),
            e.observer_seq() == Seq::<O>::empty(),
            e.emitted() == Seq::<EventView>::empty(),
    {
        let current_phase = config.default_phase.clone();
        PhaseFlowControl {
            config,
            current_phase,
            action_context: ActionContext::new(),
            observers: Vec::new(),
            events: Ghost(Seq::empty()),
        }
    }

    /// Attaches an observer for the rest of the engine's life. It will be
    /// notified of every later event, after all earlier observers.
    pub fn add_observer(&mut self, observer: O)
        ensures
            final(self).observer_seq() == old(self).observer_seq().push(observer),
            final(self).rules() == old(self).rules(),
            final(self).phase_id() == old(self).phase_id(),
            final(self).context() == old(self).context(),
            final(self).emitted() == old(self).emitted(),
    {
        self.observers.push(observer);
    }

    /// Hands one event to every observer, in registration order, on the
    /// caller's stack.
    #[verifier::loop_isolation(false)]
    fn notify_observers(&mut self, event: &PhaseFlowEvent)
        ensures
            final(self).rules() == old(self).rules(),
            final(self).phase_id() == old(self).phase_id(),
            final(self).context() == old(self).context(),
            final(self).emitted() == old(self).emitted().push(event@),
            final(self).observer_seq().len() == old(self).observer_seq().len(),
            forall|i: int|
                0 <= i < old(self).observer_seq().len() ==> (#[trigger] final(self).observer_seq()[i]).received() == old(self).observer_seq()[i].received().push(
                    event@,
                ),
    {
        proof {
            self.events@ = self.events@.push(event@);
        }
        let n = self.observers.len();
        let mut i: usize = 0;
        while i < n
            invariant
                0 <= i <= n,
                n == self.observers.len(),
                self.config == old(self).config,
                self.current_phase == old(self).current_phase,
                self.action_context == old(self).action_context,
                self.events@ == old(self).events@.push(event@),
                forall|k: int|
                    0 <= k < i ==> (#[trigger] self.observers@[k]).received() == old(self).observers@[k].received().push(event@),
                forall|k: int| i <= k < n ==> self.observers@[k] == old(self).observers@[k],
            decreases n - i,
        {
            let ob = &mut self.observers[i];
            ob.on_event(event);
            i += 1;
        }
    }

    /// Whether the current phase declares an action of the given kind. A
    /// pure query: no state changes, no events.
    pub fn is_action_allowed(&self, action: &str) -> (r: bool)
        ensures
            r == action_allowed(self.rules(), self.phase_id(), action@),
    {
        let action_s: String = action.to_owned();
        match find_phase_index(&self.config.phases, &self.current_phase) {
            Some(pi) => find_action_index(&self.config.phases[pi].actions, &action_s).is_some(),
            None => false,
        }
    }

    /// Resolves the current phase's action of the given kind and evaluates
    /// its constraints against the context. Emits one `ConstraintChecked`
    /// event to all observers before returning, whatever the outcome of the
    /// evaluation; fails with `ActionNotFound`, without any event, when the
    /// action does not resolve. The phase and the context never change.
    pub fn check_constraints(&mut self, action: &str) -> (r: Result<bool, EngineError>)
        ensures
            final(self).rules() == old(self).rules(),
            final(self).phase_id() == old(self).phase_id(),
            final(self).context() == old(self).context(),
            final(self).observer_seq().len() == old(self).observer_seq().len(),
            match resolve_action(old(self).rules(), old(self).phase_id(), action@) {
                Some(a) => {
                    let success = constraints_satisfied(old(self).context(), a.constraints@);
                    let ev = EventView::ConstraintChecked {
                        phase: old(self).phase_id(),
                        action: action@,
                        success,
                    };
                    &&& r == Ok::<bool, EngineError>(success)
                    &&& final(self).emitted() == old(self).emitted().push(ev)
                    &&& forall|i: int|
                        0 <= i < old(self).observer_seq().len() ==> (#[trigger] final(self).observer_seq()[i]).received() == old(self).observer_seq()[i].received().push(ev)
                },
                None => {
                    &&& r == Err::<bool, EngineError>(EngineError::ActionNotFound)
                    &&& final(self).emitted() == old(self).emitted()
                    &&& final(self).observer_seq() == old(self).observer_seq()
                },
            },
    {
        let action_s: String = action.to_owned();
        let pi = match find_phase_index(&self.config.phases, &self.current_phase) {
            Some(pi) => pi,
            None => {
                return Err(EngineError::ActionNotFound);
            },
        };
        let ai = match find_action_index(&self.config.phases[pi].actions, &action_s) {
            Some(ai) => ai,
            None => {
                return Err(EngineError::ActionNotFound);
            },
        };
        let success = evaluate_constraints(
            &self.action_context,
            &self.config.phases[pi].actions[ai].constraints,
        );
        let event = PhaseFlowEvent::ConstraintChecked {
            phase: self.current_phase.clone(),
            action: action_s,
            success,
        };
        self.notify_observers(&event);
        Ok(success)
    }

    /// Executes an action: resolves the current phase's action of the given
    /// kind (`ActionNotFound` if absent), resolves the result label in its
    /// result mapping (`InvalidActionOrResult` if absent), and then,
    /// unconditionally and atomically: emits `ActionExecuted` describing the
    /// pre-transition phase, moves to the resolved next phase, and emits
    /// `PhaseChanged` strictly after the mutation, in that order, to every
    /// observer. On failure nothing changes and no event is emitted.
    pub fn execute_action(&mut self, action: &str, result: &str) -> (r: Result<(), EngineError>)
        ensures
            final(self).rules() == old(self).rules(),
            final(self).context() == old(self).context(),
            final(self).observer_seq().len() == old(self).observer_seq().len(),
            match resolve_action(old(self).rules(), old(self).phase_id(), action@) {
                Some(a) => match result_lookup(a.results@, result@) {
                    Some(m) => {
                        let ev1 = EventView::ActionExecuted {
                            phase: old(self).phase_id(),
                            action: action@,
                            result: result@,
                        };
                        let ev2 = EventView::PhaseChanged {
                            from: old(self).phase_id(),
                            to: m.next_phase@,
                        };
                        &&& r == Ok::<(), EngineError>(())
                        &&& final(self).phase_id() == m.next_phase@
                        &&& final(self).emitted() == old(self).emitted() + seq![ev1, ev2]
                        &&& forall|i: int|
                            0 <= i < old(self).observer_seq().len() ==> (#[trigger] final(self).observer_seq()[i]).received() == old(self).observer_seq()[i].received() + seq![ev1, ev2]
                    },
                    None => {
                        &&& r == Err::<(), EngineError>(EngineError::InvalidActionOrResult)
                        &&& final(self).phase_id() == old(self).phase_id()
                        &&& final(self).emitted() == old(self).emitted()
                        &&& final(self).observer_seq() == old(self).observer_seq()
                    },
                },
                None => {
                    &&& r == Err::<(), EngineError>(EngineError::ActionNotFound)
                    &&& final(self).phase_id() == old(self).phase_id()
                    &&& final(self).emitted() == old(self).emitted()
                    &&& final(self).observer_seq() == old(self).observer_seq()
                },
            },
    {
        let action_s: String = action.to_owned();
        let result_s: String = result.to_owned();
        let pi = match find_phase_index(&self.config.phases, &self.current_phase) {
            Some(pi) => pi,
            None => {
                return Err(EngineError::ActionNotFound);
            },
        };
        let ai = match find_action_index(&self.config.phases[pi].actions, &action_s) {
            Some(ai) => ai,
            None => {
                return Err(EngineError::ActionNotFound);
            },
        };
        let mi = match find_result_index(&self.config.phases[pi].actions[ai].results, &result_s) {
            Some(mi) => mi,
            None => {
                return Err(EngineError::InvalidActionOrResult);
            },
        };
        let next_phase = self.config.phases[pi].actions[ai].results[mi].next_phase.clone();

        let ev1 = PhaseFlowEvent::ActionExecuted {
            phase: self.current_phase.clone(),
            action: action_s,
            result: result_s,
        };
        self.notify_observers(&ev1);

        let from_phase = self.current_phase.clone();
        let ev2_to = next_phase.clone();
        self.current_phase = next_phase;
        let ev2 = PhaseFlowEvent::PhaseChanged { from: from_phase, to: ev2_to };
        self.notify_observers(&ev2);

        proof {
            assert(final(self).emitted() =~= old(self).emitted() + seq![ev1@, ev2@]);
            assert forall|i: int| 0 <= i < old(self).observer_seq().len() implies (#[trigger] final(self).observer_seq()[i]).received() == old(self).observer_seq()[i].received() + seq![
                ev1@,
                ev2@,
            ] by {
                assert(final(self).observer_seq()[i].received() =~= old(self).observer_seq()[i].received() + seq![ev1@, ev2@]);
            }
        }
        Ok(())
    }

    /// The kinds of the actions the current phase declares, in declared
    /// order; empty when no declared phase matches the current phase.
    #[verifier::loop_isolation(false)]
    pub fn available_actions(&self) -> (r: Vec<String>)
        ensures
            match phase_lookup(self.rules().phases@, self.phase_id()) {
                Some(p) => r@.len() == p.actions@.len() && forall|i: int|
                    0 <= i < r@.len() ==> #[trigger] r@[i]@ == p.actions@[i].kind@,
                None => r@.len() == 0,
            },
    {
        let mut out: Vec<String> = Vec::new();
        match find_phase_index(&self.config.phases, &self.current_phase) {
            Some(pi) => {
                let p = &self.config.phases[pi];
                let n = p.actions.len();
                let mut k: usize = 0;
                while k < n
                    invariant
                        0 <= k <= n,
                        out@.len() == k,
                        forall|i: int| 0 <= i < k ==> #[trigger] out@[i]@ == p.actions@[i].kind@,
                    decreases n - k,
                {
                    out.push(p.actions[k].kind.clone());
                    k += 1;
                }
            },
            None => {},
        }
        out
    }

    /// The identifier of the current phase.
    pub fn current_phase(&self) -> (r: &str)
        ensures
            r@ == self.phase_id(),
    {
        self.current_phase.as_str()
    }

    /// The attached observers, in registration order.
    pub fn observers(&self) -> (r: &Vec<O>)
        ensures
            r@ == self.observer_seq(),
    {
        &self.observers
    }

    /// Sets the context attribute `field` to `value`, replacing any earlier
    /// value. No events are emitted.
    pub fn update_context(&mut self, field: String, value: ConstraintValue)
        ensures
            final(self).context() == old(self).context().insert(field@, value@),
            final(self).rules() == old(self).rules(),
            final(self).phase_id() == old(self).phase_id(),
            final(self).observer_seq() == old(self).observer_seq(),
            final(self).emitted() == old(self).emitted(),
    {
        self.action_context.set(field, value);
    }

    /// Reads one attribute of the runtime context.
    pub fn context_value(&self, field: &str) -> (r: Option<&ConstraintValue>)
        ensures
            match r {
                Some(v) => self.context().contains_key(field@) && self.context()[field@] == v@,
                None => !self.context().contains_key(field@),
            },
    {
        self.action_context.lookup(field)
    }
}

} // verus!
