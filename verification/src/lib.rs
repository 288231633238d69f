//! A data-driven rule interpreter for turn-based territorial games.
//!
//! A declarative [`rules::RuleSet`] names the phases of a game, the actions
//! each phase allows, the constraints guarding them, and the phase each
//! action outcome leads to. The [`validation`] module checks a rule set for
//! referential integrity once, after which the [`engine`] interprets it as a
//! finite-state machine: it gates which actions are legal in which phase,
//! evaluates constraints against a runtime context, executes phase
//! transitions, and notifies observers of every state-affecting call.

pub mod catalog;
pub mod context;
pub mod engine;
pub mod events;
pub mod fields;
pub mod figures;
pub mod game;
pub mod pieces;
pub mod rules;
pub mod state;
pub mod validation;
pub mod validator;
