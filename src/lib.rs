//! A lazy, pull-driven iteration engine over opaque host sequences.
//!
//! The engine never calls the host itself: every pull is a small state
//! machine that hands back an [`item::Action`] whenever host work is needed
//! (advance a host cursor, invoke a host callable) and continues once the
//! host answers with an [`item::Reply`].

pub mod item;
pub mod adapt;
pub mod engine;
pub mod consume;
pub mod laws;

pub use item::{Action, Fault, Item, Reply};
pub use adapt::{step, FlatPhase, Input, Node, Order};
pub use engine::{Cell, Engine, Signal};
pub use consume::{answer, feed, Consumer, Verdict};
