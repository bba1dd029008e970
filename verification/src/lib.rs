//! A terminal dashboard skeleton: a tab bar, a body panel and a growing log
//! panel, driven by key presses and a periodic tick.
//!
//! The crate holds the decisions of the two loops that make up such a
//! dashboard.  The producer side ([`producer`]) turns clock readings and
//! terminal input into an ordered stream of [`event::Event`]s; the consumer
//! side ([`dashboard`]) turns each event into a state change and describes
//! the screen to paint.  Reading the terminal, sleeping and painting are left
//! to the caller.
//!
//! The remaining modules hold what the two sides share: the tab bar's entries
//! ([`menu`]), the split of the screen into rows ([`layout`]) and the making
//! of diagnostic lines ([`text`]).
pub mod dashboard;
pub mod event;
pub mod layout;
pub mod menu;
pub mod producer;
pub mod text;
