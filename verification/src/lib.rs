//! A vocabulary-guessing trivia engine.
//!
//! The library is the verified core of a chat game: it owns question
//! catalogs, hint obfuscation, answer matching, per-locale game sessions
//! with a cooldown policy, score bookkeeping with ranking and a
//! leaderboard, and the command router and dispatcher that turn inbound
//! chat events into state transitions and outbound replies.  The chat
//! transport and the persistent stores stay outside; they hand the
//! library plain values and perform the effects it decides on.

pub mod catalog;
pub mod dispatch;
pub mod errors;
pub mod hint;
pub mod ledger;
pub mod matcher;
pub mod messages;
pub mod numfmt;
pub mod question;
mod rng;
pub mod router;
pub mod session;
pub mod text;
