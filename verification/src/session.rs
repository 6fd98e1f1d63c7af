//! Per-locale game state: the current question, the time of the last
//! draw or reset, and whether a hint has been issued for it, together
//! with the cooldown policy on hint and skip requests.

use vstd::prelude::*;
use crate::hint::{hint_spec, produce_hint};
use crate::question::Question;

verus! {

/// Minimum pause between accepted hint or skip requests, in
/// milliseconds.
pub const MIN_PAUSE_MS: u64 = 60_000;

/// Whether enough time has passed since the last draw or reset for a
/// hint or skip request to be accepted.  Event times never run backwards
/// past a session's last reset.
pub fn not_too_early(now_ms: u64, from_ms: u64) -> (r: bool)
    requires
        from_ms <= now_ms,
    ensures
        r == (now_ms - from_ms > MIN_PAUSE_MS),
{
    now_ms - from_ms > MIN_PAUSE_MS
}

/// How the session answers a hint request.
#[derive(Debug)]
pub enum HintOutcome {
    /// The hint was issued; the session remembers it and resets its
    /// timer.
    Issued(String),
    /// A hint was already issued for the current question.
    AlreadyHinted,
    /// The cooldown since the last draw or reset has not elapsed.
    TooEarly,
    /// The answer is too short to obfuscate; the session is unchanged.
    InvalidAnswer,
}

/// The mutable game state of one locale.
pub struct GameSession {
    /// The question currently posed.
    pub current: Question,
    /// When the current question was drawn, or the session timer last
    /// reset, in milliseconds.
    pub last_draw_ms: u64,
    /// Whether a hint has been issued for the current question.
    pub hinted: bool,
}

impl GameSession {
    /// A session always holds a well-formed question.
    pub open spec fn wf(self) -> bool {
        self.current.wf()
    }

    /// Opens a session on its first question.
    pub fn start(q: Question, now_ms: u64) -> (s: GameSession)
        requires
            q.wf(),
        ensures
            s.wf(),
            s.current == q,
            s.last_draw_ms == now_ms,
            !s.hinted,
    {
        GameSession { current: q, last_draw_ms: now_ms, hinted: false }
    }

    /// Whether the cooldown since the last draw or reset has elapsed.
    pub fn cooldown_passed(&self, now_ms: u64) -> (r: bool)
        requires
            self.last_draw_ms <= now_ms,
        ensures
            r == (now_ms - self.last_draw_ms > MIN_PAUSE_MS),
    {
        not_too_early(now_ms, self.last_draw_ms)
    }

    /// Installs a freshly drawn question: the hint flag clears and the
    /// timer resets, exactly and only on a question change.
    pub fn install_question(&mut self, q: Question, now_ms: u64)
        requires
            q.wf(),
            old(self).last_draw_ms <= now_ms,
        ensures
            final(self).wf(),
            final(self).current == q,
            final(self).last_draw_ms == now_ms,
            !final(self).hinted,
    {
        self.current = q;
        self.last_draw_ms = now_ms;
        self.hinted = false;
    }

    /// Answers a hint request under the session's rules: a repeated
    /// request is refused, a request during the cooldown is refused and
    /// leaves the session untouched, and an accepted request issues the
    /// obfuscated answer, marks the session hinted, and resets its
    /// timer.
    pub fn request_hint(&mut self, now_ms: u64) -> (out: HintOutcome)
        requires
            old(self).wf(),
            old(self).last_draw_ms <= now_ms,
        ensures
            final(self).wf(),
            final(self).current == old(self).current,
            old(self).hinted ==> out is AlreadyHinted && *final(self) == *old(self),
            !old(self).hinted && now_ms - old(self).last_draw_ms <= MIN_PAUSE_MS ==> out
                is TooEarly && *final(self) == *old(self),
            !old(self).hinted && now_ms - old(self).last_draw_ms > MIN_PAUSE_MS && old(
                self,
            ).current.answer@.len() < 2 ==> out is InvalidAnswer && *final(self) == *old(self),
            !old(self).hinted && now_ms - old(self).last_draw_ms > MIN_PAUSE_MS && old(
                self,
            ).current.answer@.len() >= 2 ==> out is Issued && out->Issued_0@ == hint_spec(
                old(self).current.answer@,
            ) && final(self).hinted && final(self).last_draw_ms == now_ms,
    {
        if self.hinted {
            return HintOutcome::AlreadyHinted;
        }
        if !not_too_early(now_ms, self.last_draw_ms) {
            return HintOutcome::TooEarly;
        }
        match produce_hint(&self.current) {
            Ok(h) => {
                self.hinted = true;
                self.last_draw_ms = now_ms;
                HintOutcome::Issued(h)
            },
            Err(_) => HintOutcome::InvalidAnswer,
        }
    }
}

} // verus!
