//! The dispatcher: owns the per-locale sessions, the catalogs and the
//! ledger, classifies each inbound event, executes it, and hands back
//! the outbound effects for the caller to perform.

use vstd::prelude::*;
use vstd::string::*;
use vstd::math::min;
use crate::catalog::QuestionCatalog;
use crate::errors::GameError;
use crate::hint::hint_spec;
use crate::ledger::{count_ge, outranks, ScoreLedger, ScoreRow};
use crate::messages::{
    correct_line, correct_line_spec, help_line, help_line_spec, no_score_line, no_score_line_spec,
    score_line, score_line_spec, top_report, top_report_spec,
};
use crate::question::question_line_spec;
use crate::router::{locale_of_channel, locale_spec, route, route_spec, Command, Locale};
use crate::session::{GameSession, HintOutcome, MIN_PAUSE_MS};
use crate::text::{contains_seq, contains_str, normalize_spec, normalize_text, str_eq};

verus! {

/// An outbound action for the caller to perform against the transport.
#[derive(Debug)]
pub enum Effect {
    /// Send this text to the channel the event came from.
    Send(String),
    /// Acknowledge, without text, a request refused by the cooldown.
    ReactTimer,
    /// Acknowledge, without text, a repeated hint request.
    ReactStop,
    /// Muted negative feedback on text that neither commands nor
    /// answers.
    ReactNegative,
}

/// The effect sends exactly this text.
pub open spec fn is_send(e: Effect, m: Seq<char>) -> bool {
    e matches Effect::Send(s) && s@ == m
}

/// What a hint request does to the active session and replies.
pub open spec fn hint_command_outcome(
    ses0: GameSession,
    ses1: GameSession,
    effects: Seq<Effect>,
    now_ms: u64,
) -> bool {
    &&& ses1.current == ses0.current
    &&& if ses0.hinted {
        ses1 == ses0 && effects.len() == 1 && effects[0] is ReactStop
    } else if now_ms - ses0.last_draw_ms <= MIN_PAUSE_MS {
        ses1 == ses0 && effects.len() == 1 && effects[0] is ReactTimer
    } else if ses0.current.answer@.len() < 2 {
        ses1 == ses0 && effects.len() == 0
    } else {
        &&& effects.len() == 1
        &&& is_send(effects[0], hint_spec(ses0.current.answer@))
        &&& ses1.hinted
        &&& ses1.last_draw_ms == now_ms
    }
}

/// What a skip request does: within the cooldown only an
/// acknowledgement; after it, the answer is revealed and a fresh
/// question from the catalog is posed.
pub open spec fn skip_command_outcome(
    loc: Locale,
    ses0: GameSession,
    cat: QuestionCatalog,
    ses1: GameSession,
    effects: Seq<Effect>,
    now_ms: u64,
) -> bool {
    if now_ms - ses0.last_draw_ms <= MIN_PAUSE_MS {
        ses1 == ses0 && effects.len() == 1 && effects[0] is ReactTimer
    } else {
        &&& cat.has_question(ses1.current)
        &&& !ses1.hinted
        &&& ses1.last_draw_ms == now_ms
        &&& effects.len() == 2
        &&& is_send(effects[0], ses0.current.answer@)
        &&& is_send(
            effects[1],
            question_line_spec(
                loc,
                ses1.current.question@,
                ses1.current.answer@,
                ses1.current.score as int,
            ),
        )
    }
}

/// What a score request replies: the no-score line for a zero total,
/// else score, standing and player count.
pub open spec fn score_command_outcome(
    loc: Locale,
    led: ScoreLedger,
    effects: Seq<Effect>,
    author: u64,
) -> bool {
    &&& effects.len() == 1
    &&& if led.score_of(author) == 0 {
        is_send(effects[0], no_score_line_spec(loc, author as int))
    } else {
        is_send(
            effects[0],
            score_line_spec(
                loc,
                author as int,
                led.score_of(author),
                count_ge(led.rows@, led.score_of(author)),
                led.rows@.len() as int,
            ),
        )
    }
}

/// `rows` is the leaderboard of `led` truncated to `limit`: sorted
/// strictly by `outranks`, drawn from the ledger, and outranking every
/// row left out.
pub open spec fn is_leaderboard(led: ScoreLedger, limit: int, rows: Seq<ScoreRow>) -> bool {
    &&& rows.len() == min(limit, led.rows@.len() as int)
    &&& forall|i: int, j: int| 0 <= i < j < rows.len() ==> outranks(rows[i], rows[j])
    &&& forall|i: int| 0 <= i < rows.len() ==> led.rows@.contains(#[trigger] rows[i])
    &&& forall|i: int, r: ScoreRow|
        #![trigger rows[i], led.rows@.contains(r)]
        0 <= i < rows.len() && led.rows@.contains(r) && !rows.contains(r) ==> outranks(rows[i], r)
}

/// What a leaderboard request replies: the report over the board of the
/// ten best rows.
pub open spec fn leaderboard_command_outcome(led: ScoreLedger, effects: Seq<Effect>) -> bool {
    &&& effects.len() == 1
    &&& exists|rows: Seq<ScoreRow>|
        #[trigger] is_leaderboard(led, 10, rows) && is_send(effects[0], top_report_spec(rows))
}

/// What an answer submission does: a guess containing the answer awards
/// the question's weight and poses a fresh question; any other text
/// from a user draws muted negative feedback, and from the engine's own
/// account nothing.
pub open spec fn submit_command_outcome(
    loc: Locale,
    ses0: GameSession,
    led0: ScoreLedger,
    cat: QuestionCatalog,
    ses1: GameSession,
    led1: ScoreLedger,
    effects: Seq<Effect>,
    norm: Seq<char>,
    author: u64,
    author_is_bot: bool,
    now_ms: u64,
) -> bool {
    if contains_seq(norm, ses0.current.answer@) {
        &&& led1.has_user(author)
        &&& led1.score_of(author) == led0.score_of(author) + ses0.current.score
        &&& forall|u2: u64| u2 != author ==> led1.score_of(u2) == led0.score_of(u2)
        &&& forall|u2: u64| u2 != author ==> (led1.has_user(u2) <==> led0.has_user(u2))
        &&& cat.has_question(ses1.current)
        &&& !ses1.hinted
        &&& ses1.last_draw_ms == now_ms
        &&& effects.len() == 2
        &&& is_send(
            effects[0],
            correct_line_spec(loc, author as int, ses0.current.answer@, led1.score_of(author)),
        )
        &&& is_send(
            effects[1],
            question_line_spec(
                loc,
                ses1.current.question@,
                ses1.current.answer@,
                ses1.current.score as int,
            ),
        )
    } else if !author_is_bot {
        ses1 == ses0 && led1 == led0 && effects.len() == 1 && effects[0] is ReactNegative
    } else {
        ses1 == ses0 && led1 == led0 && effects.len() == 0
    }
}

/// The full effect of one normalized message on the active session and
/// the ledger, by the command it routes to.
pub open spec fn command_outcome(
    loc: Locale,
    ses0: GameSession,
    led0: ScoreLedger,
    cat: QuestionCatalog,
    ses1: GameSession,
    led1: ScoreLedger,
    effects: Seq<Effect>,
    norm: Seq<char>,
    author: u64,
    author_is_bot: bool,
    now_ms: u64,
) -> bool {
    match route_spec(loc, norm) {
        Command::Help => ses1 == ses0 && led1 == led0 && effects.len() == 1 && is_send(
            effects[0],
            help_line_spec(loc, cat.questions@.len() as int),
        ),
        Command::RepeatQuestion => ses1 == ses0 && led1 == led0 && effects.len() == 1 && is_send(
            effects[0],
            question_line_spec(
                loc,
                ses0.current.question@,
                ses0.current.answer@,
                ses0.current.score as int,
            ),
        ),
        Command::RequestHint => led1 == led0 && hint_command_outcome(ses0, ses1, effects, now_ms),
        Command::Skip => led1 == led0 && skip_command_outcome(loc, ses0, cat, ses1, effects, now_ms),
        Command::ShowScore => ses1 == ses0 && led1 == led0 && score_command_outcome(
            loc,
            led0,
            effects,
            author,
        ),
        Command::ShowLeaderboard => ses1 == ses0 && led1 == led0 && leaderboard_command_outcome(
            led0,
            effects,
        ),
        Command::SubmitAnswer => submit_command_outcome(
            loc,
            ses0,
            led0,
            cat,
            ses1,
            led1,
            effects,
            norm,
            author,
            author_is_bot,
            now_ms,
        ),
        Command::Unrecognized => ses1 == ses0 && led1 == led0 && effects.len() == 0,
    }
}

/// Executes one normalized message against the active locale's session
/// and the shared ledger.
pub fn handle_command(
    loc: Locale,
    ses: &mut GameSession,
    led: &mut ScoreLedger,
    cat: &QuestionCatalog,
    norm: &str,
    author: u64,
    author_is_bot: bool,
    now_ms: u64,
) -> (effects: Vec<Effect>)
    requires
        !(loc is Unknown),
        old(ses).wf(),
        old(led).wf(),
        cat.wf(),
        cat.questions@.len() > 0,
        old(ses).last_draw_ms <= now_ms,
        old(led).score_of(author) + old(ses).current.score <= i64::MAX,
    ensures
        final(ses).wf(),
        final(led).wf(),
        final(ses).last_draw_ms <= now_ms,
        command_outcome(
            loc,
            *old(ses),
            *old(led),
            *cat,
            *final(ses),
            *final(led),
            effects@,
            norm@,
            author,
            author_is_bot,
            now_ms,
        ),
{
    let cmd = route(norm, loc);
    let mut effects: Vec<Effect> = Vec::new();
    match cmd {
        Command::Help => {
            effects.push(Effect::Send(help_line(loc, cat.len())));
        },
        Command::RepeatQuestion => {
            effects.push(Effect::Send(ses.current.display_line(loc)));
        },
        Command::RequestHint => {
            match ses.request_hint(now_ms) {
                HintOutcome::Issued(h) => effects.push(Effect::Send(h)),
                HintOutcome::AlreadyHinted => effects.push(Effect::ReactStop),
                HintOutcome::TooEarly => effects.push(Effect::ReactTimer),
                HintOutcome::InvalidAnswer => {},
            }
        },
        Command::Skip => {
            if ses.cooldown_passed(now_ms) {
                effects.push(Effect::Send(String::from_str(ses.current.get_answer())));
                let q = cat.draw_any();
                ses.install_question(q, now_ms);
                effects.push(Effect::Send(ses.current.display_line(loc)));
            } else {
                effects.push(Effect::ReactTimer);
            }
        },
        Command::ShowScore => {
            let (s, standing, total) = led.get_score(author);
            if s == 0 {
                effects.push(Effect::Send(no_score_line(loc, author)));
            } else {
                effects.push(Effect::Send(score_line(loc, author, s, standing, total)));
            }
        },
        Command::ShowLeaderboard => {
            let rows = led.get_top(10);
            proof {
                assert forall|i: int| 0 <= i < rows@.len() implies (#[trigger] rows@[i]).score
                    >= 0 by {
                    assert(led.rows@.contains(rows@[i]));
                    let j = choose|j: int| 0 <= j < led.rows@.len() && led.rows@[j] == rows@[i];
                    assert(led.rows@[j].score >= 0);
                }
            }
            let report = top_report(&rows);
            effects.push(Effect::Send(report));
            proof {
                assert(is_leaderboard(*led, 10, rows@));
            }
        },
        Command::SubmitAnswer => {
            if contains_str(norm, ses.current.get_answer()) {
                let total = led.increment_score(author, ses.current.score);
                effects.push(
                    Effect::Send(correct_line(loc, author, ses.current.get_answer(), total)),
                );
                let q = cat.draw_any();
                ses.install_question(q, now_ms);
                effects.push(Effect::Send(ses.current.display_line(loc)));
            } else if !author_is_bot {
                effects.push(Effect::ReactNegative);
            }
        },
        Command::Unrecognized => {},
    }
    effects
}

/// The whole engine state: both catalogs, both sessions, the ledger.
pub struct GameState {
    /// The primary locale's catalog.
    pub uk_catalog: QuestionCatalog,
    /// The derived locale's catalog.
    pub en_catalog: QuestionCatalog,
    /// The primary locale's session.
    pub uk: GameSession,
    /// The derived locale's session.
    pub en: GameSession,
    /// The shared score ledger.
    pub ledger: ScoreLedger,
}

/// The full effect of one inbound message on the engine state.
pub open spec fn message_outcome(
    pre: GameState,
    post: GameState,
    effects: Seq<Effect>,
    channel: Seq<char>,
    text: Seq<char>,
    author: u64,
    author_is_bot: bool,
    now_ms: u64,
) -> bool {
    let loc = locale_spec(channel);
    if loc is Unknown {
        post == pre && effects.len() == 0
    } else {
        &&& post.uk_catalog == pre.uk_catalog
        &&& post.en_catalog == pre.en_catalog
        &&& (loc is Uk ==> post.en == pre.en && command_outcome(
            loc,
            pre.uk,
            pre.ledger,
            pre.uk_catalog,
            post.uk,
            post.ledger,
            effects,
            normalize_spec(text),
            author,
            author_is_bot,
            now_ms,
        ))
        &&& (loc is En ==> post.uk == pre.uk && command_outcome(
            loc,
            pre.en,
            pre.ledger,
            pre.en_catalog,
            post.en,
            post.ledger,
            effects,
            normalize_spec(text),
            author,
            author_is_bot,
            now_ms,
        ))
    }
}

/// What a question-mark reaction on the engine's own prompt does: the
/// hint is issued silently when the session allows it, and nothing
/// happens otherwise.
pub open spec fn reaction_hint_outcome(
    ses0: GameSession,
    ses1: GameSession,
    effects: Seq<Effect>,
    now_ms: u64,
) -> bool {
    if !ses0.hinted && now_ms - ses0.last_draw_ms > MIN_PAUSE_MS && ses0.current.answer@.len()
        >= 2 {
        &&& effects.len() == 1
        &&& is_send(effects[0], hint_spec(ses0.current.answer@))
        &&& ses1.current == ses0.current
        &&& ses1.hinted
        &&& ses1.last_draw_ms == now_ms
    } else {
        ses1 == ses0 && effects.len() == 0
    }
}

/// The full effect of one reaction event on the engine state.  Only the
/// question-mark emoji on a message of the engine's own account in a
/// served channel does anything.
pub open spec fn reaction_outcome(
    pre: GameState,
    post: GameState,
    effects: Seq<Effect>,
    channel: Seq<char>,
    emoji: Seq<char>,
    target_author: u64,
    self_user: u64,
    now_ms: u64,
) -> bool {
    let loc = locale_spec(channel);
    if emoji != "❓"@ || loc is Unknown || target_author != self_user {
        post == pre && effects.len() == 0
    } else {
        &&& post.uk_catalog == pre.uk_catalog
        &&& post.en_catalog == pre.en_catalog
        &&& post.ledger == pre.ledger
        &&& (loc is Uk ==> post.en == pre.en && reaction_hint_outcome(
            pre.uk,
            post.uk,
            effects,
            now_ms,
        ))
        &&& (loc is En ==> post.uk == pre.uk && reaction_hint_outcome(
            pre.en,
            post.en,
            effects,
            now_ms,
        ))
    }
}

impl GameState {
    /// Catalogs well formed and non-empty, sessions well formed, ledger
    /// well formed.
    pub open spec fn wf(self) -> bool {
        &&& self.uk_catalog.wf()
        &&& self.en_catalog.wf()
        &&& self.uk_catalog.questions@.len() > 0
        &&& self.en_catalog.questions@.len() > 0
        &&& self.uk.wf()
        &&& self.en.wf()
        &&& self.ledger.wf()
    }

    /// Builds the engine state at startup: one question is drawn per
    /// locale.  Fails exactly when a catalog is empty; that is fatal.
    pub fn new(
        uk_catalog: QuestionCatalog,
        en_catalog: QuestionCatalog,
        ledger: ScoreLedger,
        now_ms: u64,
    ) -> (r: Result<GameState, GameError>)
        requires
            uk_catalog.wf(),
            en_catalog.wf(),
            ledger.wf(),
        ensures
            r is Ok <==> uk_catalog.questions@.len() > 0 && en_catalog.questions@.len() > 0,
            r is Err ==> r->Err_0 == GameError::EmptyCatalog,
            r matches Ok(st) ==> st.wf() && st.uk_catalog == uk_catalog && st.en_catalog
                == en_catalog && st.ledger == ledger && uk_catalog.has_question(st.uk.current)
                && en_catalog.has_question(st.en.current) && !st.uk.hinted && !st.en.hinted
                && st.uk.last_draw_ms == now_ms && st.en.last_draw_ms == now_ms,
    {
        let uk_q = match uk_catalog.draw() {
            Ok(q) => q,
            Err(e) => {
                return Err(e);
            },
        };
        let en_q = match en_catalog.draw() {
            Ok(q) => q,
            Err(e) => {
                return Err(e);
            },
        };
        let uk = GameSession::start(uk_q, now_ms);
        let en = GameSession::start(en_q, now_ms);
        Ok(GameState { uk_catalog, en_catalog, uk, en, ledger })
    }

    /// Handles one inbound chat message: resolves the locale, normalizes
    /// the text, routes it, executes the action, and returns the
    /// outbound effects.  Messages in an unresolvable channel are
    /// ignored entirely.
    pub fn handle_message(
        &mut self,
        channel_name: &str,
        text: &str,
        author: u64,
        author_is_bot: bool,
        now_ms: u64,
    ) -> (effects: Vec<Effect>)
        requires
            old(self).wf(),
            old(self).uk.last_draw_ms <= now_ms,
            old(self).en.last_draw_ms <= now_ms,
            old(self).ledger.score_of(author) + old(self).uk.current.score <= i64::MAX,
            old(self).ledger.score_of(author) + old(self).en.current.score <= i64::MAX,
        ensures
            final(self).wf(),
            final(self).uk.last_draw_ms <= now_ms,
            final(self).en.last_draw_ms <= now_ms,
            message_outcome(
                *old(self),
                *final(self),
                effects@,
                channel_name@,
                text@,
                author,
                author_is_bot,
                now_ms,
            ),
    {
        let loc = locale_of_channel(channel_name);
        match loc {
            Locale::Unknown => Vec::new(),
            Locale::Uk => {
                let norm = normalize_text(text);
                handle_command(
                    loc,
                    &mut self.uk,
                    &mut self.ledger,
                    &self.uk_catalog,
                    norm.as_str(),
                    author,
                    author_is_bot,
                    now_ms,
                )
            },
            Locale::En => {
                let norm = normalize_text(text);
                handle_command(
                    loc,
                    &mut self.en,
                    &mut self.ledger,
                    &self.en_catalog,
                    norm.as_str(),
                    author,
                    author_is_bot,
                    now_ms,
                )
            },
        }
    }

    /// Handles one reaction event: a question-mark reaction on the
    /// engine's own prompt counts as a silent hint request for the
    /// channel's locale.
    pub fn handle_reaction(
        &mut self,
        channel_name: &str,
        emoji: &str,
        target_author: u64,
        self_user: u64,
        now_ms: u64,
    ) -> (effects: Vec<Effect>)
        requires
            old(self).wf(),
            old(self).uk.last_draw_ms <= now_ms,
            old(self).en.last_draw_ms <= now_ms,
        ensures
            final(self).wf(),
            final(self).uk.last_draw_ms <= now_ms,
            final(self).en.last_draw_ms <= now_ms,
            reaction_outcome(
                *old(self),
                *final(self),
                effects@,
                channel_name@,
                emoji@,
                target_author,
                self_user,
                now_ms,
            ),
    {
        if !str_eq(emoji, "❓") {
            return Vec::new();
        }
        if target_author != self_user {
            return Vec::new();
        }
        let loc = locale_of_channel(channel_name);
        let mut effects: Vec<Effect> = Vec::new();
        match loc {
            Locale::Unknown => {},
            Locale::Uk => {
                if !self.uk.hinted && self.uk.cooldown_passed(now_ms) {
                    match self.uk.request_hint(now_ms) {
                        HintOutcome::Issued(h) => effects.push(Effect::Send(h)),
                        _ => {},
                    }
                }
            },
            Locale::En => {
                if !self.en.hinted && self.en.cooldown_passed(now_ms) {
                    match self.en.request_hint(now_ms) {
                        HintOutcome::Issued(h) => effects.push(Effect::Send(h)),
                        _ => {},
                    }
                }
            },
        }
        effects
    }
}

} // verus!
