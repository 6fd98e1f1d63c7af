//! Locale resolution and command routing: turning a channel name into a
//! locale and a normalized message into an abstract action.

use vstd::prelude::*;
use vstd::string::*;
use crate::text::{contains_seq, contains_str, str_eq};

verus! {

/// Which corpus and command vocabulary apply to a channel.
#[derive(Clone, Copy, Debug, PartialEq, Eq, Structural)]
pub enum Locale {
    /// The primary, pre-weighted corpus.
    Uk,
    /// The derived corpus with randomly assigned weights.
    En,
    /// A channel the engine does not serve.
    Unknown,
}

/// The locale a channel name resolves to: the first locale tag that
/// occurs in the name, or `Unknown` when none does.
pub open spec fn locale_spec(name: Seq<char>) -> Locale {
    if contains_seq(name, "uk"@) {
        Locale::Uk
    } else if contains_seq(name, "en"@) {
        Locale::En
    } else {
        Locale::Unknown
    }
}

/// Resolves a channel name to the locale served there.
pub fn locale_of_channel(name: &str) -> (r: Locale)
    ensures
        r == locale_spec(name@),
{
    if contains_str(name, "uk") {
        Locale::Uk
    } else if contains_str(name, "en") {
        Locale::En
    } else {
        Locale::Unknown
    }
}

/// The abstract action an inbound message asks for.
#[derive(Clone, Copy, Debug, PartialEq, Eq, Structural)]
pub enum Command {
    /// Show the command overview.
    Help,
    /// Repeat the current question.
    RepeatQuestion,
    /// Ask for a hint on the current question.
    RequestHint,
    /// Give up: reveal the answer and draw the next question.
    Skip,
    /// Show the asking user's score and standing.
    ShowScore,
    /// Show the leaderboard.
    ShowLeaderboard,
    /// Not a command: the text is read as a guess at the answer.
    SubmitAnswer,
    /// A command prefix with no known alias; ignored.
    Unrecognized,
}

/// The action a normalized message maps to under the locale's command
/// vocabulary.  Text without the command prefix is an implicit answer
/// submission.
pub open spec fn route_spec(loc: Locale, t: Seq<char>) -> Command {
    if t.len() == 0 || t[0] != '!' {
        Command::SubmitAnswer
    } else if loc is Uk {
        if t == "!next"@ || t == "!далі"@ || t == "!відповідь"@ {
            Command::Skip
        } else if t == "!q"@ || t == "!питання"@ || t == "!п"@ {
            Command::RepeatQuestion
        } else if t == "!підказка"@ || t == "!хінт"@ {
            Command::RequestHint
        } else if t == "!рейтинг"@ {
            Command::ShowScore
        } else if t == "!топ"@ {
            Command::ShowLeaderboard
        } else if t == "!?"@ || t == "!help"@ {
            Command::Help
        } else {
            Command::Unrecognized
        }
    } else if loc is En {
        if t == "!next"@ || t == "!answer"@ {
            Command::Skip
        } else if t == "!q"@ || t == "!question"@ {
            Command::RepeatQuestion
        } else if t == "!hint"@ {
            Command::RequestHint
        } else if t == "!score"@ {
            Command::ShowScore
        } else if t == "!top"@ {
            Command::ShowLeaderboard
        } else if t == "!?"@ || t == "!help"@ {
            Command::Help
        } else {
            Command::Unrecognized
        }
    } else {
        Command::Unrecognized
    }
}

/// Classifies a normalized message under the locale's vocabulary.
pub fn route(norm: &str, loc: Locale) -> (r: Command)
    ensures
        r == route_spec(loc, norm@),
{
    let n = norm.unicode_len();
    if n == 0 || norm.get_char(0) != '!' {
        return Command::SubmitAnswer;
    }
    match loc {
        Locale::Uk => {
            if str_eq(norm, "!next") || str_eq(norm, "!далі") || str_eq(norm, "!відповідь") {
                Command::Skip
            } else if str_eq(norm, "!q") || str_eq(norm, "!питання") || str_eq(norm, "!п") {
                Command::RepeatQuestion
            } else if str_eq(norm, "!підказка") || str_eq(norm, "!хінт") {
                Command::RequestHint
            } else if str_eq(norm, "!рейтинг") {
                Command::ShowScore
            } else if str_eq(norm, "!топ") {
                Command::ShowLeaderboard
            } else if str_eq(norm, "!?") || str_eq(norm, "!help") {
                Command::Help
            } else {
                Command::Unrecognized
            }
        },
        Locale::En => {
            if str_eq(norm, "!next") || str_eq(norm, "!answer") {
                Command::Skip
            } else if str_eq(norm, "!q") || str_eq(norm, "!question") {
                Command::RepeatQuestion
            } else if str_eq(norm, "!hint") {
                Command::RequestHint
            } else if str_eq(norm, "!score") {
                Command::ShowScore
            } else if str_eq(norm, "!top") {
                Command::ShowLeaderboard
            } else if str_eq(norm, "!?") || str_eq(norm, "!help") {
                Command::Help
            } else {
                Command::Unrecognized
            }
        },
        Locale::Unknown => Command::Unrecognized,
    }
}

} // verus!
