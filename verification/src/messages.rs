//! The outbound reply lines, each built by a verified function whose
//! contract pins the exact character sequence.

use vstd::prelude::*;
use vstd::string::*;
use crate::ledger::ScoreRow;
use crate::numfmt::{dec_str, u64_to_string};
use crate::router::Locale;

verus! {

/// The inline mention of a user.
pub open spec fn mention_spec(user: int) -> Seq<char> {
    "<@"@ + dec_str(user) + ">"@
}

/// Renders the inline mention of a user.
pub fn mention(user: u64) -> (r: String)
    ensures
        r@ == mention_spec(user as int),
{
    let mut out = String::from_str("<@");
    let d = u64_to_string(user);
    out.append(d.as_str());
    out.append(">");
    proof {
        assert(out@ =~= mention_spec(user as int));
    }
    out
}

/// The reply to a score request from a user who has not scored yet.
pub open spec fn no_score_line_spec(loc: Locale, user: int) -> Seq<char> {
    if loc is Uk {
        mention_spec(user) + " нічого ще не відгадано..."@
    } else {
        mention_spec(user) + " has not scored yet..."@
    }
}

/// Renders the no-score reply.
pub fn no_score_line(loc: Locale, user: u64) -> (r: String)
    ensures
        r@ == no_score_line_spec(loc, user as int),
{
    let mut out = mention(user);
    match loc {
        Locale::Uk => out.append(" нічого ще не відгадано..."),
        _ => out.append(" has not scored yet..."),
    }
    out
}

/// The reply to a score request: score, standing, and player count.
pub open spec fn score_line_spec(loc: Locale, user: int, score: int, standing: int, total: int) -> Seq<
    char,
> {
    if loc is Uk {
        mention_spec(user) + " має "@ + dec_str(score) + " очок і є "@ + dec_str(standing) + " зі "@
            + dec_str(total)
    } else {
        mention_spec(user) + " have "@ + dec_str(score) + " point and is "@ + dec_str(standing)
            + " out of "@ + dec_str(total)
    }
}

/// Renders the score reply.
pub fn score_line(loc: Locale, user: u64, score: i64, standing: usize, total: usize) -> (r: String)
    requires
        0 <= score,
    ensures
        r@ == score_line_spec(loc, user as int, score as int, standing as int, total as int),
{
    let mut out = mention(user);
    let s = u64_to_string(score as u64);
    let st = u64_to_string(standing as u64);
    let t = u64_to_string(total as u64);
    match loc {
        Locale::Uk => {
            out.append(" має ");
            out.append(s.as_str());
            out.append(" очок і є ");
            out.append(st.as_str());
            out.append(" зі ");
            out.append(t.as_str());
        },
        _ => {
            out.append(" have ");
            out.append(s.as_str());
            out.append(" point and is ");
            out.append(st.as_str());
            out.append(" out of ");
            out.append(t.as_str());
        },
    }
    proof {
        assert(out@ =~= score_line_spec(
            loc,
            user as int,
            score as int,
            standing as int,
            total as int,
        ));
    }
    out
}

/// The reply to a correct answer: who, the answer, and the new total.
pub open spec fn correct_line_spec(loc: Locale, user: int, answer: Seq<char>, total: int) -> Seq<
    char,
> {
    if loc is Uk {
        "Вірно "@ + mention_spec(user) + ". Відповідь "@ + answer + ". Загальний рейтинг: "@
            + dec_str(total)
    } else {
        "Correct "@ + mention_spec(user) + ". Answer is **"@ + answer + "**. Your total score: "@
            + dec_str(total)
    }
}

/// Renders the correct-answer reply.
pub fn correct_line(loc: Locale, user: u64, answer: &str, total: i64) -> (r: String)
    requires
        0 <= total,
    ensures
        r@ == correct_line_spec(loc, user as int, answer@, total as int),
{
    let m = mention(user);
    let t = u64_to_string(total as u64);
    let mut out: String;
    match loc {
        Locale::Uk => {
            out = String::from_str("Вірно ");
            out.append(m.as_str());
            out.append(". Відповідь ");
            out.append(answer);
            out.append(". Загальний рейтинг: ");
            out.append(t.as_str());
        },
        _ => {
            out = String::from_str("Correct ");
            out.append(m.as_str());
            out.append(". Answer is **");
            out.append(answer);
            out.append("**. Your total score: ");
            out.append(t.as_str());
        },
    }
    proof {
        assert(out@ =~= correct_line_spec(loc, user as int, answer@, total as int));
    }
    out
}

/// One leaderboard line: 1-based position, mention, score.
pub open spec fn top_line_spec(pos: int, row: ScoreRow) -> Seq<char> {
    dec_str(pos) + "    |    "@ + mention_spec(row.user as int) + "    |    "@ + dec_str(
        row.score as int,
    ) + "\n"@
}

/// The leaderboard report: one line per row, in order.
pub open spec fn top_report_spec(rows: Seq<ScoreRow>) -> Seq<char>
    decreases rows.len(),
{
    if rows.len() == 0 {
        Seq::empty()
    } else {
        top_report_spec(rows.drop_last()) + top_line_spec(rows.len() as int, rows.last())
    }
}

/// Renders the leaderboard report.
pub fn top_report(rows: &Vec<ScoreRow>) -> (r: String)
    requires
        forall|i: int| 0 <= i < rows@.len() ==> (#[trigger] rows@[i]).score >= 0,
    ensures
        r@ == top_report_spec(rows@),
{
    let n = rows.len();
    let mut out = String::new();
    let mut i: usize = 0;
    while i < n
        invariant
            n == rows@.len(),
            0 <= i <= n,
            forall|k: int| 0 <= k < n ==> (#[trigger] rows@[k]).score >= 0,
            out@ == top_report_spec(rows@.take(i as int)),
        decreases n - i,
    {
        let row = rows[i];
        let pos = u64_to_string((i as u64) + 1);
        let m = mention(row.user);
        let sc = u64_to_string(row.score as u64);
        out.append(pos.as_str());
        out.append("    |    ");
        out.append(m.as_str());
        out.append("    |    ");
        out.append(sc.as_str());
        out.append("\n");
        proof {
            assert(rows@.take(i + 1).drop_last() =~= rows@.take(i as int));
            assert(rows@.take(i + 1).last() == rows@[i as int]);
            assert(out@ =~= top_report_spec(rows@.take(i + 1)));
        }
        i += 1;
    }
    proof {
        assert(rows@.take(n as int) =~= rows@);
    }
    out
}

/// The command overview, ending with the word count of the catalog.
pub open spec fn help_line_spec(loc: Locale, words: int) -> Seq<char> {
    if loc is Uk {
        "Відгадати слово за визначеням з тлумачного словника Української мови. Реєстр і навколишній текст не враховуються.\nРейтинг [вказаний в квадратних дужках після кожного питання] додається гравцю за вірну відповідь і є вищий у рідше вживаних слів.\n**!?** | **!help** - інформація і команди;\n**!next** | **!далі** | **!відповідь** - відповідь на поточне пиатння і нове питання;\n**!q** | **!питання** | **!п** - повторити поточне питання;\n**!підказка** | **!хінт** | реакція ❓ до питання - відобразити першу літеру відповіді;\n**!топ** - відобразити топ 10 гравців з найвищим рейтингом;\n**!рейтинг** - відобразити Ваш рейтинг;\nСлів в словнику: **"@
            + dec_str(words) + "**"@
    } else {
        "Guess the word by it's definition. Answer must include exact word. Register and surrounding text are ignored.\nEach question have a score [in square braces], which on correct answer is added to first player's tally.\n**!?** | **!help** - info and commands;\n**!next** | **!answer** - shows answer to current question and provides a new one;\n**!q** | **!question** - repeat current question;\n**!hint** | react ❓ under the question - produces hint with first and last letters of the answer word;\n**!top** - top 10 score standings;\n**!score** - display Your score;\nTotal words count: **"@
            + dec_str(words) + "**"@
    }
}

/// Renders the command overview.
pub fn help_line(loc: Locale, words: usize) -> (r: String)
    ensures
        r@ == help_line_spec(loc, words as int),
{
    let mut out: String;
    match loc {
        Locale::Uk => {
            out = String::from_str(
                "Відгадати слово за визначеням з тлумачного словника Української мови. Реєстр і навколишній текст не враховуються.\nРейтинг [вказаний в квадратних дужках після кожного питання] додається гравцю за вірну відповідь і є вищий у рідше вживаних слів.\n**!?** | **!help** - інформація і команди;\n**!next** | **!далі** | **!відповідь** - відповідь на поточне пиатння і нове питання;\n**!q** | **!питання** | **!п** - повторити поточне питання;\n**!підказка** | **!хінт** | реакція ❓ до питання - відобразити першу літеру відповіді;\n**!топ** - відобразити топ 10 гравців з найвищим рейтингом;\n**!рейтинг** - відобразити Ваш рейтинг;\nСлів в словнику: **",
            );
        },
        _ => {
            out = String::from_str(
                "Guess the word by it's definition. Answer must include exact word. Register and surrounding text are ignored.\nEach question have a score [in square braces], which on correct answer is added to first player's tally.\n**!?** | **!help** - info and commands;\n**!next** | **!answer** - shows answer to current question and provides a new one;\n**!q** | **!question** - repeat current question;\n**!hint** | react ❓ under the question - produces hint with first and last letters of the answer word;\n**!top** - top 10 score standings;\n**!score** - display Your score;\nTotal words count: **",
            );
        },
    }
    let w = u64_to_string(words as u64);
    out.append(w.as_str());
    out.append("**");
    proof {
        assert(out@ =~= help_line_spec(loc, words as int));
    }
    out
}

} // verus!
