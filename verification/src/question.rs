//! The one question value type, produced from two corpus shapes: rows
//! that carry their own weight, and derived rows whose prompt is cleaned
//! up and whose weight is drawn at random.

use vstd::prelude::*;
use vstd::string::*;
use crate::numfmt::{dec_str, u64_to_string};
use crate::rng::random_below;
use crate::router::Locale;
use crate::text::{
    collapse_spaces, collapse_spaces_spec, keep_alnum_space, keep_alnum_space_spec, lower_of,
    remove_char, remove_char_spec, replace_markers, replace_markers_spec, to_lowercase_str,
    truncate_at, truncate_at_spec,
};

verus! {

/// One prompt/answer pair with its score weight.
pub struct Question {
    /// The prompt text; primary-corpus prompts may carry inline bold
    /// markers, stripped for display.
    pub question: String,
    /// The normalized answer: lowercased, quote characters removed.
    pub answer: String,
    /// Added to the answering user's score.
    pub score: i64,
}

/// The prompt a derived-corpus definition is cleaned up into: only
/// alphanumerics and spaces kept, space runs collapsed, and the text cut
/// at the first sentence boundary.
pub open spec fn derived_prompt_spec(d: Seq<char>) -> Seq<char> {
    truncate_at_spec(collapse_spaces_spec(keep_alnum_space_spec(d)), '.')
}

/// The reply line that presents a question: prompt in bold, answer
/// length, and the score weight in brackets.
pub open spec fn question_line_spec(loc: Locale, prompt: Seq<char>, answer: Seq<char>, score: int) -> Seq<
    char,
> {
    if loc is Uk {
        "**"@ + replace_markers_spec(prompt, Seq::empty()) + "** ("@ + dec_str(answer.len() as int)
            + " літер) [+"@ + dec_str(score) + "]"@
    } else {
        "**"@ + prompt + "** ("@ + dec_str(answer.len() as int) + " letters) ["@ + dec_str(score)
            + " point(s)]"@
    }
}

impl Question {
    /// A question usable by the sessions: its weight can be awarded.
    pub open spec fn wf(self) -> bool {
        0 <= self.score
    }

    /// Builds a question from parts already in their stored form.
    pub fn new(question: String, answer: String, score: i64) -> (q: Question)
        ensures
            q.question == question,
            q.answer == answer,
            q.score == score,
    {
        Question { question, answer, score }
    }

    /// The normalized answer string.
    pub fn get_answer(&self) -> (r: &str)
        ensures
            r@ == self.answer@,
    {
        self.answer.as_str()
    }

    /// Builds a question from a pre-weighted corpus row: the prompt is
    /// carried over, the answer is stripped of quote characters and
    /// lowercased.
    pub fn from_corpus_row(interpretation: String, word: &str, weight: i64) -> (q: Question)
        requires
            0 <= weight,
        ensures
            q.question == interpretation,
            q.answer@ == lower_of(remove_char_spec(word@, '"')),
            q.score == weight,
    {
        let unquoted = remove_char(word, '"');
        let answer = to_lowercase_str(unquoted.as_str());
        Question { question: interpretation, answer, score: weight }
    }

    /// Builds a question from a derived-corpus row: the definition is
    /// normalized into a prompt, the answer lowercased, and the score
    /// weight drawn at random from one through four.
    pub fn from_derived_row(definition: &str, word: &str) -> (q: Question)
        ensures
            q.question@ == derived_prompt_spec(definition@),
            q.answer@ == lower_of(word@),
            1 <= q.score < 5,
    {
        let filtered = keep_alnum_space(definition);
        let joined = collapse_spaces(filtered.as_str());
        let prompt = truncate_at(joined.as_str(), '.');
        let answer = to_lowercase_str(word);
        let w = random_below(4);
        let score: i64 = 1 + (w as i64);
        Question { question: prompt, answer, score }
    }

    /// Renders the reply line that presents this question.
    pub fn display_line(&self, loc: Locale) -> (r: String)
        requires
            self.wf(),
        ensures
            r@ == question_line_spec(loc, self.question@, self.answer@, self.score as int),
    {
        let mut out = String::from_str("**");
        match loc {
            Locale::Uk => {
                let stripped = replace_markers(self.question.as_str(), "");
                proof {
                    reveal_strlit("");
                    assert(""@ =~= Seq::<char>::empty());
                }
                out.append(stripped.as_str());
                out.append("** (");
                let len_s = u64_to_string(self.answer.as_str().unicode_len() as u64);
                out.append(len_s.as_str());
                out.append(" літер) [+");
                let sc = u64_to_string(self.score as u64);
                out.append(sc.as_str());
                out.append("]");
            },
            _ => {
                out.append(self.question.as_str());
                out.append("** (");
                let len_s = u64_to_string(self.answer.as_str().unicode_len() as u64);
                out.append(len_s.as_str());
                out.append(" letters) [");
                let sc = u64_to_string(self.score as u64);
                out.append(sc.as_str());
                out.append(" point(s)]");
            },
        }
        proof {
            assert(out@ =~= question_line_spec(loc, self.question@, self.answer@, self.score as int));
        }
        out
    }
}

} // verus!
