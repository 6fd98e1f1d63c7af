//! The question catalog: filters corpus rows under the locale-specific
//! eligibility rules, turns them into questions, and serves independent
//! uniform draws.

use vstd::prelude::*;
use vstd::string::*;
use crate::errors::GameError;
use crate::question::{derived_prompt_spec, Question};
use crate::rng::random_below;
use crate::text::{
    contains_seq, contains_str, has_prefix_ci, lower_of, prefix_ci_seq, remove_char_spec,
};

verus! {

/// A corpus row that carries its own score weight.
pub struct CorpusRow {
    /// The answer word as the corpus stores it.
    pub word: String,
    /// The definition text used as the prompt.
    pub text: String,
    /// The score weight the corpus assigns.
    pub weight: i64,
}

/// A derived-corpus row; its weight is assigned at random instead.
pub struct DerivedRow {
    /// The answer word as the corpus stores it.
    pub word: String,
    /// The raw definition text.
    pub text: String,
}

/// Whether a pre-weighted row may enter the catalog: the definition is
/// non-empty, not a parenthetical entry, not a cross-reference, and the
/// weight is usable as an award.  Prefixes are compared with ASCII case
/// folded, as the store's pattern match compares them.
pub open spec fn weighted_row_eligible(text: Seq<char>, weight: int) -> bool {
    &&& text.len() > 0
    &&& !(text.len() >= 2 && text[0] == '(' && text.last() == ')')
    &&& !prefix_ci_seq(text, "Те саме"@)
    &&& 0 <= weight
}

/// Whether a derived row may enter the catalog: the definition is longer
/// than five characters, not a cross-reference entry, and does not leak
/// the answer word.
pub open spec fn derived_row_eligible(text: Seq<char>, word: Seq<char>) -> bool {
    &&& text.len() > 5
    &&& !prefix_ci_seq(text, "of "@)
    &&& !prefix_ci_seq(text, "See "@)
    &&& !contains_seq(text, word)
}

/// Decides eligibility of a pre-weighted row.
pub fn weighted_row_ok(text: &str, weight: i64) -> (r: bool)
    ensures
        r == weighted_row_eligible(text@, weight as int),
{
    let n = text.unicode_len();
    if n == 0 {
        return false;
    }
    if n >= 2 && text.get_char(0) == '(' && text.get_char(n - 1) == ')' {
        return false;
    }
    if has_prefix_ci(text, "Те саме") {
        return false;
    }
    weight >= 0
}

/// Decides eligibility of a derived row.
pub fn derived_row_ok(text: &str, word: &str) -> (r: bool)
    ensures
        r == derived_row_eligible(text@, word@),
{
    let n = text.unicode_len();
    if n <= 5 {
        return false;
    }
    if has_prefix_ci(text, "of ") {
        return false;
    }
    if has_prefix_ci(text, "See ") {
        return false;
    }
    !contains_str(text, word)
}

/// The observable content of a question: prompt, answer and weight.
pub open spec fn question_view(q: Question) -> (Seq<char>, Seq<char>, int) {
    (q.question@, q.answer@, q.score as int)
}

/// Two questions with the same prompt, answer and weight.
pub open spec fn same_question(a: Question, b: Question) -> bool {
    question_view(a) == question_view(b)
}

/// The questions a pre-weighted row sequence yields, in corpus order:
/// the eligible rows, each with its answer stripped of quote characters
/// and lowercased.
pub open spec fn weighted_questions_spec(rows: Seq<CorpusRow>) -> Seq<(Seq<char>, Seq<char>, int)>
    decreases rows.len(),
{
    if rows.len() == 0 {
        Seq::empty()
    } else {
        let rest = weighted_questions_spec(rows.drop_last());
        let r = rows.last();
        if weighted_row_eligible(r.text@, r.weight as int) {
            rest.push((r.text@, lower_of(remove_char_spec(r.word@, '"')), r.weight as int))
        } else {
            rest
        }
    }
}

/// The prompt/answer pairs a derived row sequence yields, in corpus
/// order; weights are drawn at random and are not pinned here.
pub open spec fn derived_questions_spec(rows: Seq<DerivedRow>) -> Seq<(Seq<char>, Seq<char>)>
    decreases rows.len(),
{
    if rows.len() == 0 {
        Seq::empty()
    } else {
        let rest = derived_questions_spec(rows.drop_last());
        let r = rows.last();
        if derived_row_eligible(r.text@, r.word@) {
            rest.push((derived_prompt_spec(r.text@), lower_of(r.word@)))
        } else {
            rest
        }
    }
}

/// The filtered, immutable set of questions for one locale.
pub struct QuestionCatalog {
    /// The eligible questions, in corpus order.
    pub questions: Vec<Question>,
}

impl QuestionCatalog {
    /// Every question in the catalog is well formed.
    pub open spec fn wf(self) -> bool {
        forall|i: int| 0 <= i < self.questions@.len() ==> (#[trigger] self.questions@[i]).wf()
    }

    /// How many questions the catalog holds.
    pub fn len(&self) -> (n: usize)
        ensures
            n == self.questions@.len(),
    {
        self.questions.len()
    }

    /// Builds the catalog of a pre-weighted corpus: keeps the eligible
    /// rows and normalizes each answer.
    pub fn from_weighted_rows(rows: &Vec<CorpusRow>) -> (c: QuestionCatalog)
        ensures
            c.wf(),
            c.questions@.map_values(|q: Question| question_view(q)) == weighted_questions_spec(
                rows@,
            ),
    {
        let n = rows.len();
        let mut out: Vec<Question> = Vec::new();
        let mut i: usize = 0;
        while i < n
            invariant
                n == rows@.len(),
                0 <= i <= n,
                out@.map_values(|q: Question| question_view(q)) == weighted_questions_spec(
                    rows@.take(i as int),
                ),
                forall|k: int| 0 <= k < out@.len() ==> (#[trigger] out@[k]).wf(),
            decreases n - i,
        {
            let row = &rows[i];
            if weighted_row_ok(row.text.as_str(), row.weight) {
                let q = Question::from_corpus_row(row.text.clone(), row.word.as_str(), row.weight);
                out.push(q);
            }
            proof {
                assert(rows@.take(i + 1).drop_last() =~= rows@.take(i as int));
                assert(rows@.take(i + 1).last() == rows@[i as int]);
                assert(out@.map_values(|q: Question| question_view(q)) =~= weighted_questions_spec(
                    rows@.take(i + 1),
                ));
            }
            i += 1;
        }
        proof {
            assert(rows@.take(n as int) =~= rows@);
        }
        QuestionCatalog { questions: out }
    }

    /// Builds the catalog of a derived corpus: keeps the eligible rows,
    /// cleans each definition into a prompt, and draws each weight at
    /// random from one through four.
    pub fn from_derived_rows(rows: &Vec<DerivedRow>) -> (c: QuestionCatalog)
        ensures
            c.wf(),
            c.questions@.map_values(|q: Question| (q.question@, q.answer@))
                == derived_questions_spec(rows@),
            forall|i: int|
                0 <= i < c.questions@.len() ==> 1 <= (#[trigger] c.questions@[i]).score < 5,
    {
        let n = rows.len();
        let mut out: Vec<Question> = Vec::new();
        let mut i: usize = 0;
        while i < n
            invariant
                n == rows@.len(),
                0 <= i <= n,
                out@.map_values(|q: Question| (q.question@, q.answer@)) == derived_questions_spec(
                    rows@.take(i as int),
                ),
                forall|k: int| 0 <= k < out@.len() ==> 1 <= (#[trigger] out@[k]).score < 5,
            decreases n - i,
        {
            let row = &rows[i];
            if derived_row_ok(row.text.as_str(), row.word.as_str()) {
                let q = Question::from_derived_row(row.text.as_str(), row.word.as_str());
                out.push(q);
            }
            proof {
                assert(rows@.take(i + 1).drop_last() =~= rows@.take(i as int));
                assert(rows@.take(i + 1).last() == rows@[i as int]);
                assert(out@.map_values(|q: Question| (q.question@, q.answer@))
                    =~= derived_questions_spec(rows@.take(i + 1)));
            }
            i += 1;
        }
        proof {
            assert(rows@.take(n as int) =~= rows@);
        }
        QuestionCatalog { questions: out }
    }

    /// Whether some question of the catalog has this content.
    pub open spec fn has_question(self, q: Question) -> bool {
        exists|i: int|
            0 <= i < self.questions@.len() && same_question(q, #[trigger] self.questions@[i])
    }

    /// Draws a question from a catalog known to be non-empty.
    pub fn draw_any(&self) -> (q: Question)
        requires
            self.questions@.len() >= 1,
        ensures
            self.has_question(q),
            self.wf() ==> q.wf(),
    {
        let i = random_below(self.questions.len());
        let src = &self.questions[i];
        let picked = Question {
            question: src.question.clone(),
            answer: src.answer.clone(),
            score: src.score,
        };
        proof {
            assert(same_question(picked, self.questions@[i as int]));
        }
        picked
    }

    /// Draws a question independently and uniformly at random, with
    /// replacement.  Fails exactly when the catalog is empty.
    pub fn draw(&self) -> (r: Result<Question, GameError>)
        ensures
            r is Err <==> self.questions@.len() == 0,
            r is Err ==> r->Err_0 == GameError::EmptyCatalog,
            r is Ok ==> self.has_question(r->Ok_0),
            r is Ok && self.wf() ==> r->Ok_0.wf(),
    {
        if self.questions.len() == 0 {
            return Err(GameError::EmptyCatalog);
        }
        Ok(self.draw_any())
    }
}

} // verus!
