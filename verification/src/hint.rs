//! Hint obfuscation: reveal the first and last character of the answer
//! and mask everything between, one filler glyph per masked position.

use vstd::prelude::*;
use vstd::string::*;
use crate::errors::GameError;
use crate::question::Question;
use crate::text::append_char_from;

verus! {

/// The partial reveal of an answer of at least two characters: its first
/// character, one filler glyph per inner position, and its last
/// character.
pub open spec fn hint_spec(a: Seq<char>) -> Seq<char> {
    seq![a[0]] + Seq::new((a.len() - 2) as nat, |k: int| '◾') + seq![a.last()]
}

/// The shape of every hint: for an answer of at least two characters,
/// the hint is as long as the answer (two revealed characters plus one
/// filler per inner position), starts with the answer's first character,
/// and ends with its last.
pub proof fn lemma_hint_shape(a: Seq<char>)
    requires
        a.len() >= 2,
    ensures
        hint_spec(a).len() == 2 + (a.len() - 2),
        hint_spec(a)[0] == a[0],
        hint_spec(a).last() == a.last(),
{
}

/// Obfuscates the answer of `q` into a partial reveal.  Succeeds exactly
/// when the answer has at least two characters; a shorter answer is
/// reported, never a crash.
pub fn produce_hint(q: &Question) -> (r: Result<String, GameError>)
    ensures
        r is Ok <==> q.answer@.len() >= 2,
        r is Err ==> r->Err_0 == GameError::InvalidAnswerLength,
        r is Ok ==> r->Ok_0@ == hint_spec(q.answer@),
{
    let answer = q.get_answer();
    let n = answer.unicode_len();
    if n < 2 {
        return Err(GameError::InvalidAnswerLength);
    }
    let mut out = String::new();
    append_char_from(&mut out, answer, 0);
    proof {
        assert(out@ =~= seq![answer@[0]] + Seq::new(0nat, |k: int| '◾'));
    }
    let mut i: usize = 1;
    while i < n - 1
        invariant
            n == answer@.len(),
            2 <= n,
            1 <= i <= n - 1,
            out@ == seq![answer@[0]] + Seq::new((i - 1) as nat, |k: int| '◾'),
        decreases n - 1 - i,
    {
        out.append("◾");
        proof {
            reveal_strlit("◾");
            assert("◾"@ =~= seq!['◾']);
            assert(out@ =~= seq![answer@[0]] + Seq::new(i as nat, |k: int| '◾'));
        }
        i += 1;
    }
    append_char_from(&mut out, answer, n - 1);
    proof {
        assert(out@ =~= hint_spec(answer@));
    }
    Ok(out)
}

} // verus!
