//! The token counter: sums a scaled weight per character and rounds
//! the total to a token count.

use vstd::prelude::*;

use crate::east_asian::is_east_asian_char;
use crate::east_asian::spec_is_east_asian;

verus! {

/// Scaled weight of one character: an East Asian character counts 3.5
/// character units and any other character 1 unit; both are doubled
/// (to 7 and 2) so that every computation stays integral.
pub open spec fn char_units(c: char) -> nat {
    if spec_is_east_asian(c) {
        7
    } else {
        2
    }
}

/// Sum of the scaled weights of all characters of `s`.
pub open spec fn total_units(s: Seq<char>) -> nat
    decreases s.len(),
{
    if s.len() == 0 {
        0
    } else {
        total_units(s.drop_last()) + char_units(s.last())
    }
}

/// The token estimate for `s`: its unit total divided by six scaled
/// units per token, rounded half-up (`(total + 3) / 6` in floor
/// division).
pub open spec fn spec_count_tokens(s: Seq<char>) -> nat {
    (total_units(s) + 3) / 6
}

/// The unit total of a sequence lies between 2 and 7 units per
/// character.
pub proof fn lemma_units_bounds(s: Seq<char>)
    ensures
        2 * s.len() <= total_units(s) <= 7 * s.len(),
    decreases s.len(),
{
    if s.len() > 0 {
        lemma_units_bounds(s.drop_last());
    }
}

/// Appending one character adds exactly that character's weight.
pub proof fn lemma_units_push(s: Seq<char>, c: char)
    ensures
        total_units(s.push(c)) == total_units(s) + char_units(c),
{
    assert(s.push(c).drop_last() =~= s);
}

/// Estimates how many language-model tokens `text` would consume:
/// each East Asian character contributes 7 scaled units, every other
/// character 2, and the total is converted to tokens at 6 scaled units
/// per token, rounded half-up.
///
/// The precondition only keeps the scaled unit total inside a `u64`;
/// it admits every text of realistic size.
pub fn count_tokens(text: &str) -> (tokens: u64)
    requires
        7 * text@.len() + 3 <= u64::MAX,
    ensures
        tokens == spec_count_tokens(text@),
{
    let mut total: u64 = 0;
    for c in it: text.chars()
        invariant
            it.seq() == text@,
            7 * text@.len() + 3 <= u64::MAX,
            total == total_units(text@.take(it.index())),
    {
        let ghost i: int = it.index();
        proof {
            lemma_units_bounds(text@.take(i));
            assert(text@.take(i + 1) =~= text@.take(i).push(text@[i]));
            lemma_units_push(text@.take(i), text@[i]);
        }
        if is_east_asian_char(c) {
            total = total + 7;
        } else {
            total = total + 2;
        }
    }
    proof {
        assert(text@.take(text@.len() as int) =~= text@);
        lemma_units_bounds(text@);
    }
    (total + 3) / 6
}

} // verus!
