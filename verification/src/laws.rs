//! General properties of the token estimate, proved once and for all:
//! when the estimate is zero, that appending never decreases it, the
//! closed forms for single-script input, and independence of character
//! order.

use vstd::prelude::*;

use vstd::arithmetic::div_mod::lemma_div_is_ordered;
use vstd::seq_lib::group_to_multiset_ensures;

use crate::count::char_units;
use crate::count::lemma_units_bounds;
use crate::count::lemma_units_push;
use crate::count::spec_count_tokens;
use crate::count::total_units;
use crate::east_asian::spec_is_east_asian;

verus! {

/// The estimate is never negative, and it is zero exactly when the
/// unit total is below 3 scaled units — that is, when the input is
/// empty or is one single character that is not East Asian.
pub proof fn lemma_zero_tokens(s: Seq<char>)
    ensures
        spec_count_tokens(s) >= 0,
        spec_count_tokens(s) == 0 <==> total_units(s) < 3,
        total_units(s) < 3 <==> (s.len() == 0 || (s.len() == 1 && !spec_is_east_asian(s[0]))),
{
    lemma_units_bounds(s);
    if s.len() == 1 {
        assert(total_units(s.drop_last()) == 0);
        assert(total_units(s) == char_units(s[0]));
    }
}

/// Monotonicity: appending any character to an input never decreases
/// the estimate.
pub proof fn lemma_append_monotonic(s: Seq<char>, c: char)
    ensures
        spec_count_tokens(s) <= spec_count_tokens(s.push(c)),
{
    lemma_units_push(s, c);
    lemma_div_is_ordered(
        total_units(s) as int + 3,
        total_units(s.push(c)) as int + 3,
        6,
    );
}

/// For input made only of East Asian characters, the unit total is 7
/// per character and the estimate has the closed form `(7n + 3) / 6`.
pub proof fn lemma_east_asian_only(s: Seq<char>)
    requires
        forall|i: int| 0 <= i < s.len() ==> spec_is_east_asian(s[i]),
    ensures
        total_units(s) == 7 * s.len(),
        spec_count_tokens(s) == (7 * s.len() + 3) / 6,
    decreases s.len(),
{
    if s.len() > 0 {
        lemma_east_asian_only(s.drop_last());
    }
}

/// For input with no East Asian character, the unit total is 2 per
/// character and the estimate has the closed form `(2n + 3) / 6`.
pub proof fn lemma_other_only(s: Seq<char>)
    requires
        forall|i: int| 0 <= i < s.len() ==> !spec_is_east_asian(s[i]),
    ensures
        total_units(s) == 2 * s.len(),
        spec_count_tokens(s) == (2 * s.len() + 3) / 6,
    decreases s.len(),
{
    if s.len() > 0 {
        lemma_other_only(s.drop_last());
    }
}

/// Removing the character at index `i` subtracts exactly its weight
/// from the unit total.
proof fn lemma_units_remove(s: Seq<char>, i: int)
    requires
        0 <= i < s.len(),
    ensures
        total_units(s) == total_units(s.remove(i)) + char_units(s[i]),
    decreases s.len(),
{
    if i == s.len() - 1 {
        assert(s.remove(i) =~= s.drop_last());
    } else {
        assert(s.remove(i).drop_last() =~= s.drop_last().remove(i));
        assert(s.remove(i).last() == s.last());
        lemma_units_remove(s.drop_last(), i);
    }
}

/// The estimate depends only on which characters occur, with their
/// multiplicities, not on their order: two inputs with the same
/// multiset of characters have the same unit total and the same
/// estimate.
pub proof fn lemma_order_independent(s: Seq<char>, t: Seq<char>)
    requires
        s.to_multiset() == t.to_multiset(),
    ensures
        total_units(s) == total_units(t),
        spec_count_tokens(s) == spec_count_tokens(t),
    decreases s.len(),
{
    broadcast use group_to_multiset_ensures;

    if s.len() == 0 {
        assert(t.to_multiset().len() == 0);
        assert(t.len() == 0);
    } else {
        let last: int = s.len() - 1;
        let c = s[last];
        assert(s.contains(c));
        assert(t.to_multiset().count(c) > 0);
        assert(t.contains(c));
        let j = choose|j: int| 0 <= j < t.len() && t[j] == c;
        lemma_units_remove(s, last);
        lemma_units_remove(t, j);
        assert(s.remove(last).to_multiset() =~= t.remove(j).to_multiset());
        lemma_order_independent(s.remove(last), t.remove(j));
    }
}

} // verus!
