//! Text helpers shared by the page generators: hierarchical-identifier
//! handling and decimal rendering.
//!
//! A hierarchical page identifier may contain `/` separators.  The
//! navigation target is always the identifier with the separators stripped;
//! the display label uses the first segment, unless that segment is the
//! reserved placeholder `00000`, in which case the second segment is shown.

use vstd::prelude::*;

verus! {

/// `s` with every `/` removed: the navigation-target form of a
/// hierarchical identifier.
pub open spec fn strip_slashes(s: Seq<char>) -> Seq<char>
    decreases s.len(),
{
    if s.len() == 0 {
        Seq::empty()
    } else if s.last() == '/' {
        strip_slashes(s.drop_last())
    } else {
        strip_slashes(s.drop_last()).push(s.last())
    }
}

/// The index of the first `/` in `s`, or `s.len()` if there is none.
pub open spec fn slash_index(s: Seq<char>) -> int
    decreases s.len(),
{
    if s.len() == 0 {
        0
    } else if s[0] == '/' {
        0
    } else {
        1 + slash_index(s.drop_first())
    }
}

/// The identifier up to the first separator.
pub open spec fn first_segment(s: Seq<char>) -> Seq<char> {
    s.take(slash_index(s))
}

/// The identifier between the first separator and the next (or the end);
/// empty when there is no separator.
pub open spec fn second_segment(s: Seq<char>) -> Seq<char> {
    if slash_index(s) == s.len() {
        Seq::empty()
    } else {
        let rest = s.skip(slash_index(s) + 1);
        rest.take(slash_index(rest))
    }
}

pub proof fn lemma_slash_index_bounds(s: Seq<char>)
    ensures
        0 <= slash_index(s) <= s.len(),
        slash_index(s) < s.len() ==> s[slash_index(s)] == '/',
        forall|j: int| 0 <= j < slash_index(s) ==> s[j] != '/',
    decreases s.len(),
{
    if s.len() != 0 && s[0] != '/' {
        lemma_slash_index_bounds(s.drop_first());
        assert forall|j: int| 0 <= j < slash_index(s) implies s[j] != '/' by {
            if j > 0 {
                assert(s.drop_first()[j - 1] == s[j]);
            }
        }
    }
}

/// A position with no `/` before it that holds a `/` (or is the end) is
/// exactly `slash_index`.
pub proof fn lemma_slash_index_at(s: Seq<char>, k: int)
    requires
        0 <= k <= s.len(),
        forall|j: int| 0 <= j < k ==> s[j] != '/',
        k == s.len() || s[k] == '/',
    ensures
        slash_index(s) == k,
    decreases k,
{
    if s.len() == 0 {
    } else if k == 0 {
    } else {
        assert(s[0] != '/');
        assert(forall|j: int| 0 <= j < k - 1 ==> s.drop_first()[j] == s[j + 1] && s[j + 1] != '/');
        if k < s.len() {
            assert(s.drop_first()[k - 1] == s[k]);
        }
        lemma_slash_index_at(s.drop_first(), k - 1);
    }
}

pub proof fn lemma_strip_slashes_take_step(s: Seq<char>, i: int)
    requires
        0 <= i < s.len(),
    ensures
        strip_slashes(s.take(i + 1)) == if s[i] == '/' {
            strip_slashes(s.take(i))
        } else {
            strip_slashes(s.take(i)).push(s[i])
        },
{
    assert(s.take(i + 1).drop_last() =~= s.take(i));
    assert(s.take(i + 1).last() == s[i]);
}

/// The decimal digit character for `n < 10`.
pub open spec fn digit_char(n: nat) -> char {
    if n == 0 {
        '0'
    } else if n == 1 {
        '1'
    } else if n == 2 {
        '2'
    } else if n == 3 {
        '3'
    } else if n == 4 {
        '4'
    } else if n == 5 {
        '5'
    } else if n == 6 {
        '6'
    } else if n == 7 {
        '7'
    } else if n == 8 {
        '8'
    } else {
        '9'
    }
}

/// The decimal rendering of `n`, most significant digit first, no leading
/// zeros (except for `n == 0` itself).
pub open spec fn dec_seq(n: nat) -> Seq<char>
    decreases n,
{
    if n < 10 {
        seq![digit_char(n)]
    } else {
        dec_seq(n / 10) + seq![digit_char(n % 10)]
    }
}

/// Append the decimal rendering of `n` to `r`.
pub fn push_decimal(r: &mut String, n: u32)
    ensures
        final(r)@ == old(r)@ + dec_seq(n as nat),
    decreases n,
{
    if n >= 10 {
        push_decimal(r, n / 10);
    }
    let d = n % 10;
    let ds: &str = if d == 0 {
        "0"
    } else if d == 1 {
        "1"
    } else if d == 2 {
        "2"
    } else if d == 3 {
        "3"
    } else if d == 4 {
        "4"
    } else if d == 5 {
        "5"
    } else if d == 6 {
        "6"
    } else if d == 7 {
        "7"
    } else if d == 8 {
        "8"
    } else {
        "9"
    };
    proof {
        reveal_strlit("0");
        reveal_strlit("1");
        reveal_strlit("2");
        reveal_strlit("3");
        reveal_strlit("4");
        reveal_strlit("5");
        reveal_strlit("6");
        reveal_strlit("7");
        reveal_strlit("8");
        reveal_strlit("9");
    }
    assert(ds@ =~= seq![digit_char((n % 10) as nat)]);
    r.append(ds);
    proof {
        if n < 10 {
            assert(old(r)@ + dec_seq(n as nat) =~= old(r)@ + seq![digit_char(n as nat)]);
        } else {
            assert(old(r)@ + dec_seq(n as nat) =~= (old(r)@ + dec_seq((n / 10) as nat)) + seq![
                digit_char((n % 10) as nat),
            ]);
        }
    }
}

/// The decimal rendering of `n`, left-padded with `0` to two digits, as
/// clock and calendar displays write their fields.
pub open spec fn two_digits(n: nat) -> Seq<char> {
    if n < 10 {
        seq!['0'] + dec_seq(n)
    } else {
        dec_seq(n)
    }
}

/// The decimal rendering of `n` as a fresh string.
pub fn decimal_string(n: u32) -> (r: String)
    ensures
        r@ == dec_seq(n as nat),
{
    let mut r = String::new();
    push_decimal(&mut r, n);
    assert(r@ =~= dec_seq(n as nat));
    r
}

/// Whether two string slices hold the same characters.
pub fn str_eq(a: &str, b: &str) -> (r: bool)
    ensures
        r == (a@ == b@),
{
    let sa = String::from_str(a);
    let sb = String::from_str(b);
    sa == sb
}

} // verus!
