//! Small helpers on text that the rest of the crate shares.

use vstd::prelude::*;
use vstd::string::{StrSliceExecFns, StringExecFns};

verus! {

/// `s` with every run of slashes shortened to a single slash.
pub open spec fn squeeze(s: Seq<char>) -> Seq<char>
    decreases s.len(),
{
    if s.len() == 0 {
        s
    } else if s.len() >= 2 && s[0] == '/' && s[1] == '/' {
        squeeze(s.skip(1))
    } else {
        seq![s[0]] + squeeze(s.skip(1))
    }
}

/// The place of the first colon of `s`, or the length of `s` if it has none.
pub open spec fn first_colon(s: Seq<char>) -> int
    decreases s.len(),
{
    if s.len() == 0 || s[0] == ':' {
        0
    } else {
        1 + first_colon(s.skip(1))
    }
}

/// The character of a decimal digit.
pub open spec fn digit_char(d: nat) -> char {
    if d == 0 {
        '0'
    } else if d == 1 {
        '1'
    } else if d == 2 {
        '2'
    } else if d == 3 {
        '3'
    } else if d == 4 {
        '4'
    } else if d == 5 {
        '5'
    } else if d == 6 {
        '6'
    } else if d == 7 {
        '7'
    } else if d == 8 {
        '8'
    } else {
        '9'
    }
}

/// A number in decimal: its digits from the highest down, with no leading
/// zero but for zero itself.
pub open spec fn decimal_text(n: nat) -> Seq<char>
    decreases n,
{
    if n < 10 {
        seq![digit_char(n)]
    } else {
        decimal_text(n / 10).push(digit_char(n % 10))
    }
}

/// Trusted: `str`'s `==`. The standard library compares two string slices
/// byte by byte, so the result says whether they hold the same characters.
#[verifier::external_body]
pub(crate) fn str_eq(a: &str, b: &str) -> (r: bool)
    ensures
        r == (a@ == b@),
{
    a == b
}

/// A squeezed text begins as the text does, and holds no two slashes in a
/// row.
pub proof fn lemma_squeeze_leaves_no_run(s: Seq<char>)
    ensures
        s.len() > 0 ==> squeeze(s).len() > 0 && squeeze(s)[0] == s[0],
        forall|i: int|
            0 <= i && i + 1 < squeeze(s).len() ==> !(#[trigger] squeeze(s)[i] == '/' && squeeze(s)[i + 1] == '/'),
    decreases s.len(),
{
    if s.len() > 0 {
        let t = s.skip(1);
        lemma_squeeze_leaves_no_run(t);
        if s.len() >= 2 && s[0] == '/' && s[1] == '/' {
            assert(t[0] == s[1]);
        } else {
            let sq = squeeze(s);
            assert(sq =~= seq![s[0]] + squeeze(t));
            assert forall|i: int| 0 <= i && i + 1 < sq.len() implies !(#[trigger] sq[i] == '/' && sq[i + 1]
                == '/') by {
                if i == 0 {
                    if t.len() > 0 {
                        assert(sq[1] == squeeze(t)[0]);
                        assert(t[0] == s[1]);
                    }
                } else {
                    assert(sq[i] == squeeze(t)[i - 1]);
                    assert(sq[i + 1] == squeeze(t)[i]);
                }
            }
        }
    }
}

/// A text without two slashes in a row is left as it is.
pub proof fn lemma_squeeze_keeps_plain_text(s: Seq<char>)
    requires
        forall|i: int| 0 <= i && i + 1 < s.len() ==> !(#[trigger] s[i] == '/' && s[i + 1] == '/'),
    ensures
        squeeze(s) == s,
    decreases s.len(),
{
    if s.len() > 0 {
        let t = s.skip(1);
        assert forall|i: int| 0 <= i && i + 1 < t.len() implies !(#[trigger] t[i] == '/' && t[i + 1] == '/') by {
            assert(t[i] == s[i + 1]);
            assert(t[i + 1] == s[i + 2]);
        }
        lemma_squeeze_keeps_plain_text(t);
        let first: int = 0;
        assert(s.len() < 2 || !(s[first] == '/' && s[first + 1] == '/'));
        assert(seq![s[0]] + t =~= s);
    }
}

/// A slash put beside a slash changes nothing in the squeezed text.
pub proof fn lemma_squeeze_absorbs_slash(x: Seq<char>, y: Seq<char>)
    ensures
        squeeze(x + seq!['/', '/'] + y) == squeeze(x + seq!['/'] + y),
    decreases x.len(),
{
    let two = x + seq!['/', '/'] + y;
    let one = x + seq!['/'] + y;
    if x.len() == 0 {
        assert(two.skip(1) =~= one);
    } else {
        let t = x.skip(1);
        lemma_squeeze_absorbs_slash(t, y);
        assert(two.skip(1) =~= t + seq!['/', '/'] + y);
        assert(one.skip(1) =~= t + seq!['/'] + y);
        assert(two[0] == one[0]);
        assert(two[1] == one[1]);
    }
}

/// Shortens every run of slashes to a single slash.
pub fn squeezed(s: &str) -> (r: String)
    ensures
        r@ == squeeze(s@),
{
    let n = s.unicode_len();
    let mut out = String::new();
    let mut i: usize = 0;
    assert(s@.skip(0) =~= s@);
    assert(out@ + squeeze(s@) =~= squeeze(s@));
    while i < n
        invariant
            i <= n,
            n == s@.len(),
            out@ + squeeze(s@.skip(i as int)) == squeeze(s@),
        decreases n - i,
    {
        let ghost rest = s@.skip(i as int);
        let ghost before = out@;
        let c = s.get_char(i);
        let doubled = c == '/' && n - i >= 2 && s.get_char(i + 1) == '/';
        proof {
            assert(rest[0] == s@[i as int]);
            assert(rest.skip(1) =~= s@.skip(i + 1));
            if rest.len() >= 2 {
                assert(rest[1] == s@[i + 1]);
            }
        }
        if !doubled {
            out.append(s.substring_char(i, i + 1));
            proof {
                assert(s@.subrange(i as int, i + 1) =~= seq![c]);
                assert(out@ + squeeze(rest.skip(1)) =~= before + (seq![c] + squeeze(rest.skip(1))));
            }
        }
        i += 1;
    }
    assert(out@ + squeeze(s@.skip(i as int)) =~= out@);
    out
}

/// One decimal digit as text.
fn digit_text(d: usize) -> (r: &'static str)
    requires
        d < 10,
    ensures
        r@ == seq![digit_char(d as nat)],
{
    proof {
        reveal_strlit("0");
        reveal_strlit("1");
        reveal_strlit("2");
        reveal_strlit("3");
        reveal_strlit("4");
        reveal_strlit("5");
        reveal_strlit("6");
        reveal_strlit("7");
        reveal_strlit("8");
        reveal_strlit("9");
    }
    let r = if d == 0 {
        "0"
    } else if d == 1 {
        "1"
    } else if d == 2 {
        "2"
    } else if d == 3 {
        "3"
    } else if d == 4 {
        "4"
    } else if d == 5 {
        "5"
    } else if d == 6 {
        "6"
    } else if d == 7 {
        "7"
    } else if d == 8 {
        "8"
    } else {
        "9"
    };
    assert(r@ =~= seq![digit_char(d as nat)]);
    r
}

/// Writes a number in decimal.
pub fn decimal(n: usize) -> (r: String)
    ensures
        r@ == decimal_text(n as nat),
    decreases n,
{
    if n < 10 {
        digit_text(n).to_owned()
    } else {
        let mut text = decimal(n / 10);
        text.append(digit_text(n % 10));
        assert(text@ =~= decimal_text((n / 10) as nat).push(digit_char((n % 10) as nat)));
        text
    }
}

} // verus!
