//! Verified string helpers: stripping the ASCII whitespace that pipe
//! captures carry at their edges, testing captured text for blankness,
//! and rendering integers in decimal for diagnostic messages.

use vstd::prelude::*;
use vstd::string::StrSliceExecFns;
use vstd::string::StringExecFns;

verus! {

/// The whitespace characters this library strips from captured text.
pub open spec fn is_ws(c: char) -> bool {
    c == ' ' || c == '\t' || c == '\n' || c == '\r' || c == '\u{b}' || c == '\u{c}'
}

/// Every character of `s` is whitespace.
pub open spec fn all_ws(s: Seq<char>) -> bool {
    forall|i: int| 0 <= i < s.len() ==> is_ws(#[trigger] s[i])
}

/// Number of leading whitespace characters of `s`.
pub open spec fn ws_prefix(s: Seq<char>) -> int
    decreases s.len(),
{
    if s.len() == 0 {
        0
    } else if !is_ws(s[0]) {
        0
    } else {
        1 + ws_prefix(s.drop_first())
    }
}

/// Number of trailing whitespace characters of `s`.
pub open spec fn ws_suffix(s: Seq<char>) -> int
    decreases s.len(),
{
    if s.len() == 0 {
        0
    } else if !is_ws(s[s.len() - 1]) {
        0
    } else {
        1 + ws_suffix(s.drop_last())
    }
}

/// `s` without its leading and trailing whitespace.
pub open spec fn spec_trim(s: Seq<char>) -> Seq<char> {
    if all_ws(s) {
        Seq::empty()
    } else {
        s.subrange(ws_prefix(s), s.len() - ws_suffix(s))
    }
}

proof fn lemma_ws_prefix(s: Seq<char>)
    ensures
        0 <= ws_prefix(s) <= s.len(),
        forall|k: int| 0 <= k < ws_prefix(s) ==> is_ws(#[trigger] s[k]),
        ws_prefix(s) < s.len() ==> !is_ws(s[ws_prefix(s)]),
    decreases s.len(),
{
    if s.len() == 0 {
    } else if !is_ws(s[0]) {
    } else {
        lemma_ws_prefix(s.drop_first());
        assert forall|k: int| 0 <= k < ws_prefix(s) implies is_ws(#[trigger] s[k]) by {
            if k > 0 {
                assert(s.drop_first()[k - 1] == s[k]);
            }
        }
        if ws_prefix(s) < s.len() {
            assert(s.drop_first()[ws_prefix(s) - 1] == s[ws_prefix(s)]);
        }
    }
}

proof fn lemma_ws_suffix(s: Seq<char>)
    ensures
        0 <= ws_suffix(s) <= s.len(),
        forall|k: int| s.len() - ws_suffix(s) <= k < s.len() ==> is_ws(#[trigger] s[k]),
        ws_suffix(s) < s.len() ==> !is_ws(s[s.len() - ws_suffix(s) - 1]),
    decreases s.len(),
{
    if s.len() == 0 {
    } else if !is_ws(s[s.len() - 1]) {
    } else {
        lemma_ws_suffix(s.drop_last());
        assert forall|k: int| s.len() - ws_suffix(s) <= k < s.len() implies is_ws(
            #[trigger] s[k],
        ) by {
            if k < s.len() - 1 {
                assert(s.drop_last()[k] == s[k]);
            }
        }
        if ws_suffix(s) < s.len() {
            assert(s.drop_last()[s.len() - ws_suffix(s) - 1] == s[s.len() - ws_suffix(s) - 1]);
        }
    }
}

/// Whether `c` is one of the whitespace characters of `is_ws`.
pub fn is_ws_char(c: char) -> (r: bool)
    ensures
        r == is_ws(c),
{
    c == ' ' || c == '\t' || c == '\n' || c == '\r' || c == '\u{b}' || c == '\u{c}'
}

/// Whether `s` holds nothing but whitespace (so trimming it leaves
/// nothing).
pub fn is_blank(s: &str) -> (r: bool)
    ensures
        r == all_ws(s@),
{
    let n = s.unicode_len();
    let mut i: usize = 0;
    while i < n
        invariant
            n == s@.len(),
            0 <= i <= n,
            forall|k: int| 0 <= k < i ==> is_ws(#[trigger] s@[k]),
        decreases n - i,
    {
        if !is_ws_char(s.get_char(i)) {
            return false;
        }
        i += 1;
    }
    true
}

/// `s` with leading and trailing whitespace removed.
pub fn trim_ws(s: &str) -> (r: String)
    ensures
        r@ == spec_trim(s@),
{
    let n = s.unicode_len();
    let mut i: usize = 0;
    while i < n && is_ws_char(s.get_char(i))
        invariant
            n == s@.len(),
            0 <= i <= n,
            forall|k: int| 0 <= k < i ==> is_ws(#[trigger] s@[k]),
        decreases n - i,
    {
        i += 1;
    }
    let mut j: usize = n;
    while j > i && is_ws_char(s.get_char(j - 1))
        invariant
            n == s@.len(),
            i <= j <= n,
            forall|k: int| j <= k < n ==> is_ws(#[trigger] s@[k]),
        decreases j,
    {
        j -= 1;
    }
    proof {
        lemma_ws_prefix(s@);
        lemma_ws_suffix(s@);
        if i == j {
            assert(all_ws(s@));
            assert(spec_trim(s@) == Seq::<char>::empty());
        } else {
            assert(!is_ws(s@[i as int]));
            assert(!all_ws(s@));
            // The scan from the front stopped exactly at the whitespace
            // prefix, and the scan from the back at the whitespace suffix.
            assert(i as int == ws_prefix(s@));
            assert(!is_ws(s@[j - 1]));
            assert(n - j == ws_suffix(s@)) by {
                if (n - j) as int > ws_suffix(s@) {
                    assert(is_ws(s@[n - ws_suffix(s@) - 1]));
                } else if ((n - j) as int) < ws_suffix(s@) {
                    assert(is_ws(s@[j - 1]));
                }
            }
        }
    }
    let t = s.substring_char(i, j);
    t.to_owned()
}

/// The decimal digit character for `d`.
pub open spec fn dec_digit(d: int) -> char {
    if d == 0 {
        '0'
    } else if d == 1 {
        '1'
    } else if d == 2 {
        '2'
    } else if d == 3 {
        '3'
    } else if d == 4 {
        '4'
    } else if d == 5 {
        '5'
    } else if d == 6 {
        '6'
    } else if d == 7 {
        '7'
    } else if d == 8 {
        '8'
    } else {
        '9'
    }
}

/// The decimal rendering of the non-negative integer `n`.
pub open spec fn spec_dec(n: int) -> Seq<char>
    decreases n,
{
    if n < 10 {
        seq![dec_digit(n)]
    } else {
        spec_dec(n / 10).push(dec_digit(n % 10))
    }
}

/// The decimal rendering of the integer `n`, with a leading minus sign
/// when it is negative.
pub open spec fn spec_dec_signed(n: int) -> Seq<char> {
    if n < 0 {
        seq!['-'].add(spec_dec(-n))
    } else {
        spec_dec(n)
    }
}

fn digit_str(d: u64) -> (r: &'static str)
    requires
        d < 10,
    ensures
        r@ == seq![dec_digit(d as int)],
{
    proof {
        reveal_strlit("0");
        reveal_strlit("1");
        reveal_strlit("2");
        reveal_strlit("3");
        reveal_strlit("4");
        reveal_strlit("5");
        reveal_strlit("6");
        reveal_strlit("7");
        reveal_strlit("8");
        reveal_strlit("9");
    }
    let r = match d {
        0 => "0",
        1 => "1",
        2 => "2",
        3 => "3",
        4 => "4",
        5 => "5",
        6 => "6",
        7 => "7",
        8 => "8",
        _ => "9",
    };
    proof {
        assert(r@ =~= seq![dec_digit(d as int)]);
    }
    r
}

/// Renders `n` in decimal.
pub fn fmt_u64(n: u64) -> (r: String)
    ensures
        r@ == spec_dec(n as int),
    decreases n,
{
    if n < 10 {
        let d = digit_str(n);
        d.to_owned()
    } else {
        let high = fmt_u64(n / 10);
        let low = digit_str(n % 10);
        let r = high.concat(low);
        proof {
            assert(r@ =~= spec_dec(n as int));
        }
        r
    }
}

/// Renders `n` in decimal, with a minus sign when it is negative.
pub fn fmt_i64(n: i64) -> (r: String)
    ensures
        r@ == spec_dec_signed(n as int),
{
    if n < 0 {
        let neg: i128 = -(n as i128);
        assert(0 < neg <= u64::MAX);
        let m: u64 = neg as u64;
        let digits = fmt_u64(m);
        let minus: &str = "-";
        proof {
            reveal_strlit("-");
            assert(minus@ =~= seq!['-']);
        }
        let r = minus.to_owned().concat(digits.as_str());
        proof {
            assert(r@ =~= spec_dec_signed(n as int));
        }
        r
    } else {
        fmt_u64(n as u64)
    }
}

} // verus!
