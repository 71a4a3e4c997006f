//! Text helpers: decimal rendering of integers and whitespace trimming.

use vstd::prelude::*;
use vstd::string::*;

verus! {

/// The decimal digit `d` (for `0 <= d < 10`) as a character.
pub open spec fn digit_char(d: int) -> char {
    if d == 0 {
        '0'
    } else if d == 1 {
        '1'
    } else if d == 2 {
        '2'
    } else if d == 3 {
        '3'
    } else if d == 4 {
        '4'
    } else if d == 5 {
        '5'
    } else if d == 6 {
        '6'
    } else if d == 7 {
        '7'
    } else if d == 8 {
        '8'
    } else {
        '9'
    }
}

/// The decimal notation of `n`, without sign or leading zeros.
pub open spec fn decimal(n: nat) -> Seq<char>
    decreases n,
{
    if n < 10 {
        seq![digit_char(n as int)]
    } else {
        decimal(n / 10).push(digit_char((n % 10) as int))
    }
}

/// `String::push` of std: appends one character.
#[verifier::external_body]
pub fn push_char(s: &mut String, c: char)
    ensures
        final(s)@ == old(s)@.push(c),
{
    s.push(c);
}

fn digit(d: u128) -> (c: char)
    requires
        d < 10,
    ensures
        c == digit_char(d as int),
{
    if d == 0 {
        '0'
    } else if d == 1 {
        '1'
    } else if d == 2 {
        '2'
    } else if d == 3 {
        '3'
    } else if d == 4 {
        '4'
    } else if d == 5 {
        '5'
    } else if d == 6 {
        '6'
    } else if d == 7 {
        '7'
    } else if d == 8 {
        '8'
    } else {
        '9'
    }
}

/// Appends the decimal notation of `n` to `out`.
pub fn write_decimal(out: &mut String, n: u128)
    ensures
        final(out)@ == old(out)@ + decimal(n as nat),
    decreases n,
{
    if n >= 10 {
        write_decimal(out, n / 10);
    }
    push_char(out, digit(n % 10));
    proof {
        if n < 10 {
            assert(old(out)@ + decimal(n as nat) =~= old(out)@.push(digit_char(n as int)));
        } else {
            assert(old(out)@ + decimal(n as nat) =~= (old(out)@ + decimal((n / 10) as nat)).push(
                digit_char((n % 10) as int),
            ));
        }
    }
}

/// Whether `c` has the Unicode `White_Space` property, the property that
/// `char::is_whitespace` of std tests: the code points U+0009 to U+000D,
/// U+0020, U+0085, U+00A0, U+1680, U+2000 to U+200A, U+2028, U+2029,
/// U+202F, U+205F and U+3000.
pub open spec fn is_whitespace(c: char) -> bool {
    let n = c as u32;
    ||| 0x9 <= n <= 0xd
    ||| n == 0x20
    ||| n == 0x85
    ||| n == 0xa0
    ||| n == 0x1680
    ||| 0x2000 <= n <= 0x200a
    ||| n == 0x2028
    ||| n == 0x2029
    ||| n == 0x202f
    ||| n == 0x205f
    ||| n == 0x3000
}

/// Whether `c` has the Unicode `White_Space` property.
pub fn char_is_whitespace(c: char) -> (b: bool)
    ensures
        b == is_whitespace(c),
{
    let n = c as u32;
    (0x9 <= n && n <= 0xd) || n == 0x20 || n == 0x85 || n == 0xa0 || n == 0x1680 || (0x2000 <= n
        && n <= 0x200a) || n == 0x2028 || n == 0x2029 || n == 0x202f || n == 0x205f || n == 0x3000
}

/// `t` is `s` without its leading and trailing whitespace.
pub open spec fn is_trim_of(t: Seq<char>, s: Seq<char>) -> bool {
    exists|a: int, b: int|
        {
            &&& 0 <= a <= b <= s.len()
            &&& t == s.subrange(a, b)
            &&& forall|k: int| 0 <= k < a ==> is_whitespace(#[trigger] s[k])
            &&& forall|k: int| b <= k < s.len() ==> is_whitespace(#[trigger] s[k])
            &&& a < b ==> !is_whitespace(s[a]) && !is_whitespace(s[b - 1])
        }
}

/// Trimming has one result: a sequence is the trim of `s` in one way only.
pub proof fn lemma_trim_unique(s: Seq<char>, t1: Seq<char>, t2: Seq<char>)
    requires
        is_trim_of(t1, s),
        is_trim_of(t2, s),
    ensures
        t1 == t2,
{
    let (a1, b1) = choose|a: int, b: int|
        {
            &&& 0 <= a <= b <= s.len()
            &&& t1 == s.subrange(a, b)
            &&& forall|k: int| 0 <= k < a ==> is_whitespace(#[trigger] s[k])
            &&& forall|k: int| b <= k < s.len() ==> is_whitespace(#[trigger] s[k])
            &&& a < b ==> !is_whitespace(s[a]) && !is_whitespace(s[b - 1])
        };
    let (a2, b2) = choose|a: int, b: int|
        {
            &&& 0 <= a <= b <= s.len()
            &&& t2 == s.subrange(a, b)
            &&& forall|k: int| 0 <= k < a ==> is_whitespace(#[trigger] s[k])
            &&& forall|k: int| b <= k < s.len() ==> is_whitespace(#[trigger] s[k])
            &&& a < b ==> !is_whitespace(s[a]) && !is_whitespace(s[b - 1])
        };
    if a1 < b1 && a2 < b2 {
        if a1 < a2 {
            assert(is_whitespace(s[a1]));
        }
        if a2 < a1 {
            assert(is_whitespace(s[a2]));
        }
        if b1 < b2 {
            assert(is_whitespace(s[b2 - 1]));
        }
        if b2 < b1 {
            assert(is_whitespace(s[b1 - 1]));
        }
        assert(a1 == a2 && b1 == b2);
    } else if a1 < b1 {
        // The second trim is empty, so every character is whitespace.
        if a1 < a2 {
            assert(is_whitespace(s[a1]));
        } else {
            assert(b2 <= a1);
            assert(is_whitespace(s[a1]));
        }
    } else if a2 < b2 {
        if a2 < a1 {
            assert(is_whitespace(s[a2]));
        } else {
            assert(b1 <= a2);
            assert(is_whitespace(s[a2]));
        }
    } else {
        assert(t1 =~= t2);
    }
}

/// Trimming a trimmed sequence leaves it as it is.
pub proof fn lemma_trim_of_trimmed(s: Seq<char>, t: Seq<char>)
    requires
        is_trim_of(t, s),
    ensures
        is_trim_of(t, t),
{
    let (a, b) = choose|a: int, b: int|
        {
            &&& 0 <= a <= b <= s.len()
            &&& t == s.subrange(a, b)
            &&& forall|k: int| 0 <= k < a ==> is_whitespace(#[trigger] s[k])
            &&& forall|k: int| b <= k < s.len() ==> is_whitespace(#[trigger] s[k])
            &&& a < b ==> !is_whitespace(s[a]) && !is_whitespace(s[b - 1])
        };
    assert(t == t.subrange(0, t.len() as int));
    if a < b {
        assert(t[0] == s[a]);
        assert(t[t.len() - 1] == s[b - 1]);
    }
}

/// Copies `s` without its leading and trailing whitespace.
pub fn trim(s: &str) -> (t: String)
    ensures
        is_trim_of(t@, s@),
{
    let len = s.unicode_len();
    let mut a: usize = 0;
    while a < len && char_is_whitespace(s.get_char(a))
        invariant
            len == s@.len(),
            a <= len,
            forall|k: int| 0 <= k < a ==> is_whitespace(#[trigger] s@[k]),
        decreases len - a,
    {
        a = a + 1;
    }
    let mut b: usize = len;
    while b > a && char_is_whitespace(s.get_char(b - 1))
        invariant
            len == s@.len(),
            a <= b <= len,
            forall|k: int| b <= k < len ==> is_whitespace(#[trigger] s@[k]),
            a < len ==> !is_whitespace(s@[a as int]),
        decreases b - a,
    {
        b = b - 1;
    }
    let part = s.substring_char(a, b);
    let mut t = String::new();
    t.append(part);
    proof {
        assert(t@ =~= s@.subrange(a as int, b as int));
    }
    t
}

} // verus!
