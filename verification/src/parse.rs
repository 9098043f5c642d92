//! Reading a learner's typed answer: trim surrounding whitespace, then
//! parse an optionally signed decimal integer, rejecting anything else and
//! anything outside the 32-bit range — the same acceptance rule the
//! standard integer parser follows.

use vstd::prelude::*;

verus! {

/// The Unicode white-space characters — the set the standard trim removes
/// from either end of a typed answer.
pub open spec fn is_space_char(c: char) -> bool {
    let u = c as u32;
    (0x09 <= u && u <= 0x0d) || u == 0x20 || u == 0x85 || u == 0xa0 || u == 0x1680 || (0x2000 <= u
        && u <= 0x200a) || u == 0x2028 || u == 0x2029 || u == 0x202f || u == 0x205f || u == 0x3000
}

/// A decimal digit.
pub open spec fn is_digit_char(c: char) -> bool {
    48 <= c as u32 <= 57
}

/// The value of a decimal digit character.
pub open spec fn digit_val(c: char) -> int {
    c as u32 - 48
}

/// Every character of `s` is a decimal digit.
pub open spec fn all_digits(s: Seq<char>) -> bool {
    forall|i: int| 0 <= i < s.len() ==> is_digit_char(#[trigger] s[i])
}

/// The value of a digit string, most significant digit first.
pub open spec fn digits_val(s: Seq<char>) -> int
    decreases s.len(),
{
    if s.len() == 0 {
        0
    } else {
        digits_val(s.drop_last()) * 10 + digit_val(s.last())
    }
}

/// `s` without its leading whitespace.
pub open spec fn trim_front(s: Seq<char>) -> Seq<char>
    decreases s.len(),
{
    if s.len() > 0 && is_space_char(s[0]) {
        trim_front(s.drop_first())
    } else {
        s
    }
}

/// `s` without its trailing whitespace.
pub open spec fn trim_back(s: Seq<char>) -> Seq<char>
    decreases s.len(),
{
    if s.len() > 0 && is_space_char(s.last()) {
        trim_back(s.drop_last())
    } else {
        s
    }
}

/// `s` without whitespace on either side.
pub open spec fn trim_spec(s: Seq<char>) -> Seq<char> {
    trim_back(trim_front(s))
}

/// What an optionally signed decimal numeral denotes: `None` unless the
/// text is a sign followed by at least one digit (or just digits), with a
/// value inside the 32-bit signed range.
pub open spec fn parse_i32_spec(s: Seq<char>) -> Option<int> {
    let neg = s.len() > 0 && s[0] == '-';
    let body = if s.len() > 0 && (s[0] == '-' || s[0] == '+') {
        s.drop_first()
    } else {
        s
    };
    if body.len() == 0 || !all_digits(body) {
        None
    } else {
        let v = if neg {
            -digits_val(body)
        } else {
            digits_val(body)
        };
        if -0x8000_0000 <= v <= 0x7fff_ffff {
            Some(v)
        } else {
            None
        }
    }
}

proof fn lemma_digits_val_nonneg(s: Seq<char>)
    requires
        all_digits(s),
    ensures
        digits_val(s) >= 0,
    decreases s.len(),
{
    if s.len() > 0 {
        assert forall|i: int| 0 <= i < s.drop_last().len() implies is_digit_char(
            #[trigger] s.drop_last()[i],
        ) by {
            assert(s.drop_last()[i] == s[i]);
        }
        lemma_digits_val_nonneg(s.drop_last());
    }
}

proof fn lemma_trim_front_at(s: Seq<char>, i: int)
    requires
        0 <= i <= s.len(),
        forall|k: int| 0 <= k < i ==> is_space_char(#[trigger] s[k]),
        i < s.len() ==> !is_space_char(s[i]),
    ensures
        trim_front(s) == s.subrange(i, s.len() as int),
    decreases i,
{
    if i == 0 {
        assert(s =~= s.subrange(0, s.len() as int));
    } else {
        let t = s.drop_first();
        assert forall|k: int| 0 <= k < i - 1 implies is_space_char(#[trigger] t[k]) by {
            assert(t[k] == s[k + 1]);
        }
        assert(i - 1 < t.len() ==> t[i - 1] == s[i]);
        lemma_trim_front_at(t, i - 1);
        assert(t.subrange(i - 1, t.len() as int) =~= s.subrange(i, s.len() as int));
    }
}

proof fn lemma_trim_back_at(s: Seq<char>, j: int)
    requires
        0 <= j <= s.len(),
        forall|k: int| j <= k < s.len() ==> is_space_char(#[trigger] s[k]),
        j > 0 ==> !is_space_char(s[j - 1]),
    ensures
        trim_back(s) == s.subrange(0, j),
    decreases s.len(),
{
    if s.len() > j {
        let t = s.drop_last();
        lemma_trim_back_at(t, j);
        assert(t.subrange(0, j) =~= s.subrange(0, j));
    } else {
        assert(s =~= s.subrange(0, j));
    }
}

fn is_space(c: char) -> (b: bool)
    ensures
        b == is_space_char(c),
{
    let u = c as u32;
    (0x09 <= u && u <= 0x0d) || u == 0x20 || u == 0x85 || u == 0xa0 || u == 0x1680 || (0x2000 <= u
        && u <= 0x200a) || u == 0x2028 || u == 0x2029 || u == 0x202f || u == 0x205f || u == 0x3000
}

/// Trim `s` and parse it as a 32-bit integer; `None` exactly when the
/// trimmed text is not a well-formed numeral in range.
#[verifier::loop_isolation(false)]
pub fn parse_i32_text(s: &str) -> (r: Option<i32>)
    ensures
        match r {
            Some(v) => parse_i32_spec(trim_spec(s@)) == Some(v as int),
            None => parse_i32_spec(trim_spec(s@)) is None,
        },
{
    let n = s.unicode_len();
    let mut lo: usize = 0;
    while lo < n && is_space(s.get_char(lo))
        invariant
            0 <= lo <= n,
            n == s@.len(),
            forall|k: int| 0 <= k < lo ==> is_space_char(#[trigger] s@[k]),
        decreases n - lo,
    {
        lo = lo + 1;
    }
    let mut hi: usize = n;
    while hi > lo && is_space(s.get_char(hi - 1))
        invariant
            lo <= hi <= n,
            n == s@.len(),
            forall|k: int| hi <= k < n ==> is_space_char(#[trigger] s@[k]),
        decreases hi,
    {
        hi = hi - 1;
    }
    let ghost t = s@.subrange(lo as int, hi as int);
    proof {
        lemma_trim_front_at(s@, lo as int);
        let u = s@.subrange(lo as int, s@.len() as int);
        assert forall|k: int| hi - lo <= k < u.len() implies is_space_char(#[trigger] u[k]) by {
            assert(u[k] == s@[lo + k]);
        }
        assert(hi - lo > 0 ==> u[hi - lo - 1] == s@[hi - 1]);
        lemma_trim_back_at(u, hi as int - lo as int);
        assert(u.subrange(0, hi as int - lo as int) =~= t);
        assert(trim_spec(s@) == t);
    }
    // Optional sign.
    let mut neg = false;
    let mut ds = lo;
    if lo < hi {
        let c = s.get_char(lo);
        if c == '-' {
            neg = true;
            ds = lo + 1;
        } else if c == '+' {
            ds = lo + 1;
        }
    }
    let ghost body = s@.subrange(ds as int, hi as int);
    proof {
        if ds > lo {
            assert(t.drop_first() =~= body);
        } else {
            assert(t =~= body);
        }
        assert(neg == (t.len() > 0 && t[0] == '-'));
    }
    if ds == hi {
        // Nothing but (at most) a sign.
        return None;
    }
    // Digits, with an overflow watermark one past the largest magnitude
    // that any in-range value can have.
    let mut i = ds;
    let mut acc: u64 = 0;
    let mut too_big = false;
    while i < hi
        invariant
            ds <= i <= hi <= n,
            n == s@.len(),
            body == s@.subrange(ds as int, hi as int),
            forall|k: int| ds <= k < i ==> is_digit_char(#[trigger] s@[k]),
            !too_big ==> acc == digits_val(s@.subrange(ds as int, i as int)) && acc
                <= 0x8000_0000,
            too_big ==> digits_val(s@.subrange(ds as int, i as int)) > 0x8000_0000,
        decreases hi - i,
    {
        let c = s.get_char(i);
        let u = c as u32;
        if u < 48 || u > 57 {
            proof {
                assert(body[i - ds] == s@[i as int]);
                assert(!all_digits(body));
            }
            return None;
        }
        let d = (u - 48) as u64;
        proof {
            let pre = s@.subrange(ds as int, i as int);
            let post = s@.subrange(ds as int, i as int + 1);
            assert(post.drop_last() =~= pre);
            assert(post.last() == s@[i as int]);
            if too_big {
                assert(digits_val(post) == digits_val(pre) * 10 + digit_val(s@[i as int]));
            }
        }
        if too_big {
        } else {
            let next = acc * 10 + d;
            if next > 0x8000_0000 {
                too_big = true;
            } else {
                acc = next;
            }
        }
        i = i + 1;
    }
    proof {
        assert(body =~= s@.subrange(ds as int, i as int));
        assert forall|k: int| 0 <= k < body.len() implies is_digit_char(#[trigger] body[k]) by {
            assert(body[k] == s@[ds + k]);
        }
        assert(all_digits(body));
        lemma_digits_val_nonneg(body);
    }
    if too_big {
        return None;
    }
    if neg {
        let v = -(acc as i64);
        proof {
            assert(parse_i32_spec(t) == Some(-(acc as int)));
        }
        Some(v as i32)
    } else {
        if acc > 0x7fff_ffff {
            return None;
        }
        proof {
            assert(parse_i32_spec(t) == Some(acc as int));
        }
        Some(acc as i32)
    }
}

} // verus!
