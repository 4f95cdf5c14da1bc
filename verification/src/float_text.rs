//! Decimal float-literal text.
//!
//! The language stores a float literal as its decimal source text and
//! emits that text unchanged, so the only question about a literal is
//! whether its text is a decimal number at all: an optional sign, one or
//! more digits, and optionally a dot followed by one or more digits.

use vstd::prelude::*;

verus! {

pub open spec fn is_digit(c: char) -> bool {
    '0' as u32 <= c as u32 && c as u32 <= '9' as u32
}

pub open spec fn all_digits(s: Seq<char>) -> bool {
    forall|i: int| 0 <= i < s.len() ==> is_digit(#[trigger] s[i])
}

/// One or more digits, optionally followed by a dot and one or more
/// digits.
pub open spec fn unsigned_float_text(s: Seq<char>) -> bool {
    ||| s.len() > 0 && all_digits(s)
    ||| exists|k: int|
        1 <= k && k + 1 < s.len() && s[k] == '.' && all_digits(#[trigger] s.take(k)) && all_digits(
            s.skip(k + 1),
        )
}

/// Text that the translator accepts as a float literal: an optional
/// leading sign before an unsigned decimal number.
pub open spec fn is_float_literal(s: Seq<char>) -> bool {
    if s.len() > 0 && (s[0] == '-' || s[0] == '+') {
        unsigned_float_text(s.skip(1))
    } else {
        unsigned_float_text(s)
    }
}

/// Scans `s` from `from` and returns the position of the first character
/// that is not a decimal digit, or the length if all the rest are digits.
fn scan_digits(s: &str, from: usize, n: usize) -> (j: usize)
    requires
        n == s@.len(),
        from <= n,
    ensures
        from <= j <= n,
        forall|k: int| from <= k < j ==> is_digit(#[trigger] s@[k]),
        j < n ==> !is_digit(s@[j as int]),
{
    let mut j = from;
    while j < n
        invariant
            n == s@.len(),
            from <= j <= n,
            forall|k: int| from <= k < j ==> is_digit(#[trigger] s@[k]),
        decreases n - j,
    {
        let c = s.get_char(j);
        if !(('0' as u32) <= (c as u32) && (c as u32) <= ('9' as u32)) {
            return j;
        }
        j = j + 1;
    }
    j
}

/// Runtime check for [`is_float_literal`].
pub fn check_float_literal(s: &str) -> (b: bool)
    ensures
        b == is_float_literal(s@),
{
    let n = s.unicode_len();
    if n == 0 {
        return false;
    }
    let c0 = s.get_char(0);
    let off: usize = if c0 == '-' || c0 == '+' {
        1
    } else {
        0
    };
    let ghost body = s@.skip(off as int);
    proof {
        assert(s@.skip(0) =~= s@);
    }
    assert(is_float_literal(s@) == unsigned_float_text(body));
    assert(forall|x: int| 0 <= x < body.len() ==> body[x] == s@[x + off]);

    // Integer part: at least one digit.
    let j = scan_digits(s, off, n);
    if j == off {
        // No leading digit: neither form of an unsigned number can hold.
        proof {
            if off < n && body.len() > 0 {
                assert(body[0] == s@[off as int]);
            }
            if unsigned_float_text(body) {
                if body.len() > 0 && all_digits(body) {
                    assert(is_digit(body[0]));
                } else {
                    let k = choose|k: int|
                        1 <= k && k + 1 < body.len() && body[k] == '.' && all_digits(
                            #[trigger] body.take(k),
                        ) && all_digits(body.skip(k + 1));
                    assert(body.take(k)[0] == body[0]);
                    assert(is_digit(body[0]));
                }
            }
        }
        return false;
    }
    if j == n {
        // Digits to the end.
        proof {
            assert forall|i: int| 0 <= i < body.len() implies is_digit(#[trigger] body[i]) by {
                assert(body[i] == s@[i + off]);
            }
        }
        return true;
    }
    // s@[j] is not a digit; a dot may start a fractional part.
    let cj = s.get_char(j);
    if !(cj == '.') {
        proof {
            lemma_not_unsigned_with_bad_char(body, s@, off as int, j as int);
        }
        return false;
    }
    if j + 1 == n {
        // A trailing dot with no digits after it.
        proof {
            assert(!all_digits(body)) by {
                assert(body[j - off] == s@[j as int]);
            }
            if unsigned_float_text(body) {
                let k = choose|k: int|
                    1 <= k && k + 1 < body.len() && body[k] == '.' && all_digits(
                        #[trigger] body.take(k),
                    ) && all_digits(body.skip(k + 1));
                if k < j - off {
                    assert(is_digit(s@[k + off]));
                } else if k > j - off {
                    assert(body.take(k)[j - off] == body[j - off]);
                    assert(is_digit(body[j - off]));
                }
            }
        }
        return false;
    }
    // Fractional part: digits, and nothing but digits, to the end.
    let m = scan_digits(s, j + 1, n);
    if m < n {
        proof {
            assert(!is_digit(s@[m as int]));
            assert(!all_digits(body)) by {
                assert(body[j - off] == s@[j as int]);
            }
            if unsigned_float_text(body) {
                let k = choose|k: int|
                    1 <= k && k + 1 < body.len() && body[k] == '.' && all_digits(
                        #[trigger] body.take(k),
                    ) && all_digits(body.skip(k + 1));
                if k < j - off {
                    assert(is_digit(s@[k + off]));
                } else if k > j - off {
                    assert(body.take(k)[j - off] == body[j - off]);
                    assert(is_digit(body[j - off]));
                } else {
                    assert(body.skip(k + 1)[m - off - k - 1] == body[m - off]);
                    assert(is_digit(body[m - off]));
                    assert(body[m - off] == s@[m as int]);
                }
            }
        }
        return false;
    }
    if m == j + 1 {
        // A dot with no digit directly after it.
        proof {
            assert(!is_digit(s@[j + 1]));
            assert(!all_digits(body)) by {
                assert(body[j - off] == s@[j as int]);
            }
            if unsigned_float_text(body) {
                let k = choose|k: int|
                    1 <= k && k + 1 < body.len() && body[k] == '.' && all_digits(
                        #[trigger] body.take(k),
                    ) && all_digits(body.skip(k + 1));
                if k < j - off {
                    assert(is_digit(s@[k + off]));
                } else if k > j - off {
                    assert(body.take(k)[j - off] == body[j - off]);
                    assert(is_digit(body[j - off]));
                } else {
                    assert(body.skip(k + 1)[0] == body[k + 1]);
                    assert(is_digit(body[j + 1 - off]));
                    assert(body[j + 1 - off] == s@[j + 1]);
                }
            }
        }
        return false;
    }
    proof {
        let k = j - off;
        assert(body[k] == s@[j as int]);
        assert(all_digits(body.take(k))) by {
            assert forall|i: int| 0 <= i < body.take(k).len() implies is_digit(
                #[trigger] body.take(k)[i],
            ) by {
                assert(body.take(k)[i] == s@[i + off]);
            }
        }
        assert(all_digits(body.skip(k + 1))) by {
            assert forall|i: int| 0 <= i < body.skip(k + 1).len() implies is_digit(
                #[trigger] body.skip(k + 1)[i],
            ) by {
                assert(body.skip(k + 1)[i] == s@[i + j + 1]);
            }
        }
        assert(1 <= k && k + 1 < body.len() && body[k] == '.');
    }
    true
}

/// If some position `j` of the text (with `off` characters of sign
/// stripped) holds neither a digit nor a dot, while everything before it
/// holds digits, the text is not an unsigned decimal number.
proof fn lemma_not_unsigned_with_bad_char(body: Seq<char>, s: Seq<char>, off: int, j: int)
    requires
        0 <= off <= j < s.len(),
        body == s.skip(off),
        forall|k: int| off <= k < j ==> is_digit(#[trigger] s[k]),
        !is_digit(s[j]),
        s[j] != '.',
    ensures
        !unsigned_float_text(body),
{
    assert(body[j - off] == s[j]);
    assert(!all_digits(body));
    if unsigned_float_text(body) {
        let k = choose|k: int|
            1 <= k && k + 1 < body.len() && body[k] == '.' && all_digits(#[trigger] body.take(k))
                && all_digits(body.skip(k + 1));
        if k < j - off {
            assert(body[k] == s[k + off]);
            assert(is_digit(s[k + off]));
        } else if k > j - off {
            assert(body.take(k)[j - off] == body[j - off]);
            assert(is_digit(body[j - off]));
        } else {
            assert(body[k] == s[j]);
        }
    }
}

} // verus!
