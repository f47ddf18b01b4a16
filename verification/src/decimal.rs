//! Decimal text of 64-bit integers: the form in which a user id is kept in the
//! session cookie, shown in page paths, and read back from the session.
use vstd::prelude::*;
use vstd::string::*;

verus! {

/// The character of a decimal digit `d` (0 to 9).
pub open spec fn digit_char(d: int) -> char {
    (d + 48) as char
}

/// Whether `c` is an ASCII decimal digit.
pub open spec fn is_digit(c: char) -> bool {
    '0' <= c && c <= '9'
}

/// The value of the ASCII digit `c`.
pub open spec fn digit_value(c: char) -> int {
    c as int - 48
}

/// Every character of `s` is an ASCII decimal digit.
pub open spec fn all_digits(s: Seq<char>) -> bool {
    forall|i: int| 0 <= i < s.len() ==> is_digit(#[trigger] s[i])
}

/// The number that the digit string `s` denotes (most significant digit first).
pub open spec fn digits_value(s: Seq<char>) -> int
    decreases s.len(),
{
    if s.len() == 0 {
        0
    } else {
        digits_value(s.drop_last()) * 10 + digit_value(s.last())
    }
}

/// The shortest decimal digits of the natural number `m`, without leading zeros.
pub open spec fn nat_digits(m: nat) -> Seq<char>
    decreases m,
{
    if m < 10 {
        seq![digit_char(m as int)]
    } else {
        nat_digits(m / 10).push(digit_char((m % 10) as int))
    }
}

/// The decimal text of the integer `n`, as Rust's `Display` writes an integer:
/// a minus sign for a negative number, then the digits of its magnitude.
pub open spec fn decimal(n: int) -> Seq<char> {
    if n < 0 {
        seq!['-'] + nat_digits((-n) as nat)
    } else {
        nat_digits(n as nat)
    }
}

/// What `str::parse::<i64>` gives for the text `s`: an optional `+` or `-`,
/// then at least one ASCII digit and nothing else, whose value fits in `i64`.
pub open spec fn parsed_i64(s: Seq<char>) -> Option<i64> {
    let signed = s.len() > 0 && (s[0] == '-' || s[0] == '+');
    let negative = s.len() > 0 && s[0] == '-';
    let digits = if signed { s.drop_first() } else { s };
    if digits.len() > 0 && all_digits(digits) {
        let v = if negative { -digits_value(digits) } else { digits_value(digits) };
        if i64::MIN <= v <= i64::MAX {
            Some(v as i64)
        } else {
            None
        }
    } else {
        None
    }
}

proof fn lemma_digits_value_nonneg(s: Seq<char>)
    requires
        all_digits(s),
    ensures
        digits_value(s) >= 0,
    decreases s.len(),
{
    if s.len() > 0 {
        assert(is_digit(s[s.len() - 1]));
        assert(all_digits(s.drop_last())) by {
            assert forall|i: int| 0 <= i < s.drop_last().len() implies is_digit(
                #[trigger] s.drop_last()[i],
            ) by {
                assert(s.drop_last()[i] == s[i]);
            }
        }
        lemma_digits_value_nonneg(s.drop_last());
    }
}

/// A digit string denotes at least what any of its prefixes denotes.
proof fn lemma_digits_value_prefix(s: Seq<char>, k: int)
    requires
        all_digits(s),
        0 <= k <= s.len(),
    ensures
        digits_value(s) >= digits_value(s.take(k)),
    decreases s.len(),
{
    if k < s.len() {
        let t = s.drop_last();
        assert(all_digits(t)) by {
            assert forall|i: int| 0 <= i < t.len() implies is_digit(#[trigger] t[i]) by {
                assert(t[i] == s[i]);
            }
        }
        lemma_digits_value_prefix(t, k);
        assert(t.take(k) =~= s.take(k));
        lemma_digits_value_nonneg(t);
        assert(is_digit(s[s.len() - 1]));
    } else {
        assert(s.take(k) =~= s);
    }
}

/// The digits of a natural number are digits, start with a digit, and denote it.
pub proof fn lemma_nat_digits(m: nat)
    ensures
        nat_digits(m).len() > 0,
        all_digits(nat_digits(m)),
        digits_value(nat_digits(m)) == m,
    decreases m,
{
    if m >= 10 {
        lemma_nat_digits(m / 10);
        let p = nat_digits(m / 10);
        let s = p.push(digit_char((m % 10) as int));
        assert(s.drop_last() =~= p);
        assert(digit_value(digit_char((m % 10) as int)) == m % 10);
        assert(digits_value(s) == digits_value(p) * 10 + m % 10);
        assert((m / 10) * 10 + m % 10 == m);
        assert(nat_digits(m) == s);
        assert(all_digits(s)) by {
            assert forall|i: int| 0 <= i < s.len() implies is_digit(#[trigger] s[i]) by {
                if i < p.len() {
                    assert(s[i] == p[i]);
                }
            }
        }
    } else {
        let s = seq![digit_char(m as int)];
        assert(s.drop_last() =~= Seq::<char>::empty());
        assert(digit_value(digit_char(m as int)) == m);
        assert(s.last() == digit_char(m as int));
        assert(digits_value(s.drop_last()) == 0);
        assert(digits_value(s) == m);
        assert(nat_digits(m) == s);
    }
}

/// Reading back the decimal text of an `i64` gives the same number.
pub proof fn lemma_parse_decimal_roundtrip(n: i64)
    ensures
        parsed_i64(decimal(n as int)) == Some(n),
{
    let s = decimal(n as int);
    if n < 0 {
        let m = (-n) as nat;
        lemma_nat_digits(m);
        assert(s.drop_first() =~= nat_digits(m));
    } else {
        lemma_nat_digits(n as nat);
        let d = nat_digits(n as nat);
        assert(is_digit(d[0]));
    }
}

/// The one-character text of the digit `d`.
fn digit_text(d: u64) -> (r: &'static str)
    requires
        d < 10,
    ensures
        r@ == seq![digit_char(d as int)],
{
    proof {
        reveal_strlit("0");
        reveal_strlit("1");
        reveal_strlit("2");
        reveal_strlit("3");
        reveal_strlit("4");
        reveal_strlit("5");
        reveal_strlit("6");
        reveal_strlit("7");
        reveal_strlit("8");
        reveal_strlit("9");
    }
    let r = if d == 0 {
        "0"
    } else if d == 1 {
        "1"
    } else if d == 2 {
        "2"
    } else if d == 3 {
        "3"
    } else if d == 4 {
        "4"
    } else if d == 5 {
        "5"
    } else if d == 6 {
        "6"
    } else if d == 7 {
        "7"
    } else if d == 8 {
        "8"
    } else {
        "9"
    };
    assert(r@ =~= seq![digit_char(d as int)]);
    r
}

/// Appends the decimal digits of `m` to `out`.
fn append_nat_digits(out: &mut String, m: u64)
    ensures
        final(out)@ == old(out)@ + nat_digits(m as nat),
    decreases m,
{
    if m >= 10 {
        append_nat_digits(out, m / 10);
    }
    out.append(digit_text(m % 10));
    proof {
        if m >= 10 {
            assert(old(out)@ + nat_digits(m as nat) =~= old(out)@ + nat_digits((m / 10) as nat)
                + seq![digit_char((m % 10) as int)]);
        } else {
            assert(m % 10 == m);
        }
    }
}

/// Appends the decimal text of `n` to `out`.
pub fn append_decimal(out: &mut String, n: i64)
    ensures
        final(out)@ == old(out)@ + decimal(n as int),
{
    if n < 0 {
        proof {
            reveal_strlit("-");
        }
        out.append("-");
        let magnitude: u64 = if n == i64::MIN {
            9223372036854775808u64
        } else {
            (-n) as u64
        };
        append_nat_digits(out, magnitude);
        assert(final(out)@ =~= old(out)@ + decimal(n as int)) by {
            assert(old(out)@ + seq!['-'] + nat_digits(magnitude as nat) =~= old(out)@ + (seq![
                '-',
            ] + nat_digits(magnitude as nat)));
        }
    } else {
        append_nat_digits(out, n as u64);
    }
}

/// The decimal text of `n`, as `n.to_string()` writes it.
pub fn decimal_string(n: i64) -> (s: String)
    ensures
        s@ == decimal(n as int),
{
    let mut s = String::new();
    append_decimal(&mut s, n);
    assert(s@ =~= decimal(n as int));
    s
}

/// Reads an `i64` from its decimal text as `text.parse::<i64>()` does:
/// `None` exactly where that call returns an error.
pub fn parse_decimal(text: &str) -> (r: Option<i64>)
    ensures
        r == parsed_i64(text@),
{
    let len = text.unicode_len();
    let ghost s = text@;
    let mut start: usize = 0;
    let mut negative = false;
    if len > 0 {
        let c = text.get_char(0);
        if c == '-' {
            start = 1;
            negative = true;
        } else if c == '+' {
            start = 1;
        }
    }
    let ghost digits = s.subrange(start as int, s.len() as int);
    proof {
        if start == 1 {
            assert(digits =~= s.drop_first());
        } else {
            assert(digits =~= s);
        }
    }
    if start >= len {
        return None;
    }
    let limit: u64 = if negative {
        9223372036854775808u64
    } else {
        9223372036854775807u64
    };
    let mut acc: u64 = 0;
    let mut i: usize = start;
    while i < len
        invariant
            len == s.len(),
            s == text@,
            start <= i <= len,
            digits == s.subrange(start as int, s.len() as int),
            digits == (if s.len() > 0 && (s[0] == '-' || s[0] == '+') {
                s.drop_first()
            } else {
                s
            }),
            negative == (s.len() > 0 && s[0] == '-'),
            all_digits(digits.take(i - start)),
            acc == digits_value(digits.take(i - start)),
            acc <= limit,
            limit == (if negative { 9223372036854775808u64 } else { 9223372036854775807u64 }),
        decreases len - i,
    {
        let c = text.get_char(i);
        let ghost k: int = i - start;
        assert(digits[k] == c);
        if !('0' <= c && c <= '9') {
            assert(!all_digits(digits));
            return None;
        }
        let d: u64 = (c as u64) - 48;
        let ghost prefix = digits.take(k + 1);
        assert(prefix.drop_last() =~= digits.take(k));
        assert(prefix.last() == c);
        if acc > (limit - d) / 10 {
            proof {
                assert(acc * 10 + d > limit) by (nonlinear_arith)
                    requires
                        acc > (limit - d) / 10,
                        d <= limit,
                ;
                assert(all_digits(prefix)) by {
                    assert forall|j: int| 0 <= j < prefix.len() implies is_digit(
                        #[trigger] prefix[j],
                    ) by {
                        if j < k {
                            assert(prefix[j] == digits.take(k)[j]);
                        }
                    }
                }
                if all_digits(digits) {
                    lemma_digits_value_prefix(digits, k + 1);
                }
            }
            return None;
        }
        proof {
            assert(acc * 10 + d <= limit) by (nonlinear_arith)
                requires
                    acc <= (limit - d) / 10,
                    d <= limit,
            ;
            assert(all_digits(prefix)) by {
                assert forall|j: int| 0 <= j < prefix.len() implies is_digit(#[trigger] prefix[j]) by {
                    if j < k {
                        assert(prefix[j] == digits.take(k)[j]);
                    }
                }
            }
        }
        acc = acc * 10 + d;
        i = i + 1;
    }
    assert(digits.take(len - start) =~= digits);
    if negative {
        if acc == 9223372036854775808u64 {
            Some(i64::MIN)
        } else {
            Some(-(acc as i64))
        }
    } else {
        Some(acc as i64)
    }
}

} // verus!
