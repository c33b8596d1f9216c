use vstd::prelude::*;

verus! {

broadcast use vstd::string::is_ascii_spec_bytes;

/// Whether `c` is one of the decimal digits `0` to `9`.
pub open spec fn is_digit(c: char) -> bool {
    '0' <= c && c <= '9'
}

/// The value of a decimal digit.
pub open spec fn digit_value(c: char) -> nat {
    (c as int - '0' as int) as nat
}

/// Whether `s` is one or more decimal digits.
pub open spec fn all_digits(s: Seq<char>) -> bool {
    s.len() > 0 && forall|i: int| 0 <= i < s.len() ==> is_digit(#[trigger] s[i])
}

/// The number that the decimal digits `s` write, most significant first.
pub open spec fn digits_value(s: Seq<char>) -> nat
    decreases s.len(),
{
    if s.len() == 0 {
        0
    } else {
        digits_value(s.drop_last()) * 10 + digit_value(s.last())
    }
}

/// The number that `s` writes as one or more decimal digits after an optional `+`.
pub open spec fn unsigned_text_value(s: Seq<char>) -> Option<nat> {
    if s.len() > 0 && s[0] == '+' {
        if all_digits(s.drop_first()) {
            Some(digits_value(s.drop_first()))
        } else {
            None
        }
    } else if all_digits(s) {
        Some(digits_value(s))
    } else {
        None
    }
}

/// The number that `s` writes as one or more decimal digits after an optional
/// `+` or `-`.
pub open spec fn signed_text_value(s: Seq<char>) -> Option<int> {
    if s.len() > 0 && s[0] == '-' {
        if all_digits(s.drop_first()) {
            Some(-digits_value(s.drop_first()))
        } else {
            None
        }
    } else {
        match unsigned_text_value(s) {
            Some(n) => Some(n as int),
            None => None,
        }
    }
}

/// The unsigned 64-bit integer that `s` writes, if it writes one in range.
pub open spec fn u64_of_text(s: Seq<char>) -> Option<u64> {
    match unsigned_text_value(s) {
        Some(n) => if n <= u64::MAX {
            Some(n as u64)
        } else {
            None
        },
        None => None,
    }
}

/// The signed 64-bit integer that `s` writes, if it writes one in range.
pub open spec fn i64_of_text(s: Seq<char>) -> Option<i64> {
    match signed_text_value(s) {
        Some(v) => if i64::MIN <= v && v <= i64::MAX {
            Some(v as i64)
        } else {
            None
        },
        None => None,
    }
}

/// The digit character for `d`, which is below ten.
pub open spec fn digit_char(d: nat) -> char {
    if d == 0 {
        '0'
    } else if d == 1 {
        '1'
    } else if d == 2 {
        '2'
    } else if d == 3 {
        '3'
    } else if d == 4 {
        '4'
    } else if d == 5 {
        '5'
    } else if d == 6 {
        '6'
    } else if d == 7 {
        '7'
    } else if d == 8 {
        '8'
    } else {
        '9'
    }
}

/// The shortest decimal text of `n`.
pub open spec fn decimal_text(n: nat) -> Seq<char>
    decreases n,
{
    if n < 10 {
        seq![digit_char(n)]
    } else {
        decimal_text(n / 10).push(digit_char(n % 10))
    }
}

/// The shortest decimal text of `v`, with a leading `-` when it is negative.
pub open spec fn signed_decimal_text(v: int) -> Seq<char> {
    if v < 0 {
        seq!['-'] + decimal_text((-v) as nat)
    } else {
        decimal_text(v as nat)
    }
}

proof fn lemma_digits_value_grows(s: Seq<char>, c: char)
    requires
        is_digit(c),
    ensures
        digits_value(s.push(c)) == digits_value(s) * 10 + digit_value(c),
        digits_value(s.push(c)) >= digits_value(s),
{
    assert(s.push(c).drop_last() =~= s);
}

/// The value of the digits `s[start..]`, where they are one or more digits
/// that write a number no larger than `limit`.
fn digits_at_most(b: &[u8], start: usize, limit: u64, Ghost(s): Ghost<Seq<char>>) -> (r: Option<u64>)
    requires
        vstd::utf8::is_ascii_chars(s),
        b@ == Seq::new(s.len(), |i: int| s[i] as u8),
        start <= s.len(),
    ensures
        r == (if all_digits(s.subrange(start as int, s.len() as int)) && digits_value(
            s.subrange(start as int, s.len() as int),
        ) <= limit {
            Some(digits_value(s.subrange(start as int, s.len() as int)) as u64)
        } else {
            None::<u64>
        }),
{
    let n = b.len();
    if start == n {
        return None;
    }
    let mut acc: u64 = 0;
    let mut over = false;
    let mut i: usize = start;
    while i < n
        invariant
            start <= i <= n,
            n == b@.len(),
            b@ == Seq::new(s.len(), |i: int| s[i] as u8),
            vstd::utf8::is_ascii_chars(s),
            s.len() == n,
            forall|k: int| start <= k < i ==> is_digit(#[trigger] s[k]),
            !over ==> acc == digits_value(s.subrange(start as int, i as int)) && acc <= limit,
            over ==> digits_value(s.subrange(start as int, i as int)) > limit,
        decreases n - i,
    {
        let c = b[i];
        assert(s[i as int] as u8 == c);
        assert('\0' <= s[i as int] <= '\u{7f}');
        if c < 48 || c > 57 {
            proof {
                assert(!is_digit(s[i as int]));
                let t = s.subrange(start as int, s.len() as int);
                assert(t[i - start] == s[i as int]);
            }
            return None;
        }
        let d: u64 = (c - 48) as u64;
        proof {
            assert(is_digit(s[i as int]));
            assert(digit_value(s[i as int]) == d);
            assert(s.subrange(start as int, i + 1) =~= s.subrange(start as int, i as int).push(
                s[i as int],
            ));
            lemma_digits_value_grows(s.subrange(start as int, i as int), s[i as int]);
        }
        if !over {
            if d > limit || acc > (limit - d) / 10 {
                assert(acc * 10 + d > limit) by (nonlinear_arith)
                    requires
                        d > limit || acc > (limit - d) / 10,
                ;
                over = true;
            } else {
                assert(acc * 10 + d <= limit) by (nonlinear_arith)
                    requires
                        d <= limit,
                        acc <= (limit - d) / 10,
                        d <= 9,
                ;
                acc = acc * 10 + d;
            }
        }
        i = i + 1;
    }
    assert(s.subrange(start as int, n as int) =~= s.subrange(start as int, s.len() as int));
    if over {
        None
    } else {
        Some(acc)
    }
}

proof fn lemma_parsed_text_is_ascii(s: Seq<char>)
    requires
        unsigned_text_value(s) is Some || signed_text_value(s) is Some,
    ensures
        vstd::utf8::is_ascii_chars(s),
{
    assert forall|i: int| 0 <= i < s.len() implies '\0' <= #[trigger] s[i] <= '\u{7f}' by {
        if i > 0 && (s[0] == '+' || s[0] == '-') {
            assert(s.drop_first()[i - 1] == s[i]);
        }
    }
}

/// Reads an unsigned 64-bit integer: one or more decimal digits after an
/// optional `+`, with a value in range.
pub fn parse_u64(text: &str) -> (r: Option<u64>)
    ensures
        r == u64_of_text(text@),
{
    let ghost s = text@;
    if !text.is_ascii() {
        proof {
            if unsigned_text_value(s) is Some {
                lemma_parsed_text_is_ascii(s);
            }
        }
        return None;
    }
    let b = text.as_bytes();
    let start: usize = if b.len() > 0 && b[0] == 43 {
        1
    } else {
        0
    };
    proof {
        if s.len() > 0 {
            assert(s[0] as u8 == b@[0]);
            assert('\0' <= s[0] <= '\u{7f}');
        }
        assert(s.drop_first() =~= s.subrange(1, s.len() as int));
        assert(s =~= s.subrange(0, s.len() as int));
    }
    digits_at_most(b, start, u64::MAX, Ghost(s))
}

/// Reads a signed 64-bit integer: one or more decimal digits after an
/// optional `+` or `-`, with a value in range.
pub fn parse_i64(text: &str) -> (r: Option<i64>)
    ensures
        r == i64_of_text(text@),
{
    let ghost s = text@;
    if !text.is_ascii() {
        proof {
            if signed_text_value(s) is Some {
                lemma_parsed_text_is_ascii(s);
            }
        }
        return None;
    }
    let b = text.as_bytes();
    proof {
        if s.len() > 0 {
            assert(s[0] as u8 == b@[0]);
            assert('\0' <= s[0] <= '\u{7f}');
        }
        assert(s.drop_first() =~= s.subrange(1, s.len() as int));
        assert(s =~= s.subrange(0, s.len() as int));
    }
    if b.len() > 0 && b[0] == 45 {
        match digits_at_most(b, 1, 9223372036854775808u64, Ghost(s)) {
            Some(m) => {
                if m == 9223372036854775808u64 {
                    Some(i64::MIN)
                } else {
                    Some(-(m as i64))
                }
            },
            None => None,
        }
    } else {
        let start: usize = if b.len() > 0 && b[0] == 43 {
            1
        } else {
            0
        };
        match digits_at_most(b, start, 9223372036854775807u64, Ghost(s)) {
            Some(m) => Some(m as i64),
            None => None,
        }
    }
}

/// The digit `d`, below ten, as text.
fn digit_str(d: u64) -> (r: &'static str)
    requires
        d < 10,
    ensures
        r@ == seq![digit_char(d as nat)],
{
    proof {
        reveal_strlit("0");
        reveal_strlit("1");
        reveal_strlit("2");
        reveal_strlit("3");
        reveal_strlit("4");
        reveal_strlit("5");
        reveal_strlit("6");
        reveal_strlit("7");
        reveal_strlit("8");
        reveal_strlit("9");
    }
    if d == 0 {
        "0"
    } else if d == 1 {
        "1"
    } else if d == 2 {
        "2"
    } else if d == 3 {
        "3"
    } else if d == 4 {
        "4"
    } else if d == 5 {
        "5"
    } else if d == 6 {
        "6"
    } else if d == 7 {
        "7"
    } else if d == 8 {
        "8"
    } else {
        "9"
    }
}

/// Appends the shortest decimal text of `n` to `out`.
pub fn push_decimal(out: &mut String, n: u64)
    ensures
        final(out)@ == old(out)@ + decimal_text(n as nat),
    decreases n,
{
    if n >= 10 {
        push_decimal(out, n / 10);
    }
    out.append(digit_str(n % 10));
    proof {
        if n >= 10 {
            assert(decimal_text(n as nat) == decimal_text((n / 10) as nat).push(
                digit_char((n % 10) as nat),
            ));
        }
    }
    assert(final(out)@ =~= old(out)@ + decimal_text(n as nat));
}

/// Appends the shortest decimal text of `v` to `out`, with a leading `-` when
/// it is negative.
pub fn push_signed_decimal(out: &mut String, v: i64)
    ensures
        final(out)@ == old(out)@ + signed_decimal_text(v as int),
{
    if v < 0 {
        proof {
            reveal_strlit("-");
        }
        out.append("-");
        let m: u64 = if v == i64::MIN {
            9223372036854775808u64
        } else {
            (-v) as u64
        };
        push_decimal(out, m);
        assert(final(out)@ =~= old(out)@ + signed_decimal_text(v as int));
    } else {
        push_decimal(out, v as u64);
    }
}

proof fn lemma_digit_char(d: nat)
    requires
        d < 10,
    ensures
        is_digit(digit_char(d)),
        digit_value(digit_char(d)) == d,
{
}

/// The decimal digits of `n` read back as the number they write.
pub proof fn lemma_decimal_text_value(n: nat)
    ensures
        all_digits(decimal_text(n)),
        digits_value(decimal_text(n)) == n,
        decimal_text(n)[0] != '+',
        decimal_text(n)[0] != '-',
    decreases n,
{
    let t = decimal_text(n);
    if n < 10 {
        lemma_digit_char(n);
        assert(t.drop_last() =~= Seq::<char>::empty());
        assert(digits_value(t) == digits_value(t.drop_last()) * 10 + digit_value(t.last()));
    } else {
        lemma_decimal_text_value(n / 10);
        lemma_digit_char(n % 10);
        let p = decimal_text(n / 10);
        assert(t.drop_last() =~= p);
        assert(digits_value(t) == digits_value(p) * 10 + digit_value(digit_char(n % 10)));
        assert(t[0] == p[0]);
        assert forall|i: int| 0 <= i < t.len() implies is_digit(#[trigger] t[i]) by {
            if i < p.len() {
                assert(t[i] == p[i]);
            }
        }
    }
}

/// Writing an unsigned integer in decimal and reading it back gives the same integer.
pub proof fn lemma_u64_text_round_trip(n: u64)
    ensures
        u64_of_text(decimal_text(n as nat)) == Some(n),
{
    lemma_decimal_text_value(n as nat);
}

/// Writing a signed integer in decimal and reading it back gives the same integer.
pub proof fn lemma_i64_text_round_trip(v: i64)
    ensures
        i64_of_text(signed_decimal_text(v as int)) == Some(v),
{
    if v < 0 {
        let m = (-v) as nat;
        lemma_decimal_text_value(m);
        let t = signed_decimal_text(v as int);
        assert(t.drop_first() =~= decimal_text(m));
    } else {
        lemma_decimal_text_value(v as nat);
    }
}

} // verus!
