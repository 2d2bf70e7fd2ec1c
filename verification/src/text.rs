//! Decimal text: how integers are written into a query and read out of a
//! response.

use vstd::prelude::*;

verus! {

/// The character that stands for the digit `d`.
pub open spec fn digit_char(d: nat) -> char
    recommends
        d < 10,
{
    ('0' as nat + d) as char
}

/// The decimal numeral of `n`: no sign, no leading zero but for zero itself.
pub open spec fn decimal_text(n: nat) -> Seq<char>
    decreases n,
{
    if n < 10 {
        seq![digit_char(n)]
    } else {
        decimal_text(n / 10).push(digit_char(n % 10))
    }
}

/// The decimal numeral of `n`, with a leading `-` below zero.
pub open spec fn signed_decimal_text(n: int) -> Seq<char> {
    if n < 0 {
        seq!['-'] + decimal_text((-n) as nat)
    } else {
        decimal_text(n as nat)
    }
}

pub open spec fn is_digit(c: char) -> bool {
    '0' <= c && c <= '9'
}

/// The digit that `c` stands for.
pub open spec fn digit_value(c: char) -> nat
    recommends
        is_digit(c),
{
    (c as int - '0' as int) as nat
}

pub open spec fn all_digits(s: Seq<char>) -> bool {
    forall|i: int| 0 <= i < s.len() ==> is_digit(#[trigger] s[i])
}

/// The number that a run of digits denotes, the last digit counting least.
pub open spec fn digits_value(s: Seq<char>) -> nat
    decreases s.len(),
{
    if s.len() == 0 {
        0
    } else {
        digits_value(s.drop_last()) * 10 + digit_value(s.last())
    }
}

/// What is left of a numeral once one leading `+` is taken away.
pub open spec fn unsigned_body(s: Seq<char>) -> Seq<char> {
    if s.len() > 0 && s[0] == '+' {
        s.drop_first()
    } else {
        s
    }
}

/// The number that `s` denotes as an unsigned decimal numeral: an optional `+`,
/// then one digit or more and nothing else. Leading zeros are allowed.
pub open spec fn unsigned_value(s: Seq<char>) -> Option<nat> {
    let body = unsigned_body(s);
    if body.len() > 0 && all_digits(body) {
        Some(digits_value(body))
    } else {
        None
    }
}

/// `unsigned_value`, with numbers above `max` left out.
pub open spec fn unsigned_value_up_to(s: Seq<char>, max: nat) -> Option<nat> {
    match unsigned_value(s) {
        Some(n) => if n <= max {
            Some(n)
        } else {
            None
        },
        None => None,
    }
}

/// A run of digits is worth at least as much as any of its prefixes.
pub proof fn lemma_digits_value_prefix(s: Seq<char>, k: int)
    requires
        0 <= k <= s.len(),
    ensures
        digits_value(s.take(k)) <= digits_value(s),
    decreases s.len(),
{
    if k == s.len() {
        assert(s.take(k) =~= s);
    } else {
        lemma_digits_value_prefix(s.drop_last(), k);
        assert(s.drop_last().take(k) =~= s.take(k));
    }
}

/// One more digit at the end multiplies by ten and adds the digit.
pub proof fn lemma_digits_value_push(s: Seq<char>, c: char)
    ensures
        digits_value(s.push(c)) == digits_value(s) * 10 + digit_value(c),
{
    assert(s.push(c).drop_last() =~= s);
}

/// A numeral never is empty.
pub proof fn lemma_decimal_text_nonempty(n: nat)
    ensures
        decimal_text(n).len() > 0,
    decreases n,
{
    if n >= 10 {
        lemma_decimal_text_nonempty(n / 10);
    }
}

/// A numeral reads back as the number that it was written for.
pub proof fn lemma_decimal_round_trip(n: nat)
    ensures
        all_digits(decimal_text(n)),
        digits_value(decimal_text(n)) == n,
        unsigned_value(decimal_text(n)) == Some(n),
    decreases n,
{
    if n < 10 {
        assert(decimal_text(n).drop_last() =~= Seq::<char>::empty());
        assert(digits_value(Seq::<char>::empty()) == 0);
    } else {
        lemma_decimal_round_trip(n / 10);
        lemma_digits_value_push(decimal_text(n / 10), digit_char(n % 10));
    }
    lemma_decimal_text_nonempty(n);
    assert(is_digit(decimal_text(n)[0]));
}

fn digit_text(d: u64) -> (s: &'static str)
    requires
        d < 10,
    ensures
        s@ == seq![digit_char(d as nat)],
{
    proof {
        reveal_strlit("0");
        reveal_strlit("1");
        reveal_strlit("2");
        reveal_strlit("3");
        reveal_strlit("4");
        reveal_strlit("5");
        reveal_strlit("6");
        reveal_strlit("7");
        reveal_strlit("8");
        reveal_strlit("9");
    }
    if d == 0 {
        "0"
    } else if d == 1 {
        "1"
    } else if d == 2 {
        "2"
    } else if d == 3 {
        "3"
    } else if d == 4 {
        "4"
    } else if d == 5 {
        "5"
    } else if d == 6 {
        "6"
    } else if d == 7 {
        "7"
    } else if d == 8 {
        "8"
    } else {
        "9"
    }
}

/// Writes the decimal numeral of `n` at the end of `out`.
pub fn append_decimal(out: &mut String, n: u64)
    ensures
        final(out)@ == old(out)@ + decimal_text(n as nat),
    decreases n,
{
    if n >= 10 {
        append_decimal(out, n / 10);
    }
    out.append(digit_text(n % 10));
}

/// The decimal numeral of `n`.
pub fn decimal_string(n: u64) -> (s: String)
    ensures
        s@ == decimal_text(n as nat),
{
    let mut s = String::new();
    append_decimal(&mut s, n);
    s
}

/// The decimal numeral of `n`, with a leading `-` below zero.
pub fn signed_decimal_string(n: i64) -> (s: String)
    ensures
        s@ == signed_decimal_text(n as int),
{
    let mut s = String::new();
    if n < 0 {
        proof {
            reveal_strlit("-");
        }
        s.append("-");
        let below: i64 = -(n + 1);
        let magnitude: u64 = below as u64 + 1;
        append_decimal(&mut s, magnitude);
    } else {
        append_decimal(&mut s, n as u64);
    }
    s
}

/// Reads an unsigned decimal numeral. `None` where `text` is no such numeral
/// or denotes more than a `u128` holds.
pub fn parse_unsigned(text: &str) -> (r: Option<u128>)
    ensures
        match unsigned_value_up_to(text@, u128::MAX as nat) {
            Some(n) => r == Some(n as u128),
            None => r is None,
        },
{
    let mut acc: u128 = 0;
    let mut seen: bool = false;
    let mut first: bool = true;
    let ghost body = unsigned_body(text@);
    for c in it: text.chars()
        invariant
            it.seq() == text@,
            body == unsigned_body(text@),
            first <==> it.index() == 0,
            first ==> acc == 0 && !seen,
            !first ==> ({
                let read = body.take(it.index() - (text@.len() - body.len()));
                &&& all_digits(read)
                &&& acc == digits_value(read)
                &&& seen == (read.len() > 0)
            }),
    {
        let ghost i = it.index();
        let ghost skipped = text@.len() - body.len();
        let ghost read = body.take(i - skipped);
        let plus = first && c == '+';
        first = false;
        if plus {
            assert(body.take(0) =~= Seq::<char>::empty());
        } else {
            assert(body[i - skipped] == c);
            if !(c >= '0' && c <= '9') {
                return None;
            }
            let d: u128 = (c as u32 - 48) as u128;
            proof {
                assert(body.take(i + 1 - skipped) =~= body.take(i - skipped).push(c));
                lemma_digits_value_push(body.take(i - skipped), c);
                lemma_digits_value_prefix(body, i + 1 - skipped);
            }
            match acc.checked_mul(10) {
                None => {
                    return None;
                },
                Some(tens) => match tens.checked_add(d) {
                    None => {
                        return None;
                    },
                    Some(next) => {
                        acc = next;
                        seen = true;
                    },
                },
            }
        }
    }
    proof {
        if !first {
            assert(body.take(body.len() as int) =~= body);
        }
    }
    if seen {
        Some(acc)
    } else {
        None
    }
}

} // verus!
