//! Decimal text of integers, as Python's `str(int)` writes it.
use vstd::prelude::*;

verus! {

/// The ASCII digit for `d` in `0..10`.
pub open spec fn digit_char(d: int) -> char {
    (d + 48) as char
}

/// The decimal digits of `n`, most significant first, with no leading zero.
pub open spec fn digits(n: nat) -> Seq<char>
    decreases n,
{
    if n < 10 {
        seq![digit_char(n as int)]
    } else {
        digits(n / 10).push(digit_char((n % 10) as int))
    }
}

/// The decimal text of `n`: a `-` before the digits of a negative number.
pub open spec fn decimal(n: int) -> Seq<char> {
    if n < 0 {
        seq!['-'] + digits((-n) as nat)
    } else {
        digits(n as nat)
    }
}

/// Whether `c` is an ASCII digit.
pub open spec fn is_digit(c: char) -> bool {
    '0' <= c <= '9'
}

/// The number that a run of ASCII digits writes, most significant first.
pub open spec fn digits_number(s: Seq<char>) -> int
    decreases s.len(),
{
    if s.len() == 0 {
        0
    } else {
        digits_number(s.drop_last()) * 10 + (s.last() as int - '0' as int)
    }
}

proof fn lemma_digit_char(d: int)
    requires
        0 <= d < 10,
    ensures
        digit_char(d) as int == d + 48,
        is_digit(digit_char(d)),
{
}

proof fn lemma_digits_denote(n: nat)
    ensures
        digits(n).len() >= 1,
        n >= 10 ==> digits(n).len() >= 2,
        forall|i: int| 0 <= i < digits(n).len() ==> is_digit(#[trigger] digits(n)[i]),
        digits(n).len() > 1 ==> digits(n)[0] != '0',
        digits_number(digits(n)) == n,
    decreases n,
{
    assert('0' as int == 48);
    let d = digits(n);
    if n < 10 {
        lemma_digit_char(n as int);
        assert(d.drop_last() =~= Seq::<char>::empty());
        assert(d.last() as int == n + 48);
        assert(digits_number(d.drop_last()) == 0);
        assert(digits_number(d) == n);
    } else {
        lemma_digit_char((n % 10) as int);
        lemma_digits_denote(n / 10);
        if n / 10 < 10 {
            lemma_digit_char((n / 10) as int);
            assert(digits(n / 10)[0] == digit_char((n / 10) as int));
            assert(digits(n / 10)[0] as int != 48);
        }
        assert(d.drop_last() =~= digits(n / 10));
        assert(d.last() == digit_char((n % 10) as int));
        assert(n == (n / 10) * 10 + n % 10);
        assert(digits_number(d.drop_last()) == n / 10);
        assert(d.last() as int - '0' as int == n % 10);
        assert(digits_number(d) == n);
        assert(d[0] == digits(n / 10)[0]);
        assert forall|i: int| 0 <= i < d.len() implies is_digit(#[trigger] d[i]) by {
            if i < d.len() - 1 {
                assert(d[i] == digits(n / 10)[i]);
            }
        }
    }
}

/// The decimal text of an integer reads back as that integer: an optional
/// `-` (exactly when it is negative), then ASCII digits with no leading zero
/// whose number is its magnitude.
pub proof fn lemma_decimal_reads_back(n: int)
    ensures
        n < 0 ==> decimal(n).len() >= 2 && decimal(n)[0] == '-' && digits_number(
            decimal(n).drop_first(),
        ) == -n,
        n >= 0 ==> decimal(n).len() >= 1 && digits_number(decimal(n)) == n,
        forall|i: int|
            (if n < 0 { 1int } else { 0int }) <= i < decimal(n).len() ==> is_digit(
                #[trigger] decimal(n)[i],
            ),
        decimal(n).len() > (if n < 0 { 1int } else { 0int }) + 1 ==> decimal(n)[if n < 0 {
            1int
        } else {
            0int
        }] != '0',
{
    if n < 0 {
        lemma_digits_denote((-n) as nat);
        assert(decimal(n).drop_first() =~= digits((-n) as nat));
        assert forall|i: int| 1 <= i < decimal(n).len() implies is_digit(
            #[trigger] decimal(n)[i],
        ) by {
            assert(decimal(n)[i] == digits((-n) as nat)[i - 1]);
        }
    } else {
        lemma_digits_denote(n as nat);
    }
}

/// Appends `c` to `s` with `String::push`, which std documents as appending
/// the given char to the end of the string.
#[verifier::external_body]
fn push_char(s: &mut String, c: char)
    ensures
        final(s)@ == old(s)@.push(c),
{
    s.push(c)
}

fn digit(d: u128) -> (c: char)
    requires
        d < 10,
    ensures
        c == digit_char(d as int),
{
    let b: u8 = 48u8 + d as u8;
    b as char
}

/// The decimal text of `n`.
pub fn decimal_string(n: i128) -> (s: String)
    ensures
        s@ == decimal(n as int),
{
    let magnitude: u128 = if n < 0 {
        (-(n + 1)) as u128 + 1
    } else {
        n as u128
    };
    let mut rest: u128 = magnitude;
    let mut tail: Vec<char> = Vec::new();
    while rest >= 10
        invariant
            digits(magnitude as nat) == digits(rest as nat) + tail@,
        decreases rest,
    {
        let d = digit(rest % 10);
        let ghost before = tail@;
        tail.insert(0, d);
        proof {
            assert(digits(rest as nat) == digits((rest / 10) as nat).push(d));
            assert(digits((rest / 10) as nat).push(d) + before =~= digits((rest / 10) as nat)
                + tail@);
        }
        rest = rest / 10;
    }
    assert(tail@.subrange(0, tail@.len() as int) =~= tail@);
    let mut s = String::new();
    if n < 0 {
        push_char(&mut s, '-');
    }
    push_char(&mut s, digit(rest));
    let mut i: usize = 0;
    while i < tail.len()
        invariant
            0 <= i <= tail.len(),
            s@ == (if n < 0 { seq!['-'] } else { Seq::<char>::empty() }) + digits(rest as nat)
                + tail@.subrange(0, i as int),
        decreases tail.len() - i,
    {
        push_char(&mut s, tail[i]);
        assert(tail@.subrange(0, i + 1) =~= tail@.subrange(0, i as int).push(tail@[i as int]));
        i = i + 1;
    }
    s
}

} // verus!
