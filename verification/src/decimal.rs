//! Decimal text of integers: writing them the way Rust's `Display` does, and reading
//! them the way Rust's `FromStr` does.
use vstd::prelude::*;

verus! {

/// Whether `c` is an ASCII decimal digit.
pub open spec fn is_digit(c: char) -> bool {
    '0' <= c <= '9'
}

/// The value of a decimal digit.
pub open spec fn digit_value(c: char) -> nat {
    (c as int - '0' as int) as nat
}

/// The digit character of `n < 10`.
pub open spec fn digit_char(n: nat) -> char {
    (('0' as int) + n) as char
}

/// The value of a sequence of decimal digits, most significant first.
pub open spec fn dec_value(d: Seq<char>) -> nat
    decreases d.len(),
{
    if d.len() == 0 {
        0
    } else {
        dec_value(d.drop_last()) * 10 + digit_value(d.last())
    }
}

/// Whether `d` is a non-empty sequence of decimal digits.
pub open spec fn all_digits(d: Seq<char>) -> bool {
    d.len() > 0 && forall|i: int| 0 <= i < d.len() ==> is_digit(#[trigger] d[i])
}

/// The shortest decimal text of `n`.
pub open spec fn fmt_nat(n: nat) -> Seq<char>
    decreases n,
{
    if n < 10 {
        seq![digit_char(n)]
    } else {
        fmt_nat(n / 10).push(digit_char(n % 10))
    }
}

/// The decimal text of `v`: a `-` for negative values, then the digits of its magnitude.
pub open spec fn fmt_int(v: int) -> Seq<char> {
    if v < 0 {
        seq!['-'] + fmt_nat((-v) as nat)
    } else {
        fmt_nat(v as nat)
    }
}

/// The digits after an optional leading `+`.
pub open spec fn unsigned_digits(s: Seq<char>) -> Seq<char> {
    if s.len() > 0 && s[0] == '+' {
        s.drop_first()
    } else {
        s
    }
}

/// What reading `s` as an unsigned number no larger than `max` gives: an optional `+`,
/// then at least one digit.
pub open spec fn parse_unsigned(s: Seq<char>, max: nat) -> Option<nat> {
    let d = unsigned_digits(s);
    if all_digits(d) && dec_value(d) <= max {
        Some(dec_value(d))
    } else {
        None
    }
}

/// What reading `s` as a signed number in `min..=max` gives: an optional `+` or `-`,
/// then at least one digit.
pub open spec fn parse_signed(s: Seq<char>, min: int, max: int) -> Option<int> {
    if s.len() > 0 && s[0] == '-' {
        let d = s.drop_first();
        if all_digits(d) && -(dec_value(d) as int) >= min {
            Some(-(dec_value(d) as int))
        } else {
            None
        }
    } else {
        let d = unsigned_digits(s);
        if all_digits(d) && dec_value(d) <= max {
            Some(dec_value(d) as int)
        } else {
            None
        }
    }
}

/// What `str::parse::<u64>` gives.
pub open spec fn parse_u64(s: Seq<char>) -> Option<u64> {
    match parse_unsigned(s, u64::MAX as nat) {
        Some(v) => Some(v as u64),
        None => None,
    }
}

/// What `str::parse::<i64>` gives.
pub open spec fn parse_i64(s: Seq<char>) -> Option<i64> {
    match parse_signed(s, i64::MIN as int, i64::MAX as int) {
        Some(v) => Some(v as i64),
        None => None,
    }
}

/// What `str::parse::<i32>` gives.
pub open spec fn parse_i32(s: Seq<char>) -> Option<i32> {
    match parse_signed(s, i32::MIN as int, i32::MAX as int) {
        Some(v) => Some(v as i32),
        None => None,
    }
}

/// The decimal text of a number consists of digits and reads back as the number.
pub proof fn lemma_fmt_nat(n: nat)
    ensures
        all_digits(fmt_nat(n)),
        dec_value(fmt_nat(n)) == n,
        fmt_nat(n)[0] != '+',
        fmt_nat(n)[0] != '-',
    decreases n,
{
    lemma_digit_char(n % 10);
    if n < 10 {
        let s = fmt_nat(n);
        assert(s.drop_last() =~= Seq::<char>::empty());
        assert(dec_value(Seq::<char>::empty()) == 0);
    } else {
        lemma_fmt_nat(n / 10);
        let s = fmt_nat(n);
        assert(s.drop_last() =~= fmt_nat(n / 10));
        assert(dec_value(s) == (n / 10) * 10 + n % 10);
        assert forall|i: int| 0 <= i < s.len() implies is_digit(#[trigger] s[i]) by {
            if i < s.len() - 1 {
                assert(s[i] == fmt_nat(n / 10)[i]);
            }
        }
    }
}

proof fn lemma_digit_char(k: nat)
    requires
        k < 10,
    ensures
        is_digit(digit_char(k)),
        digit_value(digit_char(k)) == k,
        digit_char(k) != '+',
        digit_char(k) != '-',
{
}

/// Reading the decimal text of a number gives the number back.
pub proof fn law_parse_fmt_u64(v: u64)
    ensures
        parse_u64(fmt_nat(v as nat)) == Some(v),
{
    lemma_fmt_nat(v as nat);
}

/// Reading the decimal text of a signed number gives the number back.
pub proof fn law_parse_fmt_i64(v: i64)
    ensures
        parse_i64(fmt_int(v as int)) == Some(v),
{
    lemma_fmt_signed(v as int, i64::MIN as int, i64::MAX as int);
}

/// Reading the decimal text of a 32-bit signed number gives the number back.
pub proof fn law_parse_fmt_i32(v: i32)
    ensures
        parse_i32(fmt_int(v as int)) == Some(v),
{
    lemma_fmt_signed(v as int, i32::MIN as int, i32::MAX as int);
}

proof fn lemma_fmt_signed(v: int, min: int, max: int)
    requires
        min <= v <= max,
    ensures
        parse_signed(fmt_int(v), min, max) == Some(v),
{
    if v < 0 {
        lemma_fmt_nat((-v) as nat);
        let s = fmt_int(v);
        assert(s.drop_first() =~= fmt_nat((-v) as nat));
    } else {
        lemma_fmt_nat(v as nat);
    }
}

/// The digit character of `n < 10`.
fn digit_to_char(n: u64) -> (c: char)
    requires
        n < 10,
    ensures
        c == digit_char(n as nat),
{
    ((48u64 + n) as u8) as char
}

/// Appends the decimal digits of `n` to `out`.
pub fn push_nat(out: &mut Vec<char>, n: u64)
    ensures
        final(out)@ == old(out)@ + fmt_nat(n as nat),
    decreases n,
{
    if n >= 10 {
        push_nat(out, n / 10);
    }
    out.push(digit_to_char(n % 10));
    assert(n >= 10 ==> fmt_nat(n as nat) == fmt_nat((n / 10) as nat).push(
        digit_char((n % 10) as nat),
    ));
}

/// Appends the decimal text of `v` to `out`.
pub fn push_i64(out: &mut Vec<char>, v: i64)
    ensures
        final(out)@ == old(out)@ + fmt_int(v as int),
{
    if v < 0 {
        out.push('-');
        let magnitude: u64 = if v == i64::MIN {
            9223372036854775808u64
        } else {
            (-v) as u64
        };
        push_nat(out, magnitude);
    } else {
        push_nat(out, v as u64);
    }
}

/// Reads the digits `s[start..end]` as a number that is at most `max`.
fn read_digits(s: &Vec<char>, start: usize, end: usize, max: u64) -> (r: Option<u64>)
    requires
        start <= end <= s@.len(),
        max >= 9,
    ensures
        ({
            let d = s@.subrange(start as int, end as int);
            r == (if all_digits(d) && dec_value(d) <= max {
                Some(dec_value(d) as u64)
            } else {
                None::<u64>
            })
        }),
{
    let ghost d = s@.subrange(start as int, end as int);
    if start == end {
        return None;
    }
    let mut i = start;
    let mut value: u64 = 0;
    while i < end
        invariant
            start <= i <= end,
            end <= s@.len(),
            d == s@.subrange(start as int, end as int),
            forall|j: int| start <= j < i ==> is_digit(#[trigger] s@[j]),
            value == dec_value(s@.subrange(start as int, i as int)),
            value <= max,
            max >= 9,
        decreases end - i,
    {
        let c = s[i];
        if !('0' <= c && c <= '9') {
            assert(d[i - start] == c);
            return None;
        }
        let digit = (c as u64) - 48u64;
        assert(digit <= 9);
        let ghost prefix = s@.subrange(start as int, i + 1);
        assert(prefix.drop_last() =~= s@.subrange(start as int, i as int));
        assert(dec_value(prefix) == value * 10 + digit);
        if value > (max - digit) / 10 {
            proof {
                assert(value * 10 + digit > max) by (nonlinear_arith)
                    requires
                        value > (max - digit) / 10,
                        digit <= 9,
                        digit <= max || value * 10 > max,
                ;
                lemma_dec_value_grows(d, (i + 1 - start) as nat);
                assert(d.take((i + 1 - start) as int) =~= prefix);
            }
            return None;
        }
        assert(value * 10 + digit <= max) by (nonlinear_arith)
            requires
                value <= (max - digit) / 10,
                digit <= max,
        ;
        value = value * 10 + digit;
        i = i + 1;
    }
    assert(s@.subrange(start as int, i as int) =~= d);
    Some(value)
}

/// Adding digits never makes the value of a prefix larger than the value of the whole.
proof fn lemma_dec_value_grows(d: Seq<char>, n: nat)
    requires
        n <= d.len(),
    ensures
        dec_value(d.take(n as int)) <= dec_value(d),
    decreases d.len(),
{
    if n < d.len() {
        assert(d.drop_last().take(n as int) =~= d.take(n as int));
        lemma_dec_value_grows(d.drop_last(), n);
    } else {
        assert(d.take(n as int) =~= d);
    }
}

/// Reads `s[start..end]` as `str::parse::<u64>` does.
pub fn parse_u64_in(s: &Vec<char>, start: usize, end: usize) -> (r: Option<u64>)
    requires
        start <= end <= s@.len(),
    ensures
        r == parse_u64(s@.subrange(start as int, end as int)),
{
    let ghost t = s@.subrange(start as int, end as int);
    let mut first = start;
    if start < end && s[start] == '+' {
        first = start + 1;
    }
    assert(s@.subrange(first as int, end as int) =~= unsigned_digits(t));
    read_digits(s, first, end, u64::MAX)
}

/// Reads `s[start..end]` as a signed number in `min..=max`.
fn parse_signed_in(s: &Vec<char>, start: usize, end: usize, min: i64, max: i64) -> (r: Option<
    i64,
>)
    requires
        start <= end <= s@.len(),
        min <= -9,
        max >= 9,
    ensures
        r matches Some(v) ==> parse_signed(s@.subrange(start as int, end as int), min as int, max as int) == Some(v as int),
        r is None ==> parse_signed(s@.subrange(start as int, end as int), min as int, max as int) is None,
{
    let ghost t = s@.subrange(start as int, end as int);
    if start < end && s[start] == '-' {
        assert(s@.subrange(start + 1, end as int) =~= t.drop_first());
        let magnitude_max: u64 = if min == i64::MIN {
            9223372036854775808u64
        } else {
            (-min) as u64
        };
        match read_digits(s, start + 1, end, magnitude_max) {
            Some(m) => {
                if m == 9223372036854775808u64 {
                    Some(i64::MIN)
                } else {
                    Some(-(m as i64))
                }
            },
            None => None,
        }
    } else {
        let mut first = start;
        if start < end && s[start] == '+' {
            first = start + 1;
        }
        assert(s@.subrange(first as int, end as int) =~= unsigned_digits(t));
        match read_digits(s, first, end, max as u64) {
            Some(m) => Some(m as i64),
            None => None,
        }
    }
}

/// Reads `s[start..end]` as `str::parse::<i64>` does.
pub fn parse_i64_in(s: &Vec<char>, start: usize, end: usize) -> (r: Option<i64>)
    requires
        start <= end <= s@.len(),
    ensures
        r == parse_i64(s@.subrange(start as int, end as int)),
{
    parse_signed_in(s, start, end, i64::MIN, i64::MAX)
}

/// Reads `s[start..end]` as `str::parse::<i32>` does.
pub fn parse_i32_in(s: &Vec<char>, start: usize, end: usize) -> (r: Option<i32>)
    requires
        start <= end <= s@.len(),
    ensures
        r == parse_i32(s@.subrange(start as int, end as int)),
{
    match parse_signed_in(s, start, end, i32::MIN as i64, i32::MAX as i64) {
        Some(v) => Some(v as i32),
        None => None,
    }
}


/// `n` zeros.
pub open spec fn zeros(n: int) -> Seq<char> {
    Seq::new(if n > 0 { n as nat } else { 0 }, |i: int| '0')
}

/// The decimal text of `v` padded with zeros after the sign to at least `width`
/// characters, as the format `{:0width}` writes it.
pub open spec fn fmt_int_padded(v: int, width: nat) -> Seq<char> {
    let sign = if v < 0 {
        seq!['-']
    } else {
        Seq::<char>::empty()
    };
    let digits = fmt_nat(if v < 0 {
        (-v) as nat
    } else {
        v as nat
    });
    sign + zeros(width - sign.len() - digits.len()) + digits
}

/// Appends the decimal text of `v` padded with zeros after the sign to at least `width`
/// characters.
pub fn push_i64_padded(out: &mut Vec<char>, v: i64, width: usize)
    ensures
        final(out)@ == old(out)@ + fmt_int_padded(v as int, width as nat),
{
    let ghost before = out@;
    let mut digits: Vec<char> = Vec::new();
    let magnitude: u64 = if v < 0 {
        if v == i64::MIN {
            9223372036854775808u64
        } else {
            (-v) as u64
        }
    } else {
        v as u64
    };
    push_nat(&mut digits, magnitude);
    assert(digits@ =~= fmt_nat(if v < 0 {
        (-v) as nat
    } else {
        v as nat
    }));
    let sign_len: usize = if v < 0 {
        out.push('-');
        1
    } else {
        0
    };
    let ghost signed = out@;
    let dl = digits.len();
    let mut k: usize = 0;
    let pad: usize = if width > sign_len && width - sign_len > dl {
        width - sign_len - dl
    } else {
        0
    };
    while k < pad
        invariant
            k <= pad,
            out@ == signed + Seq::new(k as nat, |i: int| '0'),
        decreases pad - k,
    {
        out.push('0');
        k = k + 1;
        assert(out@ =~= signed + Seq::new(k as nat, |i: int| '0'));
    }
    assert(Seq::new(pad as nat, |i: int| '0') =~= zeros(width - sign_len - digits@.len()));
    out.append(&mut digits);
    assert(out@ =~= before + fmt_int_padded(v as int, width as nat));
}

} // verus!
