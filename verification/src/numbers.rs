//! Unsigned integer parsing with the semantics of `str::parse` and `from_str_radix`.
use vstd::prelude::*;

verus! {

/// Why an integer could not be parsed.
#[derive(Debug, Clone, Copy, PartialEq, Eq, Structural)]
pub enum IntErrorKind {
    Empty,
    InvalidDigit,
    PosOverflow,
}

pub open spec fn spec_int_error_message(kind: IntErrorKind) -> Seq<char> {
    match kind {
        IntErrorKind::Empty => "cannot parse integer from empty string"@,
        IntErrorKind::InvalidDigit => "invalid digit found in string"@,
        IntErrorKind::PosOverflow => "number too large to fit in target type"@,
    }
}

/// The text an integer parse error displays.
pub fn int_error_message(kind: IntErrorKind) -> (r: &'static str)
    ensures
        r@ == spec_int_error_message(kind),
{
    match kind {
        IntErrorKind::Empty => "cannot parse integer from empty string",
        IntErrorKind::InvalidDigit => "invalid digit found in string",
        IntErrorKind::PosOverflow => "number too large to fit in target type",
    }
}

/// The value of `c` as a digit in base `radix` (10 or 16), if it is one.
pub open spec fn digit_value(c: char, radix: nat) -> Option<nat> {
    if '0' <= c && c <= '9' {
        Some((c as u32 - '0' as u32) as nat)
    } else if radix == 16 && 'a' <= c && c <= 'f' {
        Some((c as u32 - 'a' as u32 + 10) as nat)
    } else if radix == 16 && 'A' <= c && c <= 'F' {
        Some((c as u32 - 'A' as u32 + 10) as nat)
    } else {
        None
    }
}

/// Reads the digits of `s` left to right onto `acc`, failing at the first character that is
/// not a digit or at the first digit that takes the value past `limit`.
pub open spec fn scan_digits(s: Seq<char>, radix: nat, acc: nat, limit: nat) -> Result<nat, IntErrorKind>
    decreases s.len(),
{
    if s.len() == 0 {
        Ok(acc)
    } else {
        match digit_value(s[0], radix) {
            None => Err(IntErrorKind::InvalidDigit),
            Some(d) => if acc * radix + d > limit {
                Err(IntErrorKind::PosOverflow)
            } else {
                scan_digits(s.drop_first(), radix, acc * radix + d, limit)
            },
        }
    }
}

/// Parses an unsigned integer in base `radix` no larger than `limit`: an optional `+`, then
/// one or more digits.
pub open spec fn parse_unsigned(s: Seq<char>, radix: nat, limit: nat) -> Result<nat, IntErrorKind> {
    if s.len() == 0 {
        Err(IntErrorKind::Empty)
    } else {
        let digits = if s[0] == '+' {
            s.drop_first()
        } else {
            s
        };
        if digits.len() == 0 {
            Err(IntErrorKind::InvalidDigit)
        } else {
            scan_digits(digits, radix, 0, limit)
        }
    }
}

fn digit_value_exec(c: char, radix: u32) -> (r: Option<u32>)
    requires
        radix == 10 || radix == 16,
    ensures
        r matches Some(d) ==> digit_value(c, radix as nat) == Some(d as nat) && d < radix,
        r is None ==> digit_value(c, radix as nat) is None,
{
    if '0' <= c && c <= '9' {
        Some(c as u32 - '0' as u32)
    } else if radix == 16 && 'a' <= c && c <= 'f' {
        Some(c as u32 - 'a' as u32 + 10)
    } else if radix == 16 && 'A' <= c && c <= 'F' {
        Some(c as u32 - 'A' as u32 + 10)
    } else {
        None
    }
}

/// Parses `v[from..to]` as an unsigned integer in base `radix` (10 or 16) no larger than `limit`.
pub fn parse_unsigned_range(v: &Vec<char>, from: usize, to: usize, radix: u32, limit: u64) -> (r:
    Result<u64, IntErrorKind>)
    requires
        from <= to <= v.len(),
        radix == 10 || radix == 16,
    ensures
        match (r, parse_unsigned(v@.subrange(from as int, to as int), radix as nat, limit as nat)) {
            (Ok(a), Ok(b)) => a as nat == b,
            (Err(a), Err(b)) => a == b,
            _ => false,
        },
        r matches Ok(a) ==> a <= limit,
{
    let ghost s = v@.subrange(from as int, to as int);
    if from == to {
        return Err(IntErrorKind::Empty);
    }
    let mut i = from;
    if v[from] == '+' {
        i = from + 1;
    }
    let ghost digits = v@.subrange(i as int, to as int);
    assert(digits =~= if s[0] == '+' {
        s.drop_first()
    } else {
        s
    });
    if i == to {
        return Err(IntErrorKind::InvalidDigit);
    }
    let mut acc: u64 = 0;
    assert(parse_unsigned(s, radix as nat, limit as nat) == scan_digits(digits, radix as nat, 0, limit as nat));
    while i < to
        invariant
            from <= i <= to <= v.len(),
            s == v@.subrange(from as int, to as int),
            parse_unsigned(s, radix as nat, limit as nat) == scan_digits(digits, radix as nat, 0, limit as nat),
            radix == 10 || radix == 16,
            acc <= limit,
            scan_digits(digits, radix as nat, 0, limit as nat) == scan_digits(
                v@.subrange(i as int, to as int),
                radix as nat,
                acc as nat,
                limit as nat,
            ),
        decreases to - i,
    {
        let ghost rest = v@.subrange(i as int, to as int);
        assert(rest[0] == v@[i as int]);
        assert(rest.drop_first() =~= v@.subrange(i + 1, to as int));
        let d = match digit_value_exec(v[i], radix) {
            Some(d) => d,
            None => return Err(IntErrorKind::InvalidDigit),
        };
        assert(acc as int * radix as int <= 18446744073709551615 * 16) by (nonlinear_arith)
            requires
                acc <= 18446744073709551615,
                radix <= 16,
        ;
        let next: u128 = acc as u128 * radix as u128 + d as u128;
        if next > limit as u128 {
            return Err(IntErrorKind::PosOverflow);
        }
        acc = next as u64;
        i += 1;
    }
    assert(v@.subrange(i as int, to as int).len() == 0);
    Ok(acc)
}

} // verus!
