//! Decoding of one telemetry line of the machine's serial protocol.
//!
//! A line is ASCII text of seven comma-separated fields, such as
//! `C1.19,116,124,095,0560,0,0`. Every statement here is made over the
//! line's UTF-8 bytes: the separators, digits, signs and mode letters are
//! all single ASCII bytes, which never occur inside a multi-byte character.
use vstd::prelude::*;
use vstd::string::StringSliceAdditionalSpecFns;

verus! {

/// Byte of the field separator `,`.
pub const COMMA: u8 = 44;

/// Byte of `-`.
pub const MINUS: u8 = 45;

/// Byte of `+`.
pub const PLUS: u8 = 43;

/// Byte of `0`.
pub const ZERO: u8 = 48;

/// Byte of the mode letter `C` (coffee priority).
pub const MODE_COFFEE: u8 = 67;

/// Byte of the mode letter `V` (steam priority).
pub const MODE_STEAM: u8 = 86;

/// Number of fields in a telemetry line.
pub const FIELD_COUNT: usize = 7;

/// Which of its two priorities the machine runs in.
#[derive(Clone, Copy, Debug, PartialEq, Eq, Structural)]
pub enum MachineMode {
    Coffee,
    Steam,
}

/// One decoded sample of the machine's telemetry.
#[derive(Clone, Copy, Debug, PartialEq, Eq, Structural)]
pub struct TelemetryReading {
    pub machine_mode: MachineMode,
    pub steam_temperature: i64,
    pub target_steam_temperature: i64,
    pub hx_temperature: i64,
    pub countdown_boost_mode: i64,
    pub heating_element_on: bool,
    pub pump_on: bool,
}

/// Why a line could not be decoded.
#[derive(Clone, Copy, Debug, PartialEq, Eq, Structural)]
pub enum DecodeError {
    /// The line does not split into exactly seven fields.
    FieldCount,
    /// The mode field is empty.
    EmptyMode,
    /// The mode field starts with a letter other than `C` or `V`.
    UnknownMode,
    /// A numeric field is not a decimal integer that fits in an `i64`.
    Numeric,
    /// A flag field holds an integer other than 0 or 1.
    InvalidBoolean,
}

/// The fields of `s` between its commas, in order; a line without commas is
/// one field, and each comma adds one more (possibly empty) field.
pub open spec fn split_fields(s: Seq<u8>) -> Seq<Seq<u8>>
    decreases s.len(),
{
    if s.len() == 0 {
        seq![Seq::empty()]
    } else {
        let prev = split_fields(s.drop_last());
        if s.last() == COMMA {
            prev.push(Seq::empty())
        } else {
            prev.drop_last().push(prev.last().push(s.last()))
        }
    }
}

pub open spec fn is_digit(b: u8) -> bool {
    ZERO <= b && b <= ZERO + 9
}

pub open spec fn all_digits(s: Seq<u8>) -> bool {
    forall|i: int| 0 <= i < s.len() ==> is_digit(#[trigger] s[i])
}

/// The number that the decimal digits `s` spell, most significant first.
pub open spec fn digits_value(s: Seq<u8>) -> int
    decreases s.len(),
{
    if s.len() == 0 {
        0
    } else {
        digits_value(s.drop_last()) * 10 + (s.last() - ZERO)
    }
}

/// Whether `s` starts with a sign byte.
pub open spec fn has_sign(s: Seq<u8>) -> bool {
    s.len() > 0 && (s[0] == MINUS || s[0] == PLUS)
}

/// The integer that `s` spells: an optional `+` or `-`, then one or more
/// decimal digits, with a value in the range of `i64`. Anything else has none.
pub open spec fn parse_integer(s: Seq<u8>) -> Option<i64> {
    let digits = if has_sign(s) { s.drop_first() } else { s };
    let magnitude = digits_value(digits);
    let value = if s.len() > 0 && s[0] == MINUS { -magnitude } else { magnitude };
    if digits.len() == 0 || !all_digits(digits) {
        None
    } else if i64::MIN <= value && value <= i64::MAX {
        Some(value as i64)
    } else {
        None
    }
}

/// The machine mode that a mode field's first byte selects.
pub open spec fn mode_of(b: u8) -> Option<MachineMode> {
    if b == MODE_COFFEE {
        Some(MachineMode::Coffee)
    } else if b == MODE_STEAM {
        Some(MachineMode::Steam)
    } else {
        None
    }
}

pub open spec fn is_flag(v: i64) -> bool {
    v == 0 || v == 1
}

/// What decoding the line with bytes `s` gives. The fields are examined in
/// order, and the first one that is wrong decides the error.
pub open spec fn decode_bytes(s: Seq<u8>) -> Result<TelemetryReading, DecodeError> {
    let f = split_fields(s);
    if f.len() != FIELD_COUNT {
        Err(DecodeError::FieldCount)
    } else if f[0].len() == 0 {
        Err(DecodeError::EmptyMode)
    } else if mode_of(f[0][0]) is None {
        Err(DecodeError::UnknownMode)
    } else if parse_integer(f[1]) is None || parse_integer(f[2]) is None || parse_integer(
        f[3],
    ) is None || parse_integer(f[4]) is None || parse_integer(f[5]) is None {
        Err(DecodeError::Numeric)
    } else if !is_flag(parse_integer(f[5])->0) {
        Err(DecodeError::InvalidBoolean)
    } else if parse_integer(f[6]) is None {
        Err(DecodeError::Numeric)
    } else if !is_flag(parse_integer(f[6])->0) {
        Err(DecodeError::InvalidBoolean)
    } else {
        Ok(
            TelemetryReading {
                machine_mode: mode_of(f[0][0])->0,
                steam_temperature: parse_integer(f[1])->0,
                target_steam_temperature: parse_integer(f[2])->0,
                hx_temperature: parse_integer(f[3])->0,
                countdown_boost_mode: parse_integer(f[4])->0,
                heating_element_on: parse_integer(f[5])->0 == 1,
                pump_on: parse_integer(f[6])->0 == 1,
            },
        )
    }
}

proof fn lemma_split_nonempty(s: Seq<u8>)
    ensures
        split_fields(s).len() >= 1,
    decreases s.len(),
{
    if s.len() > 0 {
        lemma_split_nonempty(s.drop_last());
    }
}

proof fn lemma_digits_value_nonneg(s: Seq<u8>)
    requires
        all_digits(s),
    ensures
        digits_value(s) >= 0,
    decreases s.len(),
{
    if s.len() > 0 {
        lemma_digits_value_nonneg(s.drop_last());
    }
}

proof fn lemma_saturated_step(v: int, d: int, cap: int)
    requires
        v >= 0,
        0 <= d <= 9,
        cap > 0,
    ensures
        (if v < cap { v } else { cap }) * 10 + d >= cap ==> v * 10 + d >= cap,
        (if v < cap { v } else { cap }) * 10 + d < cap ==> v * 10 + d == (if v < cap { v } else { cap }) * 10 + d,
{
    assert(v >= cap ==> v * 10 + d >= cap) by (nonlinear_arith)
        requires v >= 0, d >= 0, cap > 0;
}

/// The line's fields, split at each comma.
fn split_line(s: &[u8]) -> (r: Vec<Vec<u8>>)
    ensures
        r@.len() == split_fields(s@).len(),
        forall|i: int| 0 <= i < r@.len() ==> #[trigger] r@[i]@ == split_fields(s@)[i],
{
    let mut done: Vec<Vec<u8>> = Vec::new();
    let mut cur: Vec<u8> = Vec::new();
    let mut i: usize = 0;
    while i < s.len()
        invariant
            i <= s@.len(),
            done@.len() + 1 == split_fields(s@.take(i as int)).len(),
            forall|j: int| 0 <= j < done@.len() ==> #[trigger] done@[j]@ == split_fields(s@.take(i as int))[j],
            cur@ == split_fields(s@.take(i as int)).last(),
        decreases s@.len() - i,
    {
        let b = s[i];
        proof {
            assert(s@.take(i as int + 1).drop_last() =~= s@.take(i as int));
            lemma_split_nonempty(s@.take(i as int));
        }
        if b == COMMA {
            done.push(cur);
            cur = Vec::new();
        } else {
            cur.push(b);
        }
        i = i + 1;
    }
    proof {
        assert(s@.take(s@.len() as int) =~= s@);
    }
    done.push(cur);
    done
}

/// The integer that the decimal text `s` spells, as `str::parse::<i64>` reads it.
pub fn parse_integer_field(s: &Vec<u8>) -> (r: Option<i64>)
    ensures
        r == parse_integer(s@),
{
    let n = s.len();
    let negative = n > 0 && s[0] == MINUS;
    let start: usize = if n > 0 && (s[0] == MINUS || s[0] == PLUS) { 1 } else { 0 };
    let ghost digits = if has_sign(s@) { s@.drop_first() } else { s@ };
    assert(digits =~= s@.subrange(start as int, n as int));
    if start == n {
        return None;
    }
    // The magnitude, held at most at `cap`: one more than the largest that
    // any `i64` has.
    let cap: u128 = 9223372036854775809;
    let mut acc: u128 = 0;
    let mut i: usize = start;
    while i < n
        invariant
            start <= i <= n,
            n == s@.len(),
            all_digits(s@.subrange(start as int, i as int)),
            acc as int == (if digits_value(s@.subrange(start as int, i as int)) < cap {
                digits_value(s@.subrange(start as int, i as int))
            } else {
                cap as int
            }),
            cap == 9223372036854775809,
            digits == s@.subrange(start as int, n as int),
            digits == (if has_sign(s@) { s@.drop_first() } else { s@ }),
            negative == (s@.len() > 0 && s@[0] == MINUS),
        decreases n - i,
    {
        let b = s[i];
        if b < ZERO || b > ZERO + 9 {
            proof {
                assert(!is_digit(digits[i - start]));
                assert(!all_digits(digits));
            }
            return None;
        }
        let ghost prefix = s@.subrange(start as int, i as int);
        let ghost next = s@.subrange(start as int, i as int + 1);
        proof {
            assert(next.drop_last() =~= prefix);
            assert(all_digits(next));
            lemma_digits_value_nonneg(prefix);
            lemma_saturated_step(digits_value(prefix), (b - ZERO) as int, cap as int);
        }
        let step = acc * 10 + (b - ZERO) as u128;
        acc = if step < cap { step } else { cap };
        i = i + 1;
    }
    proof {
        lemma_digits_value_nonneg(digits);
    }
    if negative {
        if acc <= 9223372036854775808 {
            Some((0 - acc as i128) as i64)
        } else {
            None
        }
    } else {
        if acc <= 9223372036854775807 {
            Some(acc as i64)
        } else {
            None
        }
    }
}

/// Decodes one telemetry line.
///
/// Succeeds exactly on a line of seven comma-separated fields whose first
/// field starts with `C` (coffee) or `V` (steam), whose next four fields are
/// integers and whose last two are the integers 0 or 1; the reading then
/// holds those values. Otherwise the error names the first field at fault.
pub fn decode(line: &str) -> (r: Result<TelemetryReading, DecodeError>)
    ensures
        r == decode_bytes(line.spec_bytes()),
{
    let bytes = line.as_bytes();
    let f = split_line(bytes);
    if f.len() != FIELD_COUNT {
        return Err(DecodeError::FieldCount);
    }
    if f[0].len() == 0 {
        return Err(DecodeError::EmptyMode);
    }
    let first = f[0][0];
    let machine_mode = if first == MODE_COFFEE {
        MachineMode::Coffee
    } else if first == MODE_STEAM {
        MachineMode::Steam
    } else {
        return Err(DecodeError::UnknownMode);
    };
    let steam_temperature = match parse_integer_field(&f[1]) {
        Some(v) => v,
        None => return Err(DecodeError::Numeric),
    };
    let target_steam_temperature = match parse_integer_field(&f[2]) {
        Some(v) => v,
        None => return Err(DecodeError::Numeric),
    };
    let hx_temperature = match parse_integer_field(&f[3]) {
        Some(v) => v,
        None => return Err(DecodeError::Numeric),
    };
    let countdown_boost_mode = match parse_integer_field(&f[4]) {
        Some(v) => v,
        None => return Err(DecodeError::Numeric),
    };
    let heating = match parse_integer_field(&f[5]) {
        Some(v) => v,
        None => return Err(DecodeError::Numeric),
    };
    if heating != 0 && heating != 1 {
        return Err(DecodeError::InvalidBoolean);
    }
    let pump = match parse_integer_field(&f[6]) {
        Some(v) => v,
        None => return Err(DecodeError::Numeric),
    };
    if pump != 0 && pump != 1 {
        return Err(DecodeError::InvalidBoolean);
    }
    Ok(
        TelemetryReading {
            machine_mode,
            steam_temperature,
            target_steam_temperature,
            hx_temperature,
            countdown_boost_mode,
            heating_element_on: heating == 1,
            pump_on: pump == 1,
        },
    )
}

/// Whether `s` holds no comma.
pub open spec fn comma_free(s: Seq<u8>) -> bool {
    forall|i: int| 0 <= i < s.len() ==> #[trigger] s[i] != COMMA
}

/// The fields `f` written one after the other with a comma between each two.
pub open spec fn join_fields(f: Seq<Seq<u8>>) -> Seq<u8>
    decreases f.len(),
{
    if f.len() == 0 {
        Seq::empty()
    } else if f.len() == 1 {
        f[0]
    } else {
        join_fields(f.drop_last()).push(COMMA) + f.last()
    }
}

proof fn lemma_split_append_comma_free(x: Seq<u8>, b: Seq<u8>)
    requires
        comma_free(b),
    ensures
        split_fields(x + b) == split_fields(x).drop_last().push(split_fields(x).last() + b),
    decreases b.len(),
{
    lemma_split_nonempty(x);
    if b.len() == 0 {
        assert(x + b =~= x);
        assert(split_fields(x).last() + b =~= split_fields(x).last());
        assert(split_fields(x).drop_last().push(split_fields(x).last()) =~= split_fields(x));
    } else {
        let b0 = b.drop_last();
        assert(comma_free(b0)) by {
            assert forall|i: int| 0 <= i < b0.len() implies #[trigger] b0[i] != COMMA by {
                assert(b0[i] == b[i]);
            }
        }
        lemma_split_append_comma_free(x, b0);
        assert((x + b).drop_last() =~= x + b0);
        assert((x + b).last() == b[b.len() - 1]);
        let p = split_fields(x + b0);
        assert(p.drop_last() =~= split_fields(x).drop_last());
        assert(p.last() == split_fields(x).last() + b0);
        assert((split_fields(x).last() + b0).push(b.last()) =~= split_fields(x).last() + b);
        assert(split_fields(x + b) =~= split_fields(x).drop_last().push(
            split_fields(x).last() + b,
        ));
    }
}

/// Splitting comma-free fields joined by commas gives the fields back.
pub proof fn lemma_split_join(f: Seq<Seq<u8>>)
    requires
        f.len() >= 1,
        forall|i: int| 0 <= i < f.len() ==> comma_free(#[trigger] f[i]),
    ensures
        split_fields(join_fields(f)) == f,
    decreases f.len(),
{
    if f.len() == 1 {
        assert(comma_free(f[0]));
        lemma_split_append_comma_free(Seq::empty(), f[0]);
        assert(Seq::<u8>::empty() + f[0] =~= f[0]);
        assert(split_fields(Seq::<u8>::empty()) == seq![Seq::<u8>::empty()]);
        assert(split_fields(join_fields(f)) =~= f);
    } else {
        let g = f.drop_last();
        assert forall|i: int| 0 <= i < g.len() implies comma_free(#[trigger] g[i]) by {
            assert(g[i] == f[i]);
        }
        lemma_split_join(g);
        let x = join_fields(g).push(COMMA);
        assert(x.drop_last() =~= join_fields(g));
        assert(split_fields(x) == g.push(Seq::empty()));
        assert(comma_free(f[f.len() - 1]));
        lemma_split_append_comma_free(x, f.last());
        assert(g.push(Seq::empty()).drop_last() =~= g);
        assert(Seq::<u8>::empty() + f.last() =~= f.last());
        assert(split_fields(join_fields(f)) =~= f);
    }
}

/// A line of seven comma-free fields, the first starting with `C` or `V`,
/// the next four integers and the last two the integers 0 or 1, decodes;
/// each field comes through unchanged into the reading.
pub proof fn lemma_well_formed_line_round_trips(f: Seq<Seq<u8>>)
    requires
        f.len() == FIELD_COUNT,
        forall|i: int| 0 <= i < f.len() ==> comma_free(#[trigger] f[i]),
        f[0].len() > 0,
        mode_of(f[0][0]) is Some,
        forall|i: int| 1 <= i < f.len() ==> #[trigger] parse_integer(f[i]) is Some,
        is_flag(parse_integer(f[5])->0),
        is_flag(parse_integer(f[6])->0),
    ensures
        decode_bytes(join_fields(f)) == Ok::<TelemetryReading, DecodeError>(
            TelemetryReading {
                machine_mode: mode_of(f[0][0])->0,
                steam_temperature: parse_integer(f[1])->0,
                target_steam_temperature: parse_integer(f[2])->0,
                hx_temperature: parse_integer(f[3])->0,
                countdown_boost_mode: parse_integer(f[4])->0,
                heating_element_on: parse_integer(f[5])->0 == 1,
                pump_on: parse_integer(f[6])->0 == 1,
            },
        ),
{
    lemma_split_join(f);
    assert(parse_integer(f[1]) is Some);
    assert(parse_integer(f[2]) is Some);
    assert(parse_integer(f[3]) is Some);
    assert(parse_integer(f[4]) is Some);
    assert(parse_integer(f[5]) is Some);
    assert(parse_integer(f[6]) is Some);
}

/// A line that does not split into seven fields fails with `FieldCount`,
/// whatever its fields hold.
pub proof fn lemma_wrong_field_count_fails(line: Seq<u8>)
    requires
        split_fields(line).len() != FIELD_COUNT,
    ensures
        decode_bytes(line) == Err::<TelemetryReading, DecodeError>(DecodeError::FieldCount),
{
}

} // verus!
