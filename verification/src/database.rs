//! The size of the pool of connections to the record store, as configured.

use vstd::prelude::*;
use vstd::string::StringSliceAdditionalSpecFns;

verus! {

/// The most connections the pool holds when nothing else is configured.
pub const DEFAULT_MAX_SIZE: u32 = 64;

/// The idle connections the pool keeps when nothing else is configured.
pub const DEFAULT_MIN_IDLE: u32 = 32;

/// The byte `+`, which may stand before the digits of a number.
pub const PLUS: u8 = 0x2B;

/// The byte `0`; the other digits follow it.
pub const ZERO: u8 = 0x30;

/// How large the pool of connections is to be.
#[derive(Clone, Copy, Debug, PartialEq, Eq)]
pub struct PoolSettings {
    /// The most connections that the pool holds.
    pub max_size: u32,
    /// The idle connections that the pool tries to keep.
    pub min_idle: u32,
}

impl PoolSettings {
    /// Whether a pool can be built with the settings: it holds at least one
    /// connection, and keeps no more idle than it holds.
    pub open spec fn buildable(self) -> bool {
        0 < self.max_size && self.min_idle <= self.max_size
    }

    /// Computes [`PoolSettings::buildable`].
    pub fn is_buildable(&self) -> (b: bool)
        ensures
            b == self.buildable(),
    {
        0 < self.max_size && self.min_idle <= self.max_size
    }
}

/// Whether `byte` is a decimal digit.
pub open spec fn is_digit(byte: u8) -> bool {
    ZERO <= byte <= ZERO + 9
}

/// The number that the decimal digits `digits` write, if all of them are
/// digits. No digits write 0.
pub open spec fn digits_value(digits: Seq<u8>) -> Option<nat>
    decreases digits.len(),
{
    if digits.len() == 0 {
        Some(0)
    } else if !is_digit(digits.last()) {
        None
    } else {
        match digits_value(digits.drop_last()) {
            Some(value) => Some((value * 10 + (digits.last() - ZERO)) as nat),
            None => None,
        }
    }
}

/// The digits of a number: the text without the `+` that may stand first.
pub open spec fn unsigned_part(text: Seq<u8>) -> Seq<u8> {
    if text.len() > 0 && text[0] == PLUS {
        text.drop_first()
    } else {
        text
    }
}

/// The number that `text` writes: one or more decimal digits, with or without
/// a `+` before them, whose value fits in 32 bits. Anything else writes no
/// number: no digits, another sign, a space, a digit too many.
pub open spec fn decimal_u32(text: Seq<u8>) -> Option<u32> {
    let digits = unsigned_part(text);
    if digits.len() == 0 {
        None
    } else {
        match digits_value(digits) {
            Some(value) => if value <= u32::MAX {
                Some(value as u32)
            } else {
                None
            },
            None => None,
        }
    }
}

/// The value of a setting: the number that its text writes, and `default`
/// where the setting is absent or writes no number.
pub open spec fn setting_or(text: Option<Seq<u8>>, default: u32) -> u32 {
    match text {
        Some(bytes) => match decimal_u32(bytes) {
            Some(number) => number,
            None => default,
        },
        None => default,
    }
}

/// The bytes of a setting's text.
pub open spec fn setting_bytes(text: Option<&str>) -> Option<Seq<u8>> {
    match text {
        Some(value) => Some(value.spec_bytes()),
        None => None,
    }
}

/// The digits that come first are worth no more than all of them.
pub proof fn lemma_digits_value_grows(digits: Seq<u8>, count: int)
    requires
        0 <= count <= digits.len(),
        digits_value(digits) is Some,
    ensures
        digits_value(digits.take(count)) is Some,
        digits_value(digits.take(count))->0 <= digits_value(digits)->0,
    decreases digits.len() - count,
{
    if count == digits.len() {
        assert(digits.take(count) == digits);
    } else {
        lemma_digits_value_grows(digits.drop_last(), count);
        assert(digits.drop_last().take(count) == digits.take(count));
    }
}

/// Once a digit is no digit, the text writes no number, however it goes on.
pub proof fn lemma_digits_value_fails(digits: Seq<u8>, at: int)
    requires
        0 <= at < digits.len(),
        !is_digit(digits[at]),
    ensures
        digits_value(digits) is None,
    decreases digits.len(),
{
    if at < digits.len() - 1 {
        lemma_digits_value_fails(digits.drop_last(), at);
    }
}

/// Computes [`decimal_u32`].
pub fn parse_u32(text: &[u8]) -> (number: Option<u32>)
    ensures
        number == decimal_u32(text@),
{
    let len: usize = text.len();
    let start: usize = if len > 0 && text[0] == PLUS {
        1
    } else {
        0
    };
    if start == len {
        return None;
    }
    let ghost digits = unsigned_part(text@);
    assert(digits == text@.subrange(start as int, len as int));
    let mut value: u64 = 0;
    let mut i: usize = start;
    while i < len
        invariant
            start <= i <= len == text.len(),
            start < len,
            digits == unsigned_part(text@),
            digits == text@.subrange(start as int, len as int),
            digits_value(digits.take(i - start)) == Some(value as nat),
            value <= u32::MAX,
        decreases len - i,
    {
        let byte: u8 = text[i];
        if byte < ZERO || byte > ZERO + 9 {
            proof {
                assert(digits[i - start] == byte);
                lemma_digits_value_fails(digits, i - start);
            }
            return None;
        }
        let next: u64 = value * 10 + (byte - ZERO) as u64;
        proof {
            let longer = digits.take(i - start + 1);
            assert(longer.drop_last() == digits.take(i - start));
            assert(longer.last() == byte);
            assert(digits_value(longer) == Some(next as nat));
        }
        if next > u32::MAX as u64 {
            proof {
                if digits_value(digits) is Some {
                    lemma_digits_value_grows(digits, i - start + 1);
                }
            }
            return None;
        }
        value = next;
        i += 1;
    }
    assert(digits.take(len - start) == digits);
    Some(value as u32)
}

/// Computes [`setting_or`].
pub fn read_setting(text: Option<&str>, default: u32) -> (value: u32)
    ensures
        value == setting_or(setting_bytes(text), default),
{
    match text {
        Some(written) => match parse_u32(written.as_bytes()) {
            Some(number) => number,
            None => default,
        },
        None => default,
    }
}

/// The settings of the pool of connections: the size and the number of idle
/// connections as configured, each with its default where it is not set or
/// is no number.
pub fn get_connection_pool(max_size: Option<&str>, min_idle: Option<&str>) -> (settings:
    PoolSettings)
    ensures
        settings.max_size == setting_or(setting_bytes(max_size), DEFAULT_MAX_SIZE),
        settings.min_idle == setting_or(setting_bytes(min_idle), DEFAULT_MIN_IDLE),
{
    PoolSettings {
        max_size: read_setting(max_size, DEFAULT_MAX_SIZE),
        min_idle: read_setting(min_idle, DEFAULT_MIN_IDLE),
    }
}

} // verus!
