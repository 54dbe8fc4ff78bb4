//! Startup configuration: the bot token and the two numeric identifiers.
//!
//! The process reads three environment values at its edge and hands the
//! raw strings here. A malformed value is fatal at startup, so the parse
//! states exactly which strings it accepts: a non-empty run of decimal
//! digits whose value fits in 64 bits.

use vstd::prelude::*;

verus! {

/// A decimal digit `'0'` through `'9'`.
pub open spec fn is_dec_digit(c: char) -> bool {
    48 <= c as int <= 57
}

/// The numeric value of one decimal digit.
pub open spec fn digit_value(c: char) -> nat
    recommends
        is_dec_digit(c),
{
    (c as int - 48) as nat
}

/// Every character of `s` is a decimal digit.
pub open spec fn all_dec_digits(s: Seq<char>) -> bool {
    forall|i: int| 0 <= i < s.len() ==> is_dec_digit(s[i])
}

/// The value of `s` read as a base-ten numeral, most significant digit
/// first; the empty sequence reads as zero.
pub open spec fn decimal_value(s: Seq<char>) -> nat
    recommends
        all_dec_digits(s),
    decreases s.len(),
{
    if s.len() == 0 {
        0
    } else {
        decimal_value(s.drop_last()) * 10 + digit_value(s.last())
    }
}

/// The strings accepted as a 64-bit identifier: non-empty, digits only,
/// and small enough to fit.
pub open spec fn parses_to_u64(s: Seq<char>) -> bool {
    &&& s.len() > 0
    &&& all_dec_digits(s)
    &&& decimal_value(s) <= u64::MAX
}

/// Reading more digits never shrinks a numeral's value.
proof fn lemma_decimal_value_prefix_le(s: Seq<char>, i: int, j: int)
    requires
        0 <= i <= j <= s.len(),
    ensures
        decimal_value(s.subrange(0, i)) <= decimal_value(s.subrange(0, j)),
    decreases j - i,
{
    if i < j {
        lemma_decimal_value_prefix_le(s, i, j - 1);
        assert(s.subrange(0, j).drop_last() =~= s.subrange(0, j - 1));
    }
}

/// Parses a base-ten numeral. Returns the value exactly when `s` is a
/// non-empty run of decimal digits that fits in a `u64`, and nothing
/// otherwise.
pub fn parse_u64(s: &str) -> (r: Option<u64>)
    ensures
        r is Some <==> parses_to_u64(s@),
        r matches Some(v) ==> v == decimal_value(s@),
{
    let n = s.unicode_len();
    if n == 0 {
        return None;
    }
    let mut value: u64 = 0;
    let mut i: usize = 0;
    while i < n
        invariant
            n == s@.len(),
            i <= n,
            all_dec_digits(s@.subrange(0, i as int)),
            value == decimal_value(s@.subrange(0, i as int)),
        decreases n - i,
    {
        let c = s.get_char(i);
        let u = c as u32;
        if u < 48 || u > 57 {
            assert(!is_dec_digit(s@[i as int]));
            return None;
        }
        let d = (u - 48) as u64;
        let shifted = match value.checked_mul(10) {
            Some(x) => x,
            None => {
                proof {
                    lemma_value_overflows(s@, i as int, value as nat, d as nat);
                }
                return None;
            },
        };
        let next = match shifted.checked_add(d) {
            Some(x) => x,
            None => {
                proof {
                    lemma_value_overflows(s@, i as int, value as nat, d as nat);
                }
                return None;
            },
        };
        proof {
            assert(s@.subrange(0, i + 1).drop_last() =~= s@.subrange(0, i as int));
            assert(all_dec_digits(s@.subrange(0, i + 1)));
        }
        value = next;
        i = i + 1;
    }
    proof {
        assert(s@.subrange(0, n as int) =~= s@);
    }
    Some(value)
}

/// When the next digit would push the running value past `u64::MAX`, the
/// whole numeral is out of range, so rejecting the string is right.
proof fn lemma_value_overflows(s: Seq<char>, i: int, value: nat, d: nat)
    requires
        0 <= i < s.len(),
        value == decimal_value(s.subrange(0, i)),
        is_dec_digit(s[i]),
        d == digit_value(s[i]),
        value * 10 + d > u64::MAX,
    ensures
        decimal_value(s) > u64::MAX,
{
    assert(s.subrange(0, i + 1).drop_last() =~= s.subrange(0, i));
    assert(s.subrange(0, i + 1).last() == s[i]);
    assert(decimal_value(s.subrange(0, i + 1)) == value * 10 + d);
    lemma_decimal_value_prefix_le(s, i + 1, s.len() as int);
    assert(s.subrange(0, s.len() as int) =~= s);
}

/// Why startup configuration was rejected.
#[derive(Clone, Copy, PartialEq, Eq, Structural, Debug)]
pub enum ConfigError {
    /// The application id was not a decimal number that fits in 64 bits.
    BadApplicationId,
    /// The guild id was not a decimal number that fits in 64 bits.
    BadGuildId,
}

/// The values the bot needs before it connects.
#[derive(Debug)]
pub struct BotConfig {
    pub token: String,
    pub application_id: u64,
    pub guild_id: u64,
}

/// Checks the raw configuration strings. Accepts exactly when both ids
/// are in-range decimal numerals; the first failing value, application id
/// before guild id, names the error. The token is opaque and kept as is.
pub fn parse_config(token: String, application_id: &str, guild_id: &str) -> (r: Result<
    BotConfig,
    ConfigError,
>)
    ensures
        r is Ok <==> parses_to_u64(application_id@) && parses_to_u64(guild_id@),
        r matches Ok(c) ==> {
            &&& c.token@ == token@
            &&& c.application_id == decimal_value(application_id@)
            &&& c.guild_id == decimal_value(guild_id@)
        },
        !parses_to_u64(application_id@) ==> r == Result::<BotConfig, ConfigError>::Err(
            ConfigError::BadApplicationId,
        ),
        parses_to_u64(application_id@) && !parses_to_u64(guild_id@) ==> r == Result::<
            BotConfig,
            ConfigError,
        >::Err(ConfigError::BadGuildId),
{
    let application_id = match parse_u64(application_id) {
        Some(v) => v,
        None => {
            return Err(ConfigError::BadApplicationId);
        },
    };
    let guild_id = match parse_u64(guild_id) {
        Some(v) => v,
        None => {
            return Err(ConfigError::BadGuildId);
        },
    };
    Ok(BotConfig { token, application_id, guild_id })
}

} // verus!
