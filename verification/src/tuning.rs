//! Tuning knobs of the background pipeline, read from environment values.
//! The caller reads the environment and hands the raw value (or `None`) in.
use vstd::prelude::*;

use crate::background::BackgroundManager;
use crate::text::{chars_eq, is_ascii_digit, to_chars};

verus! {

/// The value of a decimal numeral.
pub open spec fn digits_value(d: Seq<char>) -> nat
    decreases d.len(),
{
    if d.len() == 0 {
        0
    } else {
        digits_value(d.drop_last()) * 10 + ((d.last() as nat) - 48) as nat
    }
}

/// The digits of a numeral: the text after an optional leading `+`.
pub open spec fn numeral_digits(s: Seq<char>) -> Seq<char> {
    if s.len() > 0 && s[0] == '+' {
        s.drop_first()
    } else {
        s
    }
}

/// What `str::parse` makes of an unsigned integer: an optional `+` followed
/// by at least one ASCII digit and nothing else; `None` otherwise.
pub open spec fn unsigned_value(s: Seq<char>) -> Option<nat> {
    let d = numeral_digits(s);
    if d.len() > 0 && (forall|i: int| 0 <= i < d.len() ==> is_ascii_digit(#[trigger] d[i])) {
        Some(digits_value(d))
    } else {
        None
    }
}

/// What a parse bounded by `limit` gives: the value of a well-formed numeral
/// when it is at most `limit`, `None` otherwise.
pub open spec fn bounded_value(s: Seq<char>, limit: nat) -> Option<nat> {
    match unsigned_value(s) {
        Some(v) => if v <= limit {
            Some(v)
        } else {
            None
        },
        None => None,
    }
}

/// Parses an unsigned decimal numeral as `str::parse` does for an unsigned
/// integer type whose largest value is `limit`: an optional `+`, then one or
/// more ASCII digits; a value above `limit` is refused.
fn parse_bounded(s: &str, limit: u64) -> (r: Option<u64>)
    ensures
        r matches Some(v) ==> bounded_value(s@, limit as nat) == Some(v as nat),
        r is None ==> bounded_value(s@, limit as nat) is None,
{
    let c = to_chars(s);
    let start: usize = if c.len() > 0 && c[0] == '+' {
        1
    } else {
        0
    };
    let ghost d = numeral_digits(s@);
    assert(d =~= c@.subrange(start as int, c@.len() as int));
    if start >= c.len() {
        return None;
    }
    let mut i: usize = start;
    let mut value: u64 = 0;
    let mut over = false;
    while i < c.len()
        invariant
            start <= i <= c.len(),
            start < c.len(),
            c@ == s@,
            d == numeral_digits(s@),
            d == c@.subrange(start as int, c@.len() as int),
            forall|j: int| start <= j < i ==> is_ascii_digit(#[trigger] c@[j]),
            !over ==> value as nat == digits_value(c@.subrange(start as int, i as int)),
            !over ==> value <= limit,
            over ==> digits_value(c@.subrange(start as int, i as int)) > limit,
        decreases c.len() - i,
    {
        let ch = c[i];
        if ch < '0' || ch > '9' {
            assert(d[i - start] == ch);
            assert(!is_ascii_digit(ch));
            return None;
        }
        assert(is_ascii_digit(ch));
        let ghost prev = c@.subrange(start as int, i as int);
        let ghost next = c@.subrange(start as int, i + 1);
        assert(next.drop_last() =~= prev);
        assert(next.last() == c@[i as int]);
        assert(digits_value(next) == digits_value(prev) * 10 + ((c@[i as int] as nat) - 48) as nat);
        let digit = (ch as u32 - 48) as u64;
        if !over {
            match value.checked_mul(10) {
                Some(m) => match m.checked_add(digit) {
                    Some(n) => {
                        if n <= limit {
                            value = n;
                        } else {
                            over = true;
                        }
                    },
                    None => {
                        over = true;
                    },
                },
                None => {
                    over = true;
                },
            }
        }
        i += 1;
    }
    assert(c@.subrange(start as int, i as int) == d);
    if over {
        None
    } else {
        Some(value)
    }
}

/// An unsigned decimal numeral as a `u64`, as `str::parse::<u64>` reads it:
/// `None` for a malformed numeral or one above `u64::MAX`.
pub(crate) fn parse_u64(s: &str) -> (r: Option<u64>)
    ensures
        r == (match unsigned_value(s@) {
            Some(v) => if v <= u64::MAX {
                Some(v as u64)
            } else {
                None
            },
            None => None,
        }),
{
    parse_bounded(s, u64::MAX)
}

/// An unsigned decimal numeral as a `usize`, as `str::parse::<usize>` reads
/// it: `None` for a malformed numeral or one above `usize::MAX`.
pub(crate) fn parse_usize(s: &str) -> (r: Option<usize>)
    ensures
        r == (match unsigned_value(s@) {
            Some(v) => if v <= usize::MAX {
                Some(v as usize)
            } else {
                None
            },
            None => None,
        }),
{
    match parse_bounded(s, usize::MAX as u64) {
        Some(v) => Some(v as usize),
        None => None,
    }
}

/// An unsigned decimal numeral as a `u32`, as `str::parse::<u32>` reads it:
/// `None` for a malformed numeral or one above `u32::MAX`.
pub(crate) fn parse_u32(s: &str) -> (r: Option<u32>)
    ensures
        r == (match unsigned_value(s@) {
            Some(v) => if v <= u32::MAX {
                Some(v as u32)
            } else {
                None
            },
            None => None,
        }),
{
    match parse_bounded(s, u32::MAX as u64) {
        Some(v) => Some(v as u32),
        None => None,
    }
}

/// The spellings that switch a flag on.
pub open spec fn flag_on(v: Seq<char>) -> bool {
    v == "1"@ || v == "true"@ || v == "TRUE"@ || v == "yes"@ || v == "YES"@
}

/// Whether an environment flag is set: present and one of `1`, `true`,
/// `TRUE`, `yes`, `YES`.
pub fn env_flag(value: Option<&str>) -> (r: bool)
    ensures
        r == (match value {
            Some(v) => flag_on(v@),
            None => false,
        }),
{
    match value {
        None => false,
        Some(v) => {
            let c = to_chars(v);
            chars_eq(&c, "1") || chars_eq(&c, "true") || chars_eq(&c, "TRUE") || chars_eq(
                &c,
                "yes",
            ) || chars_eq(&c, "YES")
        },
    }
}

/// A duration setting in seconds: the parsed value raised to at least
/// `min_secs`, or `default_secs` when the value is absent or not a number.
pub open spec fn duration_setting(value: Option<Seq<char>>, default_secs: u64, min_secs: u64) -> u64 {
    match value {
        Some(v) => match unsigned_value(v) {
            Some(n) => if n <= u64::MAX {
                if n < min_secs {
                    min_secs
                } else {
                    n as u64
                }
            } else {
                default_secs
            },
            None => default_secs,
        },
        None => default_secs,
    }
}

pub open spec fn opt_view(o: Option<&str>) -> Option<Seq<char>> {
    match o {
        Some(s) => Some(s@),
        None => None,
    }
}

/// A duration setting in seconds (see [`duration_setting`]).
pub fn env_duration_secs(value: Option<&str>, default_secs: u64, min_secs: u64) -> (r: u64)
    ensures
        r == duration_setting(opt_view(value), default_secs, min_secs),
{
    match value {
        None => default_secs,
        Some(v) => match parse_u64(v) {
            Some(n) => if n < min_secs {
                min_secs
            } else {
                n
            },
            None => default_secs,
        },
    }
}

pub const UPDATE_INITIAL_DELAY_SECS: u64 = 60;

pub const UPDATE_INTERVAL_SECS: u64 = 86400;

impl BackgroundManager {
    /// Whether the first-run metadata seed runs: unless the skip flag
    /// (`REPLAY_CONTROL_SKIP_FIRST_RUN_SEED`) is set.
    pub fn first_run_seed_enabled(skip_flag: Option<&str>) -> (r: bool)
        ensures
            r == !(match skip_flag {
                Some(v) => flag_on(v@),
                None => false,
            }),
    {
        !env_flag(skip_flag)
    }

    /// Seconds before the first update check
    /// (`REPLAY_CONTROL_UPDATE_INITIAL_DELAY_SECS`, default 60).
    pub fn update_initial_delay(value: Option<&str>) -> (r: u64)
        ensures
            r == duration_setting(opt_view(value), UPDATE_INITIAL_DELAY_SECS, 0),
    {
        env_duration_secs(value, UPDATE_INITIAL_DELAY_SECS, 0)
    }

    /// Seconds between update checks (`REPLAY_CONTROL_UPDATE_INTERVAL_SECS`,
    /// default one day, at least one second).
    pub fn update_interval(value: Option<&str>) -> (r: u64)
        ensures
            r == duration_setting(opt_view(value), UPDATE_INTERVAL_SECS, 1),
            r >= 1,
    {
        env_duration_secs(value, UPDATE_INTERVAL_SECS, 1)
    }

    /// The number of identity workers (`REPLAY_CONTROL_IDENTITY_WORKERS`): the
    /// value when it is a number from 1 to 4, two otherwise.
    pub fn identity_worker_count(value: Option<&str>) -> (r: usize)
        ensures
            1 <= r <= 4,
            r == (match opt_view(value) {
                Some(v) => match unsigned_value(v) {
                    Some(n) => if 1 <= n <= 4 {
                        n as usize
                    } else {
                        2
                    },
                    None => 2,
                },
                None => 2,
            }),
    {
        match value {
            None => 2,
            Some(v) => match parse_usize(v) {
                Some(n) => if 1 <= n && n <= 4 {
                    n
                } else {
                    2
                },
                None => 2,
            },
        }
    }
}

/// A duration setting never falls below its minimum, and an absent or
/// unreadable value gives the default.
pub proof fn law_duration_setting_bounds(value: Option<Seq<char>>, default_secs: u64, min_secs: u64)
    requires
        default_secs >= min_secs,
    ensures
        duration_setting(value, default_secs, min_secs) >= min_secs,
        value is None ==> duration_setting(value, default_secs, min_secs) == default_secs,
{
}

} // verus!
