//! Parsing of the command-line values: the timeout and interval flags are
//! decimal millisecond counts with defaults, and a value that does not parse
//! as an unsigned number is a fatal configuration error.

use vstd::prelude::*;

verus! {

/// Overall timeout used when the flag is absent, in milliseconds.
pub const DEFAULT_TIMEOUT_MS: u64 = 30000;

/// Poll interval used when the flag is absent, in milliseconds.
pub const DEFAULT_INTERVAL_MS: u64 = 1000;

/// A configuration value that could not be interpreted.
#[derive(Clone, Copy, Debug, PartialEq, Eq, Structural)]
pub enum ConfigError {
    InvalidTimeout,
    InvalidInterval,
}

pub open spec fn is_decimal_digit(c: char) -> bool {
    '0' as int <= c as int && c as int <= '9' as int
}

pub open spec fn digit_value(c: char) -> int {
    c as int - '0' as int
}

pub open spec fn all_digits(s: Seq<char>) -> bool {
    forall|i: int| 0 <= i < s.len() ==> is_decimal_digit(#[trigger] s[i])
}

/// The number a sequence of decimal digits denotes, most significant first.
pub open spec fn decimal_value(s: Seq<char>) -> int
    decreases s.len(),
{
    if s.len() == 0 {
        0
    } else {
        decimal_value(s.drop_last()) * 10 + digit_value(s.last())
    }
}

/// The digits of a decimal numeral: everything after an optional leading
/// plus sign.
pub open spec fn digits_of(s: Seq<char>) -> Seq<char> {
    if s.len() > 0 && s[0] == '+' {
        s.subrange(1, s.len() as int)
    } else {
        s
    }
}

/// A string that denotes a `u64`: an optional plus sign, then at least one
/// digit, with a value that fits.
pub open spec fn is_u64_decimal(s: Seq<char>) -> bool {
    let d = digits_of(s);
    &&& d.len() > 0
    &&& all_digits(d)
    &&& decimal_value(d) <= u64::MAX
}

proof fn lemma_decimal_value_nonneg(s: Seq<char>)
    requires
        all_digits(s),
    ensures
        decimal_value(s) >= 0,
    decreases s.len(),
{
    if s.len() > 0 {
        assert(forall|i: int| 0 <= i < s.drop_last().len() ==> s.drop_last()[i] == s[i]);
        lemma_decimal_value_nonneg(s.drop_last());
    }
}

/// A numeral is at least as large as any of its prefixes.
proof fn lemma_decimal_value_prefix_le(s: Seq<char>, k: int)
    requires
        all_digits(s),
        0 <= k <= s.len(),
    ensures
        decimal_value(s.subrange(0, k)) <= decimal_value(s),
    decreases s.len() - k,
{
    if k == s.len() {
        assert(s.subrange(0, k) =~= s);
    } else {
        assert(s.subrange(0, k + 1).drop_last() =~= s.subrange(0, k));
        assert(forall|i: int| 0 <= i < k ==> s.subrange(0, k)[i] == s[i]);
        lemma_decimal_value_nonneg(s.subrange(0, k));
        assert(decimal_value(s.subrange(0, k + 1)) >= decimal_value(s.subrange(0, k)));
        lemma_decimal_value_prefix_le(s, k + 1);
    }
}

/// Parse an unsigned decimal numeral, as the timeout and interval flags are
/// written: an optional leading `+`, then one or more digits, nothing else.
/// Returns `None` exactly when the string is not such a numeral or its value
/// does not fit in a `u64`.
pub fn parse_u64(s: &str) -> (r: Option<u64>)
    ensures
        r is Some <==> is_u64_decimal(s@),
        r matches Some(v) ==> v as int == decimal_value(digits_of(s@)),
{
    let n = s.unicode_len();
    let mut i: usize = 0;
    if n > 0 && s.get_char(0) == '+' {
        i = 1;
    }
    let ghost start: int = i as int;
    let ghost d: Seq<char> = digits_of(s@);
    proof {
        assert(d =~= s@.subrange(start, n as int));
    }
    if i == n {
        // Empty string, or a bare sign with no digits.
        proof {
            assert(d.len() == 0);
        }
        return None;
    }
    let mut val: u64 = 0;
    while i < n
        invariant
            0 <= start <= i as int <= n,
            start < n,
            n == s@.len(),
            d == digits_of(s@),
            d =~= s@.subrange(start, n as int),
            all_digits(s@.subrange(start, i as int)),
            val as int == decimal_value(s@.subrange(start, i as int)),
        decreases n - i,
    {
        let c = s.get_char(i);
        let u = c as u32;
        if u < 48 || u > 57 {
            // A non-digit makes the whole string invalid.
            proof {
                assert(d.len() == n - start);
                assert(0 <= i as int - start < d.len());
                assert(d[i as int - start] == s@.subrange(start, n as int)[i as int - start]);
                assert(d[i as int - start] == s@[i as int]);
                assert(!is_decimal_digit(s@[i as int]));
            }
            return None;
        }
        let dv = (u - 48) as u64;
        let ghost prev = s@.subrange(start, i as int);
        let ghost here = s@.subrange(start, i as int + 1);
        proof {
            assert(here.drop_last() =~= prev);
            assert(here.last() == s@[i as int]);
            assert(decimal_value(here) == val as int * 10 + dv as int);
        }
        let next = match val.checked_mul(10) {
            Some(m) => m.checked_add(dv),
            None => None,
        };
        match next {
            Some(x) => {
                val = x;
            },
            None => {
                // The value overflows u64, so no valid numeral starts this
                // way: a numeral is at least as large as any of its prefixes.
                proof {
                    if all_digits(d) {
                        assert(here =~= d.subrange(0, i as int + 1 - start));
                        assert(forall|j: int|
                            0 <= j < here.len() ==> here[j] == d.subrange(
                                0,
                                i as int + 1 - start,
                            )[j]);
                        lemma_decimal_value_prefix_le(d, i as int + 1 - start);
                        assert(decimal_value(d) > u64::MAX);
                    }
                }
                return None;
            },
        }
        i += 1;
    }
    proof {
        assert(s@.subrange(start, n as int) =~= d);
        assert(d.len() > 0);
    }
    Some(val)
}

/// Whether an optional flag value, if present, is a valid `u64` numeral.
pub open spec fn opt_is_valid(o: Option<String>) -> bool {
    match o {
        Some(s) => is_u64_decimal(s@),
        None => true,
    }
}

/// The milliseconds an optional flag denotes, or the default when absent.
pub open spec fn millis_or_default(o: Option<String>, default: u64) -> int {
    match o {
        Some(s) => decimal_value(digits_of(s@)),
        None => default as int,
    }
}

/// Turn the collected command-line values — the address string, and the
/// optional timeout and interval strings — into the address and the two
/// millisecond counts. The address passes through untouched; a timeout or
/// interval that is not an unsigned decimal number is a fatal configuration
/// error, the timeout being reported first.
pub fn parse_args(args: (String, Option<String>, Option<String>)) -> (r: Result<
    (String, u64, u64),
    ConfigError,
>)
    ensures
        r is Ok <==> opt_is_valid(args.1) && opt_is_valid(args.2),
        !opt_is_valid(args.1) ==> r == Err::<(String, u64, u64), ConfigError>(
            ConfigError::InvalidTimeout,
        ),
        opt_is_valid(args.1) && !opt_is_valid(args.2) ==> r == Err::<
            (String, u64, u64),
            ConfigError,
        >(ConfigError::InvalidInterval),
        r matches Ok((address, timeout_ms, interval_ms)) ==> {
            &&& address@ == args.0@
            &&& timeout_ms as int == millis_or_default(args.1, DEFAULT_TIMEOUT_MS)
            &&& interval_ms as int == millis_or_default(args.2, DEFAULT_INTERVAL_MS)
        },
{
    let (address, timeout, interval) = args;
    let timeout_ms: u64 = match timeout {
        Some(t) => match parse_u64(t.as_str()) {
            Some(v) => v,
            None => {
                return Err(ConfigError::InvalidTimeout);
            },
        },
        None => DEFAULT_TIMEOUT_MS,
    };
    let interval_ms: u64 = match interval {
        Some(ival) => match parse_u64(ival.as_str()) {
            Some(v) => v,
            None => {
                return Err(ConfigError::InvalidInterval);
            },
        },
        None => DEFAULT_INTERVAL_MS,
    };
    Ok((address, timeout_ms, interval_ms))
}

} // verus!
