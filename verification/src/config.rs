//! Operator-process configuration, from `STARDELT_OPERATOR_*` settings.
//!
//! Knobs that vary per instance belong on the `PlatformInstance` spec; this
//! holds only process-wide settings. The caller reads the environment and
//! hands the raw values over.
use vstd::prelude::*;

verus! {

/// Process-level operator configuration.
#[derive(Debug, Clone)]
pub struct Config {
    /// Field-manager name used for all server-side-apply patches.
    pub field_manager: String,
    /// Steady-state resync interval, in seconds, once a PlatformInstance is Ready.
    pub resync_secs: u64,
    /// Requeue interval, in seconds, while waiting for a step to become ready.
    pub poll_secs: u64,
}

pub open spec fn is_digit(c: char) -> bool {
    '0' <= c <= '9'
}

pub open spec fn digit_value(c: char) -> int {
    c as int - '0' as int
}

/// The decimal value of a digit string.
pub open spec fn digits_value(s: Seq<char>) -> int
    decreases s.len(),
{
    if s.len() == 0 {
        0
    } else {
        digits_value(s.drop_last()) * 10 + digit_value(s.last())
    }
}

/// The digits of an unsigned number: an optional leading `+` dropped.
pub open spec fn unsigned_digits(s: Seq<char>) -> Seq<char> {
    if s.len() > 0 && s[0] == '+' {
        s.skip(1)
    } else {
        s
    }
}

/// What `u64::from_str` returns: `Some` for one or more decimal digits
/// (optionally after `+`) whose value fits in a `u64`, `None` otherwise.
pub open spec fn parse_u64_view(s: Seq<char>) -> Option<u64> {
    let d = unsigned_digits(s);
    if d.len() > 0 && (forall|i: int| 0 <= i < d.len() ==> is_digit(#[trigger] d[i])) && digits_value(d)
        <= u64::MAX {
        Some(digits_value(d) as u64)
    } else {
        None
    }
}

proof fn lemma_digits_monotone(s: Seq<char>, i: int)
    requires
        0 <= i <= s.len(),
        forall|j: int| 0 <= j < s.len() ==> is_digit(#[trigger] s[j]),
    ensures
        0 <= digits_value(s.take(i)) <= digits_value(s),
    decreases s.len() - i,
{
    if i == s.len() {
        assert(s.take(i) =~= s);
        lemma_digits_nonneg(s);
    } else {
        lemma_digits_monotone(s, i + 1);
        assert(s.take(i + 1).drop_last() =~= s.take(i));
        lemma_digits_nonneg(s.take(i));
    }
}

proof fn lemma_digits_nonneg(s: Seq<char>)
    requires
        forall|j: int| 0 <= j < s.len() ==> is_digit(#[trigger] s[j]),
    ensures
        digits_value(s) >= 0,
    decreases s.len(),
{
    if s.len() > 0 {
        assert forall|j: int| 0 <= j < s.drop_last().len() implies is_digit(
            #[trigger] s.drop_last()[j],
        ) by {
            assert(s.drop_last()[j] == s[j]);
        }
        lemma_digits_nonneg(s.drop_last());
    }
}

/// Parse an unsigned decimal number as `u64::from_str` does.
pub fn parse_u64(s: &str) -> (r: Option<u64>)
    ensures
        r == parse_u64_view(s@),
{
    let n = s.unicode_len();
    let mut start: usize = 0;
    if n > 0 && s.get_char(0) == '+' {
        start = 1;
    }
    let ghost d = unsigned_digits(s@);
    assert(d =~= s@.skip(start as int));
    if start >= n {
        return None;
    }
    let mut acc: u64 = 0;
    let mut i: usize = start;
    while i < n
        invariant
            start <= i <= n,
            n == s@.len(),
            d == s@.skip(start as int),
            d == unsigned_digits(s@),
            forall|j: int| 0 <= j < i - start ==> is_digit(#[trigger] d[j]),
            acc as int == digits_value(d.take(i - start)),
        decreases n - i,
    {
        let c = s.get_char(i);
        assert(d[i - start] == c);
        if c < '0' || c > '9' {
            assert(!is_digit(d[i - start]));
            return None;
        }
        let dv: u64 = (c as u32 - '0' as u32) as u64;
        assert(d.take(i - start + 1).drop_last() =~= d.take(i - start));
        assert(d.take(i - start + 1).last() == c);
        match acc.checked_mul(10) {
            Some(m) => match m.checked_add(dv) {
                Some(v) => {
                    acc = v;
                },
                None => {
                    proof {
                        assert(digits_value(d.take(i - start + 1)) > u64::MAX);
                        if forall|j: int| 0 <= j < d.len() ==> is_digit(#[trigger] d[j]) {
                            lemma_digits_monotone(d, i - start + 1);
                        }
                    }
                    return None;
                },
            },
            None => {
                proof {
                    lemma_digits_nonneg(d.take(i - start));
                    assert(digits_value(d.take(i - start + 1)) > u64::MAX) by (nonlinear_arith)
                        requires
                            acc * 10 > u64::MAX,
                            digits_value(d.take(i - start + 1)) == acc * 10 + dv,
                            dv >= 0,
                    ;
                    if forall|j: int| 0 <= j < d.len() ==> is_digit(#[trigger] d[j]) {
                        lemma_digits_monotone(d, i - start + 1);
                    }
                }
                return None;
            },
        }
        i = i + 1;
    }
    assert(d.take(n - start) =~= d);
    Some(acc)
}

/// `value` parsed as a number of seconds, or `default` when absent or invalid.
pub open spec fn seconds_or(value: Option<String>, default: u64) -> u64 {
    match value {
        Some(v) => match parse_u64_view(v@) {
            Some(n) => n,
            None => default,
        },
        None => default,
    }
}

impl Config {
    /// The configuration from the raw `STARDELT_OPERATOR_FIELD_MANAGER`,
    /// `STARDELT_OPERATOR_RESYNC_SECS` and `STARDELT_OPERATOR_POLL_SECS`
    /// values (`None` when unset): defaults `stardelt-operator`, 300 and 10.
    pub fn from_env(
        field_manager: Option<String>,
        resync_secs: Option<String>,
        poll_secs: Option<String>,
    ) -> (r: Config)
        ensures
            r.field_manager@ == match field_manager {
                Some(v) => v@,
                None => "stardelt-operator"@,
            },
            r.resync_secs == seconds_or(resync_secs, 300),
            r.poll_secs == seconds_or(poll_secs, 10),
    {
        Config {
            field_manager: match field_manager {
                Some(v) => v,
                None => "stardelt-operator".to_string(),
            },
            resync_secs: env_parsed(&resync_secs, 300),
            poll_secs: env_parsed(&poll_secs, 10),
        }
    }
}

/// A number of seconds from a raw setting, or `default`.
pub fn env_parsed(value: &Option<String>, default: u64) -> (r: u64)
    ensures
        r == seconds_or(*value, default),
{
    match value {
        Some(v) => match parse_u64(v.as_str()) {
            Some(n) => n,
            None => default,
        },
        None => default,
    }
}

} // verus!
