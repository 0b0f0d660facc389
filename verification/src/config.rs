//! Configuration resolution: every key is optional and falls back to its
//! documented default, and the lookback width `n_days` is parsed from its
//! string form exactly as the standard library parses an `i64` — an optional
//! sign followed by one or more decimal digits, with the value in range —
//! falling back to 1 where the value is missing or malformed.

use vstd::prelude::*;
use vstd::string::StrSliceExecFns;
use vstd::string::StringExecFns;

verus! {

broadcast use vstd::seq_lib::group_seq_properties;

/// `c` is a decimal digit.
pub open spec fn is_digit(c: char) -> bool {
    '0' as int <= c as int <= '9' as int
}

/// The numeric value of the digit `c`.
pub open spec fn digit_value(c: char) -> int {
    c as int - '0' as int
}

/// Every character of `s` is a decimal digit.
pub open spec fn all_digits(s: Seq<char>) -> bool {
    forall|i: int| 0 <= i < s.len() ==> is_digit(#[trigger] s[i])
}

/// The value of the digit string `s`, most significant digit first.
pub open spec fn digits_value(s: Seq<char>) -> int
    decreases s.len(),
{
    if s.len() == 0 {
        0
    } else {
        digits_value(s.drop_last()) * 10 + digit_value(s.last())
    }
}

/// `s` without its sign character, if it has one.
pub open spec fn int_body(s: Seq<char>) -> Seq<char> {
    if s.len() > 0 && (s[0] == '-' || s[0] == '+') {
        s.skip(1)
    } else {
        s
    }
}

/// `s` carries a minus sign.
pub open spec fn int_is_negative(s: Seq<char>) -> bool {
    s.len() > 0 && s[0] == '-'
}

/// The signed value `s` denotes.
pub open spec fn int_value(s: Seq<char>) -> int {
    if int_is_negative(s) {
        -digits_value(int_body(s))
    } else {
        digits_value(int_body(s))
    }
}

/// `s` is a decimal integer that an `i64` holds: an optional `+` or `-`, then
/// at least one digit, and the value in range.
pub open spec fn is_i64_string(s: Seq<char>) -> bool {
    &&& int_body(s).len() > 0
    &&& all_digits(int_body(s))
    &&& i64::MIN <= int_value(s) <= i64::MAX
}

proof fn lemma_digits_value_nonneg(s: Seq<char>)
    requires
        all_digits(s),
    ensures
        digits_value(s) >= 0,
    decreases s.len(),
{
    if s.len() > 0 {
        assert forall|i: int| 0 <= i < s.drop_last().len() implies is_digit(
            #[trigger] s.drop_last()[i],
        ) by {
            assert(s.drop_last()[i] == s[i]);
        }
        lemma_digits_value_nonneg(s.drop_last());
        assert(is_digit(s.last()));
    }
}

proof fn lemma_all_digits_take(s: Seq<char>, i: int)
    requires
        all_digits(s),
        0 <= i <= s.len(),
    ensures
        all_digits(s.take(i)),
{
    assert forall|k: int| 0 <= k < s.take(i).len() implies is_digit(#[trigger] s.take(i)[k]) by {
        assert(s.take(i)[k] == s[k]);
    }
}

/// Appending digits never shrinks the value: the value of a digit-string
/// prefix is at most the value of the whole.
proof fn lemma_digits_value_take_le(s: Seq<char>, i: int)
    requires
        all_digits(s),
        0 <= i <= s.len(),
    ensures
        digits_value(s.take(i)) <= digits_value(s),
    decreases s.len() - i,
{
    if i == s.len() {
        assert(s.take(i) == s);
    } else {
        lemma_digits_value_take_le(s, i + 1);
        assert(s.take(i + 1).drop_last() =~= s.take(i));
        assert(s.take(i + 1).last() == s[i]);
        lemma_all_digits_take(s, i);
        lemma_digits_value_nonneg(s.take(i));
        assert(is_digit(s[i]));
        assert(digits_value(s.take(i + 1)) == digits_value(s.take(i)) * 10 + digit_value(s[i]));
    }
}

/// Parses `s` as a decimal `i64` exactly as the standard library does: an
/// optional `+` or `-`, then one or more decimal digits, and the value must
/// fit in an `i64`; anything else yields `None`.
pub fn parse_i64(s: &str) -> (r: Option<i64>)
    ensures
        match r {
            Some(v) => is_i64_string(s@) && v as int == int_value(s@),
            None => !is_i64_string(s@),
        },
{
    let len = s.unicode_len();
    if len == 0 {
        return None;
    }
    let first = s.get_char(0);
    let neg = first == '-';
    let start: usize = if first == '-' || first == '+' {
        1
    } else {
        0
    };
    proof {
        assert(s@.skip(0) =~= s@);
    }
    let ghost body = int_body(s@);
    proof {
        assert(body == s@.skip(start as int));
    }
    if start == len {
        proof {
            assert(body.len() == 0);
        }
        return None;
    }
    let mut acc: i128 = 0;
    let mut i: usize = start;
    proof {
        assert(body.take(0) =~= Seq::<char>::empty());
    }
    while i < len
        invariant
            start <= i <= len,
            len == s@.len(),
            start <= 1,
            body == int_body(s@),
            body == s@.skip(start as int),
            all_digits(body.take(i - start)),
            acc == digits_value(body.take(i - start)),
            0 <= acc <= 0x8000_0000_0000_0000,
        decreases len - i,
    {
        let c = s.get_char(i);
        let u = c as u32;
        let ghost k = i - start;
        proof {
            assert(body[k] == s@[i as int]);
        }
        if u < 48 || u > 57 {
            proof {
                assert(!is_digit(body[k]));
                assert(!all_digits(body));
            }
            return None;
        }
        let d = (u - 48) as i128;
        acc = acc * 10 + d;
        proof {
            assert(body.take(k + 1).drop_last() =~= body.take(k));
            assert(body.take(k + 1).last() == body[k]);
            assert(is_digit(body[k]));
            assert(d == digit_value(body[k]));
            assert(acc == digits_value(body.take(k + 1)));
            assert forall|m: int| 0 <= m < body.take(k + 1).len() implies is_digit(
                #[trigger] body.take(k + 1)[m],
            ) by {
                assert(body.take(k + 1)[m] == if m < k {
                    body.take(k)[m]
                } else {
                    body[k]
                });
            }
        }
        if acc > 0x8000_0000_0000_0000 {
            proof {
                if all_digits(body) {
                    lemma_digits_value_take_le(body, k + 1);
                    assert(digits_value(body) > 0x8000_0000_0000_0000);
                    assert(!is_i64_string(s@));
                }
            }
            return None;
        }
        i = i + 1;
    }
    proof {
        assert(body.take(len - start) == body);
        assert(body.len() > 0);
        assert(neg == int_is_negative(s@));
    }
    if neg {
        Some((-acc) as i64)
    } else {
        if acc > 0x7FFF_FFFF_FFFF_FFFF {
            proof {
                assert(int_value(s@) > i64::MAX);
            }
            return None;
        }
        Some(acc as i64)
    }
}

/// The configuration of one polling run, every value resolved.
pub struct Config {
    pub github_token: String,
    pub owner: String,
    pub slack_workspace: String,
    pub slack_channel: String,
    pub n_days: i64,
}

/// What a configuration key resolves to: the supplied value, or the default
/// where none was supplied.
pub open spec fn resolved(v: Option<String>, default: Seq<char>) -> Seq<char> {
    match v {
        Some(s) => s@,
        None => default,
    }
}

/// The lookback width resolved from the `n_days` value: the parsed integer,
/// or 1 where the value is missing or malformed.
pub open spec fn resolved_n_days(v: Option<String>) -> int {
    match v {
        Some(s) => if is_i64_string(s@) {
            int_value(s@)
        } else {
            1
        },
        None => 1,
    }
}

/// Resolves the configuration of one run from environment-style values, each
/// key falling back to its default where the value is missing, and `n_days`
/// also where its value is not a decimal integer an `i64` holds.
pub fn config_from_values(
    github_token: Option<String>,
    owner: Option<String>,
    slack_workspace: Option<String>,
    slack_channel: Option<String>,
    n_days: Option<String>,
) -> (r: Config)
    ensures
        r.github_token@ == resolved(github_token, "some_random_digits"@),
        r.owner@ == resolved(owner, "alabulei1"@),
        r.slack_workspace@ == resolved(slack_workspace, "secondstate"@),
        r.slack_channel@ == resolved(slack_channel, "github-status"@),
        r.n_days as int == resolved_n_days(n_days),
{
    let github_token = match github_token {
        Some(s) => s,
        None => String::from_str("some_random_digits"),
    };
    let owner = match owner {
        Some(s) => s,
        None => String::from_str("alabulei1"),
    };
    let slack_workspace = match slack_workspace {
        Some(s) => s,
        None => String::from_str("secondstate"),
    };
    let slack_channel = match slack_channel {
        Some(s) => s,
        None => String::from_str("github-status"),
    };
    let n_days = match n_days {
        Some(s) => match parse_i64(s.as_str()) {
            Some(v) => v,
            None => 1,
        },
        None => 1,
    };
    Config { github_token, owner, slack_workspace, slack_channel, n_days }
}

/// The cron expression handed to the scheduler: the configured minute, hour
/// and day fields (default "35 12 *"), with the month and weekday fields
/// fixed to wildcards.
pub open spec fn cron_expr_text(time_to_invoke: Option<String>) -> Seq<char> {
    resolved(time_to_invoke, "35 12 *"@) + " * *"@
}

/// Builds the cron expression of the scheduled trigger.
pub fn cron_expr(time_to_invoke: Option<String>) -> (r: String)
    ensures
        r@ == cron_expr_text(time_to_invoke),
{
    let mut t = match time_to_invoke {
        Some(s) => s,
        None => String::from_str("35 12 *"),
    };
    t.append(" * *");
    t
}

} // verus!
