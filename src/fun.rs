use vstd::prelude::*;
use vstd::string::StrSliceExecFns;

verus! {

/// Scores below this one earn the author a short timeout.
pub const LOW_SCORE: u8 = 50;

/// The largest score that a reply may give.
pub const MAX_SCORE: u8 = 100;

/// Length, in seconds, of the timeout that a low score earns.
pub const LOW_SCORE_TIMEOUT_SECS: i64 = 69;

pub open spec fn is_digit(c: char) -> bool {
    '0' <= c && c <= '9'
}

pub open spec fn digit_value(c: char) -> int {
    (c as u32) - ('0' as u32)
}

/// The number that a sequence of decimal digits spells.
pub open spec fn decimal_value(s: Seq<char>) -> int
    decreases s.len(),
{
    if s.len() == 0 {
        0
    } else {
        decimal_value(s.drop_last()) * 10 + digit_value(s.last())
    }
}

/// The text after an optional leading `+`.
pub open spec fn unsigned_digits(s: Seq<char>) -> Seq<char> {
    if s.len() > 0 && s[0] == '+' {
        s.drop_first()
    } else {
        s
    }
}

/// The `u8` that a text spells in decimal: an optional `+`, then one or more
/// ASCII digits whose value is at most 255.
pub open spec fn parsed_u8(s: Seq<char>) -> Option<u8> {
    let d = unsigned_digits(s);
    if d.len() > 0 && (forall|i: int| 0 <= i < d.len() ==> is_digit(#[trigger] d[i]))
        && decimal_value(d) <= 255 {
        Some(decimal_value(d) as u8)
    } else {
        None
    }
}

proof fn decimal_value_nonneg(s: Seq<char>)
    requires
        forall|i: int| 0 <= i < s.len() ==> is_digit(#[trigger] s[i]),
    ensures
        decimal_value(s) >= 0,
    decreases s.len(),
{
    if s.len() > 0 {
        decimal_value_nonneg(s.drop_last());
        assert(is_digit(s[s.len() - 1]));
    }
}

/// Reads a `u8` written in decimal.
pub fn parse_u8(s: &str) -> (r: Option<u8>)
    ensures
        r == parsed_u8(s@),
{
    let len = s.unicode_len();
    let mut i: usize = 0;
    if len > 0 && s.get_char(0) == '+' {
        i = 1;
    }
    let start = i;
    let ghost d = unsigned_digits(s@);
    assert(d == s@.subrange(start as int, len as int));
    // `value` holds the digits' value read so far, or 256 once it exceeds 255
    let mut value: u16 = 0;
    while i < len
        invariant
            start <= i <= len,
            len == s@.len(),
            d == s@.subrange(start as int, len as int),
            d == unsigned_digits(s@),
            forall|j: int| 0 <= j < i - start ==> is_digit(#[trigger] d[j]),
            value == (if decimal_value(d.take(i - start)) <= 255 {
                decimal_value(d.take(i - start))
            } else {
                256
            }),
        decreases len - i,
    {
        let c = s.get_char(i);
        if !('0' <= c && c <= '9') {
            proof {
                let k = (i - start) as int;
                assert(d[k] == c);
                assert(!is_digit(d[k]));
                assert(!(forall|j: int| 0 <= j < d.len() ==> is_digit(#[trigger] d[j])));
            }
            return None;
        }
        let digit = (c as u32 - '0' as u32) as u16;
        proof {
            let p = d.take(i - start);
            assert(d.take(i - start + 1).drop_last() == p);
            assert(d.take(i - start + 1).last() == c);
            decimal_value_nonneg(p);
        }
        if value > 255 || value * 10 + digit > 255 {
            value = 256;
        } else {
            value = value * 10 + digit;
        }
        i = i + 1;
    }
    assert(d.take(len - start) == d);
    if i == start || value > 255 {
        None
    } else {
        Some(value as u8)
    }
}

/// How the bot answers an opinion, given the model's reply.
#[derive(Clone, Copy, Debug, PartialEq, Eq, Structural)]
pub enum AttitudeJudgement {
    /// the reply was cut short, or is not a score from 0 to 100
    NotUnderstood,
    /// the reply's score, and the instant (seconds since the epoch) until
    /// which the author is timed out, if the score earns a timeout
    Judged { score: u8, timeout_until: Option<i64> },
}

/// Judges a model's reply to an opinion: a reply that stopped normally and
/// reads as a score of at most 100 is that score; a score under 50 given to
/// an author who is not a bot times the author out for 69 seconds from `now`.
pub fn judge_attitude(finished: bool, reply: &str, author_is_bot: bool, now: i64) -> (r: AttitudeJudgement)
    requires
        now <= i64::MAX - LOW_SCORE_TIMEOUT_SECS,
    ensures
        r == (if !finished {
            AttitudeJudgement::NotUnderstood
        } else {
            match parsed_u8(reply@) {
                Some(score) => if score > MAX_SCORE {
                    AttitudeJudgement::NotUnderstood
                } else {
                    AttitudeJudgement::Judged {
                        score,
                        timeout_until: if score < LOW_SCORE && !author_is_bot {
                            Some((now + LOW_SCORE_TIMEOUT_SECS) as i64)
                        } else {
                            None
                        },
                    }
                },
                None => AttitudeJudgement::NotUnderstood,
            }
        }),
{
    if !finished {
        return AttitudeJudgement::NotUnderstood;
    }
    match parse_u8(reply) {
        Some(score) => {
            if score > MAX_SCORE {
                AttitudeJudgement::NotUnderstood
            } else {
                let timeout_until = if score < LOW_SCORE && !author_is_bot {
                    Some(now + LOW_SCORE_TIMEOUT_SECS)
                } else {
                    None
                };
                AttitudeJudgement::Judged { score, timeout_until }
            }
        },
        None => AttitudeJudgement::NotUnderstood,
    }
}

} // verus!
