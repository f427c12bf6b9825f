//! Rendering options and their validation.

use vstd::prelude::*;
use vstd::string::StrSliceExecFns;
use crate::error::RenderError;

verus! {

/// The sample rate offered when the caller has no preference.
pub const DEFAULT_SAMPLE_RATE: i32 = 44100;

/// Whether `c` is one of the ASCII digits `0` to `9`.
pub open spec fn is_digit(c: char) -> bool {
    '0' <= c && c <= '9'
}

/// The number that the ASCII digit `c` stands for.
pub open spec fn digit_value(c: char) -> nat
    recommends
        is_digit(c),
{
    (c as u32 - '0' as u32) as nat
}

/// Whether every character of `s` is an ASCII digit.
pub open spec fn all_digits(s: Seq<char>) -> bool {
    forall|i: int| 0 <= i < s.len() ==> is_digit(#[trigger] s[i])
}

/// The number written by the decimal digits `s`, most significant first.
pub open spec fn decimal_value(s: Seq<char>) -> nat
    decreases s.len(),
{
    if s.len() == 0 {
        0
    } else {
        10 * decimal_value(s.drop_last()) + digit_value(s.last())
    }
}

/// `text` without one leading plus sign.
pub open spec fn unsigned_part(text: Seq<char>) -> Seq<char> {
    if text.len() > 0 && text[0] == '+' {
        text.skip(1)
    } else {
        text
    }
}

/// The sample rate that `text` denotes, if it denotes one.
///
/// A sample rate is written as an optional `+` followed by one or more
/// decimal digits and nothing else; its value is at least 1 and fits a signed
/// 32-bit integer. Leading zeros are allowed. Everything else denotes no
/// sample rate: the empty text, blanks, a minus sign, zero, a value that is
/// too large.
pub open spec fn sample_rate_of(text: Seq<char>) -> Option<i32> {
    let digits = unsigned_part(text);
    if digits.len() > 0 && all_digits(digits) && 0 < decimal_value(digits) <= i32::MAX {
        Some(decimal_value(digits) as i32)
    } else {
        None
    }
}

/// Dropping digits from the end of a number never makes it larger.
proof fn lemma_prefix_value(s: Seq<char>, k: int)
    requires
        0 <= k <= s.len(),
    ensures
        decimal_value(s.take(k)) <= decimal_value(s),
    decreases s.len() - k,
{
    if k < s.len() {
        lemma_prefix_value(s, k + 1);
        assert(s.take(k + 1).drop_last() =~= s.take(k));
    } else {
        assert(s.take(k) =~= s);
    }
}

/// Reads a sample rate from text.
pub fn parse_sample_rate(text: &str) -> (rate: Result<i32, RenderError>)
    ensures
        match sample_rate_of(text@) {
            Some(value) => rate == Ok::<i32, RenderError>(value),
            None => rate == Err::<i32, RenderError>(RenderError::InputError),
        },
{
    let len: usize = text.unicode_len();
    let start: usize = if len > 0 && text.get_char(0) == '+' { 1 } else { 0 };
    if start == len {
        return Err(RenderError::InputError);
    }
    let ghost digits = unsigned_part(text@);
    assert(digits.len() == len - start);
    let mut value: i32 = 0;
    let mut i: usize = start;
    while i < len
        invariant
            start <= i <= len,
            len == text@.len(),
            digits == unsigned_part(text@),
            digits.len() == len - start,
            start == 0 || start == 1,
            all_digits(digits.take(i - start)),
            value == decimal_value(digits.take(i - start)),
            0 <= value,
        decreases len - i,
    {
        let c: char = text.get_char(i);
        let ghost k: int = i - start;
        assert(digits[k] == c);
        assert(digits.take(k + 1).drop_last() =~= digits.take(k));
        assert(digits.take(k + 1).last() == c);
        if !('0' <= c && c <= '9') {
            return Err(RenderError::InputError);
        }
        let d: i32 = (c as u32 - '0' as u32) as i32;
        if value > (i32::MAX - d) / 10 {
            proof {
                lemma_prefix_value(digits, k + 1);
            }
            return Err(RenderError::InputError);
        }
        value = 10 * value + d;
        i = i + 1;
    }
    assert(digits.take(len - start) =~= digits);
    if value == 0 {
        return Err(RenderError::InputError);
    }
    Ok(value)
}

/// The options of one render: fixed once built.
#[derive(Clone, Copy, Debug, PartialEq, Eq, Structural)]
pub struct RenderConfig {
    sample_rate: i32,
    effects_enabled: bool,
}

impl Default for RenderConfig {
    /// The configuration offered before the caller has chosen: 44100 frames
    /// per second, effects off.
    fn default() -> (config: RenderConfig)
        ensures
            config.rate() == DEFAULT_SAMPLE_RATE,
            !config.effects(),
    {
        RenderConfig { sample_rate: DEFAULT_SAMPLE_RATE, effects_enabled: false }
    }
}

impl RenderConfig {
    /// A configuration holds a positive sample rate.
    #[verifier::type_invariant]
    spec fn well_formed(&self) -> bool {
        self.sample_rate > 0
    }

    /// The sample rate as a mathematical integer.
    pub closed spec fn rate(&self) -> int {
        self.sample_rate as int
    }

    /// Whether reverb and chorus are switched on.
    pub closed spec fn effects(&self) -> bool {
        self.effects_enabled
    }

    /// Builds a configuration; a sample rate of zero or less is refused.
    pub fn new(sample_rate: i32, effects_enabled: bool) -> (config: Result<RenderConfig, RenderError>)
        ensures
            sample_rate > 0 ==> config is Ok && config->Ok_0.rate() == sample_rate
                && config->Ok_0.effects() == effects_enabled,
            sample_rate <= 0 ==> config == Err::<RenderConfig, RenderError>(RenderError::InputError),
    {
        if sample_rate <= 0 {
            return Err(RenderError::InputError);
        }
        Ok(RenderConfig { sample_rate, effects_enabled })
    }

    /// Builds a configuration from the sample rate as the user typed it.
    pub fn from_text(sample_rate: &str, effects_enabled: bool) -> (config: Result<RenderConfig, RenderError>)
        ensures
            match sample_rate_of(sample_rate@) {
                Some(value) => config is Ok && config->Ok_0.rate() == value
                    && config->Ok_0.effects() == effects_enabled,
                None => config == Err::<RenderConfig, RenderError>(RenderError::InputError),
            },
    {
        match parse_sample_rate(sample_rate) {
            Ok(value) => RenderConfig::new(value, effects_enabled),
            Err(error) => Err(error),
        }
    }

    /// The sample rate, in frames per second.
    pub fn sample_rate(&self) -> (rate: i32)
        ensures
            rate == self.rate(),
            rate > 0,
    {
        proof {
            use_type_invariant(self);
        }
        self.sample_rate
    }

    /// Whether reverb and chorus are switched on.
    pub fn effects_enabled(&self) -> (enabled: bool)
        ensures
            enabled == self.effects(),
    {
        self.effects_enabled
    }
}

} // verus!
