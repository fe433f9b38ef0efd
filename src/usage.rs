//! Token usage reported by the completion API, and its running totals.
use vstd::prelude::*;

verus! {

/// `a + b`, held to the range of `i64`.
pub open spec fn sat_add(a: i64, b: i64) -> i64 {
    if a + b > i64::MAX {
        i64::MAX
    } else if a + b < i64::MIN {
        i64::MIN
    } else {
        (a + b) as i64
    }
}

pub fn saturating_add_i64(a: i64, b: i64) -> (r: i64)
    ensures
        r == sat_add(a, b),
{
    match a.checked_add(b) {
        Some(v) => v,
        None => if b > 0 {
            i64::MAX
        } else {
            i64::MIN
        },
    }
}

/// The usage block of one completion response.
#[derive(Clone, Copy, Debug, PartialEq, Eq, Structural)]
pub struct Usage {
    pub prompt_tokens: i64,
    pub completion_tokens: i64,
    pub total_tokens: i64,
    /// `prompt_tokens_details.cached_tokens`, where given.
    pub cached_tokens: Option<i64>,
    /// `completion_tokens_details.reasoning_tokens`, where given.
    pub reasoning_tokens: Option<i64>,
}

/// Token counts, for one completion or summed over a run.
#[derive(Clone, Copy, Debug, PartialEq, Eq, Structural)]
pub struct TokenUsage {
    pub input_tokens: i64,
    pub cached_input_tokens: i64,
    pub output_tokens: i64,
    pub reasoning_output_tokens: i64,
    pub total_tokens: i64,
}

pub open spec fn zero_usage() -> TokenUsage {
    TokenUsage {
        input_tokens: 0,
        cached_input_tokens: 0,
        output_tokens: 0,
        reasoning_output_tokens: 0,
        total_tokens: 0,
    }
}

/// Field-wise sum of two usages.
pub open spec fn usage_sum(a: TokenUsage, b: TokenUsage) -> TokenUsage {
    TokenUsage {
        input_tokens: sat_add(a.input_tokens, b.input_tokens),
        cached_input_tokens: sat_add(a.cached_input_tokens, b.cached_input_tokens),
        output_tokens: sat_add(a.output_tokens, b.output_tokens),
        reasoning_output_tokens: sat_add(a.reasoning_output_tokens, b.reasoning_output_tokens),
        total_tokens: sat_add(a.total_tokens, b.total_tokens),
    }
}

/// The counts of one response: missing details count as zero, and a total
/// that is not positive is replaced by prompt plus completion tokens.
pub open spec fn usage_of(u: Usage) -> TokenUsage {
    TokenUsage {
        input_tokens: u.prompt_tokens,
        cached_input_tokens: match u.cached_tokens {
            Some(c) => c,
            None => 0,
        },
        output_tokens: u.completion_tokens,
        reasoning_output_tokens: match u.reasoning_tokens {
            Some(r) => r,
            None => 0,
        },
        total_tokens: if u.total_tokens > 0 {
            u.total_tokens
        } else {
            sat_add(u.prompt_tokens, u.completion_tokens)
        },
    }
}

impl TokenUsage {
    pub fn new() -> (r: TokenUsage)
        ensures
            r == zero_usage(),
    {
        TokenUsage {
            input_tokens: 0,
            cached_input_tokens: 0,
            output_tokens: 0,
            reasoning_output_tokens: 0,
            total_tokens: 0,
        }
    }

    /// Adds `other` to these totals, field by field.
    pub fn add_assign(&mut self, other: &TokenUsage)
        ensures
            *final(self) == usage_sum(*old(self), *other),
    {
        self.input_tokens = saturating_add_i64(self.input_tokens, other.input_tokens);
        self.cached_input_tokens = saturating_add_i64(self.cached_input_tokens, other.cached_input_tokens);
        self.output_tokens = saturating_add_i64(self.output_tokens, other.output_tokens);
        self.reasoning_output_tokens = saturating_add_i64(
            self.reasoning_output_tokens,
            other.reasoning_output_tokens,
        );
        self.total_tokens = saturating_add_i64(self.total_tokens, other.total_tokens);
    }
}

/// The counts that one response's usage block stands for.
pub fn token_usage_from_usage(usage: &Usage) -> (r: TokenUsage)
    ensures
        r == usage_of(*usage),
{
    let cached = match usage.cached_tokens {
        Some(c) => c,
        None => 0,
    };
    let reasoning = match usage.reasoning_tokens {
        Some(r) => r,
        None => 0,
    };
    let total = if usage.total_tokens > 0 {
        usage.total_tokens
    } else {
        saturating_add_i64(usage.prompt_tokens, usage.completion_tokens)
    };
    TokenUsage {
        input_tokens: usage.prompt_tokens,
        cached_input_tokens: cached,
        output_tokens: usage.completion_tokens,
        reasoning_output_tokens: reasoning,
        total_tokens: total,
    }
}

} // verus!
