//! Model pricing catalog for local cost estimation.
//!
//! Rates are kept exactly, in thousandths of a US dollar per million tokens, so a
//! cost is an exact whole number of nano-dollars.

use vstd::prelude::*;

use crate::text::{all_ascii, ascii_lowercase, contains_sub, occurs_at, str_contains, to_lowercase, unicode_lowercase};

verus! {

/// Pricing rates for a model, in thousandths of a dollar per million tokens.
#[derive(Debug, Clone, Copy, PartialEq, Eq, Structural)]
pub struct ModelPricing {
    /// Cost per million input tokens (milli-USD)
    pub input_per_million: u64,
    /// Cost per million output tokens (milli-USD)
    pub output_per_million: u64,
    /// Cost per million cached/read tokens (milli-USD), if applicable
    pub cache_read_per_million: Option<u64>,
}

/// A pricing triple.
pub open spec fn rates(input: u64, output: u64, cache: Option<u64>) -> ModelPricing {
    ModelPricing { input_per_million: input, output_per_million: output, cache_read_per_million: cache }
}

/// The catalog entry for a lowercased model name: the first family whose marker the
/// name contains, in catalog order; a conservative default otherwise.
pub open spec fn pricing_for(lower: Seq<char>) -> ModelPricing {
    if contains_sub(lower, "opus"@) {
        rates(15_000, 75_000, Some(1_875))
    } else if contains_sub(lower, "sonnet"@) {
        rates(3_000, 15_000, Some(300))
    } else if contains_sub(lower, "haiku"@) {
        rates(800, 4_000, Some(80))
    } else if contains_sub(lower, "gpt-4o-mini"@) {
        rates(150, 600, Some(75))
    } else if contains_sub(lower, "gpt-4o"@) {
        rates(2_500, 10_000, Some(1_250))
    } else if contains_sub(lower, "o3-mini"@) {
        rates(1_100, 4_400, Some(550))
    } else if contains_sub(lower, "o3"@) {
        rates(10_000, 40_000, None)
    } else if contains_sub(lower, "o4-mini"@) {
        rates(1_100, 4_400, Some(275))
    } else if contains_sub(lower, "gemini-2.5-pro"@) {
        rates(1_250, 10_000, None)
    } else if contains_sub(lower, "gemini-2.5-flash"@) {
        rates(150, 600, None)
    } else {
        rates(3_000, 15_000, None)
    }
}

/// Look up pricing for a model (matched on its lowercased name), falling back to a
/// conservative default.
pub fn lookup_pricing(model: &str) -> (p: ModelPricing)
    ensures
        p == pricing_for(unicode_lowercase(model@)),
        all_ascii(model@) ==> p == pricing_for(ascii_lowercase(model@)),
{
    let lower = to_lowercase(model);
    let l = lower.as_str();
    if str_contains(l, "opus") {
        return ModelPricing { input_per_million: 15_000, output_per_million: 75_000, cache_read_per_million: Some(1_875) };
    }
    if str_contains(l, "sonnet") {
        return ModelPricing { input_per_million: 3_000, output_per_million: 15_000, cache_read_per_million: Some(300) };
    }
    if str_contains(l, "haiku") {
        return ModelPricing { input_per_million: 800, output_per_million: 4_000, cache_read_per_million: Some(80) };
    }
    if str_contains(l, "gpt-4o-mini") {
        return ModelPricing { input_per_million: 150, output_per_million: 600, cache_read_per_million: Some(75) };
    }
    if str_contains(l, "gpt-4o") {
        return ModelPricing { input_per_million: 2_500, output_per_million: 10_000, cache_read_per_million: Some(1_250) };
    }
    if str_contains(l, "o3-mini") {
        return ModelPricing { input_per_million: 1_100, output_per_million: 4_400, cache_read_per_million: Some(550) };
    }
    if str_contains(l, "o3") {
        return ModelPricing { input_per_million: 10_000, output_per_million: 40_000, cache_read_per_million: None };
    }
    if str_contains(l, "o4-mini") {
        return ModelPricing { input_per_million: 1_100, output_per_million: 4_400, cache_read_per_million: Some(275) };
    }
    if str_contains(l, "gemini-2.5-pro") {
        return ModelPricing { input_per_million: 1_250, output_per_million: 10_000, cache_read_per_million: None };
    }
    if str_contains(l, "gemini-2.5-flash") {
        return ModelPricing { input_per_million: 150, output_per_million: 600, cache_read_per_million: None };
    }
    ModelPricing { input_per_million: 3_000, output_per_million: 15_000, cache_read_per_million: None }
}

/// A name that carries a longer marker carries every marker inside it.
proof fn lemma_contains_inside(s: Seq<char>, big: Seq<char>, small: Seq<char>, j: int)
    requires
        contains_sub(s, big),
        0 <= j,
        j + small.len() <= big.len(),
        big.subrange(j, j + small.len()) == small,
    ensures
        contains_sub(s, small),
{
    let i = choose|i: int| occurs_at(s, big, i);
    assert(s.subrange(i + j, i + j + small.len()) =~= big.subrange(j, j + small.len()));
    assert(occurs_at(s, small, i + j));
}

/// Each family's rates apply to a lowercased model name that carries its marker and
/// no marker of another family; where one family's marker holds another's ("o3-mini"
/// holds "o3", "gpt-4o-mini" holds "gpt-4o"), the more specific family wins.
pub proof fn pricing_family_law(lower: Seq<char>)
    ensures
        contains_sub(lower, "opus"@) ==> pricing_for(lower) == rates(15_000, 75_000, Some(1_875)),
        contains_sub(lower, "sonnet"@) && !contains_sub(lower, "opus"@) ==> pricing_for(lower) == rates(
            3_000,
            15_000,
            Some(300),
        ),
        contains_sub(lower, "haiku"@) && !contains_sub(lower, "opus"@) && !contains_sub(lower, "sonnet"@)
            ==> pricing_for(lower) == rates(800, 4_000, Some(80)),
        ({
            let others = contains_sub(lower, "opus"@) || contains_sub(lower, "sonnet"@) || contains_sub(
                lower,
                "haiku"@,
            );
            &&& contains_sub(lower, "gpt-4o-mini"@) && !others ==> pricing_for(lower) == rates(
                150,
                600,
                Some(75),
            )
            &&& contains_sub(lower, "gpt-4o"@) && !contains_sub(lower, "gpt-4o-mini"@) && !others
                ==> pricing_for(lower) == rates(2_500, 10_000, Some(1_250))
            &&& contains_sub(lower, "o3-mini"@) && !others && !contains_sub(lower, "gpt-4o"@)
                ==> pricing_for(lower) == rates(1_100, 4_400, Some(550))
            &&& contains_sub(lower, "o3"@) && !contains_sub(lower, "o3-mini"@) && !others && !contains_sub(
                lower,
                "gpt-4o"@,
            ) ==> pricing_for(lower) == rates(10_000, 40_000, None)
            &&& contains_sub(lower, "o4-mini"@) && !others && !contains_sub(lower, "gpt-4o"@) && !contains_sub(
                lower,
                "o3"@,
            ) ==> pricing_for(lower) == rates(1_100, 4_400, Some(275))
            &&& contains_sub(lower, "gemini-2.5-pro"@) && !others && !contains_sub(lower, "gpt-4o"@)
                && !contains_sub(lower, "o3"@) && !contains_sub(lower, "o4-mini"@) ==> pricing_for(lower)
                == rates(1_250, 10_000, None)
            &&& contains_sub(lower, "gemini-2.5-flash"@) && !others && !contains_sub(lower, "gpt-4o"@)
                && !contains_sub(lower, "o3"@) && !contains_sub(lower, "o4-mini"@) && !contains_sub(
                lower,
                "gemini-2.5-pro"@,
            ) ==> pricing_for(lower) == rates(150, 600, None)
        }),
        !contains_sub(lower, "opus"@) && !contains_sub(lower, "sonnet"@) && !contains_sub(lower, "haiku"@)
            && !contains_sub(lower, "gpt-4o"@) && !contains_sub(lower, "o3"@) && !contains_sub(
            lower,
            "o4-mini"@,
        ) && !contains_sub(lower, "gemini-2.5-pro"@) && !contains_sub(lower, "gemini-2.5-flash"@)
            ==> pricing_for(lower) == rates(3_000, 15_000, None),
{
    reveal_strlit("gpt-4o-mini");
    reveal_strlit("gpt-4o");
    reveal_strlit("o3-mini");
    reveal_strlit("o3");
    if contains_sub(lower, "gpt-4o-mini"@) {
        assert("gpt-4o-mini"@.subrange(0, 6) =~= "gpt-4o"@);
        lemma_contains_inside(lower, "gpt-4o-mini"@, "gpt-4o"@, 0);
    }
    if contains_sub(lower, "o3-mini"@) {
        assert("o3-mini"@.subrange(0, 2) =~= "o3"@);
        lemma_contains_inside(lower, "o3-mini"@, "o3"@, 0);
    }
}

/// Every catalog rate is at most 75 dollars per million tokens.
pub proof fn catalog_rates_bounded(lower: Seq<char>)
    ensures
        pricing_for(lower).input_per_million <= 75_000,
        pricing_for(lower).output_per_million <= 75_000,
{
}

/// Estimated cost of a model invocation, in nano-dollars:
/// tokens times the per-million rate in milli-dollars, summed over input and output.
pub fn estimate_cost_nanos(model: &str, input_tokens: u32, output_tokens: u32) -> (c: u64)
    ensures
        c == input_tokens as int * pricing_for(unicode_lowercase(model@)).input_per_million
            + output_tokens as int * pricing_for(unicode_lowercase(model@)).output_per_million,
        all_ascii(model@) ==> c == input_tokens as int * pricing_for(ascii_lowercase(model@)).input_per_million
            + output_tokens as int * pricing_for(ascii_lowercase(model@)).output_per_million,
{
    let p = lookup_pricing(model);
    proof {
        catalog_rates_bounded(unicode_lowercase(model@));
        assert(input_tokens as int * p.input_per_million <= 0xffff_ffff * 75_000) by (nonlinear_arith)
            requires
                p.input_per_million <= 75_000,
                input_tokens <= 0xffff_ffff;
        assert(output_tokens as int * p.output_per_million <= 0xffff_ffff * 75_000) by (nonlinear_arith)
            requires
                p.output_per_million <= 75_000,
                output_tokens <= 0xffff_ffff;
    }
    (input_tokens as u64) * p.input_per_million + (output_tokens as u64) * p.output_per_million
}

} // verus!
