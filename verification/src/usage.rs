//! Usage reporting: the query a client sends and the token totals of the matching records.

use vstd::prelude::*;

verus! {

/// Query parameters of the usage report.
#[derive(Debug, Clone)]
pub struct UsageQuery {
    /// RFC 3339 start time (defaults to 24h ago)
    pub since: Option<String>,
    /// Model filter
    pub model: Option<String>,
}

/// The token counts of one usage record.
#[derive(Debug, Clone, Copy, PartialEq, Eq, Structural)]
pub struct UsageTokens {
    /// Input tokens
    pub input_tokens: u32,
    /// Output tokens
    pub output_tokens: u32,
}

/// Sum of the input tokens of records.
pub open spec fn input_total(records: Seq<UsageTokens>) -> int
    decreases records.len(),
{
    if records.len() == 0 {
        0
    } else {
        input_total(records.drop_last()) + records.last().input_tokens
    }
}

/// Sum of the output tokens of records.
pub open spec fn output_total(records: Seq<UsageTokens>) -> int
    decreases records.len(),
{
    if records.len() == 0 {
        0
    } else {
        output_total(records.drop_last()) + records.last().output_tokens
    }
}

proof fn lemma_totals_bounded(records: Seq<UsageTokens>)
    ensures
        0 <= input_total(records) <= records.len() * 0xffff_ffff,
        0 <= output_total(records) <= records.len() * 0xffff_ffff,
    decreases records.len(),
{
    if records.len() > 0 {
        lemma_totals_bounded(records.drop_last());
    }
}

/// Total input and output tokens over the records (at most 2^32 of them, so the
/// totals fit in 64 bits).
pub fn token_totals(records: &Vec<UsageTokens>) -> (r: (u64, u64))
    requires
        records@.len() <= 0xffff_ffff,
    ensures
        r.0 == input_total(records@),
        r.1 == output_total(records@),
{
    let mut input: u64 = 0;
    let mut output: u64 = 0;
    let mut i: usize = 0;
    while i < records.len()
        invariant
            i <= records@.len(),
            records@.len() <= 0xffff_ffff,
            input == input_total(records@.take(i as int)),
            output == output_total(records@.take(i as int)),
        decreases records@.len() - i,
    {
        proof {
            let t = records@.take(i + 1);
            assert(t.drop_last() =~= records@.take(i as int));
            lemma_totals_bounded(t);
            assert((i + 1) * 0xffff_ffff <= 0xffff_ffff * 0xffff_ffff) by (nonlinear_arith)
                requires
                    i + 1 <= 0xffff_ffff,
            ;
        }
        input = input + records[i].input_tokens as u64;
        output = output + records[i].output_tokens as u64;
        i = i + 1;
    }
    proof {
        assert(records@.take(records@.len() as int) =~= records@);
    }
    (input, output)
}

} // verus!
