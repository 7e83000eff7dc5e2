use vstd::prelude::*;

use crate::converter::{as_signed, signed_difference, signed_difference_fits, ConversionResult, ConvertError};

verus! {

/// The outcome of converting one file.
pub type Outcome = Result<ConversionResult, ConvertError>;

/// The totals of a batch of conversions.
#[derive(Debug, Clone, PartialEq, Eq)]
pub struct ProcessSummary {
    pub total_files: usize,
    pub success_count: usize,
    pub skipped_count: usize,
    pub failed_count: usize,
    pub original_total_bytes: u64,
    pub converted_total_bytes: u64,
}

impl Default for ProcessSummary {
    /// The summary of an empty batch: every count and total is zero.
    fn default() -> (r: Self)
        ensures
            r.total_files == 0,
            r.success_count == 0,
            r.skipped_count == 0,
            r.failed_count == 0,
            r.original_total_bytes == 0,
            r.converted_total_bytes == 0,
    {
        ProcessSummary {
            total_files: 0,
            success_count: 0,
            skipped_count: 0,
            failed_count: 0,
            original_total_bytes: 0,
            converted_total_bytes: 0,
        }
    }
}

/// The sum of `weight` over the outcomes.
pub open spec fn total_of(outcomes: Seq<Outcome>, weight: spec_fn(Outcome) -> nat) -> nat
    decreases outcomes.len(),
{
    if outcomes.len() == 0 {
        0
    } else {
        total_of(outcomes.drop_last(), weight) + weight(outcomes.last())
    }
}

/// 1 for a file that was converted.
pub open spec fn converted_weight(o: Outcome) -> nat {
    match o {
        Ok(r) => if r.was_skipped { 0 } else { 1 },
        Err(_) => 0,
    }
}

/// 1 for a file that was skipped because its output existed.
pub open spec fn skipped_weight(o: Outcome) -> nat {
    match o {
        Ok(r) => if r.was_skipped { 1 } else { 0 },
        Err(_) => 0,
    }
}

/// 1 for a file whose conversion failed.
pub open spec fn failed_weight(o: Outcome) -> nat {
    match o {
        Ok(_) => 0,
        Err(_) => 1,
    }
}

/// The size of the source file, for a file that did not fail.
pub open spec fn original_weight(o: Outcome) -> nat {
    match o {
        Ok(r) => r.original_size_bytes as nat,
        Err(_) => 0,
    }
}

/// The size of the WebP file, for a file that did not fail.
pub open spec fn webp_weight(o: Outcome) -> nat {
    match o {
        Ok(r) => r.converted_size_bytes as nat,
        Err(_) => 0,
    }
}

/// 2^64: byte totals are kept as `u64` and wrap around at it.
pub open spec fn u64_modulus() -> nat {
    0x1_0000_0000_0000_0000
}

/// Whether the summary is that of the outcomes: the number of files; the
/// number converted, skipped and failed; and, over the files that did not
/// fail, the total source size and the total WebP size, each modulo 2^64.
pub open spec fn summarizes(r: ProcessSummary, outcomes: Seq<Outcome>) -> bool {
    &&& r.total_files == outcomes.len()
    &&& r.success_count == total_of(outcomes, |o: Outcome| converted_weight(o))
    &&& r.skipped_count == total_of(outcomes, |o: Outcome| skipped_weight(o))
    &&& r.failed_count == total_of(outcomes, |o: Outcome| failed_weight(o))
    &&& r.original_total_bytes == total_of(outcomes, |o: Outcome| original_weight(o)) % u64_modulus()
    &&& r.converted_total_bytes == total_of(outcomes, |o: Outcome| webp_weight(o)) % u64_modulus()
}

proof fn lemma_take_last(s: Seq<Outcome>, i: int)
    requires
        0 <= i < s.len(),
    ensures
        s.take(i + 1).drop_last() == s.take(i),
        s.take(i + 1).last() == s[i],
{
    assert(s.take(i + 1).drop_last() =~= s.take(i));
}

/// Adds up the outcomes of a batch.
pub fn summarize(outcomes: &Vec<Outcome>) -> (r: ProcessSummary)
    ensures
        summarizes(r, outcomes@),
{
    let n = outcomes.len();
    let mut success: usize = 0;
    let mut skipped: usize = 0;
    let mut failed: usize = 0;
    let mut original: u64 = 0;
    let mut converted: u64 = 0;
    let mut i: usize = 0;
    while i < n
        invariant
            n == outcomes@.len(),
            i <= n,
            success + skipped + failed == i,
            success == total_of(outcomes@.take(i as int), |o: Outcome| converted_weight(o)),
            skipped == total_of(outcomes@.take(i as int), |o: Outcome| skipped_weight(o)),
            failed == total_of(outcomes@.take(i as int), |o: Outcome| failed_weight(o)),
            original == total_of(outcomes@.take(i as int), |o: Outcome| original_weight(o))
                % u64_modulus(),
            converted == total_of(outcomes@.take(i as int), |o: Outcome| webp_weight(o))
                % u64_modulus(),
        decreases n - i,
    {
        proof {
            lemma_take_last(outcomes@, i as int);
        }
        let ghost before_original = total_of(
            outcomes@.take(i as int),
            |o: Outcome| original_weight(o),
        );
        let ghost before_webp = total_of(outcomes@.take(i as int), |o: Outcome| webp_weight(o));
        match &outcomes[i] {
            Ok(res) => {
                proof {
                    vstd::arithmetic::div_mod::lemma_add_mod_noop(
                        before_original as int,
                        res.original_size_bytes as int,
                        u64_modulus() as int,
                    );
                    vstd::arithmetic::div_mod::lemma_add_mod_noop(
                        before_webp as int,
                        res.converted_size_bytes as int,
                        u64_modulus() as int,
                    );
                    vstd::arithmetic::div_mod::lemma_small_mod(
                        res.original_size_bytes as nat,
                        u64_modulus() as nat,
                    );
                    vstd::arithmetic::div_mod::lemma_small_mod(
                        res.converted_size_bytes as nat,
                        u64_modulus() as nat,
                    );
                }
                original = original.wrapping_add(res.original_size_bytes);
                converted = converted.wrapping_add(res.converted_size_bytes);
                if res.was_skipped {
                    skipped = skipped + 1;
                } else {
                    success = success + 1;
                }
            },
            Err(_) => {
                failed = failed + 1;
            },
        }
        i = i + 1;
    }
    assert(outcomes@.take(n as int) =~= outcomes@);
    ProcessSummary {
        total_files: n,
        success_count: success,
        skipped_count: skipped,
        failed_count: failed,
        original_total_bytes: original,
        converted_total_bytes: converted,
    }
}

proof fn lemma_total_remove(s: Seq<Outcome>, i: int, weight: spec_fn(Outcome) -> nat)
    requires
        0 <= i < s.len(),
    ensures
        total_of(s, weight) == total_of(s.remove(i), weight) + weight(s[i]),
    decreases s.len(),
{
    if i == s.len() - 1 {
        assert(s.remove(i) =~= s.drop_last());
    } else {
        lemma_total_remove(s.drop_last(), i, weight);
        assert(s.remove(i).drop_last() =~= s.drop_last().remove(i));
        assert(s.remove(i).last() == s.last());
    }
}

proof fn lemma_total_permutation(a: Seq<Outcome>, b: Seq<Outcome>, weight: spec_fn(Outcome) -> nat)
    requires
        a.to_multiset() == b.to_multiset(),
    ensures
        total_of(a, weight) == total_of(b, weight),
    decreases a.len(),
{
    broadcast use vstd::seq_lib::group_to_multiset_ensures;
    broadcast use vstd::multiset::group_multiset_axioms;

    if a.len() == 0 {
        assert(a.to_multiset().len() == a.len());
        assert(b.to_multiset().len() == b.len());
    } else {
        let x = a.last();
        assert(a =~= a.drop_last().push(x));
        assert(a.to_multiset() == a.drop_last().to_multiset().insert(x));
        assert(b.to_multiset().count(x) > 0);
        assert(b.contains(x));
        let i = choose|i: int| 0 <= i < b.len() && b[i] == x;
        assert(b.remove(i).to_multiset() == b.to_multiset().remove(x));
        assert(a.drop_last().to_multiset() =~= b.remove(i).to_multiset());
        lemma_total_permutation(a.drop_last(), b.remove(i), weight);
        lemma_total_remove(b, i, weight);
    }
}

/// Every file of a batch is counted exactly once: as converted, as
/// skipped, or as failed.
pub proof fn lemma_counts_add_up(outcomes: Seq<Outcome>)
    ensures
        total_of(outcomes, |o: Outcome| converted_weight(o)) + total_of(
            outcomes,
            |o: Outcome| skipped_weight(o),
        ) + total_of(outcomes, |o: Outcome| failed_weight(o)) == outcomes.len(),
    decreases outcomes.len(),
{
    if outcomes.len() > 0 {
        lemma_counts_add_up(outcomes.drop_last());
    }
}

/// The summary of a batch does not depend on the order in which the files
/// were converted: any reordering of the outcomes has the same summary.
pub proof fn lemma_summary_order_independent(r: ProcessSummary, a: Seq<Outcome>, b: Seq<Outcome>)
    requires
        a.to_multiset() == b.to_multiset(),
        summarizes(r, a),
    ensures
        summarizes(r, b),
{
    broadcast use vstd::seq_lib::group_to_multiset_ensures;

    assert(a.to_multiset().len() == a.len());
    assert(b.to_multiset().len() == b.len());
    lemma_total_permutation(a, b, |o: Outcome| converted_weight(o));
    lemma_total_permutation(a, b, |o: Outcome| skipped_weight(o));
    lemma_total_permutation(a, b, |o: Outcome| failed_weight(o));
    lemma_total_permutation(a, b, |o: Outcome| original_weight(o));
    lemma_total_permutation(a, b, |o: Outcome| webp_weight(o));
}

impl ProcessSummary {
    /// Bytes saved over the batch: the total source size minus the total
    /// WebP size (negative where the WebP files are larger).
    pub fn total_saved_bytes(&self) -> (r: i64)
        requires
            signed_difference_fits(self.original_total_bytes, self.converted_total_bytes),
        ensures
            r == as_signed(self.original_total_bytes) - as_signed(self.converted_total_bytes),
            self.original_total_bytes <= i64::MAX && self.converted_total_bytes <= i64::MAX ==> r
                == self.original_total_bytes - self.converted_total_bytes,
    {
        signed_difference(self.original_total_bytes, self.converted_total_bytes)
    }
}

} // verus!
