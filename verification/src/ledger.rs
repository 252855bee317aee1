//! Per-affiliate bookkeeping.
//!
//! A counter record exists per (campaign, affiliate) pair.  It is created
//! lazily: the first referral through an affiliate initializes the record
//! rather than erroring.  Both counters only ever grow, by checked
//! arithmetic.

use vstd::prelude::*;

use crate::address::{address_eq, Address};
use crate::error::ErrorCode;
use crate::state::AffiliateStats;

verus! {

/// The record a lazily created store stands for: the existing counters, or
/// fresh ones when no record exists yet.
pub open spec fn spec_stats_or_new(stats: Option<AffiliateStats>) -> AffiliateStats {
    match stats {
        Some(s) => s,
        None => AffiliateStats::spec_new(),
    }
}

/// The counters after one more referred mint paying the given cut.
pub open spec fn spec_record_mint(s: AffiliateStats, affiliate_cut: u64) -> AffiliateStats
    recommends
        s.total_mints + 1 <= u64::MAX,
        s.total_earned + affiliate_cut <= u64::MAX,
{
    AffiliateStats {
        total_mints: (s.total_mints + 1) as u64,
        total_earned: (s.total_earned + affiliate_cut) as u64,
    }
}

/// Whether recording one more mint would overflow a counter.
pub open spec fn spec_record_overflows(stats: Option<AffiliateStats>, affiliate_cut: u64) -> bool {
    let s = spec_stats_or_new(stats);
    s.total_mints + 1 > u64::MAX || s.total_earned + affiliate_cut > u64::MAX
}

/// Lazily create, then update, the counter record for an affiliate: one
/// more mint, one more cut earned.  On overflow the record is left exactly
/// as it was.
pub fn record_affiliate_mint(stats: &mut Option<AffiliateStats>, affiliate_cut: u64) -> (r: Result<
    (),
    ErrorCode,
>)
    ensures
        r is Ok <==> !spec_record_overflows(*old(stats), affiliate_cut),
        r is Ok ==> *final(stats) == Some(
            spec_record_mint(spec_stats_or_new(*old(stats)), affiliate_cut),
        ),
        r is Err ==> r == Err::<(), ErrorCode>(ErrorCode::MathOverflow) && *final(stats) == *old(
            stats,
        ),
{
    let current = match stats {
        Some(s) => *s,
        None => AffiliateStats::new(),
    };
    if current.total_mints == u64::MAX {
        return Err(ErrorCode::MathOverflow);
    }
    if affiliate_cut > u64::MAX - current.total_earned {
        return Err(ErrorCode::MathOverflow);
    }
    *stats = Some(
        AffiliateStats {
            total_mints: current.total_mints + 1,
            total_earned: current.total_earned + affiliate_cut,
        },
    );
    Ok(())
}

/// The sum of a sequence of affiliate cuts.
pub open spec fn spec_sum_cuts(cuts: Seq<u64>) -> int
    decreases cuts.len(),
{
    if cuts.len() == 0 {
        0
    } else {
        spec_sum_cuts(cuts.drop_last()) + cuts.last()
    }
}

/// The counter record after a run of referred mints paying the given cuts,
/// starting from no record.
pub open spec fn spec_stats_after_mints(cuts: Seq<u64>) -> AffiliateStats
    decreases cuts.len(),
{
    if cuts.len() == 0 {
        AffiliateStats::spec_new()
    } else {
        spec_record_mint(spec_stats_after_mints(cuts.drop_last()), cuts.last())
    }
}

/// The sum of a sequence of cuts is never negative.
pub proof fn lemma_sum_cuts_nonneg(cuts: Seq<u64>)
    ensures
        spec_sum_cuts(cuts) >= 0,
    decreases cuts.len(),
{
    if cuts.len() > 0 {
        lemma_sum_cuts_nonneg(cuts.drop_last());
    }
}

/// Law: after any number of successful mints through one affiliate of one
/// campaign, the record counts exactly those mints, and has earned exactly
/// the sum of the affiliate cuts those mints transferred — provided both
/// totals fit the counters.
pub proof fn lemma_affiliate_totals(cuts: Seq<u64>)
    requires
        cuts.len() <= u64::MAX,
        spec_sum_cuts(cuts) <= u64::MAX,
    ensures
        spec_stats_after_mints(cuts).total_mints == cuts.len(),
        spec_stats_after_mints(cuts).total_earned == spec_sum_cuts(cuts),
    decreases cuts.len(),
{
    if cuts.len() > 0 {
        lemma_sum_cuts_nonneg(cuts.drop_last());
        lemma_affiliate_totals(cuts.drop_last());
    }
}

/// One more successful referred mint extends the run: the record after the
/// mints `cuts.push(cut)` is the record after `cuts` updated by `cut`.
pub proof fn lemma_stats_after_one_more(cuts: Seq<u64>, cut: u64)
    ensures
        spec_stats_after_mints(cuts.push(cut)) == spec_record_mint(
            spec_stats_after_mints(cuts),
            cut,
        ),
{
    assert(cuts.push(cut).drop_last() =~= cuts);
    assert(cuts.push(cut).last() == cut);
}

/// The counter records of one campaign, keyed by affiliate.
pub struct AffiliateLedger {
    entries: Vec<(Address, AffiliateStats)>,
}

impl AffiliateLedger {
    /// The stored records, in creation order.
    pub closed spec fn spec_entries(self) -> Seq<(Address, AffiliateStats)> {
        self.entries@
    }

    /// Whether a record exists for an affiliate.
    pub open spec fn spec_has(self, affiliate: Seq<u8>) -> bool {
        exists|i: int|
            0 <= i < self.spec_entries().len() && (#[trigger] self.spec_entries()[i]).0@
                == affiliate
    }

    /// The record stored for an affiliate, if any.
    pub open spec fn spec_get(self, affiliate: Seq<u8>) -> Option<AffiliateStats> {
        if self.spec_has(affiliate) {
            let i = choose|i: int|
                0 <= i < self.spec_entries().len() && (#[trigger] self.spec_entries()[i]).0@
                    == affiliate;
            Some(self.spec_entries()[i].1)
        } else {
            None
        }
    }

    /// No two records share an affiliate.
    pub open spec fn wf(self) -> bool {
        forall|i: int, j: int|
            0 <= i < j < self.spec_entries().len() ==> (#[trigger] self.spec_entries()[i]).0@ != (
            #[trigger] self.spec_entries()[j]).0@
    }

    /// Under well-formedness, any entry holding an affiliate's key holds
    /// that affiliate's record.
    proof fn lemma_get_at(self, i: int)
        requires
            self.wf(),
            0 <= i < self.spec_entries().len(),
        ensures
            self.spec_get(self.spec_entries()[i].0@) == Some(self.spec_entries()[i].1),
    {
        let key = self.spec_entries()[i].0@;
        assert(self.spec_has(key));
        let j = choose|j: int|
            0 <= j < self.spec_entries().len() && (#[trigger] self.spec_entries()[j]).0@ == key;
        if i < j {
            assert(self.spec_entries()[i].0@ != self.spec_entries()[j].0@);
        } else if j < i {
            assert(self.spec_entries()[j].0@ != self.spec_entries()[i].0@);
        }
    }

    /// An empty ledger.
    pub fn new() -> (r: AffiliateLedger)
        ensures
            r.wf(),
            r.spec_entries().len() == 0,
            forall|k: Seq<u8>| !r.spec_has(k),
    {
        AffiliateLedger { entries: Vec::new() }
    }

    /// How many affiliates have records.
    pub fn len(&self) -> (r: usize)
        ensures
            r == self.spec_entries().len(),
    {
        self.entries.len()
    }

    fn find_index(&self, affiliate: &Address) -> (r: Option<usize>)
        ensures
            match r {
                Some(i) => i < self.spec_entries().len() && self.spec_entries()[i as int].0@
                    == affiliate@,
                None => !self.spec_has(affiliate@),
            },
    {
        let mut i: usize = 0;
        while i < self.entries.len()
            invariant
                0 <= i <= self.entries@.len(),
                forall|j: int| 0 <= j < i ==> (#[trigger] self.entries@[j]).0@ != affiliate@,
            decreases self.entries@.len() - i,
        {
            if address_eq(&self.entries[i].0, affiliate) {
                return Some(i);
            }
            i += 1;
        }
        None
    }

    /// Read the record for an affiliate, if one exists.
    pub fn get(&self, affiliate: &Address) -> (r: Option<AffiliateStats>)
        requires
            self.wf(),
        ensures
            r == self.spec_get(affiliate@),
    {
        match self.find_index(affiliate) {
            Some(i) => {
                proof {
                    self.lemma_get_at(i as int);
                }
                Some(self.entries[i].1)
            },
            None => None,
        }
    }

    /// Store the record for an affiliate: the first write creates it, a
    /// later write replaces it, and no other affiliate's record moves.
    pub fn save(&mut self, affiliate: &Address, stats: AffiliateStats)
        requires
            old(self).wf(),
        ensures
            (*final(self)).wf(),
            (*final(self)).spec_get(affiliate@) == Some(stats),
            forall|k: Seq<u8>|
                k != affiliate@ ==> (*final(self)).spec_get(k) == old(self).spec_get(k),
    {
        let ghost prior = *self;
        match self.find_index(affiliate) {
            Some(i) => {
                self.entries[i] = (*affiliate, stats);
                proof {
                    self.lemma_save_updates(prior, i as int, *affiliate, stats);
                }
            },
            None => {
                self.entries.push((*affiliate, stats));
                proof {
                    self.lemma_save_appends(prior, *affiliate, stats);
                }
            },
        }
    }

    /// Replacing the entry at an affiliate's index rewrites that record and
    /// no other.
    proof fn lemma_save_updates(self, prior: AffiliateLedger, i: int, affiliate: Address, stats: AffiliateStats)
        requires
            prior.wf(),
            0 <= i < prior.spec_entries().len(),
            prior.spec_entries()[i].0@ == affiliate@,
            self.spec_entries() == prior.spec_entries().update(i, (affiliate, stats)),
        ensures
            self.wf(),
            self.spec_get(affiliate@) == Some(stats),
            forall|k: Seq<u8>| k != affiliate@ ==> self.spec_get(k) == prior.spec_get(k),
    {
        assert forall|a: int, b: int|
            0 <= a < b < self.spec_entries().len() implies (#[trigger] self.spec_entries()[a]).0@
            != (#[trigger] self.spec_entries()[b]).0@ by {
            assert(prior.spec_entries()[a].0@ != prior.spec_entries()[b].0@);
        }
        self.lemma_get_at(i);
        assert forall|k: Seq<u8>| k != affiliate@ implies self.spec_get(k) == prior.spec_get(k) by {
            if prior.spec_has(k) {
                let w = choose|w: int|
                    0 <= w < prior.spec_entries().len() && (#[trigger] prior.spec_entries()[w]).0@
                        == k;
                assert(w != i);
                assert(self.spec_entries()[w] == prior.spec_entries()[w]);
                self.lemma_get_at(w);
                prior.lemma_get_at(w);
            } else {
                assert(!self.spec_has(k)) by {
                    if self.spec_has(k) {
                        let w = choose|w: int|
                            0 <= w < self.spec_entries().len() && (
                            #[trigger] self.spec_entries()[w]).0@ == k;
                        assert(w != i);
                        assert(prior.spec_entries()[w].0@ == k);
                    }
                }
            }
        }
    }

    /// Appending a record for a fresh affiliate creates that record and
    /// moves no other.
    proof fn lemma_save_appends(self, prior: AffiliateLedger, affiliate: Address, stats: AffiliateStats)
        requires
            prior.wf(),
            !prior.spec_has(affiliate@),
            self.spec_entries() == prior.spec_entries().push((affiliate, stats)),
        ensures
            self.wf(),
            self.spec_get(affiliate@) == Some(stats),
            forall|k: Seq<u8>| k != affiliate@ ==> self.spec_get(k) == prior.spec_get(k),
    {
        let n = prior.spec_entries().len() as int;
        assert forall|a: int, b: int|
            0 <= a < b < self.spec_entries().len() implies (#[trigger] self.spec_entries()[a]).0@
            != (#[trigger] self.spec_entries()[b]).0@ by {
            if b < n {
                assert(prior.spec_entries()[a].0@ != prior.spec_entries()[b].0@);
            } else {
                assert(self.spec_entries()[b] == (affiliate, stats));
                assert(prior.spec_entries()[a].0@ != affiliate@);
            }
        }
        assert(self.spec_entries()[n] == (affiliate, stats));
        self.lemma_get_at(n);
        assert forall|k: Seq<u8>| k != affiliate@ implies self.spec_get(k) == prior.spec_get(k) by {
            if prior.spec_has(k) {
                let w = choose|w: int|
                    0 <= w < prior.spec_entries().len() && (#[trigger] prior.spec_entries()[w]).0@
                        == k;
                assert(self.spec_entries()[w] == prior.spec_entries()[w]);
                self.lemma_get_at(w);
                prior.lemma_get_at(w);
            } else {
                assert(!self.spec_has(k)) by {
                    if self.spec_has(k) {
                        let w = choose|w: int|
                            0 <= w < self.spec_entries().len() && (
                            #[trigger] self.spec_entries()[w]).0@ == k;
                        if w < n {
                            assert(prior.spec_entries()[w].0@ == k);
                        } else {
                            assert(self.spec_entries()[w] == (affiliate, stats));
                        }
                    }
                }
            }
        }
    }
}

} // verus!
