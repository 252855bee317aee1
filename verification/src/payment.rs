//! Splitting a unit price between affiliate and creator.
//!
//! The affiliate's cut is a share of the unit price in basis points,
//! rounded down; the creator receives the rest, so no value is created or
//! destroyed.  When no affiliate is designated, the affiliate's cut is
//! routed to the creator instead of being withheld.

use vstd::prelude::*;

use crate::address::{address_eq, Address};
use crate::error::ErrorCode;

verus! {

/// The fee scale: 10000 basis points make the whole.
pub const FEE_DENOMINATOR: u64 = 10000;

/// The affiliate's share of one unit price, rounded down.
pub open spec fn spec_affiliate_cut(price: u64, fee_bps: u16) -> int {
    (price * fee_bps) / (FEE_DENOMINATOR as int)
}

/// Split one unit price into the affiliate's cut and the creator's cut.
///
/// For every fee within the 0..=10000 scale the two cuts sum to the price
/// exactly.  The subtraction cannot underflow under that bound, but is
/// checked defensively; an out-of-scale fee whose cut would exceed the
/// price is rejected with `MathOverflow`.
pub fn split(price: u64, affiliate_fee_bps: u16) -> (r: Result<(u64, u64), ErrorCode>)
    ensures
        r matches Ok(cuts) ==> {
            &&& cuts.0 == spec_affiliate_cut(price, affiliate_fee_bps)
            &&& cuts.1 == price - spec_affiliate_cut(price, affiliate_fee_bps)
            &&& cuts.0 + cuts.1 == price
        },
        r is Ok <==> spec_affiliate_cut(price, affiliate_fee_bps) <= price,
        r is Err ==> r == Err::<(u64, u64), ErrorCode>(ErrorCode::MathOverflow),
        affiliate_fee_bps <= FEE_DENOMINATOR ==> r is Ok,
{
    proof {
        assert((price as int) * (affiliate_fee_bps as int) <= u64::MAX as int * u16::MAX as int)
            by (nonlinear_arith)
            requires
                price <= u64::MAX,
                affiliate_fee_bps <= u16::MAX,
        ;
        assert(affiliate_fee_bps <= FEE_DENOMINATOR ==> (price as int) * (affiliate_fee_bps
            as int) / (FEE_DENOMINATOR as int) <= price as int) by (nonlinear_arith)
            requires
                FEE_DENOMINATOR == 10000,
        ;
    }
    let wide: u128 = (price as u128) * (affiliate_fee_bps as u128) / (FEE_DENOMINATOR as u128);
    if wide > (u64::MAX as u128) {
        return Err(ErrorCode::MathOverflow);
    }
    let affiliate_cut: u64 = wide as u64;
    if affiliate_cut > price {
        return Err(ErrorCode::MathOverflow);
    }
    Ok((affiliate_cut, price - affiliate_cut))
}

/// One value transfer the workflow asks the host to perform.
pub struct Payment {
    pub from: Address,
    pub to: Address,
    pub amount: u64,
}

/// The transfers a mint performs: the creator's cut to the creator, then
/// the affiliate's cut to the designated affiliate — or to the creator when
/// none is designated.  A zero amount is a no-op and produces no transfer.
pub open spec fn spec_payments(
    buyer: Address,
    creator: Address,
    affiliate: Option<Address>,
    affiliate_cut: u64,
    creator_cut: u64,
) -> Seq<Payment> {
    let to_creator = if creator_cut > 0 {
        seq![Payment { from: buyer, to: creator, amount: creator_cut }]
    } else {
        Seq::<Payment>::empty()
    };
    let receiver = match affiliate {
        Some(a) => a,
        None => creator,
    };
    let to_affiliate = if affiliate_cut > 0 {
        seq![Payment { from: buyer, to: receiver, amount: affiliate_cut }]
    } else {
        Seq::<Payment>::empty()
    };
    to_creator + to_affiliate
}

/// Build the transfers of a mint as executable values.
pub fn build_payments(
    buyer: &Address,
    creator: &Address,
    affiliate: &Option<Address>,
    affiliate_cut: u64,
    creator_cut: u64,
) -> (v: Vec<Payment>)
    ensures
        v@ == spec_payments(*buyer, *creator, *affiliate, affiliate_cut, creator_cut),
{
    let mut v: Vec<Payment> = Vec::new();
    if creator_cut > 0 {
        v.push(Payment { from: *buyer, to: *creator, amount: creator_cut });
    }
    if affiliate_cut > 0 {
        let receiver = match affiliate {
            Some(a) => *a,
            None => *creator,
        };
        v.push(Payment { from: *buyer, to: receiver, amount: affiliate_cut });
    }
    proof {
        assert(v@ =~= spec_payments(*buyer, *creator, *affiliate, affiliate_cut, creator_cut));
    }
    v
}

/// The sum of all transferred amounts.
pub open spec fn spec_total(payments: Seq<Payment>) -> int
    decreases payments.len(),
{
    if payments.len() == 0 {
        0
    } else {
        spec_total(payments.drop_last()) + payments.last().amount
    }
}

/// The sum of the amounts transferred to one receiver.
pub open spec fn spec_total_to(payments: Seq<Payment>, to: Seq<u8>) -> int
    decreases payments.len(),
{
    if payments.len() == 0 {
        0
    } else {
        spec_total_to(payments.drop_last(), to) + if payments.last().to@ == to {
            payments.last().amount as int
        } else {
            0
        }
    }
}

proof fn lemma_total_singleton(pay: Payment)
    ensures
        spec_total(seq![pay]) == pay.amount,
{
    assert(seq![pay].drop_last() =~= Seq::<Payment>::empty());
    assert(spec_total(Seq::<Payment>::empty()) == 0);
}

proof fn lemma_total_to_singleton(pay: Payment, to: Seq<u8>)
    ensures
        spec_total_to(seq![pay], to) == if pay.to@ == to {
            pay.amount as int
        } else {
            0
        },
{
    assert(seq![pay].drop_last() =~= Seq::<Payment>::empty());
    assert(spec_total_to(Seq::<Payment>::empty(), to) == 0);
}

/// No value is created or destroyed: the transfers of a mint sum to
/// exactly the two cuts, however the affiliate is designated.
pub proof fn lemma_payments_conserve_value(
    buyer: Address,
    creator: Address,
    affiliate: Option<Address>,
    affiliate_cut: u64,
    creator_cut: u64,
)
    ensures
        spec_total(spec_payments(buyer, creator, affiliate, affiliate_cut, creator_cut))
            == affiliate_cut + creator_cut,
{
    let p = spec_payments(buyer, creator, affiliate, affiliate_cut, creator_cut);
    let receiver = match affiliate {
        Some(a) => a,
        None => creator,
    };
    let c_pay = Payment { from: buyer, to: creator, amount: creator_cut };
    let a_pay = Payment { from: buyer, to: receiver, amount: affiliate_cut };
    if creator_cut > 0 && affiliate_cut > 0 {
        assert(p =~= seq![c_pay, a_pay]);
        assert(p.drop_last() =~= seq![c_pay]);
        lemma_total_singleton(c_pay);
        assert(spec_total(p) == spec_total(seq![c_pay]) + affiliate_cut);
    } else if creator_cut > 0 {
        assert(p =~= seq![c_pay]);
        lemma_total_singleton(c_pay);
    } else if affiliate_cut > 0 {
        assert(p =~= seq![a_pay]);
        lemma_total_singleton(a_pay);
    } else {
        assert(p =~= Seq::<Payment>::empty());
        assert(spec_total(Seq::<Payment>::empty()) == 0);
    }
}

/// With no affiliate designated, every transferred unit goes to the
/// creator: the creator receives the two cuts in full.
pub proof fn lemma_no_affiliate_pays_creator(
    buyer: Address,
    creator: Address,
    affiliate_cut: u64,
    creator_cut: u64,
)
    ensures
        spec_total_to(
            spec_payments(buyer, creator, None, affiliate_cut, creator_cut),
            creator@,
        ) == affiliate_cut + creator_cut,
{
    let p = spec_payments(buyer, creator, None, affiliate_cut, creator_cut);
    let c_pay = Payment { from: buyer, to: creator, amount: creator_cut };
    let a_pay = Payment { from: buyer, to: creator, amount: affiliate_cut };
    if creator_cut > 0 && affiliate_cut > 0 {
        assert(p =~= seq![c_pay, a_pay]);
        assert(p.drop_last() =~= seq![c_pay]);
        lemma_total_to_singleton(c_pay, creator@);
        assert(spec_total_to(p, creator@) == spec_total_to(seq![c_pay], creator@)
            + affiliate_cut);
    } else if creator_cut > 0 {
        assert(p =~= seq![c_pay]);
        lemma_total_to_singleton(c_pay, creator@);
    } else if affiliate_cut > 0 {
        assert(p =~= seq![a_pay]);
        lemma_total_to_singleton(a_pay, creator@);
    } else {
        assert(p =~= Seq::<Payment>::empty());
        assert(spec_total_to(Seq::<Payment>::empty(), creator@) == 0);
    }
}

/// Sum, at run time, the amounts transferred to one receiver.
pub fn total_paid_to(payments: &Vec<Payment>, to: &Address) -> (r: u64)
    requires
        spec_total_to(payments@, to@) <= u64::MAX,
    ensures
        r == spec_total_to(payments@, to@),
{
    let mut total: u64 = 0;
    let mut i: usize = 0;
    proof {
        lemma_total_to_bounds(payments@, to@);
    }
    while i < payments.len()
        invariant
            0 <= i <= payments@.len(),
            total == spec_total_to(payments@.take(i as int), to@),
            spec_total_to(payments@, to@) <= u64::MAX,
            forall|k: int|
                0 <= k <= payments@.len() ==> #[trigger] spec_total_to(payments@.take(k), to@)
                    <= spec_total_to(payments@, to@),
            forall|k: int| 0 <= k <= payments@.len() ==> spec_total_to(payments@.take(k), to@) >= 0,
        decreases payments@.len() - i,
    {
        proof {
            assert(payments@.take(i + 1).drop_last() =~= payments@.take(i as int));
            assert(payments@.take(i + 1).last() == payments@[i as int]);
        }
        if address_eq(&payments[i].to, to) {
            total = total + payments[i].amount;
        }
        i += 1;
    }
    proof {
        assert(payments@.take(payments@.len() as int) =~= payments@);
    }
    total
}

/// Prefix sums to one receiver are non-negative and bounded by the full
/// sum.
proof fn lemma_total_to_bounds(payments: Seq<Payment>, to: Seq<u8>)
    ensures
        forall|k: int|
            0 <= k <= payments.len() ==> #[trigger] spec_total_to(payments.take(k), to)
                <= spec_total_to(payments, to),
        forall|k: int| 0 <= k <= payments.len() ==> spec_total_to(payments.take(k), to) >= 0,
    decreases payments.len(),
{
    assert forall|k: int| 0 <= k <= payments.len() implies spec_total_to(payments.take(k), to) >= 0
        by {
        lemma_total_to_nonneg(payments.take(k), to);
    }
    if payments.len() > 0 {
        lemma_total_to_bounds(payments.drop_last(), to);
        assert forall|k: int|
            0 <= k <= payments.len() implies #[trigger] spec_total_to(payments.take(k), to)
            <= spec_total_to(payments, to) by {
            if k <= payments.len() - 1 {
                assert(payments.drop_last().take(k) =~= payments.take(k));
                assert(spec_total_to(payments.take(k), to) <= spec_total_to(
                    payments.drop_last(),
                    to,
                ));
            } else {
                assert(payments.take(k) =~= payments);
            }
        }
    } else {
        assert forall|k: int|
            0 <= k <= payments.len() implies #[trigger] spec_total_to(payments.take(k), to)
            <= spec_total_to(payments, to) by {
            assert(payments.take(k) =~= payments);
        }
    }
}

/// Sums to one receiver are non-negative.
proof fn lemma_total_to_nonneg(payments: Seq<Payment>, to: Seq<u8>)
    ensures
        spec_total_to(payments, to) >= 0,
    decreases payments.len(),
{
    if payments.len() > 0 {
        lemma_total_to_nonneg(payments.drop_last(), to);
    }
}

} // verus!
