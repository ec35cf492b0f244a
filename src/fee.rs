use vstd::arithmetic::div_mod::{lemma_fundamental_div_mod, lemma_hoist_over_denominator};
use vstd::prelude::*;

use crate::{AccountId, Origins};

verus! {

/// Basis-point denominator: 10_000 is 100%.
pub const PAYOUT_TOTAL_VALUE: u128 = 10_000;

/// Protocol fee in basis points (3%).
pub const PROTOCOL_FEE: u128 = 300;

/// Referral ("origin") fee tables must total strictly less than this many basis points.
pub const MAX_ORIGINS: u128 = 4_700;

/// Largest number of entries a payout table may have.
pub const MAX_PAYOUT_ENTRIES: usize = 10;

/// `amount * bps / 10_000`, rounded down.
pub open spec fn bps_share(amount: int, bps: int) -> int {
    amount * bps / 10_000
}

/// The protocol fee on `price`.
pub open spec fn spec_get_fee(price: int) -> int {
    bps_share(price, 300)
}

/// `price` with the protocol fee added on top.
pub open spec fn spec_with_fees(price: int) -> int {
    price * (10_000 + 300) / 10_000
}

/// Sum of the basis points of a referral table.
pub open spec fn origins_total(origins: Seq<(AccountId, u32)>) -> int
    decreases origins.len(),
{
    if origins.len() == 0 {
        0
    } else {
        origins_total(origins.drop_last()) + origins.last().1
    }
}

/// `price` with the protocol fee and the referral fees of a table totalling `origins` added.
pub open spec fn spec_price_with_fees(price: int, origins: int) -> int {
    price * (10_000 + 300 + origins) / 10_000
}

/// Sum of the amounts of a payout table.
pub open spec fn payout_sum(payout: Seq<(AccountId, u128)>) -> int
    decreases payout.len(),
{
    if payout.len() == 0 {
        0
    } else {
        payout_sum(payout.drop_last()) + payout.last().1
    }
}

/// Sum of the amounts that a payout table assigns to `owner`.
pub open spec fn owner_sum(payout: Seq<(AccountId, u128)>, owner: Seq<char>) -> int
    decreases payout.len(),
{
    if payout.len() == 0 {
        0
    } else {
        owner_sum(payout.drop_last(), owner) + if payout.last().0@ == owner {
            payout.last().1 as int
        } else {
            0
        }
    }
}

/// A payout table is accepted when it has between one and `MAX_PAYOUT_ENTRIES` entries
/// and its amounts add up to `price` or to one unit less.
pub open spec fn spec_payout_valid(price: int, payout: Seq<(AccountId, u128)>) -> bool {
    &&& 1 <= payout.len() <= 10
    &&& payout_sum(payout) <= price
    &&& price - payout_sum(payout) <= 1
}

/// The royalty entries of a payout table: every entry that does not go to `owner`, in order.
pub open spec fn royalties(payout: Seq<(AccountId, u128)>, owner: Seq<char>) -> Seq<(AccountId, u128)>
    decreases payout.len(),
{
    if payout.len() == 0 {
        seq![]
    } else {
        let rest = royalties(payout.drop_last(), owner);
        if payout.last().0@ != owner {
            rest.push(payout.last())
        } else {
            rest
        }
    }
}

/// One payment per referral principal: its basis-point share of `price`.
pub open spec fn referral_payouts(price: int, origins: Seq<(AccountId, u32)>) -> Seq<(AccountId, u128)>
    decreases origins.len(),
{
    if origins.len() == 0 {
        seq![]
    } else {
        referral_payouts(price, origins.drop_last()).push(
            (origins.last().0, bps_share(price, origins.last().1 as int) as u128),
        )
    }
}

/// Total of the referral shares paid on `price`.
pub open spec fn referral_sum(price: int, origins: Seq<(AccountId, u32)>) -> int {
    payout_sum(referral_payouts(price, origins))
}

/// What the owner keeps of its share once the protocol fee and the referral shares are taken.
pub open spec fn owner_net(
    price: int,
    payout: Seq<(AccountId, u128)>,
    owner: Seq<char>,
    origins: Seq<(AccountId, u32)>,
) -> int {
    owner_sum(payout, owner) - spec_get_fee(price) - referral_sum(price, origins)
}

/// The seller-side disbursement of a settlement: the royalty entries of the payout table,
/// then the referral shares, then what is left of the owner's share.
pub open spec fn spec_split_payout(
    price: int,
    payout: Seq<(AccountId, u128)>,
    owner_id: AccountId,
    origins: Seq<(AccountId, u32)>,
) -> Seq<(AccountId, u128)> {
    royalties(payout, owner_id@) + referral_payouts(price, origins) + seq![
        (owner_id, owner_net(price, payout, owner_id@, origins) as u128),
    ]
}

proof fn lemma_payout_sum_append(a: Seq<(AccountId, u128)>, b: Seq<(AccountId, u128)>)
    ensures
        payout_sum(a + b) == payout_sum(a) + payout_sum(b),
    decreases b.len(),
{
    if b.len() > 0 {
        assert((a + b).drop_last() =~= a + b.drop_last());
        lemma_payout_sum_append(a, b.drop_last());
    } else {
        assert(a + b =~= a);
    }
}

proof fn lemma_payout_sum_prefix(s: Seq<(AccountId, u128)>, i: int)
    requires
        0 <= i <= s.len(),
    ensures
        payout_sum(s.subrange(0, i)) <= payout_sum(s),
        payout_sum(s.subrange(0, i)) >= 0,
    decreases s.len() - i,
{
    if i < s.len() {
        assert(s.subrange(0, i + 1).drop_last() =~= s.subrange(0, i));
        lemma_payout_sum_prefix(s, i + 1);
        lemma_payout_sum_nonneg(s.subrange(0, i));
    } else {
        assert(s.subrange(0, i) =~= s);
        lemma_payout_sum_nonneg(s);
    }
}

proof fn lemma_payout_sum_nonneg(s: Seq<(AccountId, u128)>)
    ensures
        payout_sum(s) >= 0,
    decreases s.len(),
{
    if s.len() > 0 {
        lemma_payout_sum_nonneg(s.drop_last());
    }
}

proof fn lemma_royalties_split(s: Seq<(AccountId, u128)>, owner: Seq<char>)
    ensures
        payout_sum(royalties(s, owner)) + owner_sum(s, owner) == payout_sum(s),
    decreases s.len(),
{
    if s.len() > 0 {
        lemma_royalties_split(s.drop_last(), owner);
        let rest = royalties(s.drop_last(), owner);
        assert(rest.push(s.last()).drop_last() =~= rest);
    }
}

proof fn lemma_origins_prefix(s: Seq<(AccountId, u32)>, i: int)
    requires
        0 <= i <= s.len(),
    ensures
        0 <= origins_total(s.subrange(0, i)) <= origins_total(s),
    decreases s.len() - i,
{
    if i < s.len() {
        assert(s.subrange(0, i + 1).drop_last() =~= s.subrange(0, i));
        lemma_origins_prefix(s, i + 1);
        lemma_origins_nonneg(s.subrange(0, i));
    } else {
        assert(s.subrange(0, i) =~= s);
        lemma_origins_nonneg(s);
    }
}

proof fn lemma_origins_nonneg(s: Seq<(AccountId, u32)>)
    ensures
        origins_total(s) >= 0,
    decreases s.len(),
{
    if s.len() > 0 {
        lemma_origins_nonneg(s.drop_last());
    }
}

/// The referral shares never add up to more than their basis points of `price`.
proof fn lemma_referral_bound(price: int, s: Seq<(AccountId, u32)>)
    requires
        0 <= price <= u128::MAX,
        origins_total(s) <= 10_000,
    ensures
        referral_sum(price, s) * 10_000 <= price * origins_total(s),
        referral_sum(price, s) >= 0,
    decreases s.len(),
{
    if s.len() > 0 {
        let rest = s.drop_last();
        lemma_origins_nonneg(rest);
        lemma_referral_bound(price, rest);
        let b = s.last().1 as int;
        let share = bps_share(price, b);
        lemma_fundamental_div_mod(price * b, 10_000);
        assert(share * 10_000 <= price * b);
        assert(share <= price) by (nonlinear_arith)
            requires
                share * 10_000 <= price * b,
                b <= 10_000,
                price >= 0,
        ;
        assert(share >= 0) by (nonlinear_arith)
            requires
                price >= 0,
                b >= 0,
                share == price * b / 10_000,
        ;
        let rp = referral_payouts(price, rest);
        let x = (s.last().0, share as u128);
        assert(rp.push(x).drop_last() =~= rp);
        assert(price * origins_total(rest) + price * b == price * origins_total(s))
            by (nonlinear_arith)
            requires
                origins_total(s) == origins_total(rest) + b,
        ;
    }
}

/// The disbursement conserves value: royalties, referral shares, the owner's net share
/// and the protocol fee add up to the payout table's total, which is `price` or one less.
pub proof fn lemma_fee_conservation(
    price: int,
    payout: Seq<(AccountId, u128)>,
    owner_id: AccountId,
    origins: Seq<(AccountId, u32)>,
)
    requires
        0 <= price <= u128::MAX,
        spec_payout_valid(price, payout),
        origins_total(origins) < MAX_ORIGINS,
        owner_net(price, payout, owner_id@, origins) >= 0,
    ensures
        payout_sum(spec_split_payout(price, payout, owner_id, origins)) + spec_get_fee(price)
            == payout_sum(payout),
        price - 1 <= payout_sum(payout) <= price,
        payout_sum(royalties(payout, owner_id@)) + referral_sum(price, origins)
            + owner_net(price, payout, owner_id@, origins) + spec_get_fee(price)
            == payout_sum(payout),
{
    let r = royalties(payout, owner_id@);
    let f = referral_payouts(price, origins);
    let last = seq![(owner_id, owner_net(price, payout, owner_id@, origins) as u128)];
    lemma_royalties_split(payout, owner_id@);
    lemma_payout_sum_append(r, f);
    lemma_payout_sum_append(r + f, last);
    assert(last.drop_last() =~= Seq::<(AccountId, u128)>::empty());
    lemma_payout_sum_nonneg(r);
    lemma_referral_bound(price, origins);
    lemma_origins_nonneg(origins);
    assert(spec_get_fee(price) >= 0) by (nonlinear_arith)
        requires
            price >= 0,
    ;
    assert(owner_sum(payout, owner_id@) <= payout_sum(payout));
    assert(last.last().1 == owner_net(price, payout, owner_id@, origins));
    assert(payout_sum(last.drop_last()) == 0);
    assert(payout_sum(last) == owner_net(price, payout, owner_id@, origins));
    assert(spec_split_payout(price, payout, owner_id, origins) == r + f + last);
}

/// Basis-point share of `amount`, exact for every `amount`.
pub fn mul_div_bps(amount: u128, bps: u128) -> (r: u128)
    requires
        bps <= 10_000,
    ensures
        r == bps_share(amount as int, bps as int),
        r <= amount,
{
    let q = amount / PAYOUT_TOTAL_VALUE;
    let rem = amount % PAYOUT_TOTAL_VALUE;
    proof {
        lemma_fundamental_div_mod(amount as int, 10_000);
        assert(q * bps <= q * 10_000) by (nonlinear_arith)
            requires
                bps <= 10_000,
        ;
        assert(rem * bps <= 10_000 * 10_000) by (nonlinear_arith)
            requires
                bps <= 10_000,
                rem < 10_000,
        ;
        assert((rem * bps) + (q * bps) * 10_000 == amount * bps) by (nonlinear_arith)
            requires
                amount == 10_000 * q + rem,
        ;
        lemma_hoist_over_denominator((rem * bps) as int, (q * bps) as int, 10_000);
        assert(amount * bps <= amount * 10_000) by (nonlinear_arith)
            requires
                bps <= 10_000,
        ;
        assert((amount * bps) / 10_000 <= amount) by (nonlinear_arith)
            requires
                amount * bps <= amount * 10_000,
        ;
    }
    q * bps + rem * bps / PAYOUT_TOTAL_VALUE
}

/// The protocol fee charged on `price`, rounded down.
pub fn get_fee(price: u128) -> (r: u128)
    ensures
        r == spec_get_fee(price as int),
        r <= price,
{
    mul_div_bps(price, PROTOCOL_FEE)
}

/// `price` with the protocol fee added on top.
pub fn with_fees(price: u128) -> (r: u128)
    requires
        spec_with_fees(price as int) <= u128::MAX,
    ensures
        r == spec_with_fees(price as int),
{
    let fee = get_fee(price);
    proof {
        lemma_hoist_over_denominator((price * 300) as int, price as int, 10_000);
        assert(price * 300 + price * 10_000 == price * (10_000 + 300)) by (nonlinear_arith);
    }
    price + fee
}

/// Total basis points of a referral table.
pub fn calculate_origins(origins: &Origins) -> (r: u128)
    ensures
        r == origins_total(origins@),
{
    let mut total: u128 = 0;
    let mut i: usize = 0;
    while i < origins.len()
        invariant
            i <= origins@.len(),
            total == origins_total(origins@.subrange(0, i as int)),
            total <= i * 0xffff_ffff,
        decreases origins@.len() - i,
    {
        assert(origins@.subrange(0, i + 1).drop_last() =~= origins@.subrange(0, i as int));
        proof {
            assert((i + 1) * 0xffff_ffff <= 0x1_0000_0000_0000_0000 * 0xffff_ffff)
                by (nonlinear_arith)
                requires
                    i < 0x1_0000_0000_0000_0000,
            ;
        }
        total = total + origins[i].1 as u128;
        i = i + 1;
    }
    assert(origins@.subrange(0, i as int) =~= origins@);
    total
}

/// `price` with the protocol fee and the referral fees of `origins` added on top;
/// `None` when that amount does not fit in a `u128`.
pub fn calculate_price_with_fees(price: u128, origins: Option<&Origins>) -> (r: Option<u128>)
    requires
        origins matches Some(o) ==> origins_total(o@) < MAX_ORIGINS,
    ensures
        ({
            let total = match origins {
                Some(o) => origins_total(o@),
                None => 0,
            };
            &&& r matches Some(v) ==> v == spec_price_with_fees(price as int, total)
            &&& r is None <==> spec_price_with_fees(price as int, total) > u128::MAX
        }),
{
    let total = match origins {
        Some(o) => calculate_origins(o),
        None => 0,
    };
    let extra = mul_div_bps(price, PROTOCOL_FEE + total);
    proof {
        lemma_hoist_over_denominator((price * (300 + total)) as int, price as int, 10_000);
        assert(price * (300 + total) + price * 10_000 == price * (10_000 + 300 + total))
            by (nonlinear_arith);
    }
    price.checked_add(extra)
}

/// Whether a payout table reported for a sale at `price` is accepted: one to
/// `MAX_PAYOUT_ENTRIES` entries whose amounts add up to `price` or to one unit less.
pub fn payout_is_valid(price: u128, payout: &Vec<(AccountId, u128)>) -> (r: bool)
    ensures
        r == spec_payout_valid(price as int, payout@),
{
    if payout.len() == 0 || payout.len() > MAX_PAYOUT_ENTRIES {
        return false;
    }
    let mut remainder = price;
    let mut i: usize = 0;
    while i < payout.len()
        invariant
            i <= payout@.len(),
            remainder == price - payout_sum(payout@.subrange(0, i as int)),
        decreases payout@.len() - i,
    {
        assert(payout@.subrange(0, i + 1).drop_last() =~= payout@.subrange(0, i as int));
        match remainder.checked_sub(payout[i].1) {
            Some(v) => remainder = v,
            None => {
                proof {
                    lemma_payout_sum_prefix(payout@, i + 1);
                }
                return false;
            },
        }
        i = i + 1;
    }
    assert(payout@.subrange(0, i as int) =~= payout@);
    remainder <= 1
}

/// Splits an accepted payout table for a sale at `price`: royalty entries are paid as
/// reported, each referral principal gets its share of `price`, and the owner gets its
/// share less the protocol fee and the referral shares. `None` when the owner's share
/// cannot cover those fees.
pub fn split_payout(
    price: u128,
    payout: &Vec<(AccountId, u128)>,
    owner_id: &AccountId,
    origins: &Origins,
) -> (r: Option<Vec<(AccountId, u128)>>)
    requires
        spec_payout_valid(price as int, payout@),
        origins_total(origins@) < MAX_ORIGINS,
    ensures
        r is None <==> owner_net(price as int, payout@, owner_id@, origins@) < 0,
        r matches Some(out) ==> out@ == spec_split_payout(price as int, payout@, *owner_id, origins@),
{
    let mut out: Vec<(AccountId, u128)> = Vec::new();
    let mut owner_share: u128 = 0;
    let mut i: usize = 0;
    while i < payout.len()
        invariant
            i <= payout@.len(),
            spec_payout_valid(price as int, payout@),
            out@ == royalties(payout@.subrange(0, i as int), owner_id@),
            owner_share == owner_sum(payout@.subrange(0, i as int), owner_id@),
            payout_sum(out@) + owner_share == payout_sum(payout@.subrange(0, i as int)),
        decreases payout@.len() - i,
    {
        let ghost pre = payout@.subrange(0, i as int);
        assert(payout@.subrange(0, i + 1).drop_last() =~= pre);
        proof {
            lemma_payout_sum_prefix(payout@, i + 1);
            lemma_payout_sum_nonneg(out@);
        }
        if payout[i].0 != *owner_id {
            assert(out@.push(payout@[i as int]).drop_last() =~= out@);
            out.push((payout[i].0.clone(), payout[i].1));
        } else {
            owner_share = owner_share + payout[i].1;
        }
        i = i + 1;
    }
    assert(payout@.subrange(0, i as int) =~= payout@);
    let ghost royal = out@;
    let mut refs: u128 = 0;
    let mut j: usize = 0;
    proof {
        lemma_origins_nonneg(origins@);
    }
    while j < origins.len()
        invariant
            j <= origins@.len(),
            origins_total(origins@) < MAX_ORIGINS,
            out@ == royal + referral_payouts(price as int, origins@.subrange(0, j as int)),
            refs == referral_sum(price as int, origins@.subrange(0, j as int)),
            refs <= price,
        decreases origins@.len() - j,
    {
        let ghost pre = origins@.subrange(0, j as int);
        let ghost next = origins@.subrange(0, j + 1);
        assert(next.drop_last() =~= pre);
        proof {
            lemma_origins_prefix(origins@, j + 1);
            lemma_origins_prefix(origins@, j as int);
            lemma_referral_bound(price as int, next);
            assert(referral_sum(price as int, next) <= price) by (nonlinear_arith)
                requires
                    referral_sum(price as int, next) * 10_000 <= price * origins_total(next),
                    origins_total(next) < 10_000,
                    price >= 0,
            ;
        }
        let share = mul_div_bps(price, origins[j].1 as u128);
        let ghost rp = referral_payouts(price as int, pre);
        assert(rp.push((origins@[j as int].0, share)).drop_last() =~= rp);
        assert((royal + rp).push((origins@[j as int].0, share)) =~= royal + rp.push(
            (origins@[j as int].0, share),
        ));
        out.push((origins[j].0.clone(), share));
        refs = refs + share;
        j = j + 1;
    }
    assert(origins@.subrange(0, j as int) =~= origins@);
    let fee = get_fee(price);
    if owner_share < fee || owner_share - fee < refs {
        return None;
    }
    out.push((owner_id.clone(), owner_share - fee - refs));
    Some(out)
}

} // verus!
