//! Allocation distributor: splits an emission across the buckets of a table
//! in proportion to their shares.
//!
//! A share is a numerator over the table's denominator, and the shares of a
//! table add up to the denominator. Each bucket receives the floor of its
//! exact portion, so what is handed out never exceeds the emission and falls
//! short of it by less than one base unit per bucket.

use vstd::prelude::*;
use vstd::arithmetic::div_mod::lemma_fundamental_div_mod;
use crate::identity::Identity;

verus! {

/// Denominator of the shares of the standard table.
pub const SHARE_DENOMINATOR: u64 = 68;

/// Share of the arena bucket, in parts of `SHARE_DENOMINATOR`.
pub const ARENA_SHARE: u64 = 5;

/// Share of the NFT mining bucket.
pub const NFT_MINING_SHARE: u64 = 12;

/// Share of the liquidity mining bucket.
pub const LIQUIDITY_MINING_SHARE: u64 = 13;

/// Share of the marketing bucket.
pub const MARKETING_SHARE: u64 = 3;

/// Share of the ecosystem bucket.
pub const ECOSYSTEM_SHARE: u64 = 20;

/// Share of the staking bucket.
pub const GYC_STAKING_SHARE: u64 = 15;

/// Name of an allocation bucket.
#[derive(Clone, Copy, Debug, PartialEq, Eq, Structural)]
pub enum BucketKind {
    Arena,
    NftMining,
    LiquidityMining,
    Marketing,
    Ecosystem,
    GycStaking,
}

/// One row of an allocation table.
#[derive(Clone, Copy, Debug, PartialEq, Eq)]
pub struct Bucket {
    pub kind: BucketKind,
    /// Numerator of the bucket's portion.
    pub share: u64,
    /// Account that receives the bucket's portion.
    pub recipient: Identity,
}

/// One mint operation: `amount` base units to `recipient`.
#[derive(Clone, Copy, Debug, PartialEq, Eq)]
pub struct MintOrder {
    pub kind: BucketKind,
    pub recipient: Identity,
    pub amount: u64,
}

/// The mint operations of one emission, in table order.
#[derive(Debug)]
pub struct Distribution {
    pub orders: Vec<MintOrder>,
    /// Sum of the amounts of `orders`.
    pub total: u64,
}

/// An ordered list of buckets whose shares add up to the denominator.
#[derive(Debug)]
pub struct AllocationTable {
    buckets: Vec<Bucket>,
    denominator: u64,
}

/// Sum of the shares of `buckets`.
pub open spec fn total_shares(buckets: Seq<Bucket>) -> int
    decreases buckets.len(),
{
    if buckets.len() == 0 {
        0
    } else {
        total_shares(buckets.drop_last()) + buckets.last().share
    }
}

/// Whether `buckets` over `denominator` form a table: the shares add up to
/// the whole.
pub open spec fn balanced(buckets: Seq<Bucket>, denominator: int) -> bool {
    denominator > 0 && total_shares(buckets) == denominator
}

/// Portion of `distribution_amount` that a bucket with `share` receives.
pub open spec fn bucket_amount(distribution_amount: int, share: int, denominator: int) -> int {
    (distribution_amount * share) / denominator
}

/// Sum of the portions of `buckets`.
pub open spec fn total_allocated(
    buckets: Seq<Bucket>,
    distribution_amount: int,
    denominator: int,
) -> int
    decreases buckets.len(),
{
    if buckets.len() == 0 {
        0
    } else {
        total_allocated(buckets.drop_last(), distribution_amount, denominator) + bucket_amount(
            distribution_amount,
            buckets.last().share as int,
            denominator,
        )
    }
}

/// Sum of the amounts of `orders`.
pub open spec fn total_ordered(orders: Seq<MintOrder>) -> int
    decreases orders.len(),
{
    if orders.len() == 0 {
        0
    } else {
        total_ordered(orders.drop_last()) + orders.last().amount
    }
}

/// Whether `order` is what `bucket` receives of `distribution_amount`.
pub open spec fn fills(
    order: MintOrder,
    bucket: Bucket,
    distribution_amount: int,
    denominator: int,
) -> bool {
    &&& order.kind == bucket.kind
    &&& order.recipient == bucket.recipient
    &&& order.amount == bucket_amount(distribution_amount, bucket.share as int, denominator)
}

/// The six buckets of the standard table, in order.
pub open spec fn standard_buckets(
    receiver_arena: Identity,
    receiver_nft_mining: Identity,
    receiver_liquidity_mining: Identity,
    receiver_marketing: Identity,
    receiver_ecosystem: Identity,
    receiver_gyc_staking: Identity,
) -> Seq<Bucket> {
    seq![
        Bucket { kind: BucketKind::Arena, share: ARENA_SHARE, recipient: receiver_arena },
        Bucket { kind: BucketKind::NftMining, share: NFT_MINING_SHARE, recipient: receiver_nft_mining },
        Bucket {
            kind: BucketKind::LiquidityMining,
            share: LIQUIDITY_MINING_SHARE,
            recipient: receiver_liquidity_mining,
        },
        Bucket { kind: BucketKind::Marketing, share: MARKETING_SHARE, recipient: receiver_marketing },
        Bucket { kind: BucketKind::Ecosystem, share: ECOSYSTEM_SHARE, recipient: receiver_ecosystem },
        Bucket {
            kind: BucketKind::GycStaking,
            share: GYC_STAKING_SHARE,
            recipient: receiver_gyc_staking,
        },
    ]
}

impl View for AllocationTable {
    type V = Seq<Bucket>;

    closed spec fn view(&self) -> Seq<Bucket> {
        self.buckets@
    }
}

impl AllocationTable {
    #[verifier::type_invariant]
    spec fn well_formed(self) -> bool {
        balanced(self.buckets@, self.denominator as int)
    }

    /// The denominator of the shares.
    pub closed spec fn spec_denominator(&self) -> u64 {
        self.denominator
    }

    /// The table of `buckets` over `denominator`, if their shares add up to it.
    pub fn new(buckets: Vec<Bucket>, denominator: u64) -> (table: Option<AllocationTable>)
        ensures
            table is Some <==> balanced(buckets@, denominator as int),
            table matches Some(t) ==> t@ == buckets@ && t.spec_denominator() == denominator,
    {
        if denominator == 0 {
            return None;
        }
        let mut sum: u64 = 0;
        let mut i: usize = 0;
        while i < buckets.len()
            invariant
                i <= buckets.len(),
                sum == total_shares(buckets@.take(i as int)),
                sum <= denominator,
            decreases buckets.len() - i,
        {
            let share: u64 = buckets[i].share;
            proof {
                assert(buckets@.take(i + 1).drop_last() =~= buckets@.take(i as int));
                lemma_shares_monotone(buckets@, i + 1);
            }
            if share > denominator - sum {
                return None;
            }
            sum = sum + share;
            i += 1;
        }
        proof {
            assert(buckets@.take(i as int) =~= buckets@);
        }
        if sum == denominator {
            Some(AllocationTable { buckets, denominator })
        } else {
            None
        }
    }

    /// The standard table: six buckets over `SHARE_DENOMINATOR`.
    pub fn standard(
        receiver_arena: Identity,
        receiver_nft_mining: Identity,
        receiver_liquidity_mining: Identity,
        receiver_marketing: Identity,
        receiver_ecosystem: Identity,
        receiver_gyc_staking: Identity,
    ) -> (table: AllocationTable)
        ensures
            table@ == standard_buckets(
                receiver_arena,
                receiver_nft_mining,
                receiver_liquidity_mining,
                receiver_marketing,
                receiver_ecosystem,
                receiver_gyc_staking,
            ),
            table.spec_denominator() == SHARE_DENOMINATOR,
            balanced(table@, SHARE_DENOMINATOR as int),
    {
        let mut buckets: Vec<Bucket> = Vec::new();
        buckets.push(Bucket { kind: BucketKind::Arena, share: ARENA_SHARE, recipient: receiver_arena });
        buckets.push(
            Bucket { kind: BucketKind::NftMining, share: NFT_MINING_SHARE, recipient: receiver_nft_mining },
        );
        buckets.push(
            Bucket {
                kind: BucketKind::LiquidityMining,
                share: LIQUIDITY_MINING_SHARE,
                recipient: receiver_liquidity_mining,
            },
        );
        buckets.push(
            Bucket { kind: BucketKind::Marketing, share: MARKETING_SHARE, recipient: receiver_marketing },
        );
        buckets.push(
            Bucket { kind: BucketKind::Ecosystem, share: ECOSYSTEM_SHARE, recipient: receiver_ecosystem },
        );
        buckets.push(
            Bucket {
                kind: BucketKind::GycStaking,
                share: GYC_STAKING_SHARE,
                recipient: receiver_gyc_staking,
            },
        );
        proof {
            let expected = standard_buckets(
                receiver_arena,
                receiver_nft_mining,
                receiver_liquidity_mining,
                receiver_marketing,
                receiver_ecosystem,
                receiver_gyc_staking,
            );
            assert(buckets@ =~= expected);
            lemma_standard_table_balanced(
                receiver_arena,
                receiver_nft_mining,
                receiver_liquidity_mining,
                receiver_marketing,
                receiver_ecosystem,
                receiver_gyc_staking,
            );
        }
        AllocationTable { buckets, denominator: SHARE_DENOMINATOR }
    }

    /// Number of buckets.
    pub fn len(&self) -> (n: usize)
        ensures
            n == self@.len(),
            n >= 1,
    {
        proof {
            use_type_invariant(self);
        }
        self.buckets.len()
    }

    /// The denominator of the shares.
    #[verifier::when_used_as_spec(spec_denominator)]
    pub fn denominator(&self) -> (d: u64)
        ensures
            d == self.spec_denominator(),
            balanced(self@, d as int),
    {
        proof {
            use_type_invariant(self);
        }
        self.denominator
    }

    /// The bucket at `index`, if there is one.
    pub fn bucket(&self, index: usize) -> (b: Option<Bucket>)
        ensures
            b == if index < self@.len() {
                Some(self@[index as int])
            } else {
                None
            },
    {
        if index < self.buckets.len() {
            Some(self.buckets[index])
        } else {
            None
        }
    }

    /// Splits `distribution_amount` across the buckets, in table order.
    ///
    /// Each bucket receives the floor of `distribution_amount * share /
    /// denominator`. The total handed out does not exceed the amount, and the
    /// shortfall is less than the number of buckets.
    pub fn distribute(&self, distribution_amount: u64) -> (d: Distribution)
        ensures
            balanced(self@, self.spec_denominator() as int),
            d.orders@.len() == self@.len(),
            forall|i: int|
                0 <= i < self@.len() ==> fills(
                    #[trigger] d.orders@[i],
                    self@[i],
                    distribution_amount as int,
                    self.spec_denominator() as int,
                ),
            d.total == total_ordered(d.orders@),
            d.total == total_allocated(
                self@,
                distribution_amount as int,
                self.spec_denominator() as int,
            ),
            d.total <= distribution_amount,
            distribution_amount - d.total < self@.len(),
    {
        proof {
            use_type_invariant(self);
        }
        let n: usize = self.buckets.len();
        let ghost amount = distribution_amount as int;
        let ghost denominator = self.denominator as int;
        let mut orders: Vec<MintOrder> = Vec::new();
        let mut total: u64 = 0;
        let mut i: usize = 0;
        while i < n
            invariant
                i <= n,
                n == self.buckets@.len(),
                amount == distribution_amount,
                denominator == self.denominator,
                balanced(self.buckets@, denominator),
                orders@.len() == i,
                forall|j: int|
                    0 <= j < i ==> fills(#[trigger] orders@[j], self.buckets@[j], amount, denominator),
                total == total_ordered(orders@),
                total == total_allocated(self.buckets@.take(i as int), amount, denominator),
            decreases n - i,
        {
            let bucket: Bucket = self.buckets[i];
            proof {
                let next = self.buckets@.take(i + 1);
                assert(next.drop_last() =~= self.buckets@.take(i as int));
                lemma_shares_monotone(self.buckets@, i + 1);
                lemma_allocation_balance(next, amount, denominator);
                lemma_prefix_bounded(
                    total_allocated(next, amount, denominator),
                    amount,
                    total_shares(next),
                    denominator,
                );
                lemma_product_fits(amount, bucket.share as int);
            }
            let portion: u64 = ((distribution_amount as u128) * (bucket.share as u128) / (
            self.denominator as u128)) as u64;
            total = total + portion;
            let ghost before = orders@;
            orders.push(MintOrder { kind: bucket.kind, recipient: bucket.recipient, amount: portion });
            proof {
                assert(orders@.drop_last() =~= before);
            }
            i += 1;
        }
        proof {
            assert(self.buckets@.take(n as int) =~= self.buckets@);
            lemma_distribution_bounds(self.buckets@, denominator, amount);
        }
        Distribution { orders, total }
    }
}

/// The shares of the standard table add up to its denominator.
pub proof fn lemma_standard_table_balanced(
    receiver_arena: Identity,
    receiver_nft_mining: Identity,
    receiver_liquidity_mining: Identity,
    receiver_marketing: Identity,
    receiver_ecosystem: Identity,
    receiver_gyc_staking: Identity,
)
    ensures
        balanced(
            standard_buckets(
                receiver_arena,
                receiver_nft_mining,
                receiver_liquidity_mining,
                receiver_marketing,
                receiver_ecosystem,
                receiver_gyc_staking,
            ),
            SHARE_DENOMINATOR as int,
        ),
{
    let s6 = standard_buckets(
        receiver_arena,
        receiver_nft_mining,
        receiver_liquidity_mining,
        receiver_marketing,
        receiver_ecosystem,
        receiver_gyc_staking,
    );
    let s5 = s6.drop_last();
    let s4 = s5.drop_last();
    let s3 = s4.drop_last();
    let s2 = s3.drop_last();
    let s1 = s2.drop_last();
    assert(total_shares(s1.drop_last()) == 0);
    assert(total_shares(s1) == 5);
    assert(total_shares(s2) == 17);
    assert(total_shares(s3) == 30);
    assert(total_shares(s4) == 33);
    assert(total_shares(s5) == 53);
    assert(total_shares(s6) == 68);
}

/// The shares of a prefix add up to no more than the shares of the whole.
pub proof fn lemma_shares_monotone(buckets: Seq<Bucket>, k: int)
    requires
        0 <= k <= buckets.len(),
    ensures
        0 <= total_shares(buckets.take(k)) <= total_shares(buckets),
    decreases buckets.len() - k,
{
    if k == buckets.len() {
        assert(buckets.take(k) =~= buckets);
        lemma_shares_nonnegative(buckets);
    } else {
        lemma_shares_monotone(buckets, k + 1);
        assert(buckets.take(k + 1).drop_last() =~= buckets.take(k));
        lemma_shares_nonnegative(buckets.take(k));
    }
}

proof fn lemma_shares_nonnegative(buckets: Seq<Bucket>)
    ensures
        0 <= total_shares(buckets),
    decreases buckets.len(),
{
    if buckets.len() > 0 {
        lemma_shares_nonnegative(buckets.drop_last());
    }
}

/// What the buckets receive, scaled by the denominator, falls short of the
/// amount scaled by their shares by the remainders of the divisions: at most
/// `denominator - 1` for each bucket.
pub proof fn lemma_allocation_balance(buckets: Seq<Bucket>, distribution_amount: int, denominator: int)
    requires
        denominator > 0,
        distribution_amount >= 0,
    ensures
        0 <= total_allocated(buckets, distribution_amount, denominator),
        0 <= distribution_amount * total_shares(buckets) - denominator * total_allocated(
            buckets,
            distribution_amount,
            denominator,
        ) <= buckets.len() * (denominator - 1),
    decreases buckets.len(),
{
    if buckets.len() > 0 {
        let rest = buckets.drop_last();
        let share = buckets.last().share as int;
        lemma_allocation_balance(rest, distribution_amount, denominator);
        lemma_fundamental_div_mod(distribution_amount * share, denominator);
        lemma_balance_step(
            distribution_amount,
            denominator,
            total_shares(rest),
            share,
            total_allocated(rest, distribution_amount, denominator),
            bucket_amount(distribution_amount, share, denominator),
            rest.len() as int,
        );
    }
}

proof fn lemma_balance_step(a: int, d: int, shares: int, share: int, allocated: int, portion: int, n: int)
    by (nonlinear_arith)
    requires
        d > 0,
        a >= 0,
        share >= 0,
        n >= 0,
        0 <= allocated,
        0 <= a * shares - d * allocated <= n * (d - 1),
        portion == (a * share) / d,
        a * share == d * ((a * share) / d) + (a * share) % d,
    ensures
        0 <= portion,
        0 <= a * (shares + share) - d * (allocated + portion) <= (n + 1) * (d - 1),
{
    assert(0 <= (a * share) % d < d);
    assert(a * (shares + share) == a * shares + a * share);
    assert(d * (allocated + portion) == d * allocated + d * portion);
    assert((n + 1) * (d - 1) == n * (d - 1) + (d - 1));
}

proof fn lemma_prefix_bounded(allocated: int, a: int, shares: int, d: int)
    by (nonlinear_arith)
    requires
        d > 0,
        a >= 0,
        0 <= shares <= d,
        0 <= a * shares - d * allocated,
    ensures
        allocated <= a,
{
    assert(d * allocated <= a * shares);
    assert(a * shares <= a * d);
}

proof fn lemma_product_fits(a: int, share: int)
    by (nonlinear_arith)
    requires
        0 <= a <= u64::MAX,
        0 <= share <= u64::MAX,
    ensures
        0 <= a * share <= u128::MAX,
{
}

/// What a table hands out never exceeds the amount to distribute, and falls
/// short of it by less than the number of buckets.
pub proof fn lemma_distribution_bounds(buckets: Seq<Bucket>, denominator: int, distribution_amount: int)
    requires
        balanced(buckets, denominator),
        distribution_amount >= 0,
    ensures
        buckets.len() >= 1,
        0 <= total_allocated(buckets, distribution_amount, denominator) <= distribution_amount,
        distribution_amount - total_allocated(buckets, distribution_amount, denominator)
            < buckets.len(),
{
    lemma_allocation_balance(buckets, distribution_amount, denominator);
    lemma_shortfall(
        distribution_amount,
        denominator,
        total_allocated(buckets, distribution_amount, denominator),
        buckets.len() as int,
    );
}

proof fn lemma_shortfall(a: int, d: int, allocated: int, n: int)
    by (nonlinear_arith)
    requires
        d > 0,
        n >= 0,
        n >= 1,
        0 <= a * d - d * allocated <= n * (d - 1),
    ensures
        allocated <= a,
        a - allocated < n,
{
    assert(a * d - d * allocated == d * (a - allocated));
    if a - allocated >= n {
        assert(d * (a - allocated) >= d * n);
        assert(d * n > n * (d - 1));
    }
    if a - allocated < 0 {
        assert(d * (a - allocated) < 0);
    }
}

} // verus!
