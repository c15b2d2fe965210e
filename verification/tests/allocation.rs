use token_faucet::allocation::{
    AllocationTable, Bucket, BucketKind, MintOrder, ARENA_SHARE, ECOSYSTEM_SHARE,
    GYC_STAKING_SHARE, LIQUIDITY_MINING_SHARE, MARKETING_SHARE, NFT_MINING_SHARE,
    SHARE_DENOMINATOR,
};
use token_faucet::Identity;

fn id(n: u8) -> Identity {
    Identity::new([n; 32])
}

fn standard() -> AllocationTable {
    AllocationTable::standard(id(1), id(2), id(3), id(4), id(5), id(6))
}

fn amounts(table: &AllocationTable, amount: u64) -> Vec<u64> {
    table.distribute(amount).orders.iter().map(|o| o.amount).collect()
}

fn bucket(share: u64) -> Bucket {
    Bucket { kind: BucketKind::Arena, share, recipient: id(9) }
}

#[test]
fn standard_shares_add_up_to_the_denominator() {
    assert_eq!(SHARE_DENOMINATOR, 68);
    assert_eq!(
        ARENA_SHARE
            + NFT_MINING_SHARE
            + LIQUIDITY_MINING_SHARE
            + MARKETING_SHARE
            + ECOSYSTEM_SHARE
            + GYC_STAKING_SHARE,
        SHARE_DENOMINATOR
    );
    let table = standard();
    assert_eq!(table.len(), 6);
    assert_eq!(table.denominator(), 68);
    let mut sum: u64 = 0;
    let mut i: usize = 0;
    while i < table.len() {
        sum += table.bucket(i).unwrap().share;
        i += 1;
    }
    assert_eq!(sum, 68);
}

#[test]
fn standard_shares_match_the_published_percentages() {
    let percentages: [f64; 6] = [
        0.07352941176470588235294117647059,
        0.17647058823529411764705882352941,
        0.19117647058823529411764705882353,
        0.04411764705882352941176470588235,
        0.29411764705882352941176470588235,
        0.22058823529411764705882352941176,
    ];
    let table = standard();
    let mut sum: f64 = 0.0;
    let mut i: usize = 0;
    while i < 6 {
        let share = table.bucket(i).unwrap().share as f64 / table.denominator() as f64;
        assert!((share - percentages[i]).abs() < 1e-15);
        sum += percentages[i];
        i += 1;
    }
    assert!((sum - 1.0).abs() < 1e-9);
}

#[test]
fn standard_table_lists_the_buckets_in_order() {
    let table = standard();
    assert_eq!(
        table.bucket(0),
        Some(Bucket { kind: BucketKind::Arena, share: 5, recipient: id(1) })
    );
    assert_eq!(
        table.bucket(1),
        Some(Bucket { kind: BucketKind::NftMining, share: 12, recipient: id(2) })
    );
    assert_eq!(
        table.bucket(2),
        Some(Bucket { kind: BucketKind::LiquidityMining, share: 13, recipient: id(3) })
    );
    assert_eq!(
        table.bucket(3),
        Some(Bucket { kind: BucketKind::Marketing, share: 3, recipient: id(4) })
    );
    assert_eq!(
        table.bucket(4),
        Some(Bucket { kind: BucketKind::Ecosystem, share: 20, recipient: id(5) })
    );
    assert_eq!(
        table.bucket(5),
        Some(Bucket { kind: BucketKind::GycStaking, share: 15, recipient: id(6) })
    );
    assert_eq!(table.bucket(6), None);
}

#[test]
fn distribute_nine_tokens() {
    let d = standard().distribute(9_000_000_000);
    assert_eq!(
        d.orders,
        vec![
            MintOrder { kind: BucketKind::Arena, recipient: id(1), amount: 661_764_705 },
            MintOrder { kind: BucketKind::NftMining, recipient: id(2), amount: 1_588_235_294 },
            MintOrder { kind: BucketKind::LiquidityMining, recipient: id(3), amount: 1_720_588_235 },
            MintOrder { kind: BucketKind::Marketing, recipient: id(4), amount: 397_058_823 },
            MintOrder { kind: BucketKind::Ecosystem, recipient: id(5), amount: 2_647_058_823 },
            MintOrder { kind: BucketKind::GycStaking, recipient: id(6), amount: 1_985_294_117 },
        ]
    );
    assert_eq!(d.total, 8_999_999_997);
}

#[test]
fn distribute_small_amounts() {
    let table = standard();
    assert_eq!(amounts(&table, 0), vec![0, 0, 0, 0, 0, 0]);
    assert_eq!(amounts(&table, 1), vec![0, 0, 0, 0, 0, 0]);
    assert_eq!(amounts(&table, 67), vec![4, 11, 12, 2, 19, 14]);
    assert_eq!(amounts(&table, 68), vec![5, 12, 13, 3, 20, 15]);
    assert_eq!(table.distribute(67).total, 62);
    assert_eq!(table.distribute(68).total, 68);
}

#[test]
fn distribute_an_amount_the_shares_divide() {
    let d = standard().distribute(51_000_000_000);
    let got: Vec<u64> = d.orders.iter().map(|o| o.amount).collect();
    assert_eq!(
        got,
        vec![
            3_750_000_000,
            9_000_000_000,
            9_750_000_000,
            2_250_000_000,
            15_000_000_000,
            11_250_000_000
        ]
    );
    assert_eq!(d.total, 51_000_000_000);
}

#[test]
fn distribute_the_largest_amount() {
    let d = standard().distribute(u64::MAX);
    let got: Vec<u64> = d.orders.iter().map(|o| o.amount).collect();
    assert_eq!(
        got,
        vec![
            1_356_378_240_713_937_618,
            3_255_307_777_713_450_285,
            3_526_583_425_856_237_808,
            813_826_944_428_362_571,
            5_425_512_962_855_750_475,
            4_069_134_722_141_812_856
        ]
    );
    assert_eq!(d.total, u64::MAX - 2);
}

#[test]
fn distribute_never_hands_out_more_than_the_amount() {
    let table = standard();
    let mut amount: u64 = 0;
    while amount < 2_000 {
        let d = table.distribute(amount);
        let sum: u64 = d.orders.iter().map(|o| o.amount).sum();
        assert_eq!(sum, d.total);
        assert!(sum <= amount);
        assert!(amount - sum < 6);
        amount += 1;
    }
    let mut blocks: u64 = 1;
    while blocks < 500 {
        let amount: u64 = blocks * 3_000_000_000;
        let d = table.distribute(amount);
        assert!(d.total <= amount);
        assert!(amount - d.total < 6);
        blocks += 1;
    }
}

#[test]
fn distribute_over_a_table_of_thirds() {
    let table = AllocationTable::new(vec![bucket(1), bucket(1), bucket(1)], 3).unwrap();
    assert_eq!(amounts(&table, 10), vec![3, 3, 3]);
    assert_eq!(table.distribute(10).total, 9);
    assert_eq!(amounts(&table, 11), vec![3, 3, 3]);
    assert_eq!(table.distribute(11).total, 9);
    assert_eq!(amounts(&table, 12), vec![4, 4, 4]);
}

#[test]
fn distribute_over_a_single_bucket_hands_out_everything() {
    let table = AllocationTable::new(vec![bucket(10_000)], 10_000).unwrap();
    assert_eq!(amounts(&table, 123_456_789), vec![123_456_789]);
    assert_eq!(amounts(&table, u64::MAX), vec![u64::MAX]);
}

#[test]
fn distribute_in_basis_points() {
    let table =
        AllocationTable::new(vec![bucket(2_500), bucket(7_499), bucket(1), bucket(0)], 10_000)
            .unwrap();
    assert_eq!(amounts(&table, 9_999), vec![2_499, 7_498, 0, 0]);
    assert_eq!(table.distribute(9_999).total, 9_997);
}

#[test]
fn distribute_keeps_kind_and_recipient_of_each_bucket() {
    let buckets = vec![
        Bucket { kind: BucketKind::Marketing, share: 1, recipient: id(40) },
        Bucket { kind: BucketKind::Ecosystem, share: 3, recipient: id(41) },
    ];
    let table = AllocationTable::new(buckets, 4).unwrap();
    assert_eq!(
        table.distribute(100).orders,
        vec![
            MintOrder { kind: BucketKind::Marketing, recipient: id(40), amount: 25 },
            MintOrder { kind: BucketKind::Ecosystem, recipient: id(41), amount: 75 },
        ]
    );
}

#[test]
fn table_rejects_shares_that_do_not_add_up() {
    assert!(AllocationTable::new(vec![bucket(1), bucket(1)], 3).is_none());
    assert!(AllocationTable::new(vec![bucket(2), bucket(2)], 3).is_none());
    assert!(AllocationTable::new(vec![], 1).is_none());
    assert!(AllocationTable::new(vec![bucket(u64::MAX), bucket(u64::MAX)], u64::MAX).is_none());
    assert!(AllocationTable::new(vec![bucket(u64::MAX), bucket(1)], u64::MAX).is_none());
}

#[test]
fn table_rejects_a_zero_denominator() {
    assert!(AllocationTable::new(vec![], 0).is_none());
    assert!(AllocationTable::new(vec![bucket(0)], 0).is_none());
}

#[test]
fn table_accepts_the_widest_shares() {
    let table = AllocationTable::new(vec![bucket(u64::MAX - 1), bucket(1)], u64::MAX).unwrap();
    assert_eq!(amounts(&table, u64::MAX), vec![u64::MAX - 1, 1]);
    assert_eq!(amounts(&table, 5), vec![4, 0]);
}
