use vrf_rarity::tier::{classify, Tier};

#[test]
fn boundary_exactness() {
    assert_eq!(classify(0), Tier::Common);
    assert_eq!(classify(49), Tier::Common);
    assert_eq!(classify(50), Tier::Uncommon);
    assert_eq!(classify(79), Tier::Uncommon);
    assert_eq!(classify(80), Tier::Rare);
    assert_eq!(classify(94), Tier::Rare);
    assert_eq!(classify(95), Tier::Epic);
    assert_eq!(classify(98), Tier::Epic);
    assert_eq!(classify(99), Tier::Legendary);
}

#[test]
fn band_sizes_partition_the_range() {
    let mut counts = [0usize; 5];
    for roll in 0u8..=99 {
        counts[classify(roll).code() as usize] += 1;
    }
    assert_eq!(counts, [50, 30, 15, 4, 1]);
}

#[test]
fn tier_codes_are_dense() {
    assert_eq!(Tier::Common.code(), 0);
    assert_eq!(Tier::Uncommon.code(), 1);
    assert_eq!(Tier::Rare.code(), 2);
    assert_eq!(Tier::Epic.code(), 3);
    assert_eq!(Tier::Legendary.code(), 4);
}

#[test]
fn bands_are_contiguous() {
    let mut previous = classify(0).code();
    for roll in 1u8..=99 {
        let code = classify(roll).code();
        assert!(code == previous || code == previous + 1);
        previous = code;
    }
    assert_eq!(classify(0).code(), 0);
    assert_eq!(classify(99).code(), 4);
}
