//! The rarity tier classifier: a pure mapping from a bounded roll to one of
//! five tiers, over contiguous half-open cumulative bands.

use vstd::prelude::*;
use vstd::set_lib::set_int_range;

verus! {

/// One of the five rarity tiers, ordered from most to least probable.
#[derive(Clone, Copy, Debug, PartialEq, Eq, Structural)]
pub enum Tier {
    Common,
    Uncommon,
    Rare,
    Epic,
    Legendary,
}

/// The tier assigned to a roll: 0..=49 is Common, 50..=79 Uncommon,
/// 80..=94 Rare, 95..=98 Epic, and 99 Legendary.
pub open spec fn spec_classify(roll: int) -> Tier {
    if roll <= 49 {
        Tier::Common
    } else if roll <= 79 {
        Tier::Uncommon
    } else if roll <= 94 {
        Tier::Rare
    } else if roll <= 98 {
        Tier::Epic
    } else {
        Tier::Legendary
    }
}

/// The one-byte encoding of a tier, as persisted in a result record.
pub open spec fn spec_tier_code(t: Tier) -> u8 {
    match t {
        Tier::Common => 0,
        Tier::Uncommon => 1,
        Tier::Rare => 2,
        Tier::Epic => 3,
        Tier::Legendary => 4,
    }
}

/// Maps a roll in 0..=99 to its rarity tier.
pub fn classify(roll: u8) -> (t: Tier)
    requires
        roll <= 99,
    ensures
        t == spec_classify(roll as int),
{
    if roll <= 49 {
        Tier::Common
    } else if roll <= 79 {
        Tier::Uncommon
    } else if roll <= 94 {
        Tier::Rare
    } else if roll <= 98 {
        Tier::Epic
    } else {
        Tier::Legendary
    }
}

impl Tier {
    /// The one-byte encoding of this tier, in 0..=4.
    pub fn code(self) -> (c: u8)
        ensures
            c == spec_tier_code(self),
            c <= 4,
    {
        match self {
            Tier::Common => 0,
            Tier::Uncommon => 1,
            Tier::Rare => 2,
            Tier::Epic => 3,
            Tier::Legendary => 4,
        }
    }
}

/// The set of rolls in 0..=99 that classify to tier `t`.
pub open spec fn band(t: Tier) -> Set<int> {
    Set::new(|roll: int| 0 <= roll <= 99 && spec_classify(roll) == t)
}

/// The classifier partitions 0..=99: each tier's band is a contiguous range,
/// the ranges cover 0..=99 without overlap, and the band sizes are
/// 50, 30, 15, 4 and 1.
pub proof fn lemma_classify_partition()
    ensures
        forall|roll: int|
            0 <= roll <= 99 ==> ((#[trigger] spec_classify(roll)) == Tier::Common <==> 0 <= roll
                <= 49),
        forall|roll: int|
            0 <= roll <= 99 ==> ((#[trigger] spec_classify(roll)) == Tier::Uncommon <==> 50 <= roll
                <= 79),
        forall|roll: int|
            0 <= roll <= 99 ==> ((#[trigger] spec_classify(roll)) == Tier::Rare <==> 80 <= roll
                <= 94),
        forall|roll: int|
            0 <= roll <= 99 ==> ((#[trigger] spec_classify(roll)) == Tier::Epic <==> 95 <= roll
                <= 98),
        forall|roll: int|
            0 <= roll <= 99 ==> ((#[trigger] spec_classify(roll)) == Tier::Legendary <==> roll
                == 99),
        band(Tier::Common).len() == 50,
        band(Tier::Uncommon).len() == 30,
        band(Tier::Rare).len() == 15,
        band(Tier::Epic).len() == 4,
        band(Tier::Legendary).len() == 1,
{
    assert(band(Tier::Common) =~= set_int_range(0, 50));
    assert(band(Tier::Uncommon) =~= set_int_range(50, 80));
    assert(band(Tier::Rare) =~= set_int_range(80, 95));
    assert(band(Tier::Epic) =~= set_int_range(95, 99));
    assert(band(Tier::Legendary) =~= set_int_range(99, 100));
    vstd::set_lib::lemma_int_range(0, 50);
    vstd::set_lib::lemma_int_range(50, 80);
    vstd::set_lib::lemma_int_range(80, 95);
    vstd::set_lib::lemma_int_range(95, 99);
    vstd::set_lib::lemma_int_range(99, 100);
}

} // verus!
