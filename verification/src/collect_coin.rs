//! Coin pickup: when the physics adapter reports the player's collider
//! intersecting a coin's sensor, the coin disappears and the player's count
//! goes up by one.

use vstd::prelude::*;

verus! {

/// Running count of the coins a character has picked up.
#[derive(Clone, Copy, Debug, Default, PartialEq, Eq, Structural)]
pub struct CoinCollector {
    pub num_coins: u64,
}

/// A coin placed in the level: an identity and a sensor position.
#[derive(Clone, Copy, Debug, PartialEq, Eq, Structural)]
pub struct Coin {
    pub entity: u64,
    pub position: crate::math::Vec2i,
}

/// How many coins of `coins` the tick's sensor report says the collector is
/// touching.
pub open spec fn touched_count(coins: Seq<Coin>, touching: Seq<u64>) -> int
    decreases coins.len(),
{
    if coins.len() == 0 {
        0
    } else {
        touched_count(coins.drop_last(), touching)
            + if touching.contains(coins.last().entity) { 1int } else { 0int }
    }
}

/// The coins of `coins` that survive the tick: those the sensor report does
/// not list, in their original order.
pub open spec fn kept_coins(coins: Seq<Coin>, touching: Seq<u64>) -> Seq<Coin>
    decreases coins.len(),
{
    if coins.len() == 0 {
        coins
    } else if touching.contains(coins.last().entity) {
        kept_coins(coins.drop_last(), touching)
    } else {
        kept_coins(coins.drop_last(), touching).push(coins.last())
    }
}

/// One tick of coin pickup: every coin whose sensor the physics adapter
/// reports as intersecting the collector is despawned, and the count rises
/// by one per collected coin.
pub fn coin_collisions(collector: &mut CoinCollector, coins: &mut Vec<Coin>, touching: &Vec<u64>)
    requires
        old(collector).num_coins + old(coins).len() <= u64::MAX,
    ensures
        final(coins)@ == kept_coins(old(coins)@, touching@),
        final(collector).num_coins ==
            old(collector).num_coins + touched_count(old(coins)@, touching@),
{
    let mut kept: Vec<Coin> = Vec::new();
    let mut i: usize = 0;
    proof {
        assert(coins@.subrange(0, 0) =~= Seq::<Coin>::empty());
    }
    while i < coins.len()
        invariant
            i <= coins.len(),
            old(collector).num_coins + old(coins).len() <= u64::MAX,
            coins@ == old(coins)@,
            kept@ == kept_coins(coins@.subrange(0, i as int), touching@),
            collector.num_coins ==
                old(collector).num_coins + touched_count(coins@.subrange(0, i as int), touching@),
            collector.num_coins + (coins@.len() - i) <= u64::MAX,
        decreases coins.len() - i,
    {
        let coin = coins[i];
        let hit = contains_entity(touching, coin.entity);
        proof {
            assert(coins@.subrange(0, i + 1).drop_last() =~= coins@.subrange(0, i as int));
            assert(coins@.subrange(0, i + 1).last() == coins@[i as int]);
        }
        if hit {
            collector.num_coins = collector.num_coins + 1;
        } else {
            kept.push(coin);
        }
        i = i + 1;
    }
    proof {
        assert(coins@.subrange(0, coins@.len() as int) =~= coins@);
    }
    *coins = kept;
}

/// A pickup pass loses nothing: the touched coins and the kept coins
/// together account for every coin.
pub proof fn lemma_pickup_partition(coins: Seq<Coin>, touching: Seq<u64>)
    ensures
        touched_count(coins, touching) + kept_coins(coins, touching).len() == coins.len(),
        touched_count(coins, touching) >= 0,
    decreases coins.len(),
{
    if coins.len() > 0 {
        lemma_pickup_partition(coins.drop_last(), touching);
    }
}

/// Whether `entities` lists `entity`.
pub fn contains_entity(entities: &Vec<u64>, entity: u64) -> (r: bool)
    ensures
        r == entities@.contains(entity),
{
    let mut i: usize = 0;
    while i < entities.len()
        invariant
            i <= entities.len(),
            forall|j: int| 0 <= j < i ==> entities@[j] != entity,
        decreases entities.len() - i,
    {
        if entities[i] == entity {
            return true;
        }
        i = i + 1;
    }
    false
}

} // verus!
