//! Gold: players sweep up every coin on their cell, and picked-up coins
//! are banked across levels.

use vstd::prelude::*;

use crate::tiles::TileCoordinate;
use crate::tiles::same_cell;

verus! {

/// Coins carried by an entity during a level, or lying in a coin pile.
#[derive(Clone, Copy, PartialEq, Eq, Structural, Debug)]
pub struct Gold {
    pub coins: i64,
}

/// The player's banked coins, kept across levels.
#[derive(Clone, Copy, PartialEq, Eq, Structural, Debug)]
pub struct PlayerGold {
    pub coins: i64,
}

/// A player picked up this many coins.
#[derive(Clone, Copy, PartialEq, Eq, Structural, Debug)]
pub struct PlayerPickedUpGoldCoins {
    pub player: u64,
    pub coins: Gold,
}

/// A coin pile in the world: its cell, its value, its entity.
pub type CoinItem = (TileCoordinate, Gold, u64);

/// A coin-carrying player: its cell, its purse, its entity.
pub type GoldCarrier = (TileCoordinate, Gold, u64);

/// The coins a player at `coord` carries after walking the coin list in
/// order and sweeping up every pile on its cell. Computed over the
/// unbounded integers; the machine-width bound is a precondition of the
/// executable pass.
pub open spec fn spec_gold_after(g: int, coord: TileCoordinate, coins: Seq<CoinItem>) -> int
    decreases coins.len(),
{
    if coins.len() == 0 {
        g
    } else {
        let prev = spec_gold_after(g, coord, coins.drop_last());
        let item = coins.last();
        if same_cell(coord, item.0) {
            prev + item.1.coins
        } else {
            prev
        }
    }
}

/// Every intermediate total of the sweep fits in the purse's width.
pub open spec fn spec_gold_fits(g: int, coord: TileCoordinate, coins: Seq<CoinItem>) -> bool {
    forall|j: int|
        0 <= j <= coins.len() ==> i64::MIN <= #[trigger] spec_gold_after(g, coord, coins.take(j))
            <= i64::MAX
}

/// The pickup events one player emits while sweeping the coin list.
pub open spec fn spec_carrier_events(
    coord: TileCoordinate,
    entity: u64,
    coins: Seq<CoinItem>,
) -> Seq<PlayerPickedUpGoldCoins>
    decreases coins.len(),
{
    if coins.len() == 0 {
        Seq::empty()
    } else {
        let prefix = spec_carrier_events(coord, entity, coins.drop_last());
        let item = coins.last();
        if same_cell(coord, item.0) {
            prefix.push(PlayerPickedUpGoldCoins { player: entity, coins: item.1 })
        } else {
            prefix
        }
    }
}

/// The coin entities one player sweeps up.
pub open spec fn spec_carrier_despawns(coord: TileCoordinate, coins: Seq<CoinItem>) -> Seq<u64>
    decreases coins.len(),
{
    if coins.len() == 0 {
        Seq::empty()
    } else {
        let prefix = spec_carrier_despawns(coord, coins.drop_last());
        let item = coins.last();
        if same_cell(coord, item.0) {
            prefix.push(item.2)
        } else {
            prefix
        }
    }
}

/// The pickup events of a whole roster of players, player by player.
pub open spec fn spec_all_gold_events(players: Seq<GoldCarrier>, coins: Seq<CoinItem>) -> Seq<
    PlayerPickedUpGoldCoins,
>
    decreases players.len(),
{
    if players.len() == 0 {
        Seq::empty()
    } else {
        let p = players.last();
        spec_all_gold_events(players.drop_last(), coins) + spec_carrier_events(p.0, p.2, coins)
    }
}

/// The coin entities swept up by a whole roster of players. A pile on a
/// cell shared by several players is swept once per player, as removal
/// is deferred.
pub open spec fn spec_all_gold_despawns(players: Seq<GoldCarrier>, coins: Seq<CoinItem>) -> Seq<
    u64,
>
    decreases players.len(),
{
    if players.len() == 0 {
        Seq::empty()
    } else {
        let p = players.last();
        spec_all_gold_despawns(players.drop_last(), coins) + spec_carrier_despawns(p.0, coins)
    }
}

/// One pass of coin pickups: every player sweeps up each coin pile on
/// its cell, unconditionally. Returns the pickup events and the swept
/// coin entities, in player-major order.
pub fn check_for_gold(players: &mut Vec<GoldCarrier>, coins: &Vec<CoinItem>) -> (r: (
    Vec<PlayerPickedUpGoldCoins>,
    Vec<u64>,
))
    requires
        forall|p: int|
            0 <= p < old(players)@.len() ==> spec_gold_fits(
                (#[trigger] old(players)@[p]).1.coins as int,
                old(players)@[p].0,
                coins@,
            ),
    ensures
        final(players)@.len() == old(players)@.len(),
        forall|p: int|
            0 <= p < old(players)@.len() ==> (#[trigger] final(players)@[p]).0 == old(
                players,
            )@[p].0 && final(players)@[p].2 == old(players)@[p].2 && final(players)@[p].1.coins
                == spec_gold_after(old(players)@[p].1.coins as int, old(players)@[p].0, coins@),
        r.0@ == spec_all_gold_events(old(players)@, coins@),
        r.1@ == spec_all_gold_despawns(old(players)@, coins@),
{
    let ghost ps0 = players@;
    let mut events: Vec<PlayerPickedUpGoldCoins> = Vec::new();
    let mut despawned: Vec<u64> = Vec::new();
    let mut p: usize = 0;
    while p < players.len()
        invariant
            p <= players@.len(),
            players@.len() == ps0.len(),
            forall|q: int| p <= q < ps0.len() ==> (#[trigger] players@[q]) == ps0[q],
            forall|q: int|
                0 <= q < p ==> (#[trigger] players@[q]).0 == ps0[q].0 && players@[q].2 == ps0[q].2
                    && players@[q].1.coins == spec_gold_after(
                    ps0[q].1.coins as int,
                    ps0[q].0,
                    coins@,
                ),
            events@ == spec_all_gold_events(ps0.take(p as int), coins@),
            despawned@ == spec_all_gold_despawns(ps0.take(p as int), coins@),
            forall|q: int|
                0 <= q < ps0.len() ==> spec_gold_fits(
                    (#[trigger] ps0[q]).1.coins as int,
                    ps0[q].0,
                    coins@,
                ),
        decreases players@.len() - p,
    {
        let (coord, g0, id) = players[p];
        let mut g = g0;
        let mut j: usize = 0;
        while j < coins.len()
            invariant
                j <= coins@.len(),
                g.coins == spec_gold_after(g0.coins as int, coord, coins@.take(j as int)),
                spec_gold_fits(g0.coins as int, coord, coins@),
                events@ == spec_all_gold_events(ps0.take(p as int), coins@) + spec_carrier_events(
                    coord,
                    id,
                    coins@.take(j as int),
                ),
                despawned@ == spec_all_gold_despawns(ps0.take(p as int), coins@)
                    + spec_carrier_despawns(coord, coins@.take(j as int)),
            decreases coins@.len() - j,
        {
            let (ccoord, cvalue, cid) = coins[j];
            proof {
                assert(coins@.take(j + 1).drop_last() =~= coins@.take(j as int));
                assert(coins@.take(j + 1).last() == coins@[j as int]);
                assert(i64::MIN <= spec_gold_after(g0.coins as int, coord, coins@.take(j + 1))
                    <= i64::MAX);
            }
            if coord.eq2d(&ccoord) {
                g = Gold { coins: g.coins + cvalue.coins };
                events.push(PlayerPickedUpGoldCoins { player: id, coins: cvalue });
                despawned.push(cid);
            }
            j += 1;
        }
        proof {
            assert(coins@.take(coins@.len() as int) =~= coins@);
        }
        players[p] = (coord, g, id);
        proof {
            assert(ps0.take(p + 1).drop_last() =~= ps0.take(p as int));
            assert(ps0.take(p + 1).last() == ps0[p as int]);
        }
        p += 1;
    }
    proof {
        assert(ps0.take(ps0.len() as int) =~= ps0);
    }
    (events, despawned)
}

/// The bank's balance after crediting a batch of pickup events in
/// order, over the unbounded integers.
pub open spec fn spec_bank_after(bank: int, events: Seq<PlayerPickedUpGoldCoins>) -> int
    decreases events.len(),
{
    if events.len() == 0 {
        bank
    } else {
        spec_bank_after(bank, events.drop_last()) + events.last().coins.coins
    }
}

/// Every intermediate balance fits in the bank's width.
pub open spec fn spec_bank_fits(bank: int, events: Seq<PlayerPickedUpGoldCoins>) -> bool {
    forall|j: int|
        0 <= j <= events.len() ==> i64::MIN <= #[trigger] spec_bank_after(bank, events.take(j))
            <= i64::MAX
}

/// Credits every pickup of the batch to the bank, in order.
pub fn player_coins_to_the_bank(events: &Vec<PlayerPickedUpGoldCoins>, bank: &mut PlayerGold)
    requires
        spec_bank_fits(old(bank).coins as int, events@),
    ensures
        final(bank).coins == spec_bank_after(old(bank).coins as int, events@),
{
    let ghost b0 = bank.coins as int;
    let mut j: usize = 0;
    while j < events.len()
        invariant
            j <= events@.len(),
            bank.coins == spec_bank_after(b0, events@.take(j as int)),
            spec_bank_fits(b0, events@),
        decreases events@.len() - j,
    {
        proof {
            assert(events@.take(j + 1).drop_last() =~= events@.take(j as int));
            assert(events@.take(j + 1).last() == events@[j as int]);
            assert(i64::MIN <= spec_bank_after(b0, events@.take(j + 1)) <= i64::MAX);
        }
        bank.coins = bank.coins + events[j].coins.coins;
        j += 1;
    }
    proof {
        assert(events@.take(events@.len() as int) =~= events@);
    }
}

/// The purse a freshly spawned player starts with: the banked total.
pub fn gold_for_new_player(bank: &PlayerGold) -> (g: Gold)
    ensures
        g.coins == bank.coins,
{
    Gold { coins: bank.coins }
}

} // verus!
