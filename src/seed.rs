//! The start of a game: the stores of a new game are filled once.
use vstd::prelude::*;
use crate::constants::{RIG_PLATFORM_PROFITABILITY, STARTING_BALANCE};
use crate::clock::current_timestamp;
use crate::game::AppRepositories;
use crate::ids::fresh_id;
use crate::model::{
    BeerModel, CreateBeerModel, CreateMoneyTransactionModel, CreatePlatformModel,
    MoneyTransactionModel, OilPlatformModel, PlatformType,
};
use crate::repo::beer_repo::{beer_admissible, has_beer, insert_beer, new_beer};
use crate::repo::platform_repo::{has_platform, insert_platform, is_creation_slot, lemma_creation_slot, new_platform};
use crate::repo::transactions_repo::entry_for;

verus! {

/// The beer table after adding each `(id, beer)` of `items` in turn to `s`;
/// an item that the table refuses is skipped.
pub open spec fn seeded_beers(
    s: Seq<BeerModel>,
    items: Seq<(u128, CreateBeerModel)>,
    now: i64,
) -> Seq<BeerModel>
    decreases items.len(),
{
    if items.len() == 0 {
        s
    } else {
        let before = seeded_beers(s, items.drop_last(), now);
        let b = new_beer(items.last().1, items.last().0, now);
        if beer_admissible(before, b) {
            insert_beer(before, b)
        } else {
            before
        }
    }
}

/// The platform that a new game starts with: a rig under `id`.
pub open spec fn starter_platform(id: u128, now: i64) -> OilPlatformModel {
    new_platform(
        CreatePlatformModel {
            platform_type: PlatformType::Rig,
            profitability: RIG_PLATFORM_PROFITABILITY,
        },
        id,
        now,
    )
}

/// The credit that a new game starts with.
pub open spec fn starter_credit(now: i64) -> MoneyTransactionModel {
    entry_for(
        CreateMoneyTransactionModel { item_id: None, amount: STARTING_BALANCE, reduces_balance: false },
        0,
        now,
    )
}

/// The outcome of seeding the state `pre` with the beers `items`, a rig
/// under `platform_id` and the time `now`: each empty store is filled, and
/// a store that holds anything is left alone.
pub open spec fn seed_post(
    pre: AppRepositories,
    post: AppRepositories,
    items: Seq<(u128, CreateBeerModel)>,
    platform_id: u128,
    now: i64,
) -> bool {
    &&& post.beer_repo@ == if pre.beer_repo@.len() == 0 {
        seeded_beers(pre.beer_repo@, items, now)
    } else {
        pre.beer_repo@
    }
    &&& post.platform_repo@ == if pre.platform_repo@.len() == 0 && platform_id != 0 {
        seq![starter_platform(platform_id, now)]
    } else {
        pre.platform_repo@
    }
    &&& post.finances_repo@ == if pre.finances_repo@.len() == 0 {
        seq![starter_credit(now)]
    } else {
        pre.finances_repo@
    }
}

/// Whether `items` pairs each beer of `catalog`, in order, with an id other
/// than the system id.
pub open spec fn catalog_with_ids(
    items: Seq<(u128, CreateBeerModel)>,
    catalog: Seq<CreateBeerModel>,
) -> bool {
    &&& items.len() == catalog.len()
    &&& forall|i: int|
        0 <= i < items.len() ==> (#[trigger] items[i]).0 != 0 && items[i].1 == catalog[i]
}

impl AppRepositories {
    /// Fills each empty store with the start of a game: the beers `beers`
    /// (each under its id), a rig under `platform_id`, and the starting
    /// credit. A store that holds anything is left alone, and so is a beer
    /// or platform whose id the store refuses.
    pub fn seed_game_entities_at(
        &mut self,
        beers: &Vec<(u128, CreateBeerModel)>,
        platform_id: u128,
        now: i64,
    )
        requires
            old(self).wf(),
        ensures
            final(self).wf(),
            seed_post(*old(self), *final(self), beers@, platform_id, now),
    {
        if self.beer_repo.len() == 0 {
            let mut i: usize = 0;
            while i < beers.len()
                invariant
                    i <= beers@.len(),
                    self.wf(),
                    self.beer_repo@ == seeded_beers(
                        old(self).beer_repo@,
                        beers@.subrange(0, i as int),
                        now,
                    ),
                    self.platform_repo@ == old(self).platform_repo@,
                    self.finances_repo@ == old(self).finances_repo@,
                decreases beers@.len() - i,
            {
                let (id, item) = &beers[i];
                let _ = self.beer_repo.create(item.duplicate(), *id, now);
                proof {
                    assert(beers@.subrange(0, i + 1).drop_last() =~= beers@.subrange(0, i as int));
                }
                i = i + 1;
            }
            proof {
                assert(beers@.subrange(0, i as int) =~= beers@);
            }
        }
        if self.platform_repo.get_all().len() == 0 {
            let starter = CreatePlatformModel {
                platform_type: PlatformType::Rig,
                profitability: RIG_PLATFORM_PROFITABILITY,
            };
            let _ = self.platform_repo.create(starter, platform_id, now);
            proof {
                let ghost e = Seq::<OilPlatformModel>::empty();
                assert(old(self).platform_repo@ =~= e);
                assert(is_creation_slot(e, starter_platform(platform_id, now), 0));
                lemma_creation_slot(e, starter_platform(platform_id, now), 0);
                e.insert_ensures(0, starter_platform(platform_id, now));
                assert(seq![starter_platform(platform_id, now)] =~= e.insert(0, starter_platform(platform_id, now)));
                if platform_id == 0 {
                    assert(self.platform_repo@ =~= old(self).platform_repo@);
                } else {
                    assert(!has_platform(e, platform_id));
                    assert(self.platform_repo@ == insert_platform(e, starter_platform(platform_id, now)));
                    assert(self.platform_repo@ == seq![starter_platform(platform_id, now)]);
                }
            }
        }
        if self.finances_repo.len() == 0 {
            let credit = CreateMoneyTransactionModel {
                item_id: None,
                amount: STARTING_BALANCE,
                reduces_balance: false,
            };
            let _ = self.finances_repo.create(credit, now);
            proof {
                assert(old(self).finances_repo@ =~= Seq::<MoneyTransactionModel>::empty());
                assert(seq![starter_credit(now)] =~= Seq::<MoneyTransactionModel>::empty().push(starter_credit(now)));
            }
        }
    }

    /// Fills each empty store with the start of a game, as
    /// `seed_game_entities_at` does, drawing a fresh id for every beer of
    /// `catalog` and for the rig, and stamping them with the current time.
    pub fn seed_game_entities(&mut self, catalog: &Vec<CreateBeerModel>)
        requires
            old(self).wf(),
        ensures
            final(self).wf(),
            exists|items: Seq<(u128, CreateBeerModel)>, platform_id: u128, now: i64|
                catalog_with_ids(items, catalog@) && platform_id != 0 && seed_post(
                    *old(self),
                    *final(self),
                    items,
                    platform_id,
                    now,
                ),
    {
        let now = current_timestamp();
        let mut beers: Vec<(u128, CreateBeerModel)> = Vec::new();
        let mut i: usize = 0;
        while i < catalog.len()
            invariant
                i <= catalog@.len(),
                catalog_with_ids(beers@, catalog@.subrange(0, i as int)),
            decreases catalog@.len() - i,
        {
            beers.push((fresh_id(), catalog[i].duplicate()));
            i = i + 1;
        }
        let platform_id = fresh_id();
        proof {
            assert(catalog@.subrange(0, i as int) =~= catalog@);
        }
        self.seed_game_entities_at(&beers, platform_id, now);
        proof {
            assert(catalog_with_ids(beers@, catalog@) && platform_id != 0 && seed_post(
                *old(self),
                *self,
                beers@,
                platform_id,
                now,
            ));
        }
    }
}

/// Seeding a table with beers that all cost less than nothing adds none.
pub proof fn lemma_seeding_refused_beers(
    s: Seq<BeerModel>,
    items: Seq<(u128, CreateBeerModel)>,
    now: i64,
)
    requires
        forall|i: int| 0 <= i < items.len() ==> #[trigger] items[i].1.cost < 0,
    ensures
        seeded_beers(s, items, now) == s,
    decreases items.len(),
{
    if items.len() > 0 {
        lemma_seeding_refused_beers(s, items.drop_last(), now);
        assert(items.last().1.cost < 0);
    }
}

/// Seeding an empty beer table with ids other than the system id leaves it
/// empty only when every beer costs less than nothing.
pub proof fn lemma_seeding_empty_table(items: Seq<(u128, CreateBeerModel)>, now: i64)
    requires
        forall|i: int| 0 <= i < items.len() ==> #[trigger] items[i].0 != 0,
        seeded_beers(Seq::<BeerModel>::empty(), items, now).len() == 0,
    ensures
        forall|i: int| 0 <= i < items.len() ==> #[trigger] items[i].1.cost < 0,
    decreases items.len(),
{
    if items.len() > 0 {
        let e = Seq::<BeerModel>::empty();
        let before = seeded_beers(e, items.drop_last(), now);
        let b = new_beer(items.last().1, items.last().0, now);
        if beer_admissible(before, b) {
            assert(insert_beer(before, b).len() >= 1);
        }
        assert(items.drop_last().len() < items.len());
        assert forall|i: int| 0 <= i < items.drop_last().len() implies #[trigger] items.drop_last()[i].0 != 0 by {
            assert(items.drop_last()[i] == items[i]);
        }
        lemma_seeding_empty_table(items.drop_last(), now);
        assert(items.last().0 != 0);
        assert(!has_beer(before, b.id));
        assert forall|i: int| 0 <= i < items.len() implies #[trigger] items[i].1.cost < 0 by {
            if i < items.len() - 1 {
                assert(items.drop_last()[i] == items[i]);
            }
        }
    }
}

/// Seeding twice is seeding once: when the first seeding draws ids other
/// than the system id, a second seeding of the same catalog changes nothing.
pub proof fn lemma_seeding_twice_is_seeding_once(
    pre: AppRepositories,
    mid: AppRepositories,
    post: AppRepositories,
    catalog: Seq<CreateBeerModel>,
    items1: Seq<(u128, CreateBeerModel)>,
    platform_id1: u128,
    now1: i64,
    items2: Seq<(u128, CreateBeerModel)>,
    platform_id2: u128,
    now2: i64,
)
    requires
        catalog_with_ids(items1, catalog),
        catalog_with_ids(items2, catalog),
        platform_id1 != 0,
        seed_post(pre, mid, items1, platform_id1, now1),
        seed_post(mid, post, items2, platform_id2, now2),
    ensures
        post.same_state(mid),
{
    if mid.beer_repo@.len() == 0 {
        assert(pre.beer_repo@.len() == 0);
        assert(pre.beer_repo@ =~= Seq::<BeerModel>::empty());
        assert forall|i: int| 0 <= i < items1.len() implies #[trigger] items1[i].0 != 0 by {}
        lemma_seeding_empty_table(items1, now1);
        assert forall|i: int| 0 <= i < items2.len() implies #[trigger] items2[i].1.cost < 0 by {
            assert(items1[i].1 == catalog[i] && items2[i].1 == catalog[i]);
        }
        lemma_seeding_refused_beers(mid.beer_repo@, items2, now2);
    }
    assert(mid.platform_repo@.len() > 0);
    assert(mid.finances_repo@.len() > 0);
}

} // verus!
