//! The beers: each can be bought once; buying them all wins the game.
use vstd::prelude::*;
use vstd::string::*;
use crate::model::{BeerModel, CreateBeerModel};

verus! {

#[derive(Debug, Clone, Copy, PartialEq, Eq, Structural)]
pub enum BeerError {
    NotFound,
    AlreadyPurchased,
    OtherError,
}

impl BeerError {
    pub open spec fn message(self) -> Seq<char> {
        match self {
            BeerError::NotFound => "Beer not found"@,
            BeerError::AlreadyPurchased => "Beer already purchased"@,
            BeerError::OtherError => "Other database-related error"@,
        }
    }

    pub fn to_string(&self) -> (r: String)
        ensures
            r@ == self.message(),
    {
        match self {
            BeerError::NotFound => String::from_str("Beer not found"),
            BeerError::AlreadyPurchased => String::from_str("Beer already purchased"),
            BeerError::OtherError => String::from_str("Other database-related error"),
        }
    }
}

/// Whether some beer in `s` has the id `id`.
pub open spec fn has_beer(s: Seq<BeerModel>, id: u128) -> bool {
    exists|i: int| 0 <= i < s.len() && #[trigger] s[i].id == id
}

/// The position of the beer with the id `id`.
pub open spec fn beer_index(s: Seq<BeerModel>, id: u128) -> int {
    choose|i: int| 0 <= i < s.len() && #[trigger] s[i].id == id
}

/// A well-formed beer table: ids are unique and never the system id, no
/// beer has a negative cost, and the beers stand in ascending order of cost.
pub open spec fn beers_wf(s: Seq<BeerModel>) -> bool {
    &&& beer_rows_valid(s)
    &&& beer_ids_unique(s)
    &&& sorted_by_cost(s)
}

/// No beer has the system id or a negative cost.
pub open spec fn beer_rows_valid(s: Seq<BeerModel>) -> bool {
    forall|i: int| 0 <= i < s.len() ==> #[trigger] s[i].id != 0 && s[i].cost >= 0
}

/// No two beers share an id.
pub open spec fn beer_ids_unique(s: Seq<BeerModel>) -> bool {
    forall|i: int, j: int|
        0 <= i < s.len() && 0 <= j < s.len() && i != j ==> #[trigger] s[i].id != #[trigger] s[j].id
}

/// Whether the beers in `s` stand in ascending order of cost.
pub open spec fn sorted_by_cost(s: Seq<BeerModel>) -> bool {
    forall|i: int, j: int| 0 <= i < j < s.len() ==> #[trigger] s[i].cost <= #[trigger] s[j].cost
}

/// Whether `k` is the place of `b` in `s`: after every beer that costs no
/// more than `b`, before every beer that costs more.
pub open spec fn is_cost_slot(s: Seq<BeerModel>, b: BeerModel, k: int) -> bool {
    &&& 0 <= k <= s.len()
    &&& forall|i: int| 0 <= i < k ==> #[trigger] s[i].cost <= b.cost
    &&& forall|i: int| k <= i < s.len() ==> #[trigger] s[i].cost > b.cost
}

/// The table `s` with `b` added at its place in the order of cost.
pub open spec fn insert_beer(s: Seq<BeerModel>, b: BeerModel) -> Seq<BeerModel> {
    s.insert(choose|k: int| is_cost_slot(s, b, k), b)
}

/// A beer has one place: inserting at it is inserting in order.
pub proof fn lemma_cost_slot(s: Seq<BeerModel>, b: BeerModel, k: int)
    requires
        is_cost_slot(s, b, k),
    ensures
        insert_beer(s, b) == s.insert(k, b),
{
    let c = choose|k: int| is_cost_slot(s, b, k);
    assert(is_cost_slot(s, b, c));
    if c < k {
        assert(s[c].cost <= b.cost);
    } else if k < c {
        assert(s[k].cost <= b.cost);
    }
}

/// Adding an admissible beer at its place keeps a table well-formed.
#[verifier::spinoff_prover]
proof fn lemma_insert_beer_keeps_wf(o: Seq<BeerModel>, b: BeerModel, k: int)
    requires
        beers_wf(o),
        is_cost_slot(o, b, k),
        beer_admissible(o, b),
    ensures
        beers_wf(o.insert(k, b)),
{
    let s = o.insert(k, b);
    o.insert_ensures(k, b);
    assert forall|i: int|
        0 <= i < s.len() implies #[trigger] s[i] == if i < k {
        o[i]
    } else if i == k {
        b
    } else {
        o[i - 1]
    } by {
        if i > k {
            assert(s[(i - 1) + 1] == o[i - 1]);
        }
    }
    assert forall|i: int, j: int|
        0 <= i < s.len() && 0 <= j < s.len() && i != j implies #[trigger] s[i].id
        != #[trigger] s[j].id by {
        let oi = if i < k { i } else { i - 1 };
        let oj = if j < k { j } else { j - 1 };
        if i == k {
            assert(s[j] == o[oj]);
        } else if j == k {
            assert(s[i] == o[oi]);
        } else {
            assert(s[i] == o[oi] && s[j] == o[oj]);
        }
    }
    assert forall|i: int| 0 <= i < s.len() implies #[trigger] s[i].id != 0 && s[i].cost >= 0 by {
        if i != k {
            let oi = if i < k { i } else { i - 1 };
            assert(s[i] == o[oi]);
        }
    }
    assert forall|i: int, j: int| 0 <= i < j < s.len() implies #[trigger] s[i].cost
        <= #[trigger] s[j].cost by {
        let oi = if i < k { i } else { i - 1 };
        let oj = if j < k { j } else { j - 1 };
        if i != k && j != k {
            assert(s[i] == o[oi] && s[j] == o[oj]);
            assert(oi < oj);
            assert(o[oi].cost <= o[oj].cost);
        } else if i == k {
            assert(s[j] == o[oj]);
        } else {
            assert(s[i] == o[oi]);
        }
    }
    assert(sorted_by_cost(s));
    assert(beer_rows_valid(s));
    assert(beer_ids_unique(s));
    assert(beers_wf(s));
}

/// Whether every beer in `s` has been bought.
pub open spec fn all_beers_purchased(s: Seq<BeerModel>) -> bool {
    forall|i: int| 0 <= i < s.len() ==> (#[trigger] s[i]).is_purchased()
}

/// A beer once bought.
pub open spec fn purchased(b: BeerModel) -> BeerModel {
    BeerModel { purchased: Some(true), ..b }
}

/// The beer that a create request stores under `id` at time `now`.
pub open spec fn new_beer(item: CreateBeerModel, id: u128, now: i64) -> BeerModel {
    BeerModel {
        id,
        title: item.title,
        description: item.description,
        thumbnail: item.thumbnail,
        cost: item.cost,
        purchased: Some(false),
        created_at: Some(now),
        updated_at: Some(now),
    }
}

/// Whether a beer can join the table `s`: its id is neither the system id
/// nor taken, and its cost is not negative.
pub open spec fn beer_admissible(s: Seq<BeerModel>, b: BeerModel) -> bool {
    b.id != 0 && !has_beer(s, b.id) && b.cost >= 0
}

/// In a well-formed table, the beer with a given id stands at one place.
pub proof fn lemma_beer_index(s: Seq<BeerModel>, i: int)
    requires
        beers_wf(s),
        0 <= i < s.len(),
    ensures
        has_beer(s, s[i].id),
        beer_index(s, s[i].id) == i,
{
    assert(s[i].id == s[i].id);
    let j = beer_index(s, s[i].id);
    assert(0 <= j < s.len() && s[j].id == s[i].id);
}

/// The beers on offer, kept in ascending order of cost.
pub struct BeerRepo {
    beers: Vec<BeerModel>,
}

impl View for BeerRepo {
    type V = Seq<BeerModel>;

    closed spec fn view(&self) -> Seq<BeerModel> {
        self.beers@
    }
}

impl BeerRepo {
    pub open spec fn wf(&self) -> bool {
        beers_wf(self@)
    }

    /// An empty table.
    pub fn new() -> (r: BeerRepo)
        ensures
            r@ == Seq::<BeerModel>::empty(),
            r.wf(),
    {
        BeerRepo { beers: Vec::new() }
    }

    /// The number of beers.
    pub fn len(&self) -> (r: usize)
        ensures
            r == self@.len(),
    {
        self.beers.len()
    }

    /// Every beer, once each, in ascending order of cost.
    pub fn get_all(&self) -> (r: Vec<BeerModel>)
        requires
            self.wf(),
        ensures
            r@ == self@,
            sorted_by_cost(r@),
    {
        let mut out: Vec<BeerModel> = Vec::new();
        let mut i: usize = 0;
        while i < self.beers.len()
            invariant
                i <= self@.len(),
                out@ == self@.subrange(0, i as int),
            decreases self@.len() - i,
        {
            out.push(self.beers[i].duplicate());
            proof {
                assert(out@ =~= self@.subrange(0, i + 1));
            }
            i = i + 1;
        }
        proof {
            assert(self@.subrange(0, i as int) =~= self@);
        }
        out
    }

    /// The position of the beer with the id `id`, if there is one.
    fn find(&self, id: u128) -> (r: Option<usize>)
        requires
            self.wf(),
        ensures
            match r {
                Some(i) => i < self@.len() && has_beer(self@, id) && beer_index(self@, id) == i,
                None => !has_beer(self@, id),
            },
    {
        let mut i: usize = 0;
        while i < self.beers.len()
            invariant
                i <= self@.len(),
                self.wf(),
                forall|k: int| 0 <= k < i ==> #[trigger] self@[k].id != id,
            decreases self@.len() - i,
        {
            if self.beers[i].id == id {
                proof {
                    lemma_beer_index(self@, i as int);
                }
                return Some(i);
            }
            i = i + 1;
        }
        None
    }

    /// The beer with the id `id`.
    pub fn get_by_id(&self, id: u128) -> (r: Result<BeerModel, BeerError>)
        requires
            self.wf(),
        ensures
            has_beer(self@, id) ==> r == Ok::<BeerModel, BeerError>(self@[beer_index(self@, id)]),
            !has_beer(self@, id) ==> r == Err::<BeerModel, BeerError>(BeerError::NotFound),
    {
        match self.find(id) {
            Some(i) => Ok(self.beers[i].duplicate()),
            None => Err(BeerError::NotFound),
        }
    }

    /// Whether every beer has been bought (true of an empty table).
    pub fn all_purchased(&self) -> (r: bool)
        ensures
            r == all_beers_purchased(self@),
    {
        let mut i: usize = 0;
        while i < self.beers.len()
            invariant
                i <= self@.len(),
                forall|k: int| 0 <= k < i ==> (#[trigger] self@[k]).is_purchased(),
            decreases self@.len() - i,
        {
            if self.beers[i].purchased != Some(true) {
                return false;
            }
            i = i + 1;
        }
        true
    }

    /// Marks the beer with the id `id` as bought. Refused, with no change,
    /// when no such beer exists or it has been bought already.
    pub fn purchase(&mut self, id: u128) -> (r: Result<BeerModel, BeerError>)
        requires
            old(self).wf(),
        ensures
            final(self).wf(),
            !has_beer(old(self)@, id) ==> r == Err::<BeerModel, BeerError>(BeerError::NotFound)
                && final(self)@ == old(self)@,
            has_beer(old(self)@, id) ==> ({
                let i = beer_index(old(self)@, id);
                let b = old(self)@[i];
                &&& b.is_purchased() ==> r == Err::<BeerModel, BeerError>(
                    BeerError::AlreadyPurchased,
                ) && final(self)@ == old(self)@
                &&& !b.is_purchased() ==> r == Ok::<BeerModel, BeerError>(purchased(b))
                    && final(self)@ == old(self)@.update(i, purchased(b))
            }),
    {
        let i = match self.find(id) {
            Some(i) => i,
            None => {
                return Err(BeerError::NotFound);
            },
        };
        if self.beers[i].purchased == Some(true) {
            return Err(BeerError::AlreadyPurchased);
        }
        let mut b = self.beers[i].duplicate();
        b.purchased = Some(true);
        let out = b.duplicate();
        self.beers.set(i, b);
        proof {
            let s = self@;
            let o = old(self)@;
            assert forall|a: int, c: int|
                0 <= a < s.len() && 0 <= c < s.len() && a != c implies #[trigger] s[a].id
                != #[trigger] s[c].id by {
                assert(s[a].id == o[a].id && s[c].id == o[c].id);
            }
            assert forall|a: int| 0 <= a < s.len() implies #[trigger] s[a].id != 0 && s[a].cost
                >= 0 by {
                assert(s.len() == o.len());
                assert(o[a].id != 0);
                assert(o[a].cost >= 0);
                if a != i {
                    assert(o[a] == s[a]);
                }
            }
        }
        Ok(out)
    }

    /// Adds a new, unbought beer under `id`, stamped with `now`. Refused,
    /// with no change, when the id is the system id or taken, or the cost
    /// is negative.
    pub fn create(&mut self, item: CreateBeerModel, id: u128, now: i64) -> (r: Result<
        BeerModel,
        BeerError,
    >)
        requires
            old(self).wf(),
        ensures
            final(self).wf(),
            !beer_admissible(old(self)@, new_beer(item, id, now)) ==> r == Err::<
                BeerModel,
                BeerError,
            >(BeerError::OtherError) && final(self)@ == old(self)@,
            beer_admissible(old(self)@, new_beer(item, id, now)) ==> r == Ok::<
                BeerModel,
                BeerError,
            >(new_beer(item, id, now)) && final(self)@ == insert_beer(old(self)@, new_beer(item, id, now)),
    {
        let b = BeerModel {
            id,
            title: item.title,
            description: item.description,
            thumbnail: item.thumbnail,
            cost: item.cost,
            purchased: Some(false),
            created_at: Some(now),
            updated_at: Some(now),
        };
        self.load(b)
    }

    /// Adds a beer as it was stored before (a row read back from storage,
    /// or a fixture). Refused, with no change, when it is not admissible.
    pub fn load(&mut self, b: BeerModel) -> (r: Result<BeerModel, BeerError>)
        requires
            old(self).wf(),
        ensures
            final(self).wf(),
            !beer_admissible(old(self)@, b) ==> r == Err::<BeerModel, BeerError>(
                BeerError::OtherError,
            ) && final(self)@ == old(self)@,
            beer_admissible(old(self)@, b) ==> r == Ok::<BeerModel, BeerError>(b) && final(self)@
                == insert_beer(old(self)@, b),
    {
        if b.id == 0 || b.cost < 0 {
            return Err(BeerError::OtherError);
        }
        match self.find(b.id) {
            Some(_) => Err(BeerError::OtherError),
            None => {
                let mut k: usize = 0;
                while k < self.beers.len()
                    invariant
                        k <= self@.len(),
                        self.wf(),
                        forall|i: int| 0 <= i < k ==> #[trigger] self@[i].cost <= b.cost,
                    ensures
                        k <= self@.len(),
                        forall|i: int| 0 <= i < k ==> #[trigger] self@[i].cost <= b.cost,
                        k < self@.len() ==> self@[k as int].cost > b.cost,
                    decreases self@.len() - k,
                {
                    if self.beers[k].cost > b.cost {
                        break;
                    }
                    k = k + 1;
                }
                let ghost o = self@;
                proof {
                    assert forall|i: int| k <= i < o.len() implies #[trigger] o[i].cost > b.cost by {
                        if i > k {
                            assert(o[k as int].cost <= o[i].cost);
                        }
                    }
                    assert(is_cost_slot(o, b, k as int));
                    lemma_cost_slot(o, b, k as int);
                    lemma_insert_beer_keeps_wf(o, b, k as int);
                }
                let out = b.duplicate();
                self.beers.insert(k, b);
                Ok(out)
            },
        }
    }
}

} // verus!
