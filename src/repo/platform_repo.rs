//! The oil platforms: built, upgraded up to the maximum level, and summed
//! for their earnings.
use vstd::prelude::*;
use vstd::string::*;
use crate::bounds::lemma_sum_fits_i128;
use crate::constants::MAX_PLATFORM_LEVEL;
use crate::model::{CreatePlatformModel, OilPlatformModel, UpdatePlatformModel};
use crate::repo::transactions_repo::MoneyTransactionError;

verus! {

#[derive(Debug, Clone, Copy, PartialEq, Eq, Structural)]
pub enum OilPlatformError {
    NotFound,
    MaxLevelReached,
    OtherError,
}

impl OilPlatformError {
    pub open spec fn message(self) -> Seq<char> {
        match self {
            OilPlatformError::NotFound => "Platform not found"@,
            OilPlatformError::MaxLevelReached => "Maximum upgrade level of platform reached"@,
            OilPlatformError::OtherError => "Other database-related error"@,
        }
    }

    pub fn to_string(&self) -> (r: String)
        ensures
            r@ == self.message(),
    {
        match self {
            OilPlatformError::NotFound => String::from_str("Platform not found"),
            OilPlatformError::MaxLevelReached => String::from_str(
                "Maximum upgrade level of platform reached",
            ),
            OilPlatformError::OtherError => String::from_str("Other database-related error"),
        }
    }
}

/// Whether some platform in `s` has the id `id`.
pub open spec fn has_platform(s: Seq<OilPlatformModel>, id: u128) -> bool {
    exists|i: int| 0 <= i < s.len() && #[trigger] s[i].id == id
}

/// The position of the platform with the id `id`.
pub open spec fn platform_index(s: Seq<OilPlatformModel>, id: u128) -> int {
    choose|i: int| 0 <= i < s.len() && #[trigger] s[i].id == id
}

/// A well-formed platform table: ids are unique and never the system id,
/// every level lies between 0 and the maximum, and the platforms stand in
/// ascending order of creation time.
pub open spec fn platforms_wf(s: Seq<OilPlatformModel>) -> bool {
    &&& platform_rows_valid(s)
    &&& platform_ids_unique(s)
    &&& sorted_by_creation(s)
}

/// No platform has the system id, and every level lies between 0 and the
/// maximum.
pub open spec fn platform_rows_valid(s: Seq<OilPlatformModel>) -> bool {
    forall|i: int|
        0 <= i < s.len() ==> #[trigger] s[i].id != 0 && 0 <= s[i].platform_level
            <= MAX_PLATFORM_LEVEL
}

/// No two platforms share an id.
pub open spec fn platform_ids_unique(s: Seq<OilPlatformModel>) -> bool {
    forall|i: int, j: int|
        0 <= i < s.len() && 0 <= j < s.len() && i != j ==> #[trigger] s[i].id != #[trigger] s[j].id
}

/// Where a creation time sorts: by its value, with absent times last.
pub open spec fn created_key(t: Option<i64>) -> int {
    match t {
        Some(v) => v as int,
        None => i64::MAX as int + 1,
    }
}

/// Whether the platforms in `s` stand in ascending order of creation time.
pub open spec fn sorted_by_creation(s: Seq<OilPlatformModel>) -> bool {
    forall|i: int, j: int|
        0 <= i < j < s.len() ==> created_key(#[trigger] s[i].created_at) <= created_key(
            #[trigger] s[j].created_at,
        )
}

/// Whether `k` is the place of `p` in `s`: after every platform created no
/// later than `p`, before every platform created after it.
pub open spec fn is_creation_slot(s: Seq<OilPlatformModel>, p: OilPlatformModel, k: int) -> bool {
    &&& 0 <= k <= s.len()
    &&& forall|i: int|
        0 <= i < k ==> created_key(#[trigger] s[i].created_at) <= created_key(p.created_at)
    &&& forall|i: int|
        k <= i < s.len() ==> created_key(#[trigger] s[i].created_at) > created_key(p.created_at)
}

/// The table `s` with `p` added at its place in the order of creation.
pub open spec fn insert_platform(s: Seq<OilPlatformModel>, p: OilPlatformModel) -> Seq<
    OilPlatformModel,
> {
    s.insert(choose|k: int| is_creation_slot(s, p, k), p)
}

/// A platform has one place: inserting at it is inserting in order.
pub proof fn lemma_creation_slot(s: Seq<OilPlatformModel>, p: OilPlatformModel, k: int)
    requires
        is_creation_slot(s, p, k),
    ensures
        insert_platform(s, p) == s.insert(k, p),
{
    let c = choose|k: int| is_creation_slot(s, p, k);
    assert(is_creation_slot(s, p, c));
    if c < k {
        assert(created_key(s[c].created_at) <= created_key(p.created_at));
    } else if k < c {
        assert(created_key(s[k].created_at) <= created_key(p.created_at));
    }
}

/// Adding a fresh platform at its place keeps a table well-formed.
#[verifier::spinoff_prover]
proof fn lemma_insert_keeps_wf(o: Seq<OilPlatformModel>, p: OilPlatformModel, k: int)
    requires
        platforms_wf(o),
        is_creation_slot(o, p, k),
        p.id != 0,
        !has_platform(o, p.id),
        0 <= p.platform_level <= MAX_PLATFORM_LEVEL,
    ensures
        platforms_wf(o.insert(k, p)),
{
    let s = o.insert(k, p);
    o.insert_ensures(k, p);
    assert forall|i: int|
        0 <= i < s.len() implies #[trigger] s[i] == if i < k {
        o[i]
    } else if i == k {
        p
    } else {
        o[i - 1]
    } by {
        if i > k {
            assert(s[(i - 1) + 1] == o[i - 1]);
        }
    }
    assert forall|i: int, j: int|
        0 <= i < s.len() && 0 <= j < s.len() && i != j implies #[trigger] s[i].id
        != #[trigger] s[j].id by {
        let oi = if i < k { i } else { i - 1 };
        let oj = if j < k { j } else { j - 1 };
        if i == k {
            assert(s[j] == o[oj]);
        } else if j == k {
            assert(s[i] == o[oi]);
        } else {
            assert(s[i] == o[oi] && s[j] == o[oj]);
        }
    }
    assert forall|i: int| 0 <= i < s.len() implies #[trigger] s[i].id != 0 && 0
        <= s[i].platform_level <= MAX_PLATFORM_LEVEL by {
        if i != k {
            let oi = if i < k { i } else { i - 1 };
            assert(s[i] == o[oi]);
        }
    }
    assert forall|i: int, j: int| 0 <= i < j < s.len() implies created_key(
        #[trigger] s[i].created_at,
    ) <= created_key(#[trigger] s[j].created_at) by {
        let oi = if i < k { i } else { i - 1 };
        let oj = if j < k { j } else { j - 1 };
        if i != k && j != k {
            assert(s[i] == o[oi] && s[j] == o[oj]);
            assert(oi < oj);
            assert(created_key(o[oi].created_at) <= created_key(o[oj].created_at));
        } else if i == k {
            assert(s[j] == o[oj]);
        } else {
            assert(s[i] == o[oi]);
        }
    }
    assert(sorted_by_creation(s));
    assert(platform_rows_valid(s));
    assert(platform_ids_unique(s));
    assert(platforms_wf(s));
}

/// The platform that a create request stores under `id` at time `now`.
pub open spec fn new_platform(item: CreatePlatformModel, id: u128, now: i64) -> OilPlatformModel {
    OilPlatformModel {
        id,
        platform_type: item.platform_type,
        platform_level: 0,
        profitability: item.profitability,
        created_at: Some(now),
        updated_at: Some(now),
    }
}

/// A platform after one upgrade that adds `addition` to its yield at `now`.
pub open spec fn upgraded(p: OilPlatformModel, addition: i64, now: i64) -> OilPlatformModel {
    OilPlatformModel {
        platform_level: (p.platform_level + 1) as i16,
        profitability: (p.profitability + addition) as i64,
        updated_at: Some(now),
        ..p
    }
}

/// The sum of the yields of the platforms in `s`.
pub open spec fn yield_sum(s: Seq<OilPlatformModel>) -> int
    decreases s.len(),
{
    if s.len() == 0 {
        0
    } else {
        yield_sum(s.drop_last()) + s.last().profitability
    }
}

/// In a well-formed table, the platform with a given id stands at one place.
pub proof fn lemma_platform_index(s: Seq<OilPlatformModel>, i: int)
    requires
        platforms_wf(s),
        0 <= i < s.len(),
    ensures
        has_platform(s, s[i].id),
        platform_index(s, s[i].id) == i,
{
    assert(s[i].id == s[i].id);
    let j = platform_index(s, s[i].id);
    assert(0 <= j < s.len() && s[j].id == s[i].id);
}

/// Whether a platform created at `a` sorts no later than one created at `b`.
fn created_no_later(a: Option<i64>, b: Option<i64>) -> (r: bool)
    ensures
        r == (created_key(a) <= created_key(b)),
{
    match (a, b) {
        (Some(x), Some(y)) => x <= y,
        (Some(_), None) => true,
        (None, Some(_)) => false,
        (None, None) => true,
    }
}

/// The oil platforms, kept in ascending order of creation time.
pub struct OilPlaftormRepo {
    platforms: Vec<OilPlatformModel>,
}

impl View for OilPlaftormRepo {
    type V = Seq<OilPlatformModel>;

    closed spec fn view(&self) -> Seq<OilPlatformModel> {
        self.platforms@
    }
}

impl OilPlaftormRepo {
    pub open spec fn wf(&self) -> bool {
        platforms_wf(self@)
    }

    /// An empty table.
    pub fn new() -> (r: OilPlaftormRepo)
        ensures
            r@ == Seq::<OilPlatformModel>::empty(),
            r.wf(),
    {
        OilPlaftormRepo { platforms: Vec::new() }
    }

    /// Every platform, once each, in ascending order of creation time.
    pub fn get_all(&self) -> (r: Vec<OilPlatformModel>)
        requires
            self.wf(),
        ensures
            r@ == self@,
            sorted_by_creation(r@),
    {
        self.platforms.clone()
    }

    /// The position of the platform with the id `id`, if there is one.
    fn find(&self, id: u128) -> (r: Option<usize>)
        requires
            self.wf(),
        ensures
            match r {
                Some(i) => i < self@.len() && has_platform(self@, id) && platform_index(self@, id)
                    == i,
                None => !has_platform(self@, id),
            },
    {
        let mut i: usize = 0;
        while i < self.platforms.len()
            invariant
                i <= self@.len(),
                self.wf(),
                forall|k: int| 0 <= k < i ==> #[trigger] self@[k].id != id,
            decreases self@.len() - i,
        {
            if self.platforms[i].id == id {
                proof {
                    lemma_platform_index(self@, i as int);
                }
                return Some(i);
            }
            i = i + 1;
        }
        None
    }

    /// The platform with the id `id`.
    pub fn get_by_id(&self, id: u128) -> (r: Result<OilPlatformModel, OilPlatformError>)
        requires
            self.wf(),
        ensures
            has_platform(self@, id) ==> r == Ok::<OilPlatformModel, OilPlatformError>(
                self@[platform_index(self@, id)],
            ),
            !has_platform(self@, id) ==> r == Err::<OilPlatformModel, OilPlatformError>(
                OilPlatformError::NotFound,
            ),
    {
        match self.find(id) {
            Some(i) => Ok(self.platforms[i]),
            None => Err(OilPlatformError::NotFound),
        }
    }

    /// Stores a new platform under `id` at level 0, with the requested
    /// yield. An id that is the system id or already taken breaks the
    /// table's uniqueness and is refused.
    pub fn create(&mut self, item: CreatePlatformModel, id: u128, now: i64) -> (r: Result<
        OilPlatformModel,
        OilPlatformError,
    >)
        requires
            old(self).wf(),
        ensures
            final(self).wf(),
            (id == 0 || has_platform(old(self)@, id)) ==> r == Err::<
                OilPlatformModel,
                OilPlatformError,
            >(OilPlatformError::OtherError) && final(self)@ == old(self)@,
            !(id == 0 || has_platform(old(self)@, id)) ==> r == Ok::<
                OilPlatformModel,
                OilPlatformError,
            >(new_platform(item, id, now)) && final(self)@ == insert_platform(
                old(self)@,
                new_platform(item, id, now),
            ),
    {
        let p = OilPlatformModel {
            id,
            platform_type: item.platform_type,
            platform_level: 0,
            profitability: item.profitability,
            created_at: Some(now),
            updated_at: Some(now),
        };
        self.insert(p)
    }

    /// Adds a platform as it was stored before (a row read back from
    /// storage, or a fixture). Refused, with no change, when its id is the
    /// system id or taken, or its level lies outside 0 to the maximum.
    pub fn load(&mut self, p: OilPlatformModel) -> (r: Result<OilPlatformModel, OilPlatformError>)
        requires
            old(self).wf(),
        ensures
            final(self).wf(),
            (p.id == 0 || has_platform(old(self)@, p.id) || p.platform_level < 0
                || p.platform_level > MAX_PLATFORM_LEVEL) ==> r == Err::<
                OilPlatformModel,
                OilPlatformError,
            >(OilPlatformError::OtherError) && final(self)@ == old(self)@,
            !(p.id == 0 || has_platform(old(self)@, p.id) || p.platform_level < 0
                || p.platform_level > MAX_PLATFORM_LEVEL) ==> r == Ok::<
                OilPlatformModel,
                OilPlatformError,
            >(p) && final(self)@ == insert_platform(old(self)@, p),
    {
        if p.platform_level < 0 || p.platform_level > MAX_PLATFORM_LEVEL {
            return Err(OilPlatformError::OtherError);
        }
        self.insert(p)
    }

    fn insert(&mut self, p: OilPlatformModel) -> (r: Result<OilPlatformModel, OilPlatformError>)
        requires
            old(self).wf(),
            0 <= p.platform_level <= MAX_PLATFORM_LEVEL,
        ensures
            final(self).wf(),
            (p.id == 0 || has_platform(old(self)@, p.id)) ==> r == Err::<
                OilPlatformModel,
                OilPlatformError,
            >(OilPlatformError::OtherError) && final(self)@ == old(self)@,
            !(p.id == 0 || has_platform(old(self)@, p.id)) ==> r == Ok::<
                OilPlatformModel,
                OilPlatformError,
            >(p) && final(self)@ == insert_platform(old(self)@, p),
    {
        if p.id == 0 {
            return Err(OilPlatformError::OtherError);
        }
        match self.find(p.id) {
            Some(_) => Err(OilPlatformError::OtherError),
            None => {
                let mut k: usize = 0;
                while k < self.platforms.len()
                    invariant
                        k <= self@.len(),
                        self.wf(),
                        forall|i: int|
                            0 <= i < k ==> created_key(#[trigger] self@[i].created_at)
                                <= created_key(p.created_at),
                    ensures
                        k <= self@.len(),
                        forall|i: int|
                            0 <= i < k ==> created_key(#[trigger] self@[i].created_at)
                                <= created_key(p.created_at),
                        k < self@.len() ==> created_key(self@[k as int].created_at) > created_key(
                            p.created_at,
                        ),
                    decreases self@.len() - k,
                {
                    if !created_no_later(self.platforms[k].created_at, p.created_at) {
                        break;
                    }
                    k = k + 1;
                }
                let ghost o = self@;
                proof {
                    assert forall|i: int| k <= i < o.len() implies created_key(
                        #[trigger] o[i].created_at,
                    ) > created_key(p.created_at) by {
                        if i > k {
                            assert(created_key(o[k as int].created_at) <= created_key(
                                o[i].created_at,
                            ));
                        }
                    }
                    assert(is_creation_slot(o, p, k as int));
                    lemma_creation_slot(o, p, k as int);
                }
                self.platforms.insert(k, p);
                proof {
                    lemma_insert_keeps_wf(o, p, k as int);
                }
                Ok(p)
            },
        }
    }

    /// Upgrades the platform with the id `id`: one level more and `addition`
    /// more yield, stamped with `now`. Refused, with no change, when no such
    /// platform exists, when it stands at the maximum level, or when its
    /// yield would leave the `i64` range.
    pub fn update(&mut self, id: u128, new_item: UpdatePlatformModel, now: i64) -> (r: Result<
        OilPlatformModel,
        OilPlatformError,
    >)
        requires
            old(self).wf(),
        ensures
            final(self).wf(),
            !has_platform(old(self)@, id) ==> r == Err::<OilPlatformModel, OilPlatformError>(
                OilPlatformError::NotFound,
            ) && final(self)@ == old(self)@,
            has_platform(old(self)@, id) ==> ({
                let i = platform_index(old(self)@, id);
                let p = old(self)@[i];
                &&& p.platform_level >= MAX_PLATFORM_LEVEL ==> r == Err::<
                    OilPlatformModel,
                    OilPlatformError,
                >(OilPlatformError::MaxLevelReached) && final(self)@ == old(self)@
                &&& (p.platform_level < MAX_PLATFORM_LEVEL && !(i64::MIN <= p.profitability
                    + new_item.profitability_addition <= i64::MAX)) ==> r == Err::<
                    OilPlatformModel,
                    OilPlatformError,
                >(OilPlatformError::OtherError) && final(self)@ == old(self)@
                &&& (p.platform_level < MAX_PLATFORM_LEVEL && i64::MIN <= p.profitability
                    + new_item.profitability_addition <= i64::MAX) ==> r == Ok::<
                    OilPlatformModel,
                    OilPlatformError,
                >(upgraded(p, new_item.profitability_addition, now))
                    && final(self)@ == old(self)@.update(
                    i,
                    upgraded(p, new_item.profitability_addition, now),
                )
            }),
    {
        let i = match self.find(id) {
            Some(i) => i,
            None => {
                return Err(OilPlatformError::NotFound);
            },
        };
        let p = self.platforms[i];
        if p.platform_level >= MAX_PLATFORM_LEVEL {
            return Err(OilPlatformError::MaxLevelReached);
        }
        let profitability = match p.profitability.checked_add(new_item.profitability_addition) {
            Some(v) => v,
            None => {
                return Err(OilPlatformError::OtherError);
            },
        };
        let q = OilPlatformModel {
            platform_level: p.platform_level + 1,
            profitability,
            updated_at: Some(now),
            ..p
        };
        self.platforms.set(i, q);
        proof {
            let s = self@;
            let o = old(self)@;
            assert forall|a: int, b: int|
                0 <= a < s.len() && 0 <= b < s.len() && a != b implies #[trigger] s[a].id
                != #[trigger] s[b].id by {
                assert(s[a].id == o[a].id && s[b].id == o[b].id);
            }
            assert forall|a: int| 0 <= a < s.len() implies #[trigger] s[a].id != 0 && 0
                <= s[a].platform_level <= MAX_PLATFORM_LEVEL by {
                if a != i {
                    assert(o[a] == s[a]);
                } else {
                    assert(o[a].id != 0);
                }
            }
        }
        Ok(q)
    }

    /// What all platforms earn in one period: the sum of their yields, when
    /// it fits in an `i64`; 0 for an empty table.
    pub fn get_period_platform_earnings(&self) -> (r: Result<i64, MoneyTransactionError>)
        ensures
            i64::MIN <= yield_sum(self@) <= i64::MAX ==> r == Ok::<i64, MoneyTransactionError>(
                yield_sum(self@) as i64,
            ),
            !(i64::MIN <= yield_sum(self@) <= i64::MAX) ==> r == Err::<
                i64,
                MoneyTransactionError,
            >(MoneyTransactionError::OtherError),
    {
        let mut total: i128 = 0;
        let mut i: usize = 0;
        while i < self.platforms.len()
            invariant
                i <= self@.len(),
                total == yield_sum(self@.subrange(0, i as int)),
                -(i * 0x8000_0000_0000_0000) <= total <= i * 0x8000_0000_0000_0000,
            decreases self@.len() - i,
        {
            let p = self.platforms[i];
            proof {
                lemma_sum_fits_i128((i + 1) as int);
                assert(self@.subrange(0, i + 1).drop_last() =~= self@.subrange(0, i as int));
            }
            total = total + p.profitability as i128;
            i = i + 1;
        }
        proof {
            assert(self@.subrange(0, i as int) =~= self@);
        }
        if total < i64::MIN as i128 || total > i64::MAX as i128 {
            Err(MoneyTransactionError::OtherError)
        } else {
            Ok(total as i64)
        }
    }
}

} // verus!
