//! The funds-gated mutation protocol: check the balance, change the
//! resource, record the payment.
use vstd::prelude::*;
use vstd::string::*;
use crate::clock::current_timestamp;
use crate::constants::MAX_PLATFORM_LEVEL;
use crate::ids::fresh_id;
use crate::helper::{
    get_platform_cost, get_platform_profitability, get_platform_upgrade_cost, platform_cost,
    platform_profitability, platform_upgrade_cost,
};
use crate::model::{
    BeerModel, CreateMoneyTransactionModel, CreatePlatformModel, MoneyTransactionModel,
    OilPlatformModel, PlatformType, UpdatePlatformModel, platform_type_named,
};
use crate::repo::beer_repo::{
    all_beers_purchased, beer_index, has_beer, purchased, BeerError, BeerRepo,
};
use crate::repo::platform_repo::{
    has_platform, insert_platform, new_platform, platform_index, upgraded, OilPlaftormRepo, OilPlatformError,
};
use crate::repo::transactions_repo::{balance_of, entry_for, TransactionsRepo};

verus! {

/// Why a game operation was refused.
#[derive(Debug, Clone, Copy, PartialEq, Eq, Structural)]
pub enum GameError {
    InvalidId,
    InvalidKind,
    NotFound,
    AlreadyPurchased,
    MaxLevelReached,
    InsufficientFunds,
    StorageError,
}

impl GameError {
    pub open spec fn message(self) -> Seq<char> {
        match self {
            GameError::InvalidId => "Invalid ID provided"@,
            GameError::InvalidKind => "Invalid platform type specified"@,
            GameError::NotFound => "Resource not found"@,
            GameError::AlreadyPurchased => "You have already purchased this beer"@,
            GameError::MaxLevelReached => "You have already upgraded the platform to the maximum"@,
            GameError::InsufficientFunds => "Not enough funds for purchase"@,
            GameError::StorageError => "Other database-related error"@,
        }
    }

    pub fn to_string(&self) -> (r: String)
        ensures
            r@ == self.message(),
    {
        match self {
            GameError::InvalidId => String::from_str("Invalid ID provided"),
            GameError::InvalidKind => String::from_str("Invalid platform type specified"),
            GameError::NotFound => String::from_str("Resource not found"),
            GameError::AlreadyPurchased => String::from_str("You have already purchased this beer"),
            GameError::MaxLevelReached => String::from_str(
                "You have already upgraded the platform to the maximum",
            ),
            GameError::InsufficientFunds => String::from_str("Not enough funds for purchase"),
            GameError::StorageError => String::from_str("Other database-related error"),
        }
    }

    /// Whether the request itself was at fault (a rejection to show the
    /// player) rather than the service.
    pub fn is_client_error(&self) -> (r: bool)
        ensures
            r == !(*self is NotFound || *self is StorageError),
    {
        match self {
            GameError::NotFound | GameError::StorageError => false,
            _ => true,
        }
    }
}

/// Reads a platform kind, refusing unknown names.
pub fn parse_platform_type(s: &str) -> (r: Result<PlatformType, GameError>)
    ensures
        platform_type_named(s@) matches Some(t) ==> r == Ok::<
            PlatformType,
            GameError,
        >(t),
        platform_type_named(s@) is None ==> r == Err::<PlatformType, GameError>(
            GameError::InvalidKind,
        ),
{
    match PlatformType::parse(s) {
        Some(t) => Ok(t),
        None => Err(GameError::InvalidKind),
    }
}

/// Whether `x` fits in an `i64`.
pub open spec fn fits_i64(x: int) -> bool {
    i64::MIN <= x <= i64::MAX
}

/// The debit that paying `amount` for the resource `item` appends at
/// position `pos` of the ledger.
pub open spec fn debit(item: u128, amount: i64, pos: nat, now: i64) -> MoneyTransactionModel {
    entry_for(
        CreateMoneyTransactionModel { item_id: Some(item), amount, reduces_balance: true },
        pos,
        now,
    )
}

/// A bought beer, and whether that purchase completed the collection.
pub struct PurchaseOutcome {
    pub beer: BeerModel,
    pub game_won: bool,
}

/// A funds-gated change that a player asks for.
#[derive(Debug, Clone, Copy, PartialEq, Eq, Structural)]
pub enum GameAction {
    PurchaseItem(u128),
    CreatePlatform(PlatformType),
    UpgradePlatform(u128),
}

/// A resource as a funds-gated change left it.
pub enum Resource {
    Platform(OilPlatformModel),
    Beer(BeerModel),
}

/// What a funds-gated change returns: the changed resource, and whether
/// the game has been won by it.
pub struct MutationOutcome {
    pub resource: Resource,
    pub game_won: bool,
}

/// A platform operation's result as a change outcome.
pub open spec fn platform_outcome(r: Result<OilPlatformModel, GameError>) -> Result<
    MutationOutcome,
    GameError,
> {
    match r {
        Ok(p) => Ok(MutationOutcome { resource: Resource::Platform(p), game_won: false }),
        Err(e) => Err(e),
    }
}

/// A purchase's result as a change outcome.
pub open spec fn purchase_outcome(r: Result<PurchaseOutcome, GameError>) -> Result<
    MutationOutcome,
    GameError,
> {
    match r {
        Ok(o) => Ok(MutationOutcome { resource: Resource::Beer(o.beer), game_won: o.game_won }),
        Err(e) => Err(e),
    }
}

/// What `action` costs in the state `g`; nothing when its target is missing.
pub open spec fn action_cost(g: AppRepositories, action: GameAction) -> Option<int> {
    match action {
        GameAction::CreatePlatform(t) => Some(platform_cost(t) as int),
        GameAction::UpgradePlatform(id) => if has_platform(g.platform_repo@, id) {
            Some(
                platform_upgrade_cost(
                    g.platform_repo@[platform_index(g.platform_repo@, id)].platform_type,
                ) as int,
            )
        } else {
            None
        },
        GameAction::PurchaseItem(id) => if has_beer(g.beer_repo@, id) {
            Some(g.beer_repo@[beer_index(g.beer_repo@, id)].cost as int)
        } else {
            None
        },
    }
}

/// The outcome of `action` from the state `pre`, where a new platform gets
/// the id `new_id` and the time is `now`.
pub open spec fn action_post(
    pre: AppRepositories,
    post: AppRepositories,
    action: GameAction,
    new_id: u128,
    now: i64,
    r: Result<MutationOutcome, GameError>,
) -> bool {
    match action {
        GameAction::CreatePlatform(t) => exists|rp: Result<OilPlatformModel, GameError>|
            create_platform_post(pre, post, t, new_id, now, rp) && r == platform_outcome(rp),
        GameAction::UpgradePlatform(id) => exists|rp: Result<OilPlatformModel, GameError>|
            upgrade_platform_post(pre, post, id, now, rp) && r == platform_outcome(rp),
        GameAction::PurchaseItem(id) => exists|rb: Result<PurchaseOutcome, GameError>|
            purchase_beer_post(pre, post, id, now, rb) && r == purchase_outcome(rb),
    }
}

/// The ledger only grows: a funds-gated change keeps every entry as it
/// was, and adds exactly one entry when it succeeds and none when it is
/// refused.
pub proof fn lemma_change_appends_at_most_one(
    pre: AppRepositories,
    post: AppRepositories,
    action: GameAction,
    new_id: u128,
    now: i64,
    r: Result<MutationOutcome, GameError>,
)
    requires
        action_post(pre, post, action, new_id, now, r),
    ensures
        post.finances_repo@.len() == pre.finances_repo@.len() + if r is Ok {
            1int
        } else {
            0int
        },
        forall|i: int|
            0 <= i < pre.finances_repo@.len() ==> #[trigger] post.finances_repo@[i]
                == pre.finances_repo@[i],
{
    match action {
        GameAction::CreatePlatform(t) => {
            let rp = choose|rp: Result<OilPlatformModel, GameError>|
                create_platform_post(pre, post, t, new_id, now, rp) && r == platform_outcome(rp);
            assert(create_platform_post(pre, post, t, new_id, now, rp));
        },
        GameAction::UpgradePlatform(id) => {
            let rp = choose|rp: Result<OilPlatformModel, GameError>|
                upgrade_platform_post(pre, post, id, now, rp) && r == platform_outcome(rp);
            assert(upgrade_platform_post(pre, post, id, now, rp));
        },
        GameAction::PurchaseItem(id) => {
            let rb = choose|rb: Result<PurchaseOutcome, GameError>|
                purchase_beer_post(pre, post, id, now, rb) && r == purchase_outcome(rb);
            assert(purchase_beer_post(pre, post, id, now, rb));
        },
    }
}

/// A beer that has been bought cannot be bought again: the purchase is
/// refused, and neither the stores nor the ledger change. With the balance
/// readable and covering the cost, the refusal is `AlreadyPurchased`.
pub proof fn lemma_second_purchase_rejected(
    pre: AppRepositories,
    post: AppRepositories,
    id: u128,
    now: i64,
    r: Result<PurchaseOutcome, GameError>,
)
    requires
        has_beer(pre.beer_repo@, id),
        pre.beer_repo@[beer_index(pre.beer_repo@, id)].is_purchased(),
        purchase_beer_post(pre, post, id, now, r),
    ensures
        r is Err,
        post.same_state(pre),
        fits_i64(pre.balance()) && pre.beer_repo@[beer_index(pre.beer_repo@, id)].cost
            <= pre.balance() ==> r == Err::<PurchaseOutcome, GameError>(
            GameError::AlreadyPurchased,
        ),
{
}

/// A platform at the maximum level is never upgraded: the upgrade is
/// refused and no store changes. With the balance readable and covering the
/// cost, the refusal is `MaxLevelReached`.
pub proof fn lemma_max_level_upgrade_rejected(
    pre: AppRepositories,
    post: AppRepositories,
    id: u128,
    now: i64,
    r: Result<OilPlatformModel, GameError>,
)
    requires
        has_platform(pre.platform_repo@, id),
        pre.platform_repo@[platform_index(pre.platform_repo@, id)].platform_level
            == MAX_PLATFORM_LEVEL,
        upgrade_platform_post(pre, post, id, now, r),
    ensures
        r is Err,
        post.same_state(pre),
        fits_i64(pre.balance()) && platform_upgrade_cost(
            pre.platform_repo@[platform_index(pre.platform_repo@, id)].platform_type,
        ) <= pre.balance() ==> r == Err::<OilPlatformModel, GameError>(
            GameError::MaxLevelReached,
        ),
{
}

/// The stores of one game economy.
pub struct AppRepositories {
    pub platform_repo: OilPlaftormRepo,
    pub beer_repo: BeerRepo,
    pub finances_repo: TransactionsRepo,
}

/// The outcome of building a platform of kind `t` under `id` at `now`,
/// from the state `pre`: the result `r` and the state `post`.
pub open spec fn create_platform_post(
    pre: AppRepositories,
    post: AppRepositories,
    t: PlatformType,
    id: u128,
    now: i64,
    r: Result<OilPlatformModel, GameError>,
) -> bool {
    let bal = pre.balance();
    let cost = platform_cost(t);
    if !fits_i64(bal) {
        r == Err::<OilPlatformModel, GameError>(GameError::StorageError) && post.same_state(pre)
    } else if cost > bal {
        r == Err::<OilPlatformModel, GameError>(GameError::InsufficientFunds) && post.same_state(
            pre,
        )
    } else if id == 0 || has_platform(pre.platform_repo@, id) {
        r == Err::<OilPlatformModel, GameError>(GameError::StorageError) && post.same_state(pre)
    } else {
        let p = new_platform(
            CreatePlatformModel { platform_type: t, profitability: platform_profitability(t) },
            id,
            now,
        );
        &&& r == Ok::<OilPlatformModel, GameError>(p)
        &&& post.platform_repo@ == insert_platform(pre.platform_repo@, p)
        &&& post.finances_repo@ == pre.finances_repo@.push(
            debit(id, cost, pre.finances_repo@.len(), now),
        )
        &&& post.beer_repo@ == pre.beer_repo@
    }
}

/// The outcome of upgrading the platform `id` at `now`, from the state `pre`.
pub open spec fn upgrade_platform_post(
    pre: AppRepositories,
    post: AppRepositories,
    id: u128,
    now: i64,
    r: Result<OilPlatformModel, GameError>,
) -> bool {
    let ps = pre.platform_repo@;
    if !has_platform(ps, id) {
        r == Err::<OilPlatformModel, GameError>(GameError::NotFound) && post.same_state(pre)
    } else {
        let i = platform_index(ps, id);
        let p = ps[i];
        let bal = pre.balance();
        let cost = platform_upgrade_cost(p.platform_type);
        let addition = platform_profitability(p.platform_type);
        if !fits_i64(bal) {
            r == Err::<OilPlatformModel, GameError>(GameError::StorageError) && post.same_state(
                pre,
            )
        } else if cost > bal {
            r == Err::<OilPlatformModel, GameError>(GameError::InsufficientFunds)
                && post.same_state(pre)
        } else if p.platform_level >= MAX_PLATFORM_LEVEL {
            r == Err::<OilPlatformModel, GameError>(GameError::MaxLevelReached) && post.same_state(
                pre,
            )
        } else if !fits_i64(p.profitability + addition) {
            r == Err::<OilPlatformModel, GameError>(GameError::StorageError) && post.same_state(
                pre,
            )
        } else {
            let q = upgraded(p, addition, now);
            &&& r == Ok::<OilPlatformModel, GameError>(q)
            &&& post.platform_repo@ == ps.update(i, q)
            &&& post.finances_repo@ == pre.finances_repo@.push(
                debit(id, cost, pre.finances_repo@.len(), now),
            )
            &&& post.beer_repo@ == pre.beer_repo@
        }
    }
}

/// The outcome of buying the beer `id` at `now`, from the state `pre`.
pub open spec fn purchase_beer_post(
    pre: AppRepositories,
    post: AppRepositories,
    id: u128,
    now: i64,
    r: Result<PurchaseOutcome, GameError>,
) -> bool {
    let bs = pre.beer_repo@;
    if !has_beer(bs, id) {
        r == Err::<PurchaseOutcome, GameError>(GameError::NotFound) && post.same_state(pre)
    } else {
        let i = beer_index(bs, id);
        let b = bs[i];
        let bal = pre.balance();
        if !fits_i64(bal) {
            r == Err::<PurchaseOutcome, GameError>(GameError::StorageError) && post.same_state(pre)
        } else if b.cost > bal {
            r == Err::<PurchaseOutcome, GameError>(GameError::InsufficientFunds)
                && post.same_state(pre)
        } else if b.is_purchased() {
            r == Err::<PurchaseOutcome, GameError>(GameError::AlreadyPurchased)
                && post.same_state(pre)
        } else {
            let nb = bs.update(i, purchased(b));
            &&& r == Ok::<PurchaseOutcome, GameError>(
                PurchaseOutcome { beer: purchased(b), game_won: all_beers_purchased(nb) },
            )
            &&& post.beer_repo@ == nb
            &&& post.finances_repo@ == pre.finances_repo@.push(
                debit(id, b.cost, pre.finances_repo@.len(), now),
            )
            &&& post.platform_repo@ == pre.platform_repo@
        }
    }
}

impl AppRepositories {
    pub open spec fn wf(&self) -> bool {
        &&& self.platform_repo.wf()
        &&& self.beer_repo.wf()
        &&& self.finances_repo.wf()
    }

    /// The balance that the ledger holds.
    pub open spec fn balance(self) -> int {
        balance_of(self.finances_repo@)
    }

    /// Whether `self` and `other` hold the same stores.
    pub open spec fn same_state(self, other: AppRepositories) -> bool {
        &&& self.platform_repo@ == other.platform_repo@
        &&& self.beer_repo@ == other.beer_repo@
        &&& self.finances_repo@ == other.finances_repo@
    }

    /// A game with empty stores.
    pub fn new() -> (r: AppRepositories)
        ensures
            r.wf(),
            r.platform_repo@.len() == 0,
            r.beer_repo@.len() == 0,
            r.finances_repo@.len() == 0,
    {
        AppRepositories {
            platform_repo: OilPlaftormRepo::new(),
            beer_repo: BeerRepo::new(),
            finances_repo: TransactionsRepo::new(),
        }
    }

    /// The balance, or `StorageError` when it does not fit in an `i64`.
    fn checked_balance(&self) -> (r: Result<i64, GameError>)
        ensures
            fits_i64(self.balance()) ==> r == Ok::<i64, GameError>(self.balance() as i64),
            !fits_i64(self.balance()) ==> r == Err::<i64, GameError>(GameError::StorageError),
    {
        match self.finances_repo.get_available_balance() {
            Ok(b) => Ok(b),
            Err(_) => Err(GameError::StorageError),
        }
    }

    /// Records the payment of `amount` for the resource `item`.
    fn record_debit(&mut self, item: u128, amount: i64, now: i64)
        requires
            old(self).wf(),
            amount >= 0,
        ensures
            final(self).wf(),
            final(self).finances_repo@ == old(self).finances_repo@.push(
                debit(item, amount, old(self).finances_repo@.len(), now),
            ),
            final(self).platform_repo@ == old(self).platform_repo@,
            final(self).beer_repo@ == old(self).beer_repo@,
    {
        let tx = CreateMoneyTransactionModel {
            item_id: Some(item),
            amount,
            reduces_balance: true,
        };
        let _ = self.finances_repo.create(tx, now);
    }

    /// Builds a platform of kind `platform_type` under the fresh id `id`,
    /// paying its cost. Refused, with no change, when the balance cannot be
    /// read, does not cover the cost, or the id is not fresh.
    pub fn create_platform_at(&mut self, platform_type: PlatformType, id: u128, now: i64) -> (r:
        Result<OilPlatformModel, GameError>)
        requires
            old(self).wf(),
        ensures
            final(self).wf(),
            create_platform_post(*old(self), *final(self), platform_type, id, now, r),
    {
        let cost = get_platform_cost(platform_type);
        let balance = match self.checked_balance() {
            Ok(b) => b,
            Err(e) => {
                return Err(e);
            },
        };
        if cost > balance {
            return Err(GameError::InsufficientFunds);
        }
        let item = CreatePlatformModel {
            platform_type,
            profitability: get_platform_profitability(platform_type),
        };
        let created = match self.platform_repo.create(item, id, now) {
            Ok(p) => p,
            Err(_) => {
                return Err(GameError::StorageError);
            },
        };
        self.record_debit(id, cost, now);
        Ok(created)
    }

    /// Upgrades the platform `id`, paying the upgrade cost of its kind; its
    /// yield grows by its kind's profitability. Refused, with no change,
    /// when the platform is missing, the balance cannot be read or does not
    /// cover the cost, the platform is at the maximum level, or its yield
    /// would overflow.
    pub fn upgrade_platform_at(&mut self, id: u128, now: i64) -> (r: Result<
        OilPlatformModel,
        GameError,
    >)
        requires
            old(self).wf(),
        ensures
            final(self).wf(),
            upgrade_platform_post(*old(self), *final(self), id, now, r),
    {
        let platform = match self.platform_repo.get_by_id(id) {
            Ok(p) => p,
            Err(_) => {
                return Err(GameError::NotFound);
            },
        };
        let cost = get_platform_upgrade_cost(platform.platform_type);
        let balance = match self.checked_balance() {
            Ok(b) => b,
            Err(e) => {
                return Err(e);
            },
        };
        if cost > balance {
            return Err(GameError::InsufficientFunds);
        }
        let update = UpdatePlatformModel {
            profitability_addition: get_platform_profitability(platform.platform_type),
        };
        let updated = match self.platform_repo.update(id, update, now) {
            Ok(p) => p,
            Err(OilPlatformError::MaxLevelReached) => {
                return Err(GameError::MaxLevelReached);
            },
            Err(_) => {
                return Err(GameError::StorageError);
            },
        };
        self.record_debit(id, cost, now);
        Ok(updated)
    }

    /// Buys the beer `id`, paying its cost, and tells whether every beer
    /// is now bought. Refused, with no change, when the beer is missing,
    /// the balance cannot be read or does not cover the cost, or the beer
    /// was bought before.
    pub fn purchase_beer_at(&mut self, id: u128, now: i64) -> (r: Result<
        PurchaseOutcome,
        GameError,
    >)
        requires
            old(self).wf(),
        ensures
            final(self).wf(),
            purchase_beer_post(*old(self), *final(self), id, now, r),
    {
        let beer = match self.beer_repo.get_by_id(id) {
            Ok(b) => b,
            Err(_) => {
                return Err(GameError::NotFound);
            },
        };
        let balance = match self.checked_balance() {
            Ok(b) => b,
            Err(e) => {
                return Err(e);
            },
        };
        if beer.cost > balance {
            return Err(GameError::InsufficientFunds);
        }
        let bought = match self.beer_repo.purchase(id) {
            Ok(b) => b,
            Err(BeerError::AlreadyPurchased) => {
                return Err(GameError::AlreadyPurchased);
            },
            Err(_) => {
                return Err(GameError::NotFound);
            },
        };
        self.record_debit(id, beer.cost, now);
        let game_won = self.beer_repo.all_purchased();
        Ok(PurchaseOutcome { beer: bought, game_won })
    }

    /// Carries out `action`: check the funds, change the resource, record
    /// the payment. A new platform gets the id `new_id`; `now` stamps the
    /// change. When the cost of the action exceeds the balance, nothing
    /// changes and the answer is `InsufficientFunds`.
    ///
    /// The change and its debit land together: every cost is positive, so
    /// the ledger never refuses the debit that follows a successful change,
    /// and no change is ever left without its payment. A refused action
    /// leaves every store as it was.
    pub fn purchase_or_upgrade_at(&mut self, action: GameAction, new_id: u128, now: i64) -> (r:
        Result<MutationOutcome, GameError>)
        requires
            old(self).wf(),
        ensures
            final(self).wf(),
            action_post(*old(self), *final(self), action, new_id, now, r),
            (action_cost(*old(self), action) matches Some(c) && fits_i64(old(self).balance()) && c
                > old(self).balance()) ==> r == Err::<MutationOutcome, GameError>(
                GameError::InsufficientFunds,
            ) && final(self).same_state(*old(self)),
    {
        match action {
            GameAction::CreatePlatform(t) => {
                let rp = self.create_platform_at(t, new_id, now);
                let r = match rp {
                    Ok(p) => Ok(MutationOutcome { resource: Resource::Platform(p), game_won: false }),
                    Err(e) => Err(e),
                };
                proof {
                    assert(r == platform_outcome(rp));
                }
                r
            },
            GameAction::UpgradePlatform(id) => {
                let rp = self.upgrade_platform_at(id, now);
                let r = match rp {
                    Ok(p) => Ok(MutationOutcome { resource: Resource::Platform(p), game_won: false }),
                    Err(e) => Err(e),
                };
                proof {
                    assert(r == platform_outcome(rp));
                }
                r
            },
            GameAction::PurchaseItem(id) => {
                let rb = self.purchase_beer_at(id, now);
                let r = match rb {
                    Ok(o) => Ok(MutationOutcome { resource: Resource::Beer(o.beer), game_won: o.game_won }),
                    Err(e) => Err(e),
                };
                proof {
                    assert(r == purchase_outcome(rb));
                }
                r
            },
        }
    }

    /// Carries out `action` now, with a freshly drawn id for a new
    /// platform: the outcome is that of `purchase_or_upgrade_at` for some
    /// id other than the system id and some time.
    pub fn purchase_or_upgrade(&mut self, action: GameAction) -> (r: Result<
        MutationOutcome,
        GameError,
    >)
        requires
            old(self).wf(),
        ensures
            final(self).wf(),
            exists|new_id: u128, now: i64|
                new_id != 0 && action_post(*old(self), *final(self), action, new_id, now, r),
            (action_cost(*old(self), action) matches Some(c) && fits_i64(old(self).balance()) && c
                > old(self).balance()) ==> r == Err::<MutationOutcome, GameError>(
                GameError::InsufficientFunds,
            ) && final(self).same_state(*old(self)),
    {
        let new_id = fresh_id();
        let now = current_timestamp();
        let r = self.purchase_or_upgrade_at(action, new_id, now);
        proof {
            assert(new_id != 0 && action_post(*old(self), *self, action, new_id, now, r));
        }
        r
    }
}

} // verus!
