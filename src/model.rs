//! The rows of the three stores, and the requests that create or change them.
use vstd::prelude::*;
use vstd::string::*;

verus! {

/// The closed set of oil platform kinds.
#[derive(Clone, Copy, Debug, PartialEq, Eq, Structural)]
pub enum PlatformType {
    Rig,
    Ground,
    Pump,
}

/// The kind whose name is `s`, if any.
pub open spec fn platform_type_named(s: Seq<char>) -> Option<PlatformType> {
    if s == "Rig"@ {
        Some(PlatformType::Rig)
    } else if s == "Ground"@ {
        Some(PlatformType::Ground)
    } else if s == "Pump"@ {
        Some(PlatformType::Pump)
    } else {
        None
    }
}

impl PlatformType {
    /// The name under which a kind is stored and sent.
    pub open spec fn name(self) -> Seq<char> {
        match self {
            PlatformType::Rig => "Rig"@,
            PlatformType::Ground => "Ground"@,
            PlatformType::Pump => "Pump"@,
        }
    }

    /// Reads a kind from its name; any other text is no kind.
    pub fn parse(s: &str) -> (r: Option<PlatformType>)
        ensures
            r == platform_type_named(s@),
    {
        let owned = s.to_owned();
        if owned == "Rig".to_owned() {
            Some(PlatformType::Rig)
        } else if owned == "Ground".to_owned() {
            Some(PlatformType::Ground)
        } else if owned == "Pump".to_owned() {
            Some(PlatformType::Pump)
        } else {
            None
        }
    }

    pub fn to_string(&self) -> (r: String)
        ensures
            r@ == self.name(),
    {
        match self {
            PlatformType::Rig => String::from_str("Rig"),
            PlatformType::Ground => String::from_str("Ground"),
            PlatformType::Pump => String::from_str("Pump"),
        }
    }
}

/// A platform as the store holds it. `id` carries the bits of a UUID.
#[derive(Clone, Copy, Debug, PartialEq, Eq, Structural)]
pub struct OilPlatformModel {
    pub id: u128,
    pub platform_type: PlatformType,
    pub platform_level: i16,
    pub profitability: i64,
    pub created_at: Option<i64>,
    pub updated_at: Option<i64>,
}

/// What building a platform asks of the store.
#[derive(Clone, Copy, Debug, PartialEq, Eq, Structural)]
pub struct CreatePlatformModel {
    pub platform_type: PlatformType,
    pub profitability: i64,
}

/// What upgrading a platform asks of the store: the yield to add.
#[derive(Clone, Copy, Debug, PartialEq, Eq, Structural)]
pub struct UpdatePlatformModel {
    pub profitability_addition: i64,
}

/// One money movement. `reduces_balance` marks a debit; `item_id` is the
/// resource that caused it, or the system id for earnings.
#[derive(Clone, Copy, Debug, PartialEq, Eq, Structural)]
pub struct MoneyTransactionModel {
    pub id: u128,
    pub item_id: u128,
    pub amount: i64,
    pub reduces_balance: bool,
    pub created_at: Option<i64>,
    pub updated_at: Option<i64>,
}

/// What appending a money movement asks of the ledger.
#[derive(Clone, Copy, Debug, PartialEq, Eq, Structural)]
pub struct CreateMoneyTransactionModel {
    pub item_id: Option<u128>,
    pub amount: i64,
    pub reduces_balance: bool,
}

/// A beer that can be bought once.
#[derive(Clone, Debug)]
pub struct BeerModel {
    pub id: u128,
    pub title: String,
    pub description: String,
    pub thumbnail: String,
    pub cost: i64,
    pub purchased: Option<bool>,
    pub created_at: Option<i64>,
    pub updated_at: Option<i64>,
}

impl BeerModel {
    /// Whether the beer counts as bought.
    pub open spec fn is_purchased(self) -> bool {
        self.purchased == Some(true)
    }

    /// A field-by-field copy.
    pub fn duplicate(&self) -> (r: BeerModel)
        ensures
            r == *self,
    {
        BeerModel {
            id: self.id,
            title: self.title.clone(),
            description: self.description.clone(),
            thumbnail: self.thumbnail.clone(),
            cost: self.cost,
            purchased: self.purchased,
            created_at: self.created_at,
            updated_at: self.updated_at,
        }
    }
}

/// What adding a beer asks of the store.
#[derive(Clone, Debug)]
pub struct CreateBeerModel {
    pub title: String,
    pub thumbnail: String,
    pub description: String,
    pub cost: i64,
}

impl CreateBeerModel {
    /// A field-by-field copy.
    pub fn duplicate(&self) -> (r: CreateBeerModel)
        ensures
            r == *self,
    {
        CreateBeerModel {
            title: self.title.clone(),
            thumbnail: self.thumbnail.clone(),
            description: self.description.clone(),
            cost: self.cost,
        }
    }
}

} // verus!
