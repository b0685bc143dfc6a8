//! The shapes of requests and answers at the service's edge.
use vstd::prelude::*;
use vstd::string::*;
use crate::game::GameError;
use crate::model::{BeerModel, OilPlatformModel};

verus! {

/// A path parameter naming a resource.
#[derive(Clone, Debug)]
pub struct ParamOptions {
    pub id: String,
}

/// A request to build a platform of the named kind.
#[derive(Clone, Debug)]
pub struct CreatePlatformSchema {
    pub platform_type: String,
}

/// A request to upgrade a platform; the platform is named by the path.
#[derive(Clone, Debug)]
pub struct CreatePlatformUpgradeSchema;

/// A request to record a money movement.
#[derive(Clone, Debug)]
pub struct CreateMoneyTransactionSchema {
    pub item_id: String,
    pub amount: i64,
}

/// A request to buy a beer; the beer is named by the path.
#[derive(Clone, Debug)]
pub struct PurchaseBeerSchema;

/// A status with a message.
#[derive(Clone, Debug)]
pub struct GenericResponse {
    pub status: String,
    pub message: String,
}

/// One platform.
#[derive(Clone, Debug)]
pub struct SinglePlatformResponse {
    pub status: String,
    pub data: OilPlatformModel,
}

/// Every platform, with their number.
#[derive(Clone, Debug)]
pub struct PlatformListResponse {
    pub status: String,
    pub results: usize,
    pub platforms: Vec<OilPlatformModel>,
}

/// One beer.
#[derive(Clone, Debug)]
pub struct SingleBeerResponse {
    pub status: String,
    pub data: BeerModel,
}

/// Every beer, with their number.
#[derive(Clone, Debug)]
pub struct BeerListResponse {
    pub status: String,
    pub results: usize,
    pub beers: Vec<BeerModel>,
}

impl GenericResponse {
    /// The answer to a refused request: status "error" and the error's
    /// message.
    pub fn from_error(e: GameError) -> (r: GenericResponse)
        ensures
            r.status@ == "error"@,
            r.message@ == e.message(),
    {
        GenericResponse { status: String::from_str("error"), message: e.to_string() }
    }

    /// The answer that the service is alive.
    pub fn alive() -> (r: GenericResponse)
        ensures
            r.status@ == "success"@,
            r.message@ == "service alive"@,
    {
        GenericResponse {
            status: String::from_str("success"),
            message: String::from_str("service alive"),
        }
    }
}

impl SinglePlatformResponse {
    pub fn success(data: OilPlatformModel) -> (r: SinglePlatformResponse)
        ensures
            r.status@ == "success"@,
            r.data == data,
    {
        SinglePlatformResponse { status: String::from_str("success"), data }
    }
}

impl PlatformListResponse {
    pub fn success(platforms: Vec<OilPlatformModel>) -> (r: PlatformListResponse)
        ensures
            r.status@ == "success"@,
            r.platforms@ == platforms@,
            r.results == platforms@.len(),
    {
        let results = platforms.len();
        PlatformListResponse { status: String::from_str("success"), results, platforms }
    }
}

impl SingleBeerResponse {
    pub fn success(data: BeerModel) -> (r: SingleBeerResponse)
        ensures
            r.status@ == "success"@,
            r.data == data,
    {
        SingleBeerResponse { status: String::from_str("success"), data }
    }
}

impl BeerListResponse {
    pub fn success(beers: Vec<BeerModel>) -> (r: BeerListResponse)
        ensures
            r.status@ == "success"@,
            r.beers@ == beers@,
            r.results == beers@.len(),
    {
        let results = beers.len();
        BeerListResponse { status: String::from_str("success"), results, beers }
    }
}

} // verus!
