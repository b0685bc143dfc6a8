//! The stores: the money ledger, the oil platforms and the beers.
pub mod transactions_repo;
pub mod platform_repo;
pub mod beer_repo;
