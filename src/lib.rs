//! The economy of a small idle game: an append-only money ledger, the stores
//! of oil platforms and beers, the funds-gated purchase and upgrade protocol,
//! and the periodic settlement of platform earnings.
pub mod bounds;
pub mod constants;
pub mod helper;
pub mod model;
pub mod repo;
pub mod ids;
pub mod clock;
pub mod game;
pub mod settlement;
pub mod seed;
pub mod schema;
