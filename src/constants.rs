//! The game's fixed rules: the cost and yield of each platform kind, the
//! maximum platform level, and the start of a game.
use vstd::prelude::*;

verus! {

/// The level above which no platform can be upgraded.
pub const MAX_PLATFORM_LEVEL: i16 = 10;

pub const RIG_PLATFORM_COST: i64 = 1000;
pub const GROUND_PLATFORM_COST: i64 = 10000;
pub const PUMP_PLATFORM_COST: i64 = 100000;

pub const RIG_PLATFORM_UPGRADE_COST: i64 = 100;
pub const GROUND_PLATFORM_UPGRADE_COST: i64 = 500;
pub const PUMP_PLATFORM_UPGRADE_COST: i64 = 1000;

pub const RIG_PLATFORM_PROFITABILITY: i64 = 5;
pub const GROUND_PLATFORM_PROFITABILITY: i64 = 15;
pub const PUMP_PLATFORM_PROFITABILITY: i64 = 50;

/// The money a new game starts with.
pub const STARTING_BALANCE: i64 = 1000;

/// The resource reference that earnings credited by the game itself carry.
pub const SYSTEM_RESOURCE_ID: u128 = 0;

} // verus!
