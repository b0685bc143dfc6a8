//! The configuration table: what each platform kind costs to build and to
//! upgrade, and what it earns.
use vstd::prelude::*;
use crate::constants::{
    GROUND_PLATFORM_COST, GROUND_PLATFORM_PROFITABILITY, GROUND_PLATFORM_UPGRADE_COST,
    PUMP_PLATFORM_COST, PUMP_PLATFORM_PROFITABILITY, PUMP_PLATFORM_UPGRADE_COST, RIG_PLATFORM_COST,
    RIG_PLATFORM_PROFITABILITY, RIG_PLATFORM_UPGRADE_COST,
};
use crate::model::PlatformType;

verus! {

/// What building a platform of a kind costs.
pub open spec fn platform_cost(t: PlatformType) -> i64 {
    match t {
        PlatformType::Rig => RIG_PLATFORM_COST,
        PlatformType::Ground => GROUND_PLATFORM_COST,
        PlatformType::Pump => PUMP_PLATFORM_COST,
    }
}

/// What one upgrade of a platform of a kind costs.
pub open spec fn platform_upgrade_cost(t: PlatformType) -> i64 {
    match t {
        PlatformType::Rig => RIG_PLATFORM_UPGRADE_COST,
        PlatformType::Ground => GROUND_PLATFORM_UPGRADE_COST,
        PlatformType::Pump => PUMP_PLATFORM_UPGRADE_COST,
    }
}

/// What a new platform of a kind earns per tick, and what each upgrade adds.
pub open spec fn platform_profitability(t: PlatformType) -> i64 {
    match t {
        PlatformType::Rig => RIG_PLATFORM_PROFITABILITY,
        PlatformType::Ground => GROUND_PLATFORM_PROFITABILITY,
        PlatformType::Pump => PUMP_PLATFORM_PROFITABILITY,
    }
}

pub fn get_platform_cost(platform: PlatformType) -> (r: i64)
    ensures
        r == platform_cost(platform),
        r > 0,
{
    match platform {
        PlatformType::Rig => RIG_PLATFORM_COST,
        PlatformType::Ground => GROUND_PLATFORM_COST,
        PlatformType::Pump => PUMP_PLATFORM_COST,
    }
}

pub fn get_platform_upgrade_cost(platform: PlatformType) -> (r: i64)
    ensures
        r == platform_upgrade_cost(platform),
        r > 0,
{
    match platform {
        PlatformType::Rig => RIG_PLATFORM_UPGRADE_COST,
        PlatformType::Ground => GROUND_PLATFORM_UPGRADE_COST,
        PlatformType::Pump => PUMP_PLATFORM_UPGRADE_COST,
    }
}

pub fn get_platform_profitability(platform: PlatformType) -> (r: i64)
    ensures
        r == platform_profitability(platform),
        r > 0,
{
    match platform {
        PlatformType::Rig => RIG_PLATFORM_PROFITABILITY,
        PlatformType::Ground => GROUND_PLATFORM_PROFITABILITY,
        PlatformType::Pump => PUMP_PLATFORM_PROFITABILITY,
    }
}

} // verus!
