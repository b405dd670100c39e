use vstd::prelude::*;

verus! {

/// An account or contract address, identified by an opaque number.
#[derive(Clone, Copy, Debug, PartialEq, Eq, Structural)]
pub struct Address {
    pub id: u64,
}

/// The hash of the uploaded circle contract code.
#[derive(Clone, Copy, Debug, PartialEq, Eq)]
pub struct WasmHash {
    pub bytes: [u8; 32],
}

/// The largest fee expressible in basis points (100%).
pub const MAX_FEE_BPS: u32 = 10000;

/// Errors returned by the factory.
#[derive(Clone, Copy, Debug, PartialEq, Eq, Structural)]
pub enum FactoryError {
    InvalidFeeBps,
    InvalidConfig,
    ContractPaused,
    FactoryConfigNotSet,
    Unauthorized,
}

/// Errors returned by a circle.
#[derive(Clone, Copy, Debug, PartialEq, Eq, Structural)]
pub enum CircleError {
    Unauthorized,
    NotMember,
}

/// The platform fee, in basis points.
#[derive(Clone, Copy, Debug, PartialEq, Eq, Structural)]
pub struct FeeConfig {
    pub fee_bps: i128,
}

/// The settings that the factory hands to every circle it deploys.
#[derive(Clone, Copy, Debug, PartialEq, Eq, Structural)]
pub struct FactoryConfig {
    pub treasury: Address,
    pub reputation_registry: Address,
    pub fee_bps: u32,
}

/// One deployed circle, as recorded in the factory's registry.
#[derive(Clone, Copy, Debug, PartialEq, Eq, Structural)]
pub struct CircleEntry {
    pub circle_id: Address,
    pub organizer: Address,
}

/// All circles deployed by the factory, oldest first.
#[derive(Debug)]
pub struct CircleRegistry {
    pub circles: Vec<CircleEntry>,
}

/// The parameters an organizer chooses for a new circle.
#[derive(Clone, Debug)]
pub struct CircleConfig {
    pub organizer: Address,
    pub token: Address,
    pub name: String,
    pub contribution_amount: i128,
    pub max_members: u32,
    pub payout_type: u32,
    pub total_rounds: u32,
    pub contribution_deadline_seconds: u64,
    pub min_moi_score: u32,
    pub collateral_amount: i128,
    pub penalty_bps: u32,
    pub grace_period_seconds: u64,
    pub max_strikes: u32,
    pub slug: String,
}

/// A platform fee is valid when it lies between 0% and 100%.
pub open spec fn valid_fee_bps(fee_bps: int) -> bool {
    0 <= fee_bps <= MAX_FEE_BPS
}

/// A circle needs room for at least two members.
pub open spec fn valid_circle_config(config: CircleConfig) -> bool {
    config.max_members >= 2
}

/// Checks a platform fee given as a signed amount.
pub fn check_fee_bps(fee_bps: i128) -> (ok: bool)
    ensures
        ok == valid_fee_bps(fee_bps as int),
{
    0 <= fee_bps && fee_bps <= MAX_FEE_BPS as i128
}

/// Checks the parameters of a new circle.
pub fn check_circle_config(config: &CircleConfig) -> (ok: bool)
    ensures
        ok == valid_circle_config(*config),
{
    config.max_members >= 2
}

} // verus!
