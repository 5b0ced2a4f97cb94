//! The fee policy, the state of one trading pair, and how both come to be.

use anchor_lang::prelude::Pubkey;
use vstd::prelude::*;

verus! {

/// `anchor_lang::prelude::Pubkey`, the 32-byte account address that
/// `solana_program` defines. Nothing is claimed of it: the library stores
/// such values and hands them back, and never looks inside one.
#[verifier::external_type_specification]
#[verifier::external_body]
pub struct ExPubkey(Pubkey);

/// Virtual token reserves of a fresh curve.
pub const INITIAL_VIRTUAL_TOKEN_RESERVES: u64 = 1_073_000_000_000_000;

/// Virtual base-currency reserves of a fresh curve.
pub const INITIAL_VIRTUAL_SOL_RESERVES: u64 = 30_000_000_000;

/// Tokens a fresh curve offers for sale.
pub const INITIAL_REAL_TOKEN_RESERVES: u64 = 793_100_000_000_000;

/// Tokens minted for every curve.
pub const TOKEN_TOTAL_SUPPLY: u64 = 1_000_000_000_000_000;

/// Default fee rate, in 1/10000ths.
pub const FEE_BASIS_POINTS: u64 = 100;

/// Real base-currency inflow at which a curve completes.
pub const MIGRATION_THRESHOLD_SOL: u64 = 85_000_000_000;

/// The fee policy and the shape of newly created curves.
#[derive(Clone, Copy, Debug, PartialEq, Eq)]
pub struct Global {
    /// Set once the policy has been written.
    pub initialized: bool,
    /// Who may administer the policy.
    pub authority: Pubkey,
    /// Who is meant to receive the fees.
    pub fee_recipient: Pubkey,
    /// Virtual token reserves of a newly created curve.
    pub initial_virtual_token_reserves: u64,
    /// Virtual base-currency reserves of a newly created curve.
    pub initial_virtual_sol_reserves: u64,
    /// Tokens a newly created curve offers for sale.
    pub initial_real_token_reserves: u64,
    /// Tokens minted for a newly created curve.
    pub token_total_supply: u64,
    /// Fee rate in 1/10000ths: 100 is one percent.
    pub fee_basis_points: u64,
    /// Real base-currency reserves at which a curve completes.
    pub migration_threshold: u64,
    /// Whether completed curves are meant to migrate.
    pub enable_migrate: bool,
}

/// The reserves of one trading pair.
#[derive(Clone, Copy, Debug, PartialEq, Eq)]
pub struct BondingCurve {
    /// Tokens on the pricing curve; never withdrawable as such.
    pub virtual_token_reserves: u64,
    /// Base currency on the pricing curve; never withdrawable as such.
    pub virtual_sol_reserves: u64,
    /// Tokens the curve holds in custody.
    pub real_token_reserves: u64,
    /// Base currency the curve holds in custody, fees aside.
    pub real_sol_reserves: u64,
    /// Tokens minted for this curve, fixed at creation.
    pub token_total_supply: u64,
    /// Set by the buy that reaches the migration threshold; never cleared.
    pub complete: bool,
    /// Who created the curve.
    pub creator: Pubkey,
}

impl BondingCurve {
    /// The constant product that every trade recomputes.
    pub open spec fn product(self) -> int {
        self.virtual_sol_reserves * self.virtual_token_reserves
    }

    /// The curve holds no more tokens than were minted for it.
    pub open spec fn supply_bounded(self) -> bool {
        self.real_token_reserves <= self.token_total_supply
    }

    /// The completion flag is set exactly when the real base-currency
    /// reserves have reached the policy's migration threshold.
    pub open spec fn completion_tracks_threshold(self, global: Global) -> bool {
        self.complete <==> self.real_sol_reserves >= global.migration_threshold
    }

    /// What holds of a curve between trades under its policy.
    pub open spec fn well_formed(self, global: Global) -> bool {
        &&& self.supply_bounded()
        &&& self.completion_tracks_threshold(global)
    }
}

impl Global {
    /// A policy whose curves open well formed: within their supply and short
    /// of the migration threshold.
    pub open spec fn well_formed(self) -> bool {
        &&& self.initial_real_token_reserves <= self.token_total_supply
        &&& self.migration_threshold > 0
    }

    /// The policy with the default curve shape and migration threshold.
    pub open spec fn with_defaults(
        authority: Pubkey,
        fee_basis_points: u64,
        fee_recipient: Pubkey,
        enable_migrate: bool,
    ) -> Global {
        Global {
            initialized: true,
            authority,
            fee_recipient,
            initial_virtual_token_reserves: INITIAL_VIRTUAL_TOKEN_RESERVES,
            initial_virtual_sol_reserves: INITIAL_VIRTUAL_SOL_RESERVES,
            initial_real_token_reserves: INITIAL_REAL_TOKEN_RESERVES,
            token_total_supply: TOKEN_TOTAL_SUPPLY,
            fee_basis_points,
            migration_threshold: MIGRATION_THRESHOLD_SOL,
            enable_migrate,
        }
    }

    /// The curve that this policy opens for `creator`: its initial reserves,
    /// nothing paid in yet, trading open.
    pub open spec fn opening_curve(self, creator: Pubkey) -> BondingCurve {
        BondingCurve {
            virtual_token_reserves: self.initial_virtual_token_reserves,
            virtual_sol_reserves: self.initial_virtual_sol_reserves,
            real_token_reserves: self.initial_real_token_reserves,
            real_sol_reserves: 0,
            token_total_supply: self.token_total_supply,
            complete: false,
            creator,
        }
    }
}

/// Builds the policy with the default curve shape and the given fee rate.
pub fn initialize_global(
    authority: Pubkey,
    fee_basis_points: u64,
    fee_recipient: Pubkey,
    enable_migrate: bool,
) -> (global: Global)
    ensures
        global == Global::with_defaults(authority, fee_basis_points, fee_recipient, enable_migrate),
        global.well_formed(),
{
    Global {
        initialized: true,
        authority,
        fee_recipient,
        initial_virtual_token_reserves: INITIAL_VIRTUAL_TOKEN_RESERVES,
        initial_virtual_sol_reserves: INITIAL_VIRTUAL_SOL_RESERVES,
        initial_real_token_reserves: INITIAL_REAL_TOKEN_RESERVES,
        token_total_supply: TOKEN_TOTAL_SUPPLY,
        fee_basis_points,
        migration_threshold: MIGRATION_THRESHOLD_SOL,
        enable_migrate,
    }
}

/// Opens a curve for `creator` with the reserves the policy prescribes.
///
/// Nothing is priced here. The caller mints `token_total_supply` tokens into
/// the curve's custody.
pub fn create(global: &Global, creator: Pubkey) -> (curve: BondingCurve)
    ensures
        curve == global.opening_curve(creator),
        global.well_formed() ==> curve.well_formed(*global),
{
    BondingCurve {
        virtual_token_reserves: global.initial_virtual_token_reserves,
        virtual_sol_reserves: global.initial_virtual_sol_reserves,
        real_token_reserves: global.initial_real_token_reserves,
        real_sol_reserves: 0,
        token_total_supply: global.token_total_supply,
        complete: false,
        creator,
    }
}

} // verus!
