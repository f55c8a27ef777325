//! The three operations: initialize-config, update-config, and payment.
//!
//! Each operation is a total transition on plain state values. The ledger
//! runtime loads the accounts, calls the operation, and persists the result
//! only on success; every contract here is stated against a spec-level
//! transition function that fixes both the next state and the exact error.

use vstd::prelude::*;

use crate::errors::AdminError;
use crate::spec_admin_identity;
use crate::state::{ConfigState, Holders, Identity, ProgramConfig};

verus! {

/// Scale of `fee_rate`: a payment of `FEE_SCALE` units owes `fee_rate`
/// units of fee (so `fee_rate = 500` is 5%).
pub const FEE_SCALE: u64 = 10_000;

/// Fee owed on `amount` at `fee_rate`: `amount * fee_rate / FEE_SCALE`,
/// truncating. Unbounded mathematical value; callers fail with
/// `ArithmeticOverflow` where it does not fit the asset's width.
pub open spec fn spec_fee(amount: u64, fee_rate: u64) -> int {
    (amount * fee_rate) / (FEE_SCALE as int)
}

/// Transition of initialize-config: creates the record exactly when it is
/// absent, with a zero fee rate and the admin binding fixed to the
/// designated admin identity.
pub open spec fn spec_initialize_program_config(s: ConfigState) -> (ConfigState, Result<
    (),
    AdminError,
>) {
    match s {
        ConfigState::Absent => (
            ConfigState::Initialized(
                ProgramConfig { fee_rate: 0, admin_reference: spec_admin_identity() },
            ),
            Ok(()),
        ),
        ConfigState::Initialized(_) => (s, Err(AdminError::AlreadyInitialized)),
    }
}

/// Transition of update-config: overwrites the fee rate exactly when the
/// caller is the record's admin reference; the admin binding never changes.
pub open spec fn spec_update_program_config(
    s: ConfigState,
    caller: Identity,
    new_fee: u64,
) -> (ConfigState, Result<(), AdminError>) {
    match s {
        ConfigState::Absent => (s, Err(AdminError::ConfigNotFound)),
        ConfigState::Initialized(c) => if caller == c.admin_reference {
            (
                ConfigState::Initialized(
                    ProgramConfig { fee_rate: new_fee, admin_reference: c.admin_reference },
                ),
                Ok(()),
            )
        } else {
            (s, Err(AdminError::Unauthorized))
        },
    }
}

/// Transition of payment against an existing Config Record. The fee is
/// computed first; a fee that does not fit the asset's width, or that
/// exceeds the amount (so the net portion would wrap), fails with
/// `ArithmeticOverflow`. Then the payer's funds are checked, then the two
/// credits; on success the payer is debited the full amount, the
/// destination credited the net portion and the fee destination the fee.
pub open spec fn spec_payment_with_config(c: ProgramConfig, h: Holders, amount: u64) -> (Holders, Result<
    (),
    AdminError,
>) {
    let fee = spec_fee(amount, c.fee_rate);
    if fee > u64::MAX || fee > amount {
        (h, Err(AdminError::ArithmeticOverflow))
    } else if h.payer < amount {
        (h, Err(AdminError::InsufficientFunds))
    } else if h.destination + (amount - fee) > u64::MAX || h.fee_destination + fee > u64::MAX {
        (h, Err(AdminError::ArithmeticOverflow))
    } else {
        (
            Holders {
                payer: (h.payer - amount) as u64,
                destination: (h.destination + (amount - fee)) as u64,
                fee_destination: (h.fee_destination + fee) as u64,
            },
            Ok(()),
        )
    }
}

/// Transition of payment: fails with `ConfigNotFound` until the Config
/// Record exists, and never mutates it.
pub open spec fn spec_payment(s: ConfigState, h: Holders, amount: u64) -> (Holders, Result<
    (),
    AdminError,
>) {
    match s {
        ConfigState::Absent => (h, Err(AdminError::ConfigNotFound)),
        ConfigState::Initialized(c) => spec_payment_with_config(c, h, amount),
    }
}

/// Creates the singleton Config Record. Succeeds exactly once per
/// deployment: on a fresh slot it populates the record with `fee_rate = 0`
/// and `admin_reference` bound to the designated admin identity; once the
/// record exists every further call fails with `AlreadyInitialized` and
/// changes nothing.
pub fn initialize_program_config(config: &mut ConfigState) -> (r: Result<(), AdminError>)
    ensures
        (*final(config), r) == spec_initialize_program_config(*old(config)),
        r is Ok <==> *old(config) is Absent,
        r is Ok ==> *final(config) == (ConfigState::Initialized(
            ProgramConfig { fee_rate: 0, admin_reference: spec_admin_identity() },
        )),
        r is Err ==> *final(config) == *old(config) && r == Err::<(), AdminError>(
            AdminError::AlreadyInitialized,
        ),
{
    match *config {
        ConfigState::Absent => {
            *config = ConfigState::Initialized(
                ProgramConfig { fee_rate: 0, admin_reference: crate::admin_identity() },
            );
            Ok(())
        },
        ConfigState::Initialized(_) => Err(AdminError::AlreadyInitialized),
    }
}

/// Overwrites the Config Record's fee rate with `new_fee`. This is the
/// single authorization gate of the system: the call succeeds exactly when
/// the caller equals the record's current `admin_reference`; any other
/// caller fails with `Unauthorized` and the record is untouched. A missing
/// record fails with `ConfigNotFound`. No bound is imposed on `new_fee`
/// beyond its integer width.
pub fn update_program_config(config: &mut ConfigState, caller: Identity, new_fee: u64) -> (r:
    Result<(), AdminError>)
    ensures
        (*final(config), r) == spec_update_program_config(*old(config), caller, new_fee),
        r is Ok <==> (*old(config) matches ConfigState::Initialized(c) && caller
            == c.admin_reference),
        r is Ok ==> ({
            &&& *final(config) matches ConfigState::Initialized(c2)
            &&& *old(config) matches ConfigState::Initialized(c)
            &&& c2.fee_rate == new_fee
            &&& c2.admin_reference == c.admin_reference
        }),
        r is Err ==> *final(config) == *old(config),
        *old(config) is Absent ==> r == Err::<(), AdminError>(AdminError::ConfigNotFound),
        (*old(config) matches ConfigState::Initialized(c) && caller != c.admin_reference) ==> r
            == Err::<(), AdminError>(AdminError::Unauthorized),
{
    let cur = *config;
    match cur {
        ConfigState::Absent => Err(AdminError::ConfigNotFound),
        ConfigState::Initialized(c) => {
            if caller == c.admin_reference {
                *config = ConfigState::Initialized(
                    ProgramConfig { fee_rate: new_fee, admin_reference: c.admin_reference },
                );
                Ok(())
            } else {
                Err(AdminError::Unauthorized)
            }
        },
    }
}

/// Computes the fee owed on `amount` at `fee_rate` over a wide
/// intermediate, failing with `ArithmeticOverflow` exactly when the result
/// does not fit the asset's width — never wrapping silently.
pub fn compute_fee(amount: u64, fee_rate: u64) -> (r: Result<u64, AdminError>)
    ensures
        spec_fee(amount, fee_rate) <= u64::MAX ==> r == Ok::<u64, AdminError>(
            (spec_fee(amount, fee_rate) as u64),
        ),
        spec_fee(amount, fee_rate) > u64::MAX ==> r == Err::<u64, AdminError>(
            AdminError::ArithmeticOverflow,
        ),
{
    proof {
        assert((amount as int) * (fee_rate as int) <= (u64::MAX as int) * (u64::MAX as int))
            by (nonlinear_arith)
            requires
                amount <= u64::MAX,
                fee_rate <= u64::MAX,
        ;
    }
    let product: u128 = (amount as u128) * (fee_rate as u128);
    let fee_wide: u128 = product / (FEE_SCALE as u128);
    if fee_wide > u64::MAX as u128 {
        Err(AdminError::ArithmeticOverflow)
    } else {
        Ok(fee_wide as u64)
    }
}

/// Applies a payment of `amount` under the given Config Record. On success
/// the payer is debited exactly `amount`, the destination credited
/// `amount - fee`, the fee destination credited `fee`, and total value is
/// conserved across the three holders; on any failure every balance is left
/// unchanged. Fails with `ConfigNotFound` while no record exists, with
/// `ArithmeticOverflow` when the fee or a credited balance would wrap, and
/// with `InsufficientFunds` when the payer's holder lacks `amount`. The
/// Config Record itself is never mutated.
pub fn payment(config: &ConfigState, holders: &mut Holders, amount: u64) -> (r: Result<
    (),
    AdminError,
>)
    ensures
        (*final(holders), r) == spec_payment(*config, *old(holders), amount),
        r is Err ==> *final(holders) == *old(holders),
        r is Ok ==> final(holders).payer + final(holders).destination
            + final(holders).fee_destination == old(holders).payer + old(holders).destination
            + old(holders).fee_destination,
        r is Ok ==> (*config matches ConfigState::Initialized(c)
            && final(holders).payer == old(holders).payer - amount
            && final(holders).destination == old(holders).destination
            + (amount - spec_fee(amount, c.fee_rate))
            && final(holders).fee_destination == old(holders).fee_destination
            + spec_fee(amount, c.fee_rate)),
{
    let c: ProgramConfig = match *config {
        ConfigState::Absent => {
            return Err(AdminError::ConfigNotFound);
        },
        ConfigState::Initialized(c) => c,
    };
    let fee: u64 = match compute_fee(amount, c.fee_rate) {
        Ok(f) => f,
        Err(e) => {
            return Err(e);
        },
    };
    if fee > amount {
        return Err(AdminError::ArithmeticOverflow);
    }
    let net: u64 = amount - fee;
    if holders.payer < amount {
        return Err(AdminError::InsufficientFunds);
    }
    if net > u64::MAX - holders.destination {
        return Err(AdminError::ArithmeticOverflow);
    }
    if fee > u64::MAX - holders.fee_destination {
        return Err(AdminError::ArithmeticOverflow);
    }
    holders.payer = holders.payer - amount;
    holders.destination = holders.destination + net;
    holders.fee_destination = holders.fee_destination + fee;
    Ok(())
}

} // verus!
