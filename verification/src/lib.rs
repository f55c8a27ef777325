//! Administrative core of a ledger-resident payment program.
//!
//! The library governs one singleton Config Record (fee policy plus admin
//! binding) and the fee-bearing payment operation gated by it. The
//! surrounding ledger runtime — account resolution, persistence, the
//! token-transfer primitive — is an external collaborator: the operations
//! here take the loaded state as plain values, decide, and return the next
//! state or a tagged error, with every transition verified.

use vstd::prelude::*;

mod errors;
mod instructions;
mod laws;
mod state;

pub use errors::AdminError;
pub use laws::{
    admin_binding_intact, config_after_op, config_after_ops, lemma_admin_binding_preserved,
    lemma_initialize_at_most_once, lemma_initialized_is_permanent, lemma_payment_atomic,
    lemma_subsequent_initialize_fails, successful_inits, AdminOp,
};
pub use instructions::{
    compute_fee, initialize_program_config, payment, spec_fee, spec_initialize_program_config,
    spec_payment, spec_payment_with_config, spec_update_program_config, update_program_config,
    FEE_SCALE,
};
pub use state::{ConfigState, Holders, Identity, ProgramConfig};

verus! {

/// Identity of the single principal permitted to mutate the Config Record.
pub const ADMIN: [u8; 32] = [
    0xd5, 0xa6, 0xc7, 0x23, 0x15, 0x36, 0x50, 0xf1, 0xc3, 0xb7, 0x63, 0x7e, 0x40, 0x7b, 0xb4,
    0x81, 0xdb, 0x0b, 0x5e, 0x00, 0x65, 0xa0, 0x49, 0x96, 0x8c, 0xed, 0x35, 0x35, 0x73, 0x5e,
    0x6a, 0x17,
];

/// Identity of the asset (USDC mint) the payment operation moves fees in.
pub const USDC_MINT_PUBKEY: [u8; 32] = [
    0xc6, 0xfa, 0x7a, 0xf3, 0xbe, 0xdb, 0xad, 0x3a, 0x3d, 0x65, 0xf3, 0x6a, 0xab, 0xc9, 0x74,
    0x31, 0xb1, 0xbb, 0xe4, 0xc2, 0xd2, 0xf6, 0xe0, 0xe4, 0x7c, 0xa6, 0x02, 0x03, 0x45, 0x2f,
    0x5d, 0x61,
];

/// Asset identity variant for deployments on a local test ledger; selected by
/// the deployment tooling in place of `USDC_MINT_PUBKEY`, interface-identical.
pub const USDC_MINT_PUBKEY_LOCAL: [u8; 32] = [
    0x09, 0xae, 0x6c, 0x2f, 0x24, 0xfe, 0x9d, 0xa0, 0xdd, 0x43, 0xe6, 0x93, 0x91, 0x72, 0xf7,
    0x14, 0xb4, 0xab, 0xd9, 0xf8, 0x4f, 0x83, 0x58, 0x64, 0x3e, 0x30, 0x8c, 0x98, 0xa5, 0x09,
    0x2d, 0xbc,
];

/// Derivation seed (the bytes of `"program_config"`): combined with the
/// program's own identity by the runtime, it addresses the one Config Record.
pub const SEED_PROGRAM_CONFIG: [u8; 14] = [
    0x70, 0x72, 0x6f, 0x67, 0x72, 0x61, 0x6d, 0x5f, 0x63, 0x6f, 0x6e, 0x66, 0x69, 0x67,
];

/// The designated admin identity, as a value of the library's identity type.
pub open spec fn spec_admin_identity() -> Identity {
    Identity { bytes: ADMIN }
}

/// Read-only lookup of the designated admin identity.
pub fn admin_identity() -> (r: Identity)
    ensures
        r == spec_admin_identity(),
{
    Identity { bytes: ADMIN }
}

} // verus!
