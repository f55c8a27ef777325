//! Data model: identities, the Config Record, and the value holders a
//! payment touches.

use vstd::prelude::*;

verus! {

/// A 32-byte principal identity (a ledger public key).
#[derive(Clone, Copy, Debug)]
pub struct Identity {
    pub bytes: [u8; 32],
}

impl PartialEq for Identity {
    /// Byte-for-byte comparison; agrees with mathematical equality.
    fn eq(&self, other: &Identity) -> (r: bool) {
        let mut i: usize = 0;
        while i < 32
            invariant
                i <= 32,
                forall|j: int| 0 <= j < i ==> self.bytes[j] == other.bytes[j],
            decreases 32 - i,
        {
            if self.bytes[i] != other.bytes[i] {
                return false;
            }
            i = i + 1;
        }
        proof {
            assert(self.bytes =~= other.bytes);
        }
        true
    }
}

impl Eq for Identity {}

impl vstd::std_specs::cmp::PartialEqSpecImpl for Identity {
    open spec fn obeys_eq_spec() -> bool {
        true
    }

    open spec fn eq_spec(&self, other: &Identity) -> bool {
        self.bytes == other.bytes
    }
}

/// The singleton Config Record: mutable governance state of the deployment.
#[derive(Clone, Copy, Debug)]
pub struct ProgramConfig {
    /// Fee parameter, in the asset's smallest denomination per
    /// `FEE_SCALE` units of payment amount.
    pub fee_rate: u64,
    /// The identity permitted to call update-config; bound at creation.
    pub admin_reference: Identity,
}

/// The deployment's Config Record slot: absent until initialize-config
/// creates it, and never deleted afterwards.
#[derive(Clone, Copy, Debug)]
pub enum ConfigState {
    Absent,
    Initialized(ProgramConfig),
}

/// Asset balances of the three value holders a payment touches, in the
/// asset's smallest denomination.
#[derive(Clone, Copy, Debug, PartialEq, Eq, Structural)]
pub struct Holders {
    /// The payer's holder: debited by the full requested amount.
    pub payer: u64,
    /// The payee's holder: credited with the amount net of the fee.
    pub destination: u64,
    /// The admin-controlled holder: credited with the fee portion.
    pub fee_destination: u64,
}

} // verus!
