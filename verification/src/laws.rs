//! System-wide laws, proved over the spec-level transitions: the Config
//! Record is created at most once and never lost, its admin binding never
//! drifts from the designated admin identity, and a payment is atomic.

use vstd::prelude::*;

use crate::errors::AdminError;
use crate::instructions::{
    spec_initialize_program_config, spec_payment, spec_update_program_config,
};
use crate::spec_admin_identity;
use crate::state::{ConfigState, Holders, Identity};

verus! {

/// One request against the deployment, as the Config Record sees it.
pub enum AdminOp {
    InitializeProgramConfig,
    UpdateProgramConfig { caller: Identity, new_fee: u64 },
    Payment { amount: u64 },
}

/// The Config Record after one operation. A payment reads the record but
/// never mutates it, whatever its holders and outcome.
pub open spec fn config_after_op(s: ConfigState, op: AdminOp) -> ConfigState {
    match op {
        AdminOp::InitializeProgramConfig => spec_initialize_program_config(s).0,
        AdminOp::UpdateProgramConfig { caller, new_fee } => spec_update_program_config(
            s,
            caller,
            new_fee,
        ).0,
        AdminOp::Payment { .. } => s,
    }
}

/// The Config Record after a whole sequence of operations, applied in order.
pub open spec fn config_after_ops(s: ConfigState, ops: Seq<AdminOp>) -> ConfigState
    decreases ops.len(),
{
    if ops.len() == 0 {
        s
    } else {
        config_after_ops(config_after_op(s, ops[0]), ops.drop_first())
    }
}

/// How many initialize-config calls in `ops` succeed, starting from `s`.
pub open spec fn successful_inits(s: ConfigState, ops: Seq<AdminOp>) -> nat
    decreases ops.len(),
{
    if ops.len() == 0 {
        0
    } else {
        (if ops[0] is InitializeProgramConfig && spec_initialize_program_config(s).1 is Ok {
            1nat
        } else {
            0nat
        }) + successful_inits(config_after_op(s, ops[0]), ops.drop_first())
    }
}

/// Once created, the Config Record persists: no sequence of operations
/// returns the deployment to the absent state.
pub proof fn lemma_initialized_is_permanent(s: ConfigState, ops: Seq<AdminOp>)
    requires
        s is Initialized,
    ensures
        config_after_ops(s, ops) is Initialized,
    decreases ops.len(),
{
    if ops.len() > 0 {
        lemma_initialized_is_permanent(config_after_op(s, ops[0]), ops.drop_first());
    }
}

/// On a deployment whose Config Record already exists, no later sequence of
/// operations ever lets initialize-config succeed again: every such call
/// fails with `AlreadyInitialized`.
pub proof fn lemma_subsequent_initialize_fails(s: ConfigState, ops: Seq<AdminOp>)
    requires
        s is Initialized,
    ensures
        successful_inits(s, ops) == 0,
        spec_initialize_program_config(config_after_ops(s, ops)).1 == Err::<(), AdminError>(
            AdminError::AlreadyInitialized,
        ),
    decreases ops.len(),
{
    if ops.len() > 0 {
        lemma_subsequent_initialize_fails(config_after_op(s, ops[0]), ops.drop_first());
    }
}

/// Initialize-config succeeds at most once per deployment, over every
/// sequence of operations from every starting state.
pub proof fn lemma_initialize_at_most_once(s: ConfigState, ops: Seq<AdminOp>)
    ensures
        successful_inits(s, ops) <= 1,
    decreases ops.len(),
{
    if ops.len() > 0 {
        let s1 = config_after_op(s, ops[0]);
        if ops[0] is InitializeProgramConfig && spec_initialize_program_config(s).1 is Ok {
            lemma_subsequent_initialize_fails(s1, ops.drop_first());
        } else {
            lemma_initialize_at_most_once(s1, ops.drop_first());
        }
    }
}

/// The admin binding is intact: whenever the Config Record exists, its
/// admin reference is the designated admin identity.
pub open spec fn admin_binding_intact(s: ConfigState) -> bool {
    s matches ConfigState::Initialized(c) ==> c.admin_reference == spec_admin_identity()
}

/// Every reachable Config Record keeps the admin binding: update-config
/// takes no replacement admin, so from any state with the binding intact —
/// a fresh deployment in particular — every sequence of operations leaves
/// it intact, and the authorization gate always tests against the
/// designated admin identity.
pub proof fn lemma_admin_binding_preserved(s: ConfigState, ops: Seq<AdminOp>)
    requires
        admin_binding_intact(s),
    ensures
        admin_binding_intact(config_after_ops(s, ops)),
    decreases ops.len(),
{
    if ops.len() > 0 {
        lemma_admin_binding_preserved(config_after_op(s, ops[0]), ops.drop_first());
    }
}

/// A payment is atomic and conserving: it either moves the full computed
/// split, leaving the sum of the three holders' balances unchanged, or
/// fails leaving every balance exactly as it was.
pub proof fn lemma_payment_atomic(s: ConfigState, h: Holders, amount: u64)
    ensures
        ({
            let (h2, r) = spec_payment(s, h, amount);
            &&& (r is Ok ==> h2.payer + h2.destination + h2.fee_destination == h.payer
                + h.destination + h.fee_destination)
            &&& (r is Err ==> h2 == h)
        }),
{
}

} // verus!
