use admin_instructions::{
    admin_identity, compute_fee, initialize_program_config, payment, update_program_config,
    AdminError, ConfigState, Holders, Identity,
};

fn fee_rate_of(s: &ConfigState) -> u64 {
    match s {
        ConfigState::Initialized(c) => c.fee_rate,
        ConfigState::Absent => panic!("config record absent"),
    }
}

#[test]
fn initialize_fresh_deployment_sets_defaults() {
    let mut s = ConfigState::Absent;
    let r = initialize_program_config(&mut s);
    assert_eq!(r, Ok(()));
    match &s {
        ConfigState::Initialized(c) => {
            assert_eq!(c.fee_rate, 0);
            assert!(c.admin_reference == admin_identity());
        }
        ConfigState::Absent => panic!("config record was not created"),
    }
}

#[test]
fn second_initialize_fails_already_initialized() {
    let mut s = ConfigState::Absent;
    assert_eq!(initialize_program_config(&mut s), Ok(()));
    assert_eq!(
        initialize_program_config(&mut s),
        Err(AdminError::AlreadyInitialized)
    );
    assert_eq!(fee_rate_of(&s), 0);
}

#[test]
fn initialize_succeeds_at_most_once_over_sequence() {
    let mut s = ConfigState::Absent;
    let mut h = Holders { payer: 1_000, destination: 0, fee_destination: 0 };
    let mut successes: u32 = 0;
    if initialize_program_config(&mut s).is_ok() {
        successes += 1;
    }
    if initialize_program_config(&mut s).is_ok() {
        successes += 1;
    }
    let _ = update_program_config(&mut s, admin_identity(), 250);
    let _ = payment(&s, &mut h, 100);
    if initialize_program_config(&mut s).is_ok() {
        successes += 1;
    }
    assert_eq!(successes, 1);
}

#[test]
fn update_config_by_admin_sets_fee() {
    let mut s = ConfigState::Absent;
    assert_eq!(initialize_program_config(&mut s), Ok(()));
    assert_eq!(update_program_config(&mut s, admin_identity(), 500), Ok(()));
    assert_eq!(fee_rate_of(&s), 500);
}

#[test]
fn update_config_by_other_identity_fails_unauthorized() {
    let mut s = ConfigState::Absent;
    assert_eq!(initialize_program_config(&mut s), Ok(()));
    assert_eq!(update_program_config(&mut s, admin_identity(), 500), Ok(()));
    let other = Identity { bytes: [1u8; 32] };
    assert_eq!(
        update_program_config(&mut s, other, 9),
        Err(AdminError::Unauthorized)
    );
    assert_eq!(fee_rate_of(&s), 500);
}

#[test]
fn update_config_before_initialize_fails_config_not_found() {
    let mut s = ConfigState::Absent;
    assert_eq!(
        update_program_config(&mut s, admin_identity(), 500),
        Err(AdminError::ConfigNotFound)
    );
    assert!(matches!(s, ConfigState::Absent));
}

#[test]
fn update_config_accepts_unbounded_fee() {
    let mut s = ConfigState::Absent;
    assert_eq!(initialize_program_config(&mut s), Ok(()));
    assert_eq!(
        update_program_config(&mut s, admin_identity(), u64::MAX),
        Ok(())
    );
    assert_eq!(fee_rate_of(&s), u64::MAX);
}

#[test]
fn payment_splits_fee_and_net() {
    let mut s = ConfigState::Absent;
    assert_eq!(initialize_program_config(&mut s), Ok(()));
    assert_eq!(update_program_config(&mut s, admin_identity(), 500), Ok(()));
    let mut h = Holders { payer: 50_000, destination: 0, fee_destination: 0 };
    let before_total = h.payer as u128 + h.destination as u128 + h.fee_destination as u128;
    assert_eq!(payment(&s, &mut h, 10_000), Ok(()));
    assert_eq!(h.payer, 40_000);
    assert_eq!(h.destination, 9_500);
    assert_eq!(h.fee_destination, 500);
    let after_total = h.payer as u128 + h.destination as u128 + h.fee_destination as u128;
    assert_eq!(before_total, after_total);
}

#[test]
fn payment_insufficient_funds_changes_nothing() {
    let mut s = ConfigState::Absent;
    assert_eq!(initialize_program_config(&mut s), Ok(()));
    assert_eq!(update_program_config(&mut s, admin_identity(), 500), Ok(()));
    let mut h = Holders { payer: 5_000, destination: 44, fee_destination: 7 };
    assert_eq!(payment(&s, &mut h, 10_000), Err(AdminError::InsufficientFunds));
    assert_eq!(h, Holders { payer: 5_000, destination: 44, fee_destination: 7 });
}

#[test]
fn payment_before_initialize_fails_config_not_found() {
    let s = ConfigState::Absent;
    let mut h = Holders { payer: 5_000, destination: 0, fee_destination: 0 };
    assert_eq!(payment(&s, &mut h, 100), Err(AdminError::ConfigNotFound));
    assert_eq!(h, Holders { payer: 5_000, destination: 0, fee_destination: 0 });
}

#[test]
fn payment_zero_amount_moves_nothing() {
    let mut s = ConfigState::Absent;
    assert_eq!(initialize_program_config(&mut s), Ok(()));
    assert_eq!(update_program_config(&mut s, admin_identity(), 500), Ok(()));
    let mut h = Holders { payer: 10, destination: 20, fee_destination: 30 };
    assert_eq!(payment(&s, &mut h, 0), Ok(()));
    assert_eq!(h, Holders { payer: 10, destination: 20, fee_destination: 30 });
}

#[test]
fn payment_at_full_fee_rate_routes_all_to_fee() {
    let mut s = ConfigState::Absent;
    assert_eq!(initialize_program_config(&mut s), Ok(()));
    assert_eq!(
        update_program_config(&mut s, admin_identity(), 10_000),
        Ok(())
    );
    let mut h = Holders { payer: 10, destination: 0, fee_destination: 0 };
    assert_eq!(payment(&s, &mut h, 7), Ok(()));
    assert_eq!(h, Holders { payer: 3, destination: 0, fee_destination: 7 });
}

#[test]
fn payment_fee_above_amount_fails_overflow() {
    let mut s = ConfigState::Absent;
    assert_eq!(initialize_program_config(&mut s), Ok(()));
    assert_eq!(
        update_program_config(&mut s, admin_identity(), 20_000),
        Ok(())
    );
    let mut h = Holders { payer: 100, destination: 0, fee_destination: 0 };
    assert_eq!(payment(&s, &mut h, 10), Err(AdminError::ArithmeticOverflow));
    assert_eq!(h, Holders { payer: 100, destination: 0, fee_destination: 0 });
}

#[test]
fn payment_destination_credit_overflow_fails() {
    let mut s = ConfigState::Absent;
    assert_eq!(initialize_program_config(&mut s), Ok(()));
    let mut h = Holders { payer: 10, destination: u64::MAX, fee_destination: 0 };
    assert_eq!(payment(&s, &mut h, 1), Err(AdminError::ArithmeticOverflow));
    assert_eq!(
        h,
        Holders { payer: 10, destination: u64::MAX, fee_destination: 0 }
    );
}

#[test]
fn payment_fee_credit_overflow_fails() {
    let mut s = ConfigState::Absent;
    assert_eq!(initialize_program_config(&mut s), Ok(()));
    assert_eq!(
        update_program_config(&mut s, admin_identity(), 10_000),
        Ok(())
    );
    let mut h = Holders { payer: 10, destination: 0, fee_destination: u64::MAX };
    assert_eq!(payment(&s, &mut h, 5), Err(AdminError::ArithmeticOverflow));
    assert_eq!(
        h,
        Holders { payer: 10, destination: 0, fee_destination: u64::MAX }
    );
}

#[test]
fn compute_fee_exact_values() {
    assert_eq!(compute_fee(10_000, 500), Ok(500));
    assert_eq!(compute_fee(1, 1), Ok(0));
    assert_eq!(compute_fee(12_345, 10_000), Ok(12_345));
    assert_eq!(compute_fee(u64::MAX, 10_000), Ok(u64::MAX));
    assert_eq!(compute_fee(0, u64::MAX), Ok(0));
    assert_eq!(compute_fee(19_999, 1), Ok(1));
}

#[test]
fn compute_fee_overflow_is_reported_not_wrapped() {
    assert_eq!(
        compute_fee(u64::MAX, u64::MAX),
        Err(AdminError::ArithmeticOverflow)
    );
    assert_eq!(
        compute_fee(u64::MAX, 10_001),
        Err(AdminError::ArithmeticOverflow)
    );
}
