use nft_staking::address::{find_escrow_authority, find_user_position_address};
use nft_staking::identity::Identity;
use nft_staking::instruction::NftInstruction;
use nft_staking::processor::{Effects, InvocationAccounts, Processor};
use nft_staking::reward::{compute_reward, reward_rate_per_second};
use nft_staking::state::{PlatForm, UserState, PLATFORM_LEN, USER_STATE_LEN};
use nft_staking::FarmError;

fn id(byte: u8) -> Identity {
    Identity { bytes: vec![byte; 32] }
}

fn sample_platform() -> PlatForm {
    PlatForm {
        is_initialized: true,
        owner: id(7),
        total_staked_nft: 3,
    }
}

fn sample_user_state() -> UserState {
    UserState {
        is_initialized: true,
        user: id(9),
        total_staked_nft: 2,
        last_staked_time: 123_456,
    }
}

#[test]
fn platform_round_trip() {
    let p = sample_platform();
    let mut buf = vec![0u8; PLATFORM_LEN];
    p.pack_into_slice(&mut buf);
    assert_eq!(buf.len(), PLATFORM_LEN);
    let q = PlatForm::unpack_from_slice(&buf).unwrap();
    assert_eq!(p, q);
}

#[test]
fn platform_round_trip_uninitialized() {
    let p = PlatForm {
        is_initialized: false,
        owner: id(0),
        total_staked_nft: u64::MAX,
    };
    let mut buf = vec![0u8; PLATFORM_LEN];
    p.pack_into_slice(&mut buf);
    let q = PlatForm::unpack_from_slice(&buf).unwrap();
    assert_eq!(p, q);
}

#[test]
fn user_state_round_trip() {
    let u = sample_user_state();
    let mut buf = vec![0u8; USER_STATE_LEN];
    u.pack_into_slice(&mut buf);
    assert_eq!(buf.len(), USER_STATE_LEN);
    let v = UserState::unpack_from_slice(&buf).unwrap();
    assert_eq!(u, v);
}

#[test]
fn platform_layout_is_fixed() {
    let p = sample_platform();
    let mut buf = vec![0u8; PLATFORM_LEN];
    p.pack_into_slice(&mut buf);
    assert_eq!(buf[0], 1);
    assert_eq!(&buf[1..33], &[7u8; 32]);
    assert_eq!(u64::from_le_bytes(buf[33..41].try_into().unwrap()), 3);
}

#[test]
fn user_state_layout_is_fixed() {
    let u = sample_user_state();
    let mut buf = vec![0u8; USER_STATE_LEN];
    u.pack_into_slice(&mut buf);
    assert_eq!(buf[0], 1);
    assert_eq!(&buf[1..33], &[9u8; 32]);
    assert_eq!(u64::from_le_bytes(buf[33..41].try_into().unwrap()), 2);
    assert_eq!(u64::from_le_bytes(buf[41..49].try_into().unwrap()), 123_456);
}

#[test]
fn unpack_rejects_bad_flag() {
    let mut buf = vec![0u8; PLATFORM_LEN];
    buf[0] = 2;
    assert_eq!(
        PlatForm::unpack_from_slice(&buf),
        Err(FarmError::InvalidRecordData)
    );
    let mut ubuf = vec![0u8; USER_STATE_LEN];
    ubuf[0] = 255;
    assert_eq!(
        UserState::unpack_from_slice(&ubuf),
        Err(FarmError::InvalidRecordData)
    );
}

#[test]
fn unpack_rejects_truncated_record() {
    let buf = vec![0u8; PLATFORM_LEN - 1];
    assert_eq!(
        PlatForm::unpack_from_slice(&buf),
        Err(FarmError::InvalidRecordData)
    );
    let ubuf = vec![0u8; USER_STATE_LEN - 1];
    assert_eq!(
        UserState::unpack_from_slice(&ubuf),
        Err(FarmError::InvalidRecordData)
    );
}

#[test]
fn unpack_ignores_bytes_past_the_record() {
    let p = sample_platform();
    let mut buf = vec![0u8; PLATFORM_LEN];
    p.pack_into_slice(&mut buf);
    buf.extend_from_slice(&[0xAB; 9]);
    assert_eq!(PlatForm::unpack_from_slice(&buf), Ok(p));
}

#[test]
fn identity_from_bytes_checks_length() {
    assert!(Identity::from_bytes(vec![1u8; 32]).is_ok());
    assert_eq!(
        Identity::from_bytes(vec![1u8; 31]),
        Err(FarmError::InvalidRecordData)
    );
    assert_eq!(
        Identity::from_bytes(vec![1u8; 33]),
        Err(FarmError::InvalidRecordData)
    );
    let z = Identity::zeroed();
    assert_eq!(z.bytes, vec![0u8; 32]);
    assert!(z.same_as(&z.duplicate()));
    assert!(!z.same_as(&id(1)));
}

#[test]
fn instruction_ignores_trailing_bytes() {
    assert_eq!(
        NftInstruction::unpack(&[2, 99, 100]),
        Ok(NftInstruction::StakeNft)
    );
    let mut init = vec![0u8];
    init.extend_from_slice(&7u64.to_le_bytes());
    init.push(0xFF);
    assert_eq!(
        NftInstruction::unpack(&init),
        Ok(NftInstruction::InitializePlatform { amount: 7 })
    );
}

#[test]
fn instruction_opcodes_decode() {
    assert_eq!(
        NftInstruction::unpack(&[2]),
        Ok(NftInstruction::StakeNft)
    );
    assert_eq!(
        NftInstruction::unpack(&[3]),
        Ok(NftInstruction::UnStakeNft)
    );
    assert_eq!(NftInstruction::unpack(&[4]), Ok(NftInstruction::Harvest));
    let mut init = vec![0u8];
    init.extend_from_slice(&1000u64.to_le_bytes());
    assert_eq!(
        NftInstruction::unpack(&init),
        Ok(NftInstruction::InitializePlatform { amount: 1000 })
    );
}

#[test]
fn instruction_rejects_bad_input() {
    assert_eq!(NftInstruction::unpack(&[]), Err(FarmError::InvalidInput));
    assert_eq!(NftInstruction::unpack(&[1]), Err(FarmError::InvalidInput));
    assert_eq!(NftInstruction::unpack(&[9]), Err(FarmError::InvalidInput));
    // Opcode 0 with a truncated amount payload.
    assert_eq!(
        NftInstruction::unpack(&[0, 1, 2, 3]),
        Err(FarmError::InvalidInput)
    );
}

#[test]
fn instruction_pack_round_trip() {
    let inst = NftInstruction::InitializePlatform { amount: 42 };
    let buf = inst.pack();
    assert_eq!(buf[0], 0);
    assert_eq!(NftInstruction::unpack(&buf), Ok(inst));
}

#[test]
fn reward_rate_literal() {
    assert_eq!(reward_rate_per_second(), 1157);
}

#[test]
fn reward_formula_literals() {
    assert_eq!(compute_reward(86_400), Ok(99_964));
    assert_eq!(compute_reward(86_401), Ok(99_965));
    assert_eq!(compute_reward(90_000), Ok(104_130));
    assert_eq!(compute_reward(0), Ok(0));
}

#[test]
fn reward_overflow_detected() {
    assert_eq!(compute_reward(u64::MAX), Err(FarmError::ArithmeticOverflow));
}

#[test]
fn initialize_sets_registry() {
    let blank = PlatForm {
        is_initialized: false,
        owner: id(0),
        total_staked_nft: 0,
    };
    let owner = id(7);
    let o = Processor::process_init_platform(&blank, &owner, 1000).unwrap();
    assert!(o.registry.is_initialized);
    assert_eq!(o.registry.owner, owner);
    assert_eq!(o.registry.total_staked_nft, 0);
    assert_eq!(o.reward_transfer, 1000);
}

#[test]
fn initialize_twice_fails() {
    let registry = sample_platform();
    assert_eq!(
        Processor::process_init_platform(&registry, &id(7), 1000),
        Err(FarmError::AlreadyInitialized)
    );
}

#[test]
fn stake_sets_timer_and_counts() {
    let registry = sample_platform();
    let position = sample_user_state();
    let pos_addr = id(20);
    let esc_addr = id(21);
    let o = Processor::process_stake_nft(
        &registry, &position, true, &id(9), &pos_addr, &pos_addr, &esc_addr, &esc_addr, 777,
    )
    .unwrap();
    assert_eq!(o.position.last_staked_time, 777);
    assert_eq!(o.registry.total_staked_nft, 4);
    assert!(!o.position_created);
}

#[test]
fn stake_creates_missing_position() {
    let registry = sample_platform();
    let blank = UserState {
        is_initialized: false,
        user: id(0),
        total_staked_nft: 0,
        last_staked_time: 0,
    };
    let pos_addr = id(20);
    let esc_addr = id(21);
    let user = id(5);
    let o = Processor::process_stake_nft(
        &registry, &blank, false, &user, &pos_addr, &pos_addr, &esc_addr, &esc_addr, 400,
    )
    .unwrap();
    assert!(o.position_created);
    assert!(o.position.is_initialized);
    assert_eq!(o.position.user, user);
    assert_eq!(o.position.total_staked_nft, 0);
    assert_eq!(o.position.last_staked_time, 400);
}

#[test]
fn two_stakes_count_by_two() {
    let registry = sample_platform();
    let pos_addr = id(20);
    let esc_addr = id(21);
    let blank = UserState {
        is_initialized: false,
        user: id(0),
        total_staked_nft: 0,
        last_staked_time: 0,
    };
    let o1 = Processor::process_stake_nft(
        &registry, &blank, false, &id(1), &pos_addr, &pos_addr, &esc_addr, &esc_addr, 10,
    )
    .unwrap();
    let o2 = Processor::process_stake_nft(
        &o1.registry, &blank, false, &id(2), &pos_addr, &pos_addr, &esc_addr, &esc_addr, 11,
    )
    .unwrap();
    assert_eq!(o2.registry.total_staked_nft, registry.total_staked_nft + 2);
}

#[test]
fn stake_count_overflow_fails() {
    let registry = PlatForm {
        is_initialized: true,
        owner: id(7),
        total_staked_nft: u64::MAX,
    };
    let pos_addr = id(20);
    let esc_addr = id(21);
    assert_eq!(
        Processor::process_stake_nft(
            &registry,
            &sample_user_state(),
            true,
            &id(9),
            &pos_addr,
            &pos_addr,
            &esc_addr,
            &esc_addr,
            1,
        ),
        Err(FarmError::ArithmeticOverflow)
    );
}

#[test]
fn unstake_immediately_pays_nothing() {
    let registry = sample_platform();
    let position = sample_user_state();
    let pos_addr = id(20);
    let esc_addr = id(21);
    let now = 5000;
    let staked = Processor::process_stake_nft(
        &registry, &position, true, &id(9), &pos_addr, &pos_addr, &esc_addr, &esc_addr, now,
    )
    .unwrap();
    let o = Processor::process_unstake_nft(
        &staked.registry,
        &staked.position,
        &pos_addr,
        &pos_addr,
        &esc_addr,
        &esc_addr,
        now,
    )
    .unwrap();
    assert_eq!(o.reward, None);
    assert_eq!(o.registry.total_staked_nft, registry.total_staked_nft);
}

#[test]
fn unstake_at_exactly_one_interval_pays_nothing() {
    let registry = sample_platform();
    let position = UserState {
        is_initialized: true,
        user: id(9),
        total_staked_nft: 0,
        last_staked_time: 1000,
    };
    let pos_addr = id(20);
    let esc_addr = id(21);
    let o = Processor::process_unstake_nft(
        &registry,
        &position,
        &pos_addr,
        &pos_addr,
        &esc_addr,
        &esc_addr,
        1000 + 86_400,
    )
    .unwrap();
    assert_eq!(o.reward, None);
}

#[test]
fn unstake_past_one_interval_pays_reward() {
    let registry = sample_platform();
    let position = UserState {
        is_initialized: true,
        user: id(9),
        total_staked_nft: 0,
        last_staked_time: 1000,
    };
    let pos_addr = id(20);
    let esc_addr = id(21);
    let o = Processor::process_unstake_nft(
        &registry,
        &position,
        &pos_addr,
        &pos_addr,
        &esc_addr,
        &esc_addr,
        1000 + 86_401,
    )
    .unwrap();
    assert_eq!(o.reward, Some(99_965));
    // The position record is written back unchanged.
    assert_eq!(o.position, position);
}

#[test]
fn unstake_with_zero_count_underflows() {
    let registry = PlatForm {
        is_initialized: true,
        owner: id(7),
        total_staked_nft: 0,
    };
    let pos_addr = id(20);
    let esc_addr = id(21);
    assert_eq!(
        Processor::process_unstake_nft(
            &registry,
            &sample_user_state(),
            &pos_addr,
            &pos_addr,
            &esc_addr,
            &esc_addr,
            u64::MAX,
        ),
        Err(FarmError::ArithmeticUnderflow)
    );
}

#[test]
fn unstake_before_stake_time_underflows() {
    let registry = sample_platform();
    let position = sample_user_state();
    let pos_addr = id(20);
    let esc_addr = id(21);
    assert_eq!(
        Processor::process_unstake_nft(
            &registry,
            &position,
            &pos_addr,
            &pos_addr,
            &esc_addr,
            &esc_addr,
            position.last_staked_time - 1,
        ),
        Err(FarmError::ArithmeticUnderflow)
    );
}

#[test]
fn harvest_pays_after_interval_and_keeps_timer() {
    let position = UserState {
        is_initialized: true,
        user: id(9),
        total_staked_nft: 0,
        last_staked_time: 0,
    };
    let pos_addr = id(20);
    let esc_addr = id(21);
    let o = Processor::process_harvest_reward(
        &position, &pos_addr, &pos_addr, &esc_addr, &esc_addr, 86_401,
    )
    .unwrap();
    assert_eq!(o.reward, Some(99_965));
    // The timer is deliberately not reset by a harvest.
    assert_eq!(o.position.last_staked_time, 0);
    let again = Processor::process_harvest_reward(
        &o.position, &pos_addr, &pos_addr, &esc_addr, &esc_addr, 86_401,
    )
    .unwrap();
    assert_eq!(again.reward, Some(99_965));
}

#[test]
fn harvest_within_interval_pays_nothing() {
    let position = sample_user_state();
    let pos_addr = id(20);
    let esc_addr = id(21);
    let o = Processor::process_harvest_reward(
        &position,
        &pos_addr,
        &pos_addr,
        &esc_addr,
        &esc_addr,
        position.last_staked_time + 86_400,
    )
    .unwrap();
    assert_eq!(o.reward, None);
}

#[test]
fn wrong_position_address_fails_everywhere() {
    let registry = sample_platform();
    let position = sample_user_state();
    let wrong = id(99);
    let expected = id(20);
    let esc = id(21);
    assert_eq!(
        Processor::process_stake_nft(
            &registry, &position, true, &id(9), &wrong, &expected, &esc, &esc, 1,
        ),
        Err(FarmError::AddressMismatch)
    );
    assert_eq!(
        Processor::process_unstake_nft(
            &registry, &position, &wrong, &expected, &esc, &esc, u64::MAX,
        ),
        Err(FarmError::AddressMismatch)
    );
    assert_eq!(
        Processor::process_harvest_reward(&position, &wrong, &expected, &esc, &esc, u64::MAX),
        Err(FarmError::AddressMismatch)
    );
}

#[test]
fn wrong_escrow_address_fails_everywhere() {
    let registry = sample_platform();
    let position = sample_user_state();
    let pos = id(20);
    let wrong = id(98);
    let expected = id(21);
    assert_eq!(
        Processor::process_stake_nft(
            &registry, &position, true, &id(9), &pos, &pos, &wrong, &expected, 1,
        ),
        Err(FarmError::AddressMismatch)
    );
    assert_eq!(
        Processor::process_unstake_nft(
            &registry, &position, &pos, &pos, &wrong, &expected, u64::MAX,
        ),
        Err(FarmError::AddressMismatch)
    );
    assert_eq!(
        Processor::process_harvest_reward(&position, &pos, &pos, &wrong, &expected, u64::MAX),
        Err(FarmError::AddressMismatch)
    );
}

#[test]
fn user_init_builds_fresh_position() {
    let user = id(5);
    let addr = id(20);
    let u = Processor::process_user_init(&user, &addr, &addr).unwrap();
    assert!(u.is_initialized);
    assert_eq!(u.user, user);
    assert_eq!(u.total_staked_nft, 0);
    assert_eq!(u.last_staked_time, 0);
    assert_eq!(
        Processor::process_user_init(&user, &id(99), &addr),
        Err(FarmError::AddressMismatch)
    );
}

#[test]
fn derivation_is_deterministic_and_fresh() {
    let user = id(5);
    let asset = id(6);
    let program = id(200);
    let (a1, b1) = find_user_position_address(&user, &asset, &program).unwrap();
    let (a2, b2) = find_user_position_address(&user, &asset, &program).unwrap();
    assert_eq!(a1, a2);
    assert_eq!(b1, b2);
    assert_eq!(a1.bytes.len(), 32);
    // The derived address is not one of the seeds handed in.
    assert_ne!(a1, user);
    assert_ne!(a1, asset);
    // Different seeds derive a different address.
    let (a3, _) = find_user_position_address(&user, &id(7), &program).unwrap();
    assert_ne!(a1, a3);
}

#[test]
fn escrow_derivation_differs_from_position_derivation() {
    let registry_addr = id(30);
    let program = id(200);
    let (esc, _) = find_escrow_authority(&registry_addr, &program).unwrap();
    assert_eq!(esc.bytes.len(), 32);
    assert_ne!(esc, registry_addr);
    let (esc2, _) = find_escrow_authority(&id(31), &program).unwrap();
    assert_ne!(esc, esc2);
}

fn accounts_for(
    signer: Identity,
    asset: Identity,
    registry: PlatForm,
    position: UserState,
    position_exists: bool,
    now: u64,
) -> InvocationAccounts {
    let program_id = id(200);
    let registry_addr = id(30);
    let (pos_addr, _) = find_user_position_address(&signer, &asset, &program_id).unwrap();
    let (esc_addr, _) = find_escrow_authority(&registry_addr, &program_id).unwrap();
    InvocationAccounts {
        program_id,
        signer,
        asset,
        registry_addr,
        supplied_position_addr: pos_addr,
        supplied_escrow_addr: esc_addr,
        registry,
        position,
        position_exists,
        now,
    }
}

#[test]
fn end_to_end_stake_and_unstake() {
    let user_a = id(5);
    let asset_x = id(6);

    // Initialize the platform with a reward seed of 1000 units.
    let blank_registry = PlatForm {
        is_initialized: false,
        owner: id(0),
        total_staked_nft: 0,
    };
    let blank_position = UserState {
        is_initialized: false,
        user: id(0),
        total_staked_nft: 0,
        last_staked_time: 0,
    };
    let mut init_data = vec![0u8];
    init_data.extend_from_slice(&1000u64.to_le_bytes());
    let init_accounts = accounts_for(
        id(7),
        asset_x.clone(),
        blank_registry,
        blank_position.clone(),
        false,
        0,
    );
    let registry = match Processor::process(&init_accounts, &init_data).unwrap() {
        Effects::Initialized(o) => {
            assert_eq!(o.reward_transfer, 1000);
            o.registry
        }
        other => panic!("unexpected effects: {:?}", other),
    };
    assert_eq!(registry.total_staked_nft, 0);

    // Stake at ledger time 1000.
    let stake_accounts = accounts_for(
        user_a.clone(),
        asset_x.clone(),
        registry,
        blank_position,
        false,
        1000,
    );
    let (registry, position) = match Processor::process(&stake_accounts, &[2]).unwrap() {
        Effects::Staked(o) => {
            assert!(o.position_created);
            (o.registry, o.position)
        }
        other => panic!("unexpected effects: {:?}", other),
    };
    assert_eq!(registry.total_staked_nft, 1);
    assert_eq!(position.last_staked_time, 1000);

    // Unstake 90000 seconds later.
    let unstake_accounts = accounts_for(user_a, asset_x, registry, position, true, 1000 + 90_000);
    match Processor::process(&unstake_accounts, &[3]).unwrap() {
        Effects::Unstaked(o) => {
            assert_eq!(o.registry.total_staked_nft, 0);
            assert_eq!(o.reward, Some(104_130));
            // The stake timer is not reset by this flow.
            assert_eq!(o.position.last_staked_time, 1000);
        }
        other => panic!("unexpected effects: {:?}", other),
    }
}

#[test]
fn process_with_tampered_escrow_fails() {
    let user_a = id(5);
    let asset_x = id(6);
    let mut accounts = accounts_for(
        user_a,
        asset_x,
        sample_platform(),
        sample_user_state(),
        true,
        u64::MAX,
    );
    accounts.supplied_escrow_addr = id(99);
    assert_eq!(
        Processor::process(&accounts, &[2]),
        Err(FarmError::AddressMismatch)
    );
    assert_eq!(
        Processor::process(&accounts, &[3]),
        Err(FarmError::AddressMismatch)
    );
    assert_eq!(
        Processor::process(&accounts, &[4]),
        Err(FarmError::AddressMismatch)
    );
}

#[test]
fn process_rejects_unknown_opcode() {
    let accounts = accounts_for(
        id(5),
        id(6),
        sample_platform(),
        sample_user_state(),
        true,
        0,
    );
    assert_eq!(
        Processor::process(&accounts, &[7]),
        Err(FarmError::InvalidInput)
    );
    assert_eq!(
        Processor::process(&accounts, &[]),
        Err(FarmError::InvalidInput)
    );
}
