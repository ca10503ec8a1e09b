use crate::address::{
    find_escrow_authority, find_user_position_address, spec_escrow_authority,
    spec_user_position_address,
};
use crate::identity::Identity;
use crate::instruction::{spec_unpack_instruction, NftInstruction};
use crate::reward::{compute_reward, spec_compute_reward, spec_payout_due, INTERVAL_SECONDS};
use crate::state::{PlatForm, PlatFormV, UserState, UserStateV};
use crate::{view_result, FarmError};
use vstd::prelude::*;

verus! {

/// The stateless engine that carries the operations of the staking program.
pub struct Processor;

/// What a successful platform initialization commits: the new registry
/// record, and how many reward units to move into the escrow-owned pool.
#[derive(Debug, PartialEq, Eq)]
pub struct InitOutcome {
    pub registry: PlatForm,
    pub reward_transfer: u64,
}

#[verifier::ext_equal]
pub struct InitOutcomeV {
    pub registry: PlatFormV,
    pub reward_transfer: u64,
}

impl View for InitOutcome {
    type V = InitOutcomeV;

    open spec fn view(&self) -> InitOutcomeV {
        InitOutcomeV { registry: self.registry@, reward_transfer: self.reward_transfer }
    }
}

/// What a successful stake commits: both updated records, and whether the
/// position record still has to be created by the account-creation service.
#[derive(Debug, PartialEq, Eq)]
pub struct StakeOutcome {
    pub registry: PlatForm,
    pub position: UserState,
    pub position_created: bool,
}

#[verifier::ext_equal]
pub struct StakeOutcomeV {
    pub registry: PlatFormV,
    pub position: UserStateV,
    pub position_created: bool,
}

impl View for StakeOutcome {
    type V = StakeOutcomeV;

    open spec fn view(&self) -> StakeOutcomeV {
        StakeOutcomeV {
            registry: self.registry@,
            position: self.position@,
            position_created: self.position_created,
        }
    }
}

/// What a successful unstake commits: the updated registry, the position
/// record written back unchanged, and the reward units to pay out, if any.
#[derive(Debug, PartialEq, Eq)]
pub struct UnstakeOutcome {
    pub registry: PlatForm,
    pub position: UserState,
    pub reward: Option<u64>,
}

#[verifier::ext_equal]
pub struct UnstakeOutcomeV {
    pub registry: PlatFormV,
    pub position: UserStateV,
    pub reward: Option<u64>,
}

impl View for UnstakeOutcome {
    type V = UnstakeOutcomeV;

    open spec fn view(&self) -> UnstakeOutcomeV {
        UnstakeOutcomeV { registry: self.registry@, position: self.position@, reward: self.reward }
    }
}

/// What a successful harvest commits: the position record written back
/// unchanged — its timer is deliberately not reset — and the reward units to
/// pay out, if any.
#[derive(Debug, PartialEq, Eq)]
pub struct HarvestOutcome {
    pub position: UserState,
    pub reward: Option<u64>,
}

#[verifier::ext_equal]
pub struct HarvestOutcomeV {
    pub position: UserStateV,
    pub reward: Option<u64>,
}

impl View for HarvestOutcome {
    type V = HarvestOutcomeV;

    open spec fn view(&self) -> HarvestOutcomeV {
        HarvestOutcomeV { position: self.position@, reward: self.reward }
    }
}

/// Model of a platform initialization. The one permitted call flips the
/// initialization flag, records the caller as owner, zeroes the aggregate
/// count, and seeds the reward pool with the given amount; a repeated call
/// fails and changes nothing.
pub open spec fn spec_init_platform(registry: PlatFormV, owner: Seq<u8>, amount: u64) -> Result<
    InitOutcomeV,
    FarmError,
> {
    if registry.is_initialized {
        Err(FarmError::AlreadyInitialized)
    } else {
        Ok(
            InitOutcomeV {
                registry: PlatFormV { is_initialized: true, owner, total_staked_nft: 0 },
                reward_transfer: amount,
            },
        )
    }
}

/// Model of a fresh position record for a user whose supplied position
/// address passed the derivation gate.
pub open spec fn spec_user_init(
    user: Seq<u8>,
    supplied_position: Seq<u8>,
    expected_position: Seq<u8>,
) -> Result<UserStateV, FarmError> {
    if supplied_position != expected_position {
        Err(FarmError::AddressMismatch)
    } else {
        Ok(UserStateV { is_initialized: true, user, total_staked_nft: 0, last_staked_time: 0 })
    }
}

/// Model of a stake. Both caller-supplied addresses must match their
/// derivations; a missing position record is created freshly owned by the
/// user; the stake timer is set to the invocation's ledger time; and the
/// aggregate count grows by one, failing on overflow.
pub open spec fn spec_stake(
    registry: PlatFormV,
    position: UserStateV,
    position_exists: bool,
    user: Seq<u8>,
    supplied_position: Seq<u8>,
    expected_position: Seq<u8>,
    supplied_escrow: Seq<u8>,
    expected_escrow: Seq<u8>,
    now: u64,
) -> Result<StakeOutcomeV, FarmError> {
    if supplied_position != expected_position {
        Err(FarmError::AddressMismatch)
    } else if supplied_escrow != expected_escrow {
        Err(FarmError::AddressMismatch)
    } else if registry.total_staked_nft == u64::MAX {
        Err(FarmError::ArithmeticOverflow)
    } else {
        let base = if position_exists {
            position
        } else {
            UserStateV { is_initialized: true, user, total_staked_nft: 0, last_staked_time: 0 }
        };
        Ok(
            StakeOutcomeV {
                registry: PlatFormV {
                    total_staked_nft: (registry.total_staked_nft + 1) as u64,
                    ..registry
                },
                position: UserStateV { last_staked_time: now, ..base },
                position_created: !position_exists,
            },
        )
    }
}

/// Model of an unstake. Both addresses must match their derivations; the
/// aggregate count shrinks by one, failing on underflow, as does a ledger
/// time older than the stake timer; custody returns to the user; and a
/// reward is paid only for a duration strictly beyond one interval.
pub open spec fn spec_unstake(
    registry: PlatFormV,
    position: UserStateV,
    supplied_position: Seq<u8>,
    expected_position: Seq<u8>,
    supplied_escrow: Seq<u8>,
    expected_escrow: Seq<u8>,
    now: u64,
) -> Result<UnstakeOutcomeV, FarmError> {
    if supplied_position != expected_position {
        Err(FarmError::AddressMismatch)
    } else if supplied_escrow != expected_escrow {
        Err(FarmError::AddressMismatch)
    } else if registry.total_staked_nft == 0 {
        Err(FarmError::ArithmeticUnderflow)
    } else if now < position.last_staked_time {
        Err(FarmError::ArithmeticUnderflow)
    } else {
        let elapsed = (now - position.last_staked_time) as u64;
        let new_registry = PlatFormV {
            total_staked_nft: (registry.total_staked_nft - 1) as u64,
            ..registry
        };
        if spec_payout_due(elapsed) {
            match spec_compute_reward(elapsed) {
                Ok(rw) => Ok(
                    UnstakeOutcomeV { registry: new_registry, position, reward: Some(rw) },
                ),
                Err(e) => Err(e),
            }
        } else {
            Ok(UnstakeOutcomeV { registry: new_registry, position, reward: None })
        }
    }
}

/// Model of a harvest. Both addresses must match their derivations; the
/// reward for the elapsed duration is computed, failing on overflow, and
/// paid only for a duration strictly beyond one interval; the position's
/// stake timer is not reset.
pub open spec fn spec_harvest(
    position: UserStateV,
    supplied_position: Seq<u8>,
    expected_position: Seq<u8>,
    supplied_escrow: Seq<u8>,
    expected_escrow: Seq<u8>,
    now: u64,
) -> Result<HarvestOutcomeV, FarmError> {
    if supplied_position != expected_position {
        Err(FarmError::AddressMismatch)
    } else if supplied_escrow != expected_escrow {
        Err(FarmError::AddressMismatch)
    } else if now < position.last_staked_time {
        Err(FarmError::ArithmeticUnderflow)
    } else {
        let elapsed = (now - position.last_staked_time) as u64;
        match spec_compute_reward(elapsed) {
            Ok(rw) => Ok(
                HarvestOutcomeV {
                    position,
                    reward: if spec_payout_due(elapsed) {
                        Some(rw)
                    } else {
                        None
                    },
                },
            ),
            Err(e) => Err(e),
        }
    }
}

impl Processor {
    /// One-time platform setup over a decoded registry record.
    pub fn process_init_platform(registry: &PlatForm, owner: &Identity, amount: u64) -> (r: Result<
        InitOutcome,
        FarmError,
    >)
        requires
            owner.wf(),
        ensures
            view_result(r) == spec_init_platform(registry@, owner@, amount),
            r matches Ok(o) ==> o.registry.wf(),
    {
        if registry.is_initialized {
            Err(FarmError::AlreadyInitialized)
        } else {
            let o = InitOutcome {
                registry: PlatForm {
                    is_initialized: true,
                    owner: owner.duplicate(),
                    total_staked_nft: 0,
                },
                reward_transfer: amount,
            };
            proof {
                assert(o@ =~= spec_init_platform(registry@, owner@, amount)->Ok_0);
            }
            Ok(o)
        }
    }

    /// Builds the fresh position record for a user's first stake of an
    /// asset, after checking the supplied address against its derivation.
    pub fn process_user_init(
        user: &Identity,
        supplied_position_addr: &Identity,
        expected_position_addr: &Identity,
    ) -> (r: Result<UserState, FarmError>)
        requires
            user.wf(),
        ensures
            view_result(r) == spec_user_init(
                user@,
                supplied_position_addr@,
                expected_position_addr@,
            ),
            r matches Ok(u) ==> u.wf(),
    {
        if !supplied_position_addr.same_as(expected_position_addr) {
            return Err(FarmError::AddressMismatch);
        }
        let u = UserState {
            is_initialized: true,
            user: user.duplicate(),
            total_staked_nft: 0,
            last_staked_time: 0,
        };
        proof {
            assert(u@ =~= spec_user_init(
                user@,
                supplied_position_addr@,
                expected_position_addr@,
            )->Ok_0);
        }
        Ok(u)
    }

    /// Stakes an asset: gates both supplied addresses on their derivations,
    /// creates the position record when it does not yet exist, stamps the
    /// stake timer with the ledger time, and grows the aggregate count.
    pub fn process_stake_nft(
        registry: &PlatForm,
        position: &UserState,
        position_exists: bool,
        user: &Identity,
        supplied_position_addr: &Identity,
        expected_position_addr: &Identity,
        supplied_escrow_addr: &Identity,
        expected_escrow_addr: &Identity,
        now: u64,
    ) -> (r: Result<StakeOutcome, FarmError>)
        requires
            registry.wf(),
            position.wf(),
            user.wf(),
        ensures
            view_result(r) == spec_stake(
                registry@,
                position@,
                position_exists,
                user@,
                supplied_position_addr@,
                expected_position_addr@,
                supplied_escrow_addr@,
                expected_escrow_addr@,
                now,
            ),
            r matches Ok(o) ==> o.registry.wf() && o.position.wf(),
    {
        if !supplied_position_addr.same_as(expected_position_addr) {
            return Err(FarmError::AddressMismatch);
        }
        if !supplied_escrow_addr.same_as(expected_escrow_addr) {
            return Err(FarmError::AddressMismatch);
        }
        match registry.total_staked_nft.checked_add(1) {
            None => Err(FarmError::ArithmeticOverflow),
            Some(new_count) => {
                let new_position = if position_exists {
                    UserState {
                        is_initialized: position.is_initialized,
                        user: position.user.duplicate(),
                        total_staked_nft: position.total_staked_nft,
                        last_staked_time: now,
                    }
                } else {
                    UserState {
                        is_initialized: true,
                        user: user.duplicate(),
                        total_staked_nft: 0,
                        last_staked_time: now,
                    }
                };
                let o = StakeOutcome {
                    registry: PlatForm {
                        is_initialized: registry.is_initialized,
                        owner: registry.owner.duplicate(),
                        total_staked_nft: new_count,
                    },
                    position: new_position,
                    position_created: !position_exists,
                };
                proof {
                    assert(o@ =~= spec_stake(
                        registry@,
                        position@,
                        position_exists,
                        user@,
                        supplied_position_addr@,
                        expected_position_addr@,
                        supplied_escrow_addr@,
                        expected_escrow_addr@,
                        now,
                    )->Ok_0);
                }
                Ok(o)
            },
        }
    }

    /// Unstakes an asset: gates both supplied addresses on their
    /// derivations, shrinks the aggregate count, returns custody, and pays
    /// the accrued reward when more than one full interval has elapsed.
    pub fn process_unstake_nft(
        registry: &PlatForm,
        position: &UserState,
        supplied_position_addr: &Identity,
        expected_position_addr: &Identity,
        supplied_escrow_addr: &Identity,
        expected_escrow_addr: &Identity,
        now: u64,
    ) -> (r: Result<UnstakeOutcome, FarmError>)
        requires
            registry.wf(),
            position.wf(),
        ensures
            view_result(r) == spec_unstake(
                registry@,
                position@,
                supplied_position_addr@,
                expected_position_addr@,
                supplied_escrow_addr@,
                expected_escrow_addr@,
                now,
            ),
            r matches Ok(o) ==> o.registry.wf() && o.position.wf(),
    {
        if !supplied_position_addr.same_as(expected_position_addr) {
            return Err(FarmError::AddressMismatch);
        }
        if !supplied_escrow_addr.same_as(expected_escrow_addr) {
            return Err(FarmError::AddressMismatch);
        }
        let new_count = match registry.total_staked_nft.checked_sub(1) {
            None => {
                return Err(FarmError::ArithmeticUnderflow);
            },
            Some(c) => c,
        };
        if now < position.last_staked_time {
            return Err(FarmError::ArithmeticUnderflow);
        }
        let elapsed = now - position.last_staked_time;
        let reward = if elapsed > INTERVAL_SECONDS {
            match compute_reward(elapsed) {
                Ok(rw) => Some(rw),
                Err(e) => {
                    return Err(e);
                },
            }
        } else {
            None
        };
        let o = UnstakeOutcome {
            registry: PlatForm {
                is_initialized: registry.is_initialized,
                owner: registry.owner.duplicate(),
                total_staked_nft: new_count,
            },
            position: UserState {
                is_initialized: position.is_initialized,
                user: position.user.duplicate(),
                total_staked_nft: position.total_staked_nft,
                last_staked_time: position.last_staked_time,
            },
            reward,
        };
        proof {
            assert(o@ =~= spec_unstake(
                registry@,
                position@,
                supplied_position_addr@,
                expected_position_addr@,
                supplied_escrow_addr@,
                expected_escrow_addr@,
                now,
            )->Ok_0);
        }
        Ok(o)
    }

    /// Harvests the accrued reward without unstaking: gates both supplied
    /// addresses on their derivations and pays the reward when more than one
    /// full interval has elapsed. The stake timer is not reset.
    pub fn process_harvest_reward(
        position: &UserState,
        supplied_position_addr: &Identity,
        expected_position_addr: &Identity,
        supplied_escrow_addr: &Identity,
        expected_escrow_addr: &Identity,
        now: u64,
    ) -> (r: Result<HarvestOutcome, FarmError>)
        requires
            position.wf(),
        ensures
            view_result(r) == spec_harvest(
                position@,
                supplied_position_addr@,
                expected_position_addr@,
                supplied_escrow_addr@,
                expected_escrow_addr@,
                now,
            ),
            r matches Ok(o) ==> o.position.wf(),
    {
        if !supplied_position_addr.same_as(expected_position_addr) {
            return Err(FarmError::AddressMismatch);
        }
        if !supplied_escrow_addr.same_as(expected_escrow_addr) {
            return Err(FarmError::AddressMismatch);
        }
        if now < position.last_staked_time {
            return Err(FarmError::ArithmeticUnderflow);
        }
        let elapsed = now - position.last_staked_time;
        let rw = match compute_reward(elapsed) {
            Ok(rw) => rw,
            Err(e) => {
                return Err(e);
            },
        };
        let reward = if elapsed > INTERVAL_SECONDS {
            Some(rw)
        } else {
            None
        };
        let o = HarvestOutcome {
            position: UserState {
                is_initialized: position.is_initialized,
                user: position.user.duplicate(),
                total_staked_nft: position.total_staked_nft,
                last_staked_time: position.last_staked_time,
            },
            reward,
        };
        proof {
            assert(o@ =~= spec_harvest(
                position@,
                supplied_position_addr@,
                expected_position_addr@,
                supplied_escrow_addr@,
                expected_escrow_addr@,
                now,
            )->Ok_0);
        }
        Ok(o)
    }
}

/// Law: initializing an already-initialized registry always fails and
/// commits nothing.
pub proof fn lemma_initialize_once(registry: PlatFormV, owner: Seq<u8>, amount: u64)
    requires
        registry.is_initialized,
    ensures
        spec_init_platform(registry, owner, amount) == Err::<InitOutcomeV, FarmError>(
            FarmError::AlreadyInitialized,
        ),
{
}

/// Law: a successful stake stamps the stake timer with the invocation's
/// ledger time and grows the aggregate count by exactly one.
pub proof fn lemma_stake_updates(
    registry: PlatFormV,
    position: UserStateV,
    position_exists: bool,
    user: Seq<u8>,
    supplied_position: Seq<u8>,
    expected_position: Seq<u8>,
    supplied_escrow: Seq<u8>,
    expected_escrow: Seq<u8>,
    now: u64,
)
    requires
        spec_stake(
            registry,
            position,
            position_exists,
            user,
            supplied_position,
            expected_position,
            supplied_escrow,
            expected_escrow,
            now,
        ) matches Ok(o),
    ensures
        ({
            let o = spec_stake(
                registry,
                position,
                position_exists,
                user,
                supplied_position,
                expected_position,
                supplied_escrow,
                expected_escrow,
                now,
            )->Ok_0;
            o.position.last_staked_time == now && o.registry.total_staked_nft
                == registry.total_staked_nft + 1
        }),
{
}

/// Law: two successful stakes in sequence, by any two users, grow the
/// aggregate count by exactly two.
pub proof fn lemma_two_stakes_count_by_two(
    registry: PlatFormV,
    position1: UserStateV, exists1: bool, user1: Seq<u8>,
    sp1: Seq<u8>, ep1: Seq<u8>, se1: Seq<u8>, ee1: Seq<u8>, now1: u64,
    position2: UserStateV, exists2: bool, user2: Seq<u8>,
    sp2: Seq<u8>, ep2: Seq<u8>, se2: Seq<u8>, ee2: Seq<u8>, now2: u64,
)
    requires
        spec_stake(registry, position1, exists1, user1, sp1, ep1, se1, ee1, now1) matches Ok(o1),
        spec_stake(
            spec_stake(registry, position1, exists1, user1, sp1, ep1, se1, ee1, now1)->Ok_0.registry,
            position2, exists2, user2, sp2, ep2, se2, ee2, now2,
        ) matches Ok(o2),
    ensures
        spec_stake(
            spec_stake(registry, position1, exists1, user1, sp1, ep1, se1, ee1, now1)->Ok_0.registry,
            position2, exists2, user2, sp2, ep2, se2, ee2, now2,
        )->Ok_0.registry.total_staked_nft == registry.total_staked_nft + 2,
{
}

/// Law: unstaking at the very ledger time of the stake pays no reward and
/// shrinks the aggregate count back by one.
pub proof fn lemma_unstake_immediately(
    registry: PlatFormV,
    position: UserStateV,
    position_exists: bool,
    user: Seq<u8>,
    supplied_position: Seq<u8>,
    expected_position: Seq<u8>,
    supplied_escrow: Seq<u8>,
    expected_escrow: Seq<u8>,
    now: u64,
)
    requires
        spec_stake(
            registry,
            position,
            position_exists,
            user,
            supplied_position,
            expected_position,
            supplied_escrow,
            expected_escrow,
            now,
        ) matches Ok(o),
    ensures
        ({
            let o = spec_stake(
                registry,
                position,
                position_exists,
                user,
                supplied_position,
                expected_position,
                supplied_escrow,
                expected_escrow,
                now,
            )->Ok_0;
            let u = spec_unstake(
                o.registry,
                o.position,
                expected_position,
                expected_position,
                expected_escrow,
                expected_escrow,
                now,
            );
            u matches Ok(uo) && u->Ok_0.reward is None && u->Ok_0.registry.total_staked_nft
                == registry.total_staked_nft
        }),
{
}

/// Law: a supplied position or escrow address that differs from its
/// derivation always fails the address gate, in stake, unstake and harvest
/// alike, and commits nothing.
pub proof fn lemma_address_gate(
    registry: PlatFormV,
    position: UserStateV, position_exists: bool, user: Seq<u8>,
    supplied_position: Seq<u8>, expected_position: Seq<u8>,
    supplied_escrow: Seq<u8>, expected_escrow: Seq<u8>,
    now: u64,
)
    requires
        supplied_position != expected_position || supplied_escrow != expected_escrow,
    ensures
        spec_stake(registry, position, position_exists, user, supplied_position,
            expected_position, supplied_escrow, expected_escrow, now)
            == Err::<StakeOutcomeV, FarmError>(FarmError::AddressMismatch),
        spec_unstake(registry, position, supplied_position, expected_position,
            supplied_escrow, expected_escrow, now)
            == Err::<UnstakeOutcomeV, FarmError>(FarmError::AddressMismatch),
        spec_harvest(position, supplied_position, expected_position,
            supplied_escrow, expected_escrow, now)
            == Err::<HarvestOutcomeV, FarmError>(FarmError::AddressMismatch),
{
}

/// Law: the aggregate count never underflows — unstaking with a count of
/// zero fails, whatever the other inputs.
pub proof fn lemma_no_count_underflow(
    registry: PlatFormV,
    position: UserStateV,
    supplied_position: Seq<u8>,
    expected_position: Seq<u8>,
    supplied_escrow: Seq<u8>,
    expected_escrow: Seq<u8>,
    now: u64,
)
    requires
        registry.total_staked_nft == 0,
        supplied_position == expected_position,
        supplied_escrow == expected_escrow,
    ensures
        spec_unstake(
            registry,
            position,
            supplied_position,
            expected_position,
            supplied_escrow,
            expected_escrow,
            now,
        ) == Err::<UnstakeOutcomeV, FarmError>(FarmError::ArithmeticUnderflow),
{
}

/// Everything one invocation hands the engine, as plain values: the
/// program's identity, the caller-supplied account addresses, the decoded
/// records, and the ledger time. Operations that need fewer accounts ignore
/// the rest.
pub struct InvocationAccounts {
    pub program_id: Identity,
    pub signer: Identity,
    pub asset: Identity,
    pub registry_addr: Identity,
    pub supplied_position_addr: Identity,
    pub supplied_escrow_addr: Identity,
    pub registry: PlatForm,
    pub position: UserState,
    pub position_exists: bool,
    pub now: u64,
}

#[verifier::ext_equal]
pub struct InvocationAccountsV {
    pub program_id: Seq<u8>,
    pub signer: Seq<u8>,
    pub asset: Seq<u8>,
    pub registry_addr: Seq<u8>,
    pub supplied_position_addr: Seq<u8>,
    pub supplied_escrow_addr: Seq<u8>,
    pub registry: PlatFormV,
    pub position: UserStateV,
    pub position_exists: bool,
    pub now: u64,
}

impl View for InvocationAccounts {
    type V = InvocationAccountsV;

    open spec fn view(&self) -> InvocationAccountsV {
        InvocationAccountsV {
            program_id: self.program_id@,
            signer: self.signer@,
            asset: self.asset@,
            registry_addr: self.registry_addr@,
            supplied_position_addr: self.supplied_position_addr@,
            supplied_escrow_addr: self.supplied_escrow_addr@,
            registry: self.registry@,
            position: self.position@,
            position_exists: self.position_exists,
            now: self.now,
        }
    }
}

impl InvocationAccounts {
    pub open spec fn wf(&self) -> bool {
        &&& self.program_id.wf()
        &&& self.signer.wf()
        &&& self.registry.wf()
        &&& self.position.wf()
    }
}

/// Everything a successful invocation commits, by operation.
#[derive(Debug, PartialEq, Eq)]
pub enum Effects {
    Initialized(InitOutcome),
    Staked(StakeOutcome),
    Unstaked(UnstakeOutcome),
    Harvested(HarvestOutcome),
}

#[verifier::ext_equal]
pub enum EffectsV {
    Initialized(InitOutcomeV),
    Staked(StakeOutcomeV),
    Unstaked(UnstakeOutcomeV),
    Harvested(HarvestOutcomeV),
}

impl View for Effects {
    type V = EffectsV;

    open spec fn view(&self) -> EffectsV {
        match self {
            Effects::Initialized(o) => EffectsV::Initialized(o@),
            Effects::Staked(o) => EffectsV::Staked(o@),
            Effects::Unstaked(o) => EffectsV::Unstaked(o@),
            Effects::Harvested(o) => EffectsV::Harvested(o@),
        }
    }
}

impl Effects {
    pub open spec fn wf(&self) -> bool {
        match self {
            Effects::Initialized(o) => o.registry.wf(),
            Effects::Staked(o) => o.registry.wf() && o.position.wf(),
            Effects::Unstaked(o) => o.registry.wf() && o.position.wf(),
            Effects::Harvested(o) => o.position.wf(),
        }
    }
}

/// Model of a whole invocation: decode the instruction, derive the
/// addresses the opcode needs, and run that operation's model. An opcode
/// whose derivation does not exist fails the address gate.
pub open spec fn spec_process(a: InvocationAccountsV, data: Seq<u8>) -> Result<
    EffectsV,
    FarmError,
> {
    match spec_unpack_instruction(data) {
        Err(e) => Err(e),
        Ok(inst) => match inst {
            NftInstruction::InitializePlatform { amount } => match spec_init_platform(
                a.registry,
                a.signer,
                amount,
            ) {
                Ok(o) => Ok(EffectsV::Initialized(o)),
                Err(e) => Err(e),
            },
            NftInstruction::StakeNft => match spec_user_position_address(
                a.signer,
                a.asset,
                a.program_id,
            ) {
                None => Err(FarmError::AddressMismatch),
                Some(pos) => match spec_escrow_authority(a.registry_addr, a.program_id) {
                    None => Err(FarmError::AddressMismatch),
                    Some(esc) => match spec_stake(
                        a.registry,
                        a.position,
                        a.position_exists,
                        a.signer,
                        a.supplied_position_addr,
                        pos.0,
                        a.supplied_escrow_addr,
                        esc.0,
                        a.now,
                    ) {
                        Ok(o) => Ok(EffectsV::Staked(o)),
                        Err(e) => Err(e),
                    },
                },
            },
            NftInstruction::UnStakeNft => match spec_user_position_address(
                a.signer,
                a.asset,
                a.program_id,
            ) {
                None => Err(FarmError::AddressMismatch),
                Some(pos) => match spec_escrow_authority(a.registry_addr, a.program_id) {
                    None => Err(FarmError::AddressMismatch),
                    Some(esc) => match spec_unstake(
                        a.registry,
                        a.position,
                        a.supplied_position_addr,
                        pos.0,
                        a.supplied_escrow_addr,
                        esc.0,
                        a.now,
                    ) {
                        Ok(o) => Ok(EffectsV::Unstaked(o)),
                        Err(e) => Err(e),
                    },
                },
            },
            NftInstruction::Harvest => match spec_user_position_address(
                a.signer,
                a.asset,
                a.program_id,
            ) {
                None => Err(FarmError::AddressMismatch),
                Some(pos) => match spec_escrow_authority(a.registry_addr, a.program_id) {
                    None => Err(FarmError::AddressMismatch),
                    Some(esc) => match spec_harvest(
                        a.position,
                        a.supplied_position_addr,
                        pos.0,
                        a.supplied_escrow_addr,
                        esc.0,
                        a.now,
                    ) {
                        Ok(o) => Ok(EffectsV::Harvested(o)),
                        Err(e) => Err(e),
                    },
                },
            },
        },
    }
}

impl Processor {
    /// Runs one whole invocation: decodes the instruction, re-derives the
    /// addresses the opcode needs, gates the caller-supplied accounts on
    /// them, and computes what the operation commits.
    pub fn process(accounts: &InvocationAccounts, instruction_data: &[u8]) -> (r: Result<
        Effects,
        FarmError,
    >)
        requires
            accounts.wf(),
        ensures
            view_result(r) == spec_process(accounts@, instruction_data@),
            r matches Ok(e) ==> e.wf(),
    {
        let inst = match NftInstruction::unpack(instruction_data) {
            Ok(i) => i,
            Err(e) => {
                return Err(e);
            },
        };
        match inst {
            NftInstruction::InitializePlatform { amount } => {
                match Self::process_init_platform(&accounts.registry, &accounts.signer, amount) {
                    Ok(o) => Ok(Effects::Initialized(o)),
                    Err(e) => Err(e),
                }
            },
            NftInstruction::StakeNft => {
                let expected_position = match find_user_position_address(
                    &accounts.signer,
                    &accounts.asset,
                    &accounts.program_id,
                ) {
                    None => {
                        return Err(FarmError::AddressMismatch);
                    },
                    Some(p) => p.0,
                };
                let expected_escrow = match find_escrow_authority(
                    &accounts.registry_addr,
                    &accounts.program_id,
                ) {
                    None => {
                        return Err(FarmError::AddressMismatch);
                    },
                    Some(p) => p.0,
                };
                match Self::process_stake_nft(
                    &accounts.registry,
                    &accounts.position,
                    accounts.position_exists,
                    &accounts.signer,
                    &accounts.supplied_position_addr,
                    &expected_position,
                    &accounts.supplied_escrow_addr,
                    &expected_escrow,
                    accounts.now,
                ) {
                    Ok(o) => Ok(Effects::Staked(o)),
                    Err(e) => Err(e),
                }
            },
            NftInstruction::UnStakeNft => {
                let expected_position = match find_user_position_address(
                    &accounts.signer,
                    &accounts.asset,
                    &accounts.program_id,
                ) {
                    None => {
                        return Err(FarmError::AddressMismatch);
                    },
                    Some(p) => p.0,
                };
                let expected_escrow = match find_escrow_authority(
                    &accounts.registry_addr,
                    &accounts.program_id,
                ) {
                    None => {
                        return Err(FarmError::AddressMismatch);
                    },
                    Some(p) => p.0,
                };
                match Self::process_unstake_nft(
                    &accounts.registry,
                    &accounts.position,
                    &accounts.supplied_position_addr,
                    &expected_position,
                    &accounts.supplied_escrow_addr,
                    &expected_escrow,
                    accounts.now,
                ) {
                    Ok(o) => Ok(Effects::Unstaked(o)),
                    Err(e) => Err(e),
                }
            },
            NftInstruction::Harvest => {
                let expected_position = match find_user_position_address(
                    &accounts.signer,
                    &accounts.asset,
                    &accounts.program_id,
                ) {
                    None => {
                        return Err(FarmError::AddressMismatch);
                    },
                    Some(p) => p.0,
                };
                let expected_escrow = match find_escrow_authority(
                    &accounts.registry_addr,
                    &accounts.program_id,
                ) {
                    None => {
                        return Err(FarmError::AddressMismatch);
                    },
                    Some(p) => p.0,
                };
                match Self::process_harvest_reward(
                    &accounts.position,
                    &accounts.supplied_position_addr,
                    &expected_position,
                    &accounts.supplied_escrow_addr,
                    &expected_escrow,
                    accounts.now,
                ) {
                    Ok(o) => Ok(Effects::Harvested(o)),
                    Err(e) => Err(e),
                }
            },
        }
    }
}

} // verus!
