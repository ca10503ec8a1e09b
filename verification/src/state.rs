use crate::identity::{Identity, IDENTITY_LEN};
use crate::FarmError;
use vstd::bytes::{
    lemma_auto_spec_u64_to_from_le_bytes, spec_u64_from_le_bytes, spec_u64_to_le_bytes,
    u64_from_le_bytes, u64_to_le_bytes,
};
use vstd::prelude::*;

verus! {

/// Serialized width of a platform registry record.
pub const PLATFORM_LEN: usize = 41;

/// Serialized width of a user position record.
pub const USER_STATE_LEN: usize = 49;

/// The singleton platform registry record: initialization flag, the
/// operator's identity, and the aggregate count of staked assets.
#[derive(Debug, Clone, PartialEq, Eq)]
pub struct PlatForm {
    pub is_initialized: bool,
    pub owner: Identity,
    pub total_staked_nft: u64,
}

/// Mathematical model of a platform registry record.
#[verifier::ext_equal]
pub struct PlatFormV {
    pub is_initialized: bool,
    pub owner: Seq<u8>,
    pub total_staked_nft: u64,
}

impl View for PlatForm {
    type V = PlatFormV;

    open spec fn view(&self) -> PlatFormV {
        PlatFormV {
            is_initialized: self.is_initialized,
            owner: self.owner@,
            total_staked_nft: self.total_staked_nft,
        }
    }
}

impl PlatFormV {
    pub open spec fn wf(&self) -> bool {
        self.owner.len() == IDENTITY_LEN
    }
}

/// The per-(user, asset) position record: initialization flag, the user's
/// identity, a stored stake count, and the time of the most recent stake.
#[derive(Debug, Clone, PartialEq, Eq)]
pub struct UserState {
    pub is_initialized: bool,
    pub user: Identity,
    pub total_staked_nft: u64,
    pub last_staked_time: u64,
}

/// Mathematical model of a user position record.
#[verifier::ext_equal]
pub struct UserStateV {
    pub is_initialized: bool,
    pub user: Seq<u8>,
    pub total_staked_nft: u64,
    pub last_staked_time: u64,
}

impl View for UserState {
    type V = UserStateV;

    open spec fn view(&self) -> UserStateV {
        UserStateV {
            is_initialized: self.is_initialized,
            user: self.user@,
            total_staked_nft: self.total_staked_nft,
            last_staked_time: self.last_staked_time,
        }
    }
}

impl UserStateV {
    pub open spec fn wf(&self) -> bool {
        self.user.len() == IDENTITY_LEN
    }
}

/// The byte encoding of a registry record: flag byte, 32 owner bytes,
/// then the staked count as a little-endian u64.
pub open spec fn spec_pack_platform(v: PlatFormV) -> Seq<u8> {
    seq![if v.is_initialized { 1u8 } else { 0u8 }] + v.owner + spec_u64_to_le_bytes(
        v.total_staked_nft,
    )
}

/// Decoding of a registry record: rejects a buffer shorter than the fixed
/// width and a flag byte other than 0 or 1; bytes past the record are ignored.
pub open spec fn spec_unpack_platform(s: Seq<u8>) -> Result<PlatFormV, FarmError> {
    if s.len() < PLATFORM_LEN {
        Err(FarmError::InvalidRecordData)
    } else if s[0] != 0u8 && s[0] != 1u8 {
        Err(FarmError::InvalidRecordData)
    } else {
        Ok(
            PlatFormV {
                is_initialized: s[0] == 1u8,
                owner: s.subrange(1, 33),
                total_staked_nft: spec_u64_from_le_bytes(s.subrange(33, 41)),
            },
        )
    }
}

/// The byte encoding of a position record: flag byte, 32 user bytes, the
/// stored stake count, then the last stake time, both little-endian u64.
pub open spec fn spec_pack_user_state(v: UserStateV) -> Seq<u8> {
    seq![if v.is_initialized { 1u8 } else { 0u8 }] + v.user + spec_u64_to_le_bytes(
        v.total_staked_nft,
    ) + spec_u64_to_le_bytes(v.last_staked_time)
}

/// Decoding of a position record, with the same rejection rules as the
/// registry decoding.
pub open spec fn spec_unpack_user_state(s: Seq<u8>) -> Result<UserStateV, FarmError> {
    if s.len() < USER_STATE_LEN {
        Err(FarmError::InvalidRecordData)
    } else if s[0] != 0u8 && s[0] != 1u8 {
        Err(FarmError::InvalidRecordData)
    } else {
        Ok(
            UserStateV {
                is_initialized: s[0] == 1u8,
                user: s.subrange(1, 33),
                total_staked_nft: spec_u64_from_le_bytes(s.subrange(33, 41)),
                last_staked_time: spec_u64_from_le_bytes(s.subrange(41, 49)),
            },
        )
    }
}

impl PlatForm {
    pub open spec fn wf(&self) -> bool {
        self@.wf()
    }

    /// Whether the one permitted initialization has happened.
    pub fn is_initialized(&self) -> (r: bool)
        ensures
            r == self@.is_initialized,
    {
        self.is_initialized
    }

    /// Decodes a registry record from a raw byte buffer.
    pub fn unpack_from_slice(src: &[u8]) -> (r: Result<PlatForm, FarmError>)
        ensures
            crate::view_result(r) == spec_unpack_platform(src@),
            r matches Ok(p) ==> p.wf(),
    {
        if src.len() < PLATFORM_LEN {
            return Err(FarmError::InvalidRecordData);
        }
        let flag = *vstd::slice::slice_index_get(src, 0);
        let is_initialized = if flag == 0 {
            false
        } else if flag == 1 {
            true
        } else {
            return Err(FarmError::InvalidRecordData);
        };
        let owner_bytes = vstd::slice::slice_to_vec(vstd::slice::slice_subrange(src, 1, 33));
        let total_staked_nft = u64_from_le_bytes(vstd::slice::slice_subrange(src, 33, 41));
        let p = PlatForm { is_initialized, owner: Identity { bytes: owner_bytes }, total_staked_nft };
        proof {
            assert(p@ =~= spec_unpack_platform(src@)->Ok_0);
        }
        Ok(p)
    }

    /// Encodes this record into a buffer of exactly the record's width.
    pub fn pack_into_slice(&self, dst: &mut Vec<u8>)
        requires
            self.wf(),
            old(dst)@.len() == PLATFORM_LEN,
        ensures
            final(dst)@ == spec_pack_platform(self@),
    {
        dst.clear();
        dst.push(if self.is_initialized { 1u8 } else { 0u8 });
        let mut i: usize = 0;
        while i < IDENTITY_LEN
            invariant
                i <= IDENTITY_LEN,
                self.wf(),
                dst@.len() == 1 + i,
                dst@ == seq![if self@.is_initialized { 1u8 } else { 0u8 }] + self@.owner.subrange(
                    0,
                    i as int,
                ),
            decreases IDENTITY_LEN - i,
        {
            dst.push(self.owner.bytes[i]);
            proof {
                assert(dst@ =~= seq![if self@.is_initialized { 1u8 } else { 0u8 }]
                    + self@.owner.subrange(0, i + 1 as int));
            }
            i = i + 1;
        }
        let mut tail = u64_to_le_bytes(self.total_staked_nft);
        dst.append(&mut tail);
        proof {
            assert(self@.owner.subrange(0, IDENTITY_LEN as int) =~= self@.owner);
            assert(dst@ =~= spec_pack_platform(self@));
        }
    }
}

impl UserState {
    pub open spec fn wf(&self) -> bool {
        self@.wf()
    }

    /// Whether this position has been set up by a first stake.
    pub fn is_initialized(&self) -> (r: bool)
        ensures
            r == self@.is_initialized,
    {
        self.is_initialized
    }

    /// Decodes a position record from a raw byte buffer.
    pub fn unpack_from_slice(src: &[u8]) -> (r: Result<UserState, FarmError>)
        ensures
            crate::view_result(r) == spec_unpack_user_state(src@),
            r matches Ok(u) ==> u.wf(),
    {
        if src.len() < USER_STATE_LEN {
            return Err(FarmError::InvalidRecordData);
        }
        let flag = *vstd::slice::slice_index_get(src, 0);
        let is_initialized = if flag == 0 {
            false
        } else if flag == 1 {
            true
        } else {
            return Err(FarmError::InvalidRecordData);
        };
        let user_bytes = vstd::slice::slice_to_vec(vstd::slice::slice_subrange(src, 1, 33));
        let total_staked_nft = u64_from_le_bytes(vstd::slice::slice_subrange(src, 33, 41));
        let last_staked_time = u64_from_le_bytes(vstd::slice::slice_subrange(src, 41, 49));
        let u = UserState {
            is_initialized,
            user: Identity { bytes: user_bytes },
            total_staked_nft,
            last_staked_time,
        };
        proof {
            assert(u@ =~= spec_unpack_user_state(src@)->Ok_0);
        }
        Ok(u)
    }

    /// Encodes this record into a buffer of exactly the record's width.
    pub fn pack_into_slice(&self, dst: &mut Vec<u8>)
        requires
            self.wf(),
            old(dst)@.len() == USER_STATE_LEN,
        ensures
            final(dst)@ == spec_pack_user_state(self@),
    {
        dst.clear();
        dst.push(if self.is_initialized { 1u8 } else { 0u8 });
        let mut i: usize = 0;
        while i < IDENTITY_LEN
            invariant
                i <= IDENTITY_LEN,
                self.wf(),
                dst@.len() == 1 + i,
                dst@ == seq![if self@.is_initialized { 1u8 } else { 0u8 }] + self@.user.subrange(
                    0,
                    i as int,
                ),
            decreases IDENTITY_LEN - i,
        {
            dst.push(self.user.bytes[i]);
            proof {
                assert(dst@ =~= seq![if self@.is_initialized { 1u8 } else { 0u8 }]
                    + self@.user.subrange(0, i + 1 as int));
            }
            i = i + 1;
        }
        let mut count_bytes = u64_to_le_bytes(self.total_staked_nft);
        dst.append(&mut count_bytes);
        let mut time_bytes = u64_to_le_bytes(self.last_staked_time);
        dst.append(&mut time_bytes);
        proof {
            assert(self@.user.subrange(0, IDENTITY_LEN as int) =~= self@.user);
            assert(dst@ =~= spec_pack_user_state(self@));
        }
    }
}

/// Law: decoding an encoded registry record gives the record back, for
/// every well-formed record value.
pub proof fn lemma_platform_round_trip(v: PlatFormV)
    requires
        v.wf(),
    ensures
        spec_unpack_platform(spec_pack_platform(v)) == Ok::<PlatFormV, FarmError>(v),
{
    lemma_auto_spec_u64_to_from_le_bytes();
    let s = spec_pack_platform(v);
    assert(s.len() == PLATFORM_LEN);
    assert(s.subrange(1, 33) =~= v.owner);
    assert(s.subrange(33, 41) =~= spec_u64_to_le_bytes(v.total_staked_nft));
    assert(spec_unpack_platform(s)->Ok_0 =~= v);
}

/// Law: decoding an encoded position record gives the record back, for
/// every well-formed record value.
pub proof fn lemma_user_state_round_trip(v: UserStateV)
    requires
        v.wf(),
    ensures
        spec_unpack_user_state(spec_pack_user_state(v)) == Ok::<UserStateV, FarmError>(v),
{
    lemma_auto_spec_u64_to_from_le_bytes();
    let s = spec_pack_user_state(v);
    assert(s.len() == USER_STATE_LEN);
    assert(s.subrange(1, 33) =~= v.user);
    assert(s.subrange(33, 41) =~= spec_u64_to_le_bytes(v.total_staked_nft));
    assert(s.subrange(41, 49) =~= spec_u64_to_le_bytes(v.last_staked_time));
    assert(spec_unpack_user_state(s)->Ok_0 =~= v);
}

} // verus!
