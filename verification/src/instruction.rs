use crate::FarmError;
use vstd::bytes::{
    lemma_auto_spec_u64_to_from_le_bytes, spec_u64_from_le_bytes, spec_u64_to_le_bytes,
    u64_from_le_bytes, u64_to_le_bytes,
};
use vstd::prelude::*;

verus! {

/// A decoded instruction: the opcode byte selects the operation, and only
/// platform initialization carries a payload (the reward seed amount).
#[derive(Debug, Clone, Copy, PartialEq, Eq, Structural)]
pub enum NftInstruction {
    InitializePlatform { amount: u64 },
    StakeNft,
    UnStakeNft,
    Harvest,
}

/// Decoding of an instruction buffer: the first byte is the opcode; opcode 0
/// needs an 8-byte little-endian amount after it; opcodes 2, 3 and 4 take no
/// payload; anything else, or a truncated buffer, is rejected. Trailing bytes
/// beyond what an opcode needs are ignored.
pub open spec fn spec_unpack_instruction(s: Seq<u8>) -> Result<NftInstruction, FarmError> {
    if s.len() == 0 {
        Err(FarmError::InvalidInput)
    } else if s[0] == 0u8 {
        if s.len() < 9 {
            Err(FarmError::InvalidInput)
        } else {
            Ok(
                NftInstruction::InitializePlatform {
                    amount: spec_u64_from_le_bytes(s.subrange(1, 9)),
                },
            )
        }
    } else if s[0] == 2u8 {
        Ok(NftInstruction::StakeNft)
    } else if s[0] == 3u8 {
        Ok(NftInstruction::UnStakeNft)
    } else if s[0] == 4u8 {
        Ok(NftInstruction::Harvest)
    } else {
        Err(FarmError::InvalidInput)
    }
}

/// The byte encoding of a platform-initialization instruction: opcode 0
/// followed by the amount as a little-endian u64.
pub open spec fn spec_pack_initialize(amount: u64) -> Seq<u8> {
    seq![0u8] + spec_u64_to_le_bytes(amount)
}

impl NftInstruction {
    /// Decodes an instruction from its byte encoding.
    pub fn unpack(input: &[u8]) -> (r: Result<NftInstruction, FarmError>)
        ensures
            r == spec_unpack_instruction(input@),
    {
        if input.len() == 0 {
            return Err(FarmError::InvalidInput);
        }
        let tag = *vstd::slice::slice_index_get(input, 0);
        if tag == 0 {
            if input.len() < 9 {
                Err(FarmError::InvalidInput)
            } else {
                let amount = u64_from_le_bytes(vstd::slice::slice_subrange(input, 1, 9));
                Ok(NftInstruction::InitializePlatform { amount })
            }
        } else if tag == 2 {
            Ok(NftInstruction::StakeNft)
        } else if tag == 3 {
            Ok(NftInstruction::UnStakeNft)
        } else if tag == 4 {
            Ok(NftInstruction::Harvest)
        } else {
            Err(FarmError::InvalidInput)
        }
    }

    /// Encodes this instruction. Only the platform-initialization variant has
    /// an encoding; the others are never sent through this path.
    pub fn pack(&self) -> (r: Vec<u8>)
        requires
            self is InitializePlatform,
        ensures
            r@ == spec_pack_initialize(self->amount),
    {
        match self {
            NftInstruction::InitializePlatform { amount } => {
                let mut buf: Vec<u8> = Vec::new();
                buf.push(0u8);
                let mut tail = u64_to_le_bytes(*amount);
                buf.append(&mut tail);
                proof {
                    assert(buf@ =~= spec_pack_initialize(self->amount));
                }
                buf
            },
            _ => {
                proof {
                    assert(false);
                }
                Vec::new()
            },
        }
    }
}

/// Law: decoding an encoded platform-initialization instruction gives the
/// instruction back, for every amount.
pub proof fn lemma_initialize_round_trip(amount: u64)
    ensures
        spec_unpack_instruction(spec_pack_initialize(amount)) == Ok::<NftInstruction, FarmError>(
            NftInstruction::InitializePlatform { amount },
        ),
{
    lemma_auto_spec_u64_to_from_le_bytes();
    let s = spec_pack_initialize(amount);
    assert(s.len() == 9);
    assert(s[0] == 0u8);
    assert(s.subrange(1, 9) =~= spec_u64_to_le_bytes(amount));
}

} // verus!
