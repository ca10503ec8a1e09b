use crate::FarmError;
use vstd::prelude::*;

verus! {

/// Number of bytes in an on-ledger identity (an account address).
pub const IDENTITY_LEN: usize = 32;

/// A 32-byte account address: the identity of an owner, an asset, a record,
/// or a derived authority. Stored as raw bytes so that contracts can speak
/// of it as a plain byte sequence.
#[derive(Debug, Clone, PartialEq, Eq)]
pub struct Identity {
    pub bytes: Vec<u8>,
}

impl View for Identity {
    type V = Seq<u8>;

    open spec fn view(&self) -> Seq<u8> {
        self.bytes@
    }
}

impl Identity {
    /// An identity is well formed when it holds exactly 32 bytes.
    pub open spec fn wf(&self) -> bool {
        self.bytes@.len() == IDENTITY_LEN
    }

    /// Builds an identity from raw bytes, rejecting any buffer that is not
    /// exactly 32 bytes long.
    pub fn from_bytes(bytes: Vec<u8>) -> (r: Result<Identity, FarmError>)
        ensures
            bytes@.len() == IDENTITY_LEN ==> (r matches Ok(id) && id@ == bytes@ && id.wf()),
            bytes@.len() != IDENTITY_LEN ==> r == Err::<Identity, FarmError>(FarmError::InvalidRecordData),
    {
        if bytes.len() == IDENTITY_LEN {
            Ok(Identity { bytes })
        } else {
            Err(FarmError::InvalidRecordData)
        }
    }

    /// The all-zero identity, used as a placeholder before a field is set.
    pub fn zeroed() -> (r: Identity)
        ensures
            r.wf(),
            forall|i: int| 0 <= i < IDENTITY_LEN ==> r@[i] == 0u8,
    {
        let mut bytes: Vec<u8> = Vec::new();
        let mut i: usize = 0;
        while i < IDENTITY_LEN
            invariant
                i <= IDENTITY_LEN,
                bytes@.len() == i,
                forall|k: int| 0 <= k < i ==> bytes@[k] == 0u8,
            decreases IDENTITY_LEN - i,
        {
            bytes.push(0u8);
            i = i + 1;
        }
        Identity { bytes }
    }

    /// A fresh identity holding the same bytes.
    pub fn duplicate(&self) -> (r: Identity)
        ensures
            r@ == self@,
    {
        let copied = vstd::slice::slice_to_vec(self.bytes.as_slice());
        Identity { bytes: copied }
    }

    /// Byte-for-byte equality of two identities.
    pub fn same_as(&self, other: &Identity) -> (r: bool)
        ensures
            r <==> self@ == other@,
    {
        if self.bytes.len() != other.bytes.len() {
            proof {
                assert(self@.len() != other@.len());
            }
            return false;
        }
        let n = self.bytes.len();
        let mut i: usize = 0;
        while i < n
            invariant
                i <= n,
                n == self.bytes@.len(),
                n == other.bytes@.len(),
                forall|k: int| 0 <= k < i ==> self@[k] == other@[k],
            decreases n - i,
        {
            if self.bytes[i] != other.bytes[i] {
                return false;
            }
            i = i + 1;
        }
        proof {
            assert(self@ =~= other@);
        }
        true
    }
}

} // verus!
