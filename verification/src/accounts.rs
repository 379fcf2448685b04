//! Plain-value view of a host account reference.
//!
//! The host resolves and locks the accounts named by an invocation and hands
//! the handlers exclusive access for its duration. The handlers only ever
//! read an account's address, its signer flag, its owning program and its
//! data buffer, so that is all the model carries.

use vstd::prelude::*;

verus! {

/// What the handlers see of one host account reference.
pub struct Account {
    /// The account's address (32 bytes).
    pub key: Vec<u8>,
    /// Whether the holder of this account's private key signed the invocation.
    pub is_signer: bool,
    /// The program that owns the account for write purposes (32 bytes).
    pub owner: Vec<u8>,
    /// The account's data buffer, the single source of truth for its state.
    pub data: Vec<u8>,
}

/// Mathematical model of an account reference.
pub struct AccountV {
    pub key: Seq<u8>,
    pub is_signer: bool,
    pub owner: Seq<u8>,
    pub data: Seq<u8>,
}

impl View for Account {
    type V = AccountV;

    open spec fn view(&self) -> AccountV {
        AccountV {
            key: self.key@,
            is_signer: self.is_signer,
            owner: self.owner@,
            data: self.data@,
        }
    }
}

impl AccountV {
    /// A well-formed account reference carries full-width identities.
    pub open spec fn wf(self) -> bool {
        self.key.len() == 32 && self.owner.len() == 32
    }
}

/// Byte-for-byte equality of two buffers.
pub fn bytes_eq(a: &Vec<u8>, b: &Vec<u8>) -> (r: bool)
    ensures
        r == (a@ == b@),
{
    if a.len() != b.len() {
        return false;
    }
    let mut i: usize = 0;
    while i < a.len()
        invariant
            i <= a.len(),
            a@.len() == b@.len(),
            forall|j: int| 0 <= j < i ==> a@[j] == b@[j],
        decreases a.len() - i,
    {
        if a[i] != b[i] {
            return false;
        }
        i = i + 1;
    }
    proof {
        assert(a@ =~= b@);
    }
    true
}

/// Byte-for-byte copy of a buffer.
pub fn bytes_clone(a: &Vec<u8>) -> (r: Vec<u8>)
    ensures
        r@ == a@,
{
    let mut out: Vec<u8> = Vec::new();
    let mut i: usize = 0;
    while i < a.len()
        invariant
            i <= a.len(),
            out@ =~= a@.subrange(0, i as int),
        decreases a.len() - i,
    {
        out.push(a[i]);
        i = i + 1;
    }
    proof {
        assert(out@ =~= a@);
    }
    out
}

} // verus!
