//! Deterministic derivation of a counter's storage address.
//!
//! The storage address of an owner's counter is a one-way function of a
//! fixed domain tag and the owner's identity, disambiguated by a bump byte
//! chosen so that the address is not a valid point on the signing-key curve.
//! Any party can re-derive it from the owner identity alone; no hidden state
//! is involved.

use vstd::prelude::*;

verus! {

/// What the host's derivation returns for a given tag, owner identity and
/// program identity: the first off-curve derived address and the bump byte
/// that produced it, or nothing if no bump byte yields one.
pub uninterp spec fn derived_address(tag: Seq<u8>, owner: Seq<u8>, program: Seq<u8>) -> Option<
    (Seq<u8>, u8),
>;

/// Whether 32 bytes form a valid point on the signing-key curve, i.e. an
/// address a private key could control.
pub uninterp spec fn address_on_curve(key: Seq<u8>) -> bool;

/// The domain tag that separates this resource type's derived addresses
/// from every other use of the same owner identity: the bytes `"counter"`.
pub open spec fn spec_domain_tag() -> Seq<u8> {
    seq![0x63u8, 0x6fu8, 0x75u8, 0x6eu8, 0x74u8, 0x65u8, 0x72u8]
}

/// The storage address (and bump) of `owner`'s counter under `program`:
/// the derivation applied to the domain tag and the owner identity.
pub open spec fn counter_address(owner: Seq<u8>, program: Seq<u8>) -> Option<(Seq<u8>, u8)> {
    derived_address(spec_domain_tag(), owner, program)
}

/// The domain tag as a concrete buffer, for callers that assemble the
/// derivation seeds themselves (e.g. to authorize provisioning).
pub fn domain_tag() -> (r: Vec<u8>)
    ensures
        r@ == spec_domain_tag(),
{
    let mut v: Vec<u8> = Vec::new();
    v.push(0x63);
    v.push(0x6f);
    v.push(0x75);
    v.push(0x6e);
    v.push(0x74);
    v.push(0x65);
    v.push(0x72);
    proof {
        assert(v@ =~= spec_domain_tag());
    }
    v
}

/// Relies on `Pubkey::try_find_program_address` of `solana_program`: a
/// deterministic search, over bump bytes from high to low, for the first
/// hash of (seeds, bump, program id) that is not a curve point. It returns
/// that address and bump, or `None` if no bump byte yields an off-curve
/// address or a seed is over the host's length limit; it never panics.
#[verifier::external_body]
fn host_derive(tag: &Vec<u8>, owner: &Vec<u8>, program: &Vec<u8>) -> (r: Option<(Vec<u8>, u8)>)
    requires
        program@.len() == 32,
    ensures
        r is Some <==> derived_address(tag@, owner@, program@) is Some,
        r matches Some(p) ==> derived_address(tag@, owner@, program@) == Some((p.0@, p.1))
            && p.0@.len() == 32 && !address_on_curve(p.0@),
{
    let program_id = solana_program::pubkey::Pubkey::try_from(program.as_slice()).unwrap();
    match solana_program::pubkey::Pubkey::try_find_program_address(
        &[tag.as_slice(), owner.as_slice()],
        &program_id,
    ) {
        Some((address, bump)) => Some((address.to_bytes().to_vec(), bump)),
        None => None,
    }
}

/// Relies on `Pubkey::is_on_curve` of `solana_program`: whether the bytes
/// decompress to a valid point on the ed25519 curve, a pure function of the
/// bytes alone.
#[verifier::external_body]
fn host_on_curve(key: &Vec<u8>) -> (r: bool)
    requires
        key@.len() == 32,
    ensures
        r == address_on_curve(key@),
{
    let key = solana_program::pubkey::Pubkey::try_from(key.as_slice()).unwrap();
    key.is_on_curve()
}

/// Derive the storage address of `owner`'s counter under `program_id`.
///
/// The result is a function of the two identities alone: repeated calls, by
/// any party, return the same address and bump. When an address is found it
/// is never a valid point on the signing-key curve, so no private key can
/// control it. `None` — statistically unreachable for full-width
/// identities — means no bump byte yields an off-curve address.
pub fn derive_address(owner: &Vec<u8>, program_id: &Vec<u8>) -> (r: Option<(Vec<u8>, u8)>)
    requires
        owner@.len() == 32,
        program_id@.len() == 32,
    ensures
        r is Some <==> counter_address(owner@, program_id@) is Some,
        r matches Some(p) ==> counter_address(owner@, program_id@) == Some((p.0@, p.1))
            && p.0@.len() == 32 && !address_on_curve(p.0@),
{
    let tag = domain_tag();
    host_derive(&tag, owner, program_id)
}

/// Whether `key` is a valid point on the signing-key curve, i.e. an address
/// that a private key could control. Always false of a derived address.
pub fn key_is_on_curve(key: &Vec<u8>) -> (r: bool)
    requires
        key@.len() == 32,
    ensures
        r == address_on_curve(key@),
{
    host_on_curve(key)
}

} // verus!
