//! The instruction-processing state machine.
//!
//! A record has the implicit states Uninitialized and Initialized(count).
//! Init moves Uninitialized to Initialized(0), provisioning the backing
//! account on first use; Increment and Decrement move Initialized(n) to
//! Initialized(n ± 1), guarded by signature, ownership, derivation and
//! arithmetic checks. Every check is fail-fast: a failed instruction leaves
//! the storage buffer exactly as it was.
//!
//! Provisioning itself — funding and creating the backing account — is the
//! host's work. When Init finds the account not yet owned by the handling
//! program it returns a [`ProvisionRequest`] instead of touching state; the
//! embedding performs the host call it describes and then completes the
//! initialization with [`init_finish`].

use crate::accounts::{bytes_clone, bytes_eq, Account, AccountV};
use crate::codec::{decode, encode, spec_decode, spec_encode, Counter, CounterV, COUNTER_LEN};
use crate::derive::{counter_address, derive_address};
use crate::error::CounterError;
use crate::instruction::{parse_instruction, spec_parse_instruction, CounterIx};
use vstd::prelude::*;

verus! {

/// A host account-creation call that the embedding must perform on the
/// library's behalf: create the account at `address`, funded by `payer` to
/// the host's rent minimum for `space` bytes, sized to `space`, owned by the
/// handling program, authorized by the derivation seeds (domain tag, payer
/// identity, `bump`) rather than a signature.
pub struct ProvisionRequest {
    /// The authority whose counter is being provisioned; pays the funding.
    pub payer: Vec<u8>,
    /// The derived address to create the account at.
    pub address: Vec<u8>,
    /// Exact size of the account, in bytes.
    pub space: u64,
    /// The disambiguation byte of the derivation, part of the seeds.
    pub bump: u8,
}

/// What one dispatched instruction came to.
pub enum Outcome {
    /// The operation ran to completion and the storage buffer holds the
    /// resulting record.
    Complete,
    /// Init found the storage account not yet owned by the handling
    /// program: the host call described here must run, then
    /// [`init_finish`] completes the initialization. The buffer is
    /// untouched.
    NeedsProvision(ProvisionRequest),
}

/// The ±1 step on a record: rejects a step that would leave the
/// representable range, otherwise changes `count` alone.
pub open spec fn spec_crement_record(c: CounterV, increment: bool) -> Result<
    CounterV,
    CounterError,
> {
    if increment {
        if c.count == u64::MAX {
            Err(CounterError::ArithmeticOverflow)
        } else {
            Ok(CounterV { count: (c.count + 1) as u64, ..c })
        }
    } else {
        if c.count == 0 {
            Err(CounterError::ArithmeticUnderflow)
        } else {
            Ok(CounterV { count: (c.count - 1) as u64, ..c })
        }
    }
}

/// The full Increment/Decrement transition: the new contents of the storage
/// buffer, or the first failed check. The expected address is re-derived
/// from the authority the record itself claims, which re-binds the account
/// to its owner independent of what the caller asserts.
pub open spec fn spec_crement(
    program: Seq<u8>,
    authority: AccountV,
    counter: AccountV,
    increment: bool,
) -> Result<Seq<u8>, CounterError> {
    if !authority.is_signer {
        Err(CounterError::MissingSignature)
    } else if counter.owner != program {
        Err(CounterError::WrongOwner)
    } else {
        match spec_decode(counter.data) {
            Option::None => Err(CounterError::MalformedState),
            Option::Some(rec) => match counter_address(rec.authority, program) {
                Option::None => Err(CounterError::SeedMismatch),
                Option::Some(derived) => if counter.key != derived.0 {
                    Err(CounterError::SeedMismatch)
                } else if rec.authority != authority.key {
                    Err(CounterError::AuthorizationFailure)
                } else {
                    match spec_crement_record(rec, increment) {
                        Err(e) => Err(e),
                        Ok(rec2) => Ok(spec_encode(rec2)),
                    }
                },
            },
        }
    }
}

/// The checks Init makes before anything is written: the authority must
/// have signed, and the supplied storage account must sit at the address
/// derived from the authority's identity. Returns the derivation's bump.
pub open spec fn spec_init_check(program: Seq<u8>, authority: AccountV, counter: AccountV) -> Result<
    u8,
    CounterError,
> {
    if !authority.is_signer {
        Err(CounterError::MissingSignature)
    } else {
        match counter_address(authority.key, program) {
            Option::None => Err(CounterError::SeedMismatch),
            Option::Some(derived) => if counter.key != derived.0 {
                Err(CounterError::SeedMismatch)
            } else {
                Ok(derived.1)
            },
        }
    }
}

/// The record Init writes: the acting authority, a count of zero, and the
/// derivation's bump.
pub open spec fn spec_init_record(authority_key: Seq<u8>, bump: u8) -> CounterV {
    CounterV { authority: authority_key, count: 0, bump: bump }
}

/// The write that completes Init once the storage account is owned by the
/// handling program: the full record buffer, or malformed state if the
/// buffer does not have the exact record size.
pub open spec fn spec_init_finish(
    authority_key: Seq<u8>,
    bump: u8,
    counter: AccountV,
) -> Result<Seq<u8>, CounterError> {
    if counter.data.len() == COUNTER_LEN {
        Ok(spec_encode(spec_init_record(authority_key, bump)))
    } else {
        Err(CounterError::MalformedState)
    }
}

/// What one instruction against one counter account comes to.
pub enum SpecStep {
    /// The buffer's new contents.
    Finished(Seq<u8>),
    /// Init needs the host to provision the account first; the bump of the
    /// derivation it will be authorized with.
    Provision(u8),
}

/// The whole dispatch: decode the payload, route to the matching handler,
/// and give the buffer's new contents, the provisioning request, or the
/// first failed check.
pub open spec fn spec_process(
    program: Seq<u8>,
    authority: AccountV,
    counter: AccountV,
    ix_data: Seq<u8>,
) -> Result<SpecStep, CounterError> {
    match spec_parse_instruction(ix_data) {
        Option::None => Err(CounterError::MalformedInstruction),
        Option::Some(ix) => match ix {
            CounterIx::Init => match spec_init_check(program, authority, counter) {
                Err(e) => Err(e),
                Ok(bump) => if counter.owner == program {
                    match spec_init_finish(authority.key, bump, counter) {
                        Err(e) => Err(e),
                        Ok(d) => Ok(SpecStep::Finished(d)),
                    }
                } else {
                    Ok(SpecStep::Provision(bump))
                },
            },
            CounterIx::Increment => match spec_crement(program, authority, counter, true) {
                Err(e) => Err(e),
                Ok(d) => Ok(SpecStep::Finished(d)),
            },
            CounterIx::Decrement => match spec_crement(program, authority, counter, false) {
                Err(e) => Err(e),
                Ok(d) => Ok(SpecStep::Finished(d)),
            },
        },
    }
}

/// Apply Increment (`increment`) or Decrement (`!increment`) to the counter
/// account, exactly as [`spec_crement`] says: on success the buffer holds
/// the re-encoded record, on any failure it is untouched.
pub fn process_crement(
    program_id: &Vec<u8>,
    authority: &Account,
    counter: &mut Account,
    increment: bool,
) -> (r: Result<(), CounterError>)
    requires
        program_id@.len() == 32,
        authority@.wf(),
        old(counter)@.wf(),
    ensures
        match r {
            Ok(_) => spec_crement(program_id@, authority@, old(counter)@, increment) matches Ok(d)
                && final(counter)@ == (AccountV { data: d, ..old(counter)@ }),
            Err(e) => spec_crement(program_id@, authority@, old(counter)@, increment) == Err::<
                Seq<u8>,
                CounterError,
            >(e) && final(counter)@ == old(counter)@,
        },
{
    if !authority.is_signer {
        return Err(CounterError::MissingSignature);
    }
    if !bytes_eq(&counter.owner, program_id) {
        return Err(CounterError::WrongOwner);
    }
    let rec = match decode(&counter.data) {
        Ok(rec) => rec,
        Err(e) => { return Err(e); },
    };
    let derived = match derive_address(&rec.authority, program_id) {
        Some(derived) => derived,
        None => { return Err(CounterError::SeedMismatch); },
    };
    if !bytes_eq(&counter.key, &derived.0) {
        return Err(CounterError::SeedMismatch);
    }
    if !bytes_eq(&rec.authority, &authority.key) {
        return Err(CounterError::AuthorizationFailure);
    }
    let new_count: u64 = if increment {
        if rec.count == u64::MAX {
            return Err(CounterError::ArithmeticOverflow);
        } else {
            rec.count + 1
        }
    } else {
        if rec.count == 0 {
            return Err(CounterError::ArithmeticUnderflow);
        } else {
            rec.count - 1
        }
    };
    let new_rec = Counter { authority: rec.authority, count: new_count, bump: rec.bump };
    let bytes = encode(&new_rec);
    counter.data = bytes;
    Ok(())
}

/// Complete Init against a storage account the handling program already
/// owns: write the full record — the acting authority, a count of zero, the
/// derivation's bump — exactly as [`spec_init_finish`] says. A buffer of
/// the wrong size is malformed state and is left untouched.
///
/// Running Init again on an already-initialized account resets its count to
/// zero and rewrites the same authority and bump; see
/// [`lemma_init_idempotent`].
pub fn init_finish(authority_key: &Vec<u8>, bump: u8, counter: &mut Account) -> (r: Result<
    (),
    CounterError,
>)
    requires
        authority_key@.len() == 32,
    ensures
        match r {
            Ok(_) => spec_init_finish(authority_key@, bump, old(counter)@) matches Ok(d)
                && final(counter)@ == (AccountV { data: d, ..old(counter)@ }),
            Err(e) => spec_init_finish(authority_key@, bump, old(counter)@) == Err::<
                Seq<u8>,
                CounterError,
            >(e) && final(counter)@ == old(counter)@,
        },
{
    if counter.data.len() != COUNTER_LEN {
        return Err(CounterError::MalformedState);
    }
    let rec = Counter { authority: bytes_clone(authority_key), count: 0, bump: bump };
    let bytes = encode(&rec);
    counter.data = bytes;
    Ok(())
}

/// Process one instruction: decode `ix_data`, route to the matching
/// handler, and mutate the counter account exactly as [`spec_process`]
/// says. `Ok(Outcome::NeedsProvision(..))` carries the host call the
/// embedding must perform before completing Init with [`init_finish`]; in
/// that case, and on every error, the account is untouched.
pub fn process_instruction(
    program_id: &Vec<u8>,
    authority: &Account,
    counter: &mut Account,
    ix_data: &Vec<u8>,
) -> (r: Result<Outcome, CounterError>)
    requires
        program_id@.len() == 32,
        authority@.wf(),
        old(counter)@.wf(),
    ensures
        match spec_process(program_id@, authority@, old(counter)@, ix_data@) {
            Err(e) => r matches Err(e2) && e2 == e && final(counter)@ == old(counter)@,
            Ok(SpecStep::Finished(d)) => r matches Ok(o) && o is Complete && final(counter)@ == (
            AccountV { data: d, ..old(counter)@ }),
            Ok(SpecStep::Provision(b)) => final(counter)@ == old(counter)@ && (r matches Ok(o)
                && o matches Outcome::NeedsProvision(req) && req.payer@ == authority@.key
                && req.address@ == old(counter)@.key && req.space == COUNTER_LEN && req.bump == b),
        },
{
    let ix = match parse_instruction(ix_data) {
        Ok(ix) => ix,
        Err(e) => { return Err(e); },
    };
    match ix {
        CounterIx::Init => {
            if !authority.is_signer {
                return Err(CounterError::MissingSignature);
            }
            let derived = match derive_address(&authority.key, program_id) {
                Some(derived) => derived,
                None => { return Err(CounterError::SeedMismatch); },
            };
            if !bytes_eq(&counter.key, &derived.0) {
                return Err(CounterError::SeedMismatch);
            }
            if bytes_eq(&counter.owner, program_id) {
                match init_finish(&authority.key, derived.1, counter) {
                    Ok(_) => Ok(Outcome::Complete),
                    Err(e) => Err(e),
                }
            } else {
                Ok(
                    Outcome::NeedsProvision(
                        ProvisionRequest {
                            payer: bytes_clone(&authority.key),
                            address: bytes_clone(&counter.key),
                            space: COUNTER_LEN as u64,
                            bump: derived.1,
                        },
                    ),
                )
            }
        },
        CounterIx::Increment => {
            match process_crement(program_id, authority, counter, true) {
                Ok(_) => Ok(Outcome::Complete),
                Err(e) => Err(e),
            }
        },
        CounterIx::Decrement => {
            match process_crement(program_id, authority, counter, false) {
                Ok(_) => Ok(Outcome::Complete),
                Err(e) => Err(e),
            }
        },
    }
}

/// Init is idempotent on an already-provisioned, already-initialized
/// account: running it again with the same signer rewrites the identical
/// record, so the stored authority and bump are never corrupted and the
/// count is (re)set to zero.
pub proof fn lemma_init_idempotent(
    program: Seq<u8>,
    authority: AccountV,
    counter: AccountV,
    d: Seq<u8>,
)
    requires
        authority.wf(),
        spec_process(program, authority, counter, seq![0u8]) == Ok::<SpecStep, CounterError>(
            SpecStep::Finished(d),
        ),
    ensures
        spec_process(program, authority, (AccountV { data: d, ..counter }), seq![0u8]) == Ok::<
            SpecStep,
            CounterError,
        >(SpecStep::Finished(d)),
{
    let bump = spec_init_check(program, authority, counter)->Ok_0;
    crate::codec::lemma_encode_len(spec_init_record(authority.key, bump));
}

/// After a completed Init the stored record is self-consistent: it names
/// the acting authority, a count of zero and the derivation's bump, and the
/// storage account sits at the address derived from the very authority the
/// record stores.
pub proof fn lemma_init_self_consistent(
    program: Seq<u8>,
    authority: AccountV,
    counter: AccountV,
    d: Seq<u8>,
)
    requires
        authority.wf(),
        spec_process(program, authority, counter, seq![0u8]) == Ok::<SpecStep, CounterError>(
            SpecStep::Finished(d),
        ),
    ensures
        spec_decode(d) matches Some(rec) && (rec.authority == authority.key && rec.count == 0 && (
        counter_address(rec.authority, program) matches Some(der) && counter.key == der.0
            && rec.bump == der.1)),
{
    let bump = spec_init_check(program, authority, counter)->Ok_0;
    crate::codec::lemma_codec_round_trip(spec_init_record(authority.key, bump));
}

/// Increment and Decrement fail with `AuthorizationFailure` whenever the
/// acting signer's identity differs from the authority the record itself
/// stores — even against a well-formed record in an account whose address
/// matches its own derivation.
pub proof fn lemma_crement_authorization(
    program: Seq<u8>,
    authority: AccountV,
    counter: AccountV,
    increment: bool,
)
    requires
        authority.is_signer,
        counter.owner == program,
        spec_decode(counter.data) matches Some(rec) && (counter_address(rec.authority, program)
            matches Some(derived) && counter.key == derived.0 && rec.authority != authority.key),
    ensures
        spec_crement(program, authority, counter, increment) == Err::<Seq<u8>, CounterError>(
            CounterError::AuthorizationFailure,
        ),
{
}

/// A counter at zero never wraps: Decrement fails with
/// `ArithmeticUnderflow`, and (by the contract of [`process_crement`]) a
/// failed instruction leaves the stored count at zero.
pub proof fn lemma_no_underflow(program: Seq<u8>, authority: AccountV, counter: AccountV)
    requires
        authority.is_signer,
        counter.owner == program,
        spec_decode(counter.data) matches Some(rec) && (counter_address(rec.authority, program)
            matches Some(derived) && counter.key == derived.0 && rec.authority == authority.key
            && rec.count == 0),
    ensures
        spec_crement(program, authority, counter, false) == Err::<Seq<u8>, CounterError>(
            CounterError::ArithmeticUnderflow,
        ),
{
}

/// A counter at the top of its range never wraps: Increment fails with
/// `ArithmeticOverflow`, and (by the contract of [`process_crement`]) a
/// failed instruction leaves the stored count unchanged.
pub proof fn lemma_no_overflow(program: Seq<u8>, authority: AccountV, counter: AccountV)
    requires
        authority.is_signer,
        counter.owner == program,
        spec_decode(counter.data) matches Some(rec) && (counter_address(rec.authority, program)
            matches Some(derived) && counter.key == derived.0 && rec.authority == authority.key
            && rec.count == u64::MAX),
    ensures
        spec_crement(program, authority, counter, true) == Err::<Seq<u8>, CounterError>(
            CounterError::ArithmeticOverflow,
        ),
{
}

/// Increment and Decrement fail with `SeedMismatch` whenever the supplied
/// storage account's address is not the one derived from the authority the
/// record itself claims — even though the record decodes successfully.
pub proof fn lemma_seed_binding(
    program: Seq<u8>,
    authority: AccountV,
    counter: AccountV,
    increment: bool,
)
    requires
        authority.is_signer,
        counter.owner == program,
        spec_decode(counter.data) matches Some(rec) && (match counter_address(
            rec.authority,
            program,
        ) {
            Option::Some(derived) => counter.key != derived.0,
            Option::None => true,
        }),
    ensures
        spec_crement(program, authority, counter, increment) == Err::<Seq<u8>, CounterError>(
            CounterError::SeedMismatch,
        ),
{
}

/// A successful Increment or Decrement moves the stored count by exactly
/// one and touches nothing else: the re-encoded record keeps the record's
/// authority and bump.
pub proof fn lemma_crement_preserves_identity(
    program: Seq<u8>,
    authority: AccountV,
    counter: AccountV,
    increment: bool,
    d: Seq<u8>,
)
    requires
        spec_crement(program, authority, counter, increment) == Ok::<Seq<u8>, CounterError>(d),
    ensures
        spec_decode(counter.data) matches Some(rec) && (spec_decode(d) matches Some(rec2)
            && rec2.authority == rec.authority && rec2.bump == rec.bump && rec2.count == (
        if increment {
            rec.count + 1
        } else {
            rec.count - 1
        })),
{
    let rec = spec_decode(counter.data)->Some_0;
    let rec2 = spec_crement_record(rec, increment)->Ok_0;
    crate::codec::lemma_codec_round_trip(rec2);
}

} // verus!
