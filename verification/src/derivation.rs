use vstd::prelude::*;
use crate::address::Address;
use solana_program::pubkey::Pubkey;

verus! {

/// The address that the runtime derives from a domain tag, a seed key and a
/// bump under a program, or `None` where that tuple gives no usable address.
pub uninterp spec fn derived_address(tag: Seq<u8>, key: Seq<u8>, bump: u8, program: Seq<u8>) -> Option<Seq<u8>>;

/// The address and bump that the runtime's bump search gives for a domain tag
/// and a seed key under a program, or `None` where the search finds none.
pub uninterp spec fn found_address(tag: Seq<u8>, key: Seq<u8>, program: Seq<u8>) -> Option<(Seq<u8>, u8)>;

/// The bytes of an optional address.
pub open spec fn address_bytes(a: Option<Address>) -> Option<Seq<u8>> {
    match a {
        Some(x) => Some(x@),
        None => None,
    }
}

/// The bytes and bump of an optional search result.
pub open spec fn found_bytes(f: Option<(Address, u8)>) -> Option<(Seq<u8>, u8)> {
    match f {
        Some((x, b)) => Some((x@, b)),
        None => None,
    }
}

/// The tuple that re-derives an address: proof of control in place of a signature.
#[derive(Debug)]
pub struct DerivationProof {
    pub tag: Vec<u8>,
    pub seed_key: Address,
    pub bump: u8,
}

impl DerivationProof {
    /// The address that this proof stands for under `program`, if any.
    pub open spec fn target(&self, program: Seq<u8>) -> Option<Seq<u8>> {
        derived_address(self.tag@, self.seed_key@, self.bump, program)
    }
}

/// The domain tag of a vault's state record.
pub open spec fn state_tag() -> Seq<u8> {
    seq![118u8, 97u8, 117u8, 108u8, 116u8, 95u8, 115u8, 116u8, 97u8, 116u8, 101u8]
}

/// The domain tag of a vault's escrow account.
pub open spec fn escrow_tag() -> Seq<u8> {
    seq![118u8, 97u8, 117u8, 108u8, 116u8]
}

/// The bytes `vault_state`.
pub fn state_tag_bytes() -> (t: Vec<u8>)
    ensures
        t@ == state_tag(),
{
    let t = vec![118u8, 97u8, 117u8, 108u8, 116u8, 95u8, 115u8, 116u8, 97u8, 116u8, 101u8];
    assert(t@ =~= state_tag());
    t
}

/// The bytes `vault`.
pub fn escrow_tag_bytes() -> (t: Vec<u8>)
    ensures
        t@ == escrow_tag(),
{
    let t = vec![118u8, 97u8, 117u8, 108u8, 116u8];
    assert(t@ =~= escrow_tag());
    t
}

/// Calls `Pubkey::create_program_address` with the seeds `tag`, the bytes of
/// `key` and the one byte `bump`. The contract claims only that the outcome is
/// the derivation named `derived_address` of these arguments: `None` stands
/// for any error of the call (a seed that is too long, or a hash that lies on
/// the curve).
#[verifier::external_body]
pub(crate) fn create_program_address(tag: &Vec<u8>, key: &Address, bump: u8, program: &Address) -> (r: Option<Address>)
    ensures
        address_bytes(r) == derived_address(tag@, key@, bump, program@),
{
    let id = Pubkey::new_from_array(program.bytes);
    match Pubkey::create_program_address(&[tag.as_slice(), &key.bytes, &[bump]], &id) {
        Ok(found) => Some(Address { bytes: found.to_bytes() }),
        Err(_) => None,
    }
}

/// Calls `Pubkey::try_find_program_address` with the seeds `tag` and the bytes
/// of `key`. The contract claims that the outcome is the search named
/// `found_address` of these arguments, and that a found address is the one
/// derived from the same seeds with the found bump: the search returns what
/// the derivation gave for the seeds followed by that bump.
#[verifier::external_body]
pub(crate) fn find_program_address(tag: &Vec<u8>, key: &Address, program: &Address) -> (r: Option<(Address, u8)>)
    ensures
        found_bytes(r) == found_address(tag@, key@, program@),
        r matches Some((a, b)) ==> derived_address(tag@, key@, b, program@) == Some(a@),
{
    let id = Pubkey::new_from_array(program.bytes);
    match Pubkey::try_find_program_address(&[tag.as_slice(), &key.bytes], &id) {
        Some((found, bump)) => Some((Address { bytes: found.to_bytes() }, bump)),
        None => None,
    }
}

/// Derives the address that a proof stands for under `program`.
pub fn rederive(proof: &DerivationProof, program: &Address) -> (r: Option<Address>)
    ensures
        address_bytes(r) == proof.target(program@),
{
    create_program_address(&proof.tag, &proof.seed_key, proof.bump, program)
}

/// Whether a derivation whose outcome is `derived` proves control of
/// `account`: it does when it gave exactly that address.
pub fn proves_control(derived: Option<Address>, account: &Address) -> (ok: bool)
    ensures
        ok == (address_bytes(derived) == Some(account@)),
{
    match derived {
        Some(a) => a.same(account),
        None => false,
    }
}

} // verus!
