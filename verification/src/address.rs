//! Addresses, and the derivation of storage addresses from identifying fields.

use vstd::prelude::*;
use vstd::string::StrSliceExecFns;

verus! {

/// A 32-byte address: of a caller, a record, an ownership unit or a program.
#[derive(Clone, Copy, Debug, Eq, Hash)]
pub struct Address {
    pub bytes: [u8; 32],
}

impl View for Address {
    type V = Seq<u8>;

    open spec fn view(&self) -> Seq<u8> {
        self.bytes@
    }
}

impl Address {
    /// The address with these bytes.
    pub fn new(bytes: [u8; 32]) -> (address: Address)
        ensures
            address.bytes == bytes,
    {
        Address { bytes }
    }

    /// The address's bytes.
    pub fn to_bytes(&self) -> (bytes: [u8; 32])
        ensures
            bytes == self.bytes,
    {
        self.bytes
    }
}

/// Two addresses are the same exactly where their bytes are.
pub proof fn same_address_is_same_bytes(a: Address, b: Address)
    ensures
        (a == b) == (a@ == b@),
{
    if a@ == b@ {
        assert(a.bytes =~= b.bytes);
    }
}

impl PartialEq for Address {
    fn eq(&self, other: &Address) -> (same: bool) {
        let mut i: usize = 0;
        while i < 32
            invariant
                i <= 32,
                forall|k: int| 0 <= k < i ==> self.bytes[k] == other.bytes[k],
            decreases 32 - i,
        {
            if self.bytes[i] != other.bytes[i] {
                return false;
            }
            i += 1;
        }
        assert(self.bytes@ =~= other.bytes@);
        true
    }
}

impl vstd::std_specs::cmp::PartialEqSpecImpl for Address {
    open spec fn obeys_eq_spec() -> bool {
        true
    }

    open spec fn eq_spec(&self, other: &Address) -> bool {
        self@ == other@
    }
}

/// What `Pubkey::try_find_program_address` returns for a list of seeds and the
/// bytes of a program's address: the derived address with the nonce that
/// fixes it, or `None` where no address can be derived from these seeds.
pub uninterp spec fn program_address(seeds: Seq<Seq<u8>>, program_id: Seq<u8>) -> Option<
    (Seq<u8>, u8),
>;

/// What `Pubkey::create_program_address` returns for a list of seeds, the
/// nonce being the last of them, and the bytes of a program's address: the
/// address that exactly these seeds give, or `None` where they give none.
pub uninterp spec fn created_address(seeds: Seq<Seq<u8>>, program_id: Seq<u8>) -> Option<Seq<u8>>;

/// `address` is the address that `seeds`, followed by the nonce `bump`, give
/// under the program `program_id`. This is how an address that was derived
/// once is recognised later, from the nonce that its record keeps.
pub open spec fn verifies(
    seeds: Seq<Seq<u8>>,
    bump: u8,
    program_id: Seq<u8>,
    address: Seq<u8>,
) -> bool {
    created_address(seeds.push(seq![bump]), program_id) == Some(address)
}

/// What a derivation found, as a mathematical value.
pub open spec fn found_view(found: Option<(Address, u8)>) -> Option<(Seq<u8>, u8)> {
    match found {
        Some((address, bump)) => Some((address@, bump)),
        None => None,
    }
}

/// The namespace tag of configuration records.
pub const CONFIG_TAG: &'static str = "config";

/// The namespace tag of ownership units.
pub const MINT_TAG: &'static str = "mint";

/// The namespace tag of boat records.
pub const BOAT_TAG: &'static str = "boat";

/// The bytes of the namespace tag of configuration records.
pub open spec fn config_tag() -> Seq<u8> {
    vstd::utf8::encode_utf8(CONFIG_TAG@)
}

/// The bytes of the namespace tag of ownership units.
pub open spec fn mint_tag() -> Seq<u8> {
    vstd::utf8::encode_utf8(MINT_TAG@)
}

/// The bytes of the namespace tag of boat records.
pub open spec fn boat_tag() -> Seq<u8> {
    vstd::utf8::encode_utf8(BOAT_TAG@)
}

/// Seeds of the configuration record that the authority with these bytes
/// governs.
pub open spec fn config_seeds(authority: Seq<u8>) -> Seq<Seq<u8>> {
    seq![config_tag(), authority]
}

/// Seeds of the ownership unit of the boat that `owner` registers under
/// `registration_number`: the tag, the owner and the number's UTF-8 bytes.
pub open spec fn mint_seeds(owner: Seq<u8>, registration_number: Seq<char>) -> Seq<Seq<u8>> {
    seq![mint_tag(), owner, vstd::utf8::encode_utf8(registration_number)]
}

/// Seeds of the record of the boat whose ownership unit is `mint`.
pub open spec fn boat_seeds(mint: Seq<u8>) -> Seq<Seq<u8>> {
    seq![boat_tag(), mint]
}

/// The seeds by which the program signs for an ownership unit: the unit's
/// seeds, then its nonce.
pub open spec fn mint_signer_seeds(
    owner: Seq<u8>,
    registration_number: Seq<char>,
    bump: u8,
) -> Seq<Seq<u8>> {
    mint_seeds(owner, registration_number).push(seq![bump])
}

/// Calls `Pubkey::try_find_program_address` of the Solana SDK, as
/// `anchor_lang` hands it on, with the seeds as byte slices and `program_id`
/// as a `Pubkey`. Nothing here is proved. The contract gives the result its
/// name, which is to say that the call is a function of its arguments, and
/// claims the one thing that the SDK documents of an address found: that
/// `Pubkey::create_program_address` gives the same address for the same
/// seeds followed by the nonce.
#[verifier::external_body]
fn find_program_address(seeds: &Vec<Vec<u8>>, program_id: &Address) -> (found: Option<
    (Address, u8),
>)
    ensures
        program_address(seeds.deep_view(), program_id@) == found_view(found),
        found matches Some((address, bump)) ==> verifies(
            seeds.deep_view(),
            bump,
            program_id@,
            address@,
        ),
{
    let slices: Vec<&[u8]> = seeds.iter().map(|seed| seed.as_slice()).collect();
    let program = anchor_lang::prelude::Pubkey::new_from_array(program_id.bytes);
    match anchor_lang::prelude::Pubkey::try_find_program_address(&slices, &program) {
        Some((key, bump)) => Some((Address { bytes: key.to_bytes() }, bump)),
        None => None,
    }
}

/// Calls `Pubkey::create_program_address` of the Solana SDK, as `anchor_lang`
/// hands it on, and drops the reason where it fails. Nothing here is proved.
/// The contract gives the result its name and claims nothing more.
#[verifier::external_body]
fn create_program_address(seeds: &Vec<Vec<u8>>, program_id: &Address) -> (created: Option<Address>)
    ensures
        created_address(seeds.deep_view(), program_id@) == match created {
            Some(address) => Some(address@),
            None => None,
        },
{
    let slices: Vec<&[u8]> = seeds.iter().map(|seed| seed.as_slice()).collect();
    let program = anchor_lang::prelude::Pubkey::new_from_array(program_id.bytes);
    match anchor_lang::prelude::Pubkey::create_program_address(&slices, &program) {
        Ok(key) => Some(Address { bytes: key.to_bytes() }),
        Err(_) => None,
    }
}

fn address_bytes(address: &Address) -> (bytes: Vec<u8>)
    ensures
        bytes@ == address@,
{
    vstd::slice::slice_to_vec(address.bytes.as_slice())
}

/// Derives the address, and its nonce, of the configuration record that
/// `authority` governs under the program `program_id`.
pub fn derive_config_address(program_id: &Address, authority: &Address) -> (found: Option<
    (Address, u8),
>)
    ensures
        program_address(config_seeds(authority@), program_id@) == found_view(found),
        found matches Some((address, bump)) ==> verifies(
            config_seeds(authority@),
            bump,
            program_id@,
            address@,
        ),
{
    let mut seeds: Vec<Vec<u8>> = Vec::new();
    seeds.push(CONFIG_TAG.as_bytes_vec());
    seeds.push(address_bytes(authority));
    assert(seeds.deep_view() =~~= config_seeds(authority@));
    find_program_address(&seeds, program_id)
}

/// Derives the address, and its nonce, of the ownership unit of the boat that
/// `owner` registers under `registration_number`.
pub fn derive_mint_address(
    program_id: &Address,
    owner: &Address,
    registration_number: &str,
) -> (found: Option<(Address, u8)>)
    ensures
        program_address(mint_seeds(owner@, registration_number@), program_id@) == found_view(
            found,
        ),
        found matches Some((address, bump)) ==> verifies(
            mint_seeds(owner@, registration_number@),
            bump,
            program_id@,
            address@,
        ),
{
    let mut seeds: Vec<Vec<u8>> = Vec::new();
    seeds.push(MINT_TAG.as_bytes_vec());
    seeds.push(address_bytes(owner));
    seeds.push(registration_number.as_bytes_vec());
    assert(seeds.deep_view() =~~= mint_seeds(owner@, registration_number@));
    find_program_address(&seeds, program_id)
}

/// Derives the address, and its nonce, of the record of the boat whose
/// ownership unit is `mint`.
pub fn derive_boat_address(program_id: &Address, mint: &Address) -> (found: Option<(Address, u8)>)
    ensures
        program_address(boat_seeds(mint@), program_id@) == found_view(found),
        found matches Some((address, bump)) ==> verifies(
            boat_seeds(mint@),
            bump,
            program_id@,
            address@,
        ),
{
    let mut seeds: Vec<Vec<u8>> = Vec::new();
    seeds.push(BOAT_TAG.as_bytes_vec());
    seeds.push(address_bytes(mint));
    assert(seeds.deep_view() =~~= boat_seeds(mint@));
    find_program_address(&seeds, program_id)
}

/// Tells whether `address` is the address of the record of the boat whose
/// ownership unit is `mint`, by the nonce `bump` that the record keeps.
pub fn verify_boat_address(
    program_id: &Address,
    mint: &Address,
    bump: u8,
    address: &Address,
) -> (verified: bool)
    ensures
        verified == verifies(boat_seeds(mint@), bump, program_id@, address@),
{
    let mut seeds: Vec<Vec<u8>> = Vec::new();
    seeds.push(BOAT_TAG.as_bytes_vec());
    seeds.push(address_bytes(mint));
    seeds.push(vec![bump]);
    assert(seeds.deep_view() =~~= boat_seeds(mint@).push(seq![bump]));
    match create_program_address(&seeds, program_id) {
        Some(created) => created == *address,
        None => false,
    }
}

/// Builds the seeds by which the program signs for the ownership unit of the
/// boat that `owner` registered under `registration_number`.
pub fn build_mint_signer_seeds(
    owner: &Address,
    registration_number: &str,
    bump: u8,
) -> (seeds: Vec<Vec<u8>>)
    ensures
        seeds.deep_view() == mint_signer_seeds(owner@, registration_number@, bump),
{
    let mut seeds: Vec<Vec<u8>> = Vec::new();
    seeds.push(MINT_TAG.as_bytes_vec());
    seeds.push(address_bytes(owner));
    seeds.push(registration_number.as_bytes_vec());
    seeds.push(vec![bump]);
    assert(seeds.deep_view() =~~= mint_signer_seeds(owner@, registration_number@, bump));
    seeds
}

} // verus!
