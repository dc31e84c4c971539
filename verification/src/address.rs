use vstd::prelude::*;
use anchor_lang::solana_program::pubkey::Pubkey;
use anchor_lang::solana_program::program_pack::Pack;

verus! {

/// A 32-byte ledger identity (an account, a mint, or a program), held as
/// plain bytes.
#[derive(Clone, Copy, Debug, PartialEq, Eq)]
pub struct Address {
    /// The raw 32 bytes of the identity.
    pub bytes: [u8; 32],
}

/// The five-part identity tuple that fully determines one escrow: two
/// escrows with the same tuple are the same record. Order matters: the tuple
/// is the derivation input.
#[derive(Clone, Copy, Debug, PartialEq, Eq)]
pub struct DerivationKey {
    /// The seller's account that receives the purchase proceeds.
    pub seller_proceeds_account: Address,
    /// The account that will receive the vaulted asset on purchase.
    pub receiver: Address,
    /// The mint of the asset held in escrow.
    pub mint: Address,
    /// The mint of the asset used to pay for purchases.
    pub purchase_mint: Address,
    /// The depositing party, who also funded the record's storage.
    pub depositor: Address,
}

/// The fixed first seed of every escrow record derivation: the bytes of
/// "escrow".
pub open spec fn escrow_seed() -> Seq<u8> {
    seq![101u8, 115u8, 99u8, 114u8, 111u8, 119u8]
}

/// The escrow program's own 32-byte identity, under which record addresses
/// are derived.
pub open spec fn escrow_program_id() -> Seq<u8> {
    seq![
        218u8, 7u8, 92u8, 178u8, 255u8, 94u8, 198u8, 129u8,
        118u8, 19u8, 222u8, 83u8, 11u8, 105u8, 42u8, 135u8,
        53u8, 71u8, 119u8, 105u8, 218u8, 71u8, 67u8, 12u8,
        189u8, 129u8, 84u8, 51u8, 92u8, 74u8, 131u8, 39u8,
    ]
}

/// The bytes of `escrow_seed()` as an executable value.
fn escrow_seed_bytes() -> (r: [u8; 6])
    ensures
        r@ == escrow_seed(),
{
    let r: [u8; 6] = [101, 115, 99, 114, 111, 119];
    proof {
        assert(r@ =~= escrow_seed());
    }
    r
}

/// The escrow program's identity as an executable value.
fn program_id_address() -> (r: Address)
    ensures
        r.bytes@ == escrow_program_id(),
{
    let bytes: [u8; 32] = [
        218, 7, 92, 178, 255, 94, 198, 129,
        118, 19, 222, 83, 11, 105, 42, 135,
        53, 71, 119, 105, 218, 71, 67, 12,
        189, 129, 84, 51, 92, 74, 131, 39,
    ];
    proof {
        assert(bytes@ =~= escrow_program_id());
    }
    Address { bytes }
}

/// What `Pubkey::try_find_program_address` returns for six seeds under a
/// program id: the derived address bytes with the chosen bump, or nothing in
/// the statistically improbable case that no bump yields a valid address.
/// The derivation is a pure function of the seeds and program id alone.
pub uninterp spec fn pda_of(prefix: Seq<u8>, k1: Seq<u8>, k2: Seq<u8>, k3: Seq<u8>, k4: Seq<u8>, k5: Seq<u8>, program_id: Seq<u8>) -> Option<(Seq<u8>, u8)>;

/// Relies on `Pubkey::try_find_program_address` (reached through
/// `anchor_lang::solana_program`): a deterministic, SHA-256-based derivation
/// from the seed list and program id alone, returning the derived address
/// and the largest viable bump, or `None` when no bump is viable.
#[verifier::external_body]
fn find_record_address(prefix: &[u8; 6], k1: &Address, k2: &Address, k3: &Address, k4: &Address, k5: &Address, program_id: &Address) -> (r: Option<(Address, u8)>)
    ensures
        r matches Some(p) ==> pda_of(prefix@, k1.bytes@, k2.bytes@, k3.bytes@, k4.bytes@, k5.bytes@, program_id.bytes@) == Some((p.0.bytes@, p.1)),
        r is None ==> pda_of(prefix@, k1.bytes@, k2.bytes@, k3.bytes@, k4.bytes@, k5.bytes@, program_id.bytes@) is None,
{
    let pid = Pubkey::new_from_array(program_id.bytes);
    let seeds: &[&[u8]] = &[prefix, &k1.bytes, &k2.bytes, &k3.bytes, &k4.bytes, &k5.bytes];
    match Pubkey::try_find_program_address(seeds, &pid) {
        Some((addr, bump)) => Some((Address { bytes: addr.to_bytes() }, bump)),
        None => None,
    }
}

/// What `get_associated_token_address` returns: the deterministic
/// owner-and-mint-keyed address of an owner's associated token account.
pub uninterp spec fn ata_of(owner: Seq<u8>, mint: Seq<u8>) -> Seq<u8>;

/// Relies on `spl_associated_token_account::get_associated_token_address`: a
/// deterministic derivation from the owner and mint alone.
#[verifier::external_body]
fn associated_token_address(owner: &Address, mint: &Address) -> (r: Address)
    ensures
        r.bytes@ == ata_of(owner.bytes@, mint.bytes@),
{
    let o = Pubkey::new_from_array(owner.bytes);
    let m = Pubkey::new_from_array(mint.bytes);
    let a = spl_associated_token_account::get_associated_token_address(&o, &m);
    Address { bytes: a.to_bytes() }
}

/// Relies on `spl_token::state::Multisig`'s `Pack` implementation: the
/// packed length of a multi-signer authority account is the constant 355.
#[verifier::external_body]
fn multisig_packed_len() -> (r: usize)
    ensures
        r == 355,
{
    spl_token::state::Multisig::get_packed_len()
}

/// Whether an authority account's data length marks it as a multi-signer
/// construct rather than a single signing key.
pub fn is_multisig_account(data_len: usize) -> (r: bool)
    ensures
        r == (data_len == 355),
{
    data_len == multisig_packed_len()
}

/// The record address and authority bump that a derivation key determines:
/// the escrow's sole identity.
pub open spec fn record_derivation(key: DerivationKey) -> Option<(Seq<u8>, u8)> {
    pda_of(
        escrow_seed(),
        key.seller_proceeds_account.bytes@,
        key.receiver.bytes@,
        key.mint.bytes@,
        key.purchase_mint.bytes@,
        key.depositor.bytes@,
        escrow_program_id(),
    )
}

/// Derives the escrow record's address and its authority bump from the
/// five-part identity tuple. Any party can recompute this from public
/// identifiers alone; no index of open escrows is needed.
pub fn derive_record_address(key: &DerivationKey) -> (r: Option<(Address, u8)>)
    ensures
        r matches Some(p) ==> record_derivation(*key) == Some((p.0.bytes@, p.1)),
        r is None ==> record_derivation(*key) is None,
{
    let prefix = escrow_seed_bytes();
    let pid = program_id_address();
    find_record_address(
        &prefix,
        &key.seller_proceeds_account,
        &key.receiver,
        &key.mint,
        &key.purchase_mint,
        &key.depositor,
        &pid,
    )
}

/// Derives the vault's address: the record's associated token account for
/// the escrowed asset's mint.
pub fn derive_vault_address(record_address: &Address, mint: &Address) -> (r: Address)
    ensures
        r.bytes@ == ata_of(record_address.bytes@, mint.bytes@),
{
    associated_token_address(record_address, mint)
}

/// Byte-for-byte equality of two 32-byte identities.
pub fn bytes32_eq(a: &[u8; 32], b: &[u8; 32]) -> (r: bool)
    ensures
        r == (a@ == b@),
{
    let mut i: usize = 0;
    while i < 32
        invariant
            i <= 32,
            forall|j: int| 0 <= j < i ==> a@[j] == b@[j],
        decreases 32 - i,
    {
        if a[i] != b[i] {
            return false;
        }
        i = i + 1;
    }
    proof {
        assert(a@ =~= b@);
    }
    true
}

/// Checks that a caller-supplied record address and bump reproduce the
/// derivation exactly: operations on an escrow are rejected unless the
/// supplied identity matches what the tuple derives.
pub fn check_record_address(key: &DerivationKey, claimed: &Address, claimed_bump: u8) -> (r: bool)
    ensures
        r == (record_derivation(*key) == Some((claimed.bytes@, claimed_bump))),
{
    match derive_record_address(key) {
        None => false,
        Some((addr, bump)) => bytes32_eq(&addr.bytes, &claimed.bytes) && bump == claimed_bump,
    }
}

/// Checks that a caller-supplied vault address is the record's associated
/// token account for the escrowed mint.
pub fn check_vault_address(record_address: &Address, mint: &Address, claimed: &Address) -> (r: bool)
    ensures
        r == (ata_of(record_address.bytes@, mint.bytes@) == claimed.bytes@),
{
    let derived = derive_vault_address(record_address, mint);
    bytes32_eq(&derived.bytes, &claimed.bytes)
}

/// The signer-seed list that lets the escrow act as the vault's owner: the
/// six derivation seeds followed by the stored bump. Reproducing this list
/// is the record's proof of authority; no private key exists.
pub open spec fn authority_seeds(key: DerivationKey, bump: u8) -> Seq<Seq<u8>> {
    seq![
        escrow_seed(),
        key.seller_proceeds_account.bytes@,
        key.receiver.bytes@,
        key.mint.bytes@,
        key.purchase_mint.bytes@,
        key.depositor.bytes@,
        seq![bump],
    ]
}

/// Copies an address's bytes into a growable buffer.
fn address_bytes_vec(a: &Address) -> (r: Vec<u8>)
    ensures
        r@ == a.bytes@,
{
    let mut r: Vec<u8> = Vec::new();
    let mut i: usize = 0;
    while i < 32
        invariant
            i <= 32,
            r@ == a.bytes@.take(i as int),
        decreases 32 - i,
    {
        r.push(a.bytes[i]);
        proof {
            assert(r@ =~= a.bytes@.take(i as int + 1));
        }
        i = i + 1;
    }
    proof {
        assert(a.bytes@.take(32) =~= a.bytes@);
    }
    r
}

/// Builds the executable signer-seed list for the vault authority, exactly
/// `authority_seeds(key, bump)`.
pub fn signer_seeds(key: &DerivationKey, bump: u8) -> (r: Vec<Vec<u8>>)
    ensures
        r@.len() == 7,
        forall|i: int| 0 <= i < 7 ==> r@[i]@ == authority_seeds(*key, bump)[i],
{
    let mut r: Vec<Vec<u8>> = Vec::new();
    let mut prefix: Vec<u8> = Vec::new();
    prefix.push(101);
    prefix.push(115);
    prefix.push(99);
    prefix.push(114);
    prefix.push(111);
    prefix.push(119);
    proof {
        assert(prefix@ =~= escrow_seed());
    }
    r.push(prefix);
    r.push(address_bytes_vec(&key.seller_proceeds_account));
    r.push(address_bytes_vec(&key.receiver));
    r.push(address_bytes_vec(&key.mint));
    r.push(address_bytes_vec(&key.purchase_mint));
    r.push(address_bytes_vec(&key.depositor));
    let mut bump_seed: Vec<u8> = Vec::new();
    bump_seed.push(bump);
    proof {
        assert(bump_seed@ =~= seq![bump]);
    }
    r.push(bump_seed);
    r
}

} // verus!
