//! Accounts, instructions and transactions, as the test clients build and
//! submit them, together with the structured execution errors the backends
//! report.

use vstd::prelude::*;

use crate::address::Address;
use crate::codec::{push_le_bytes, spec_u64_to_le_bytes};
use crate::decimal::{spec_decimal, u64_to_decimal};

verus! {

/// A structured error of one instruction, the object under test.
#[derive(Clone, Copy, PartialEq, Eq, Structural, Debug)]
pub enum InstructionError {
    /// The instruction tried to initialize an account that already is.
    AccountAlreadyInitialized,
    /// A required signature is missing.
    MissingRequiredSignature,
    /// The instruction data could not be used (malformed, or a slot that is
    /// not recent).
    InvalidInstructionData,
    /// An account argument is not the one the instruction derives (a
    /// lookup-table address other than the derived one).
    InvalidArgument,
}

/// A structured error of one transaction.
#[derive(Clone, Copy, PartialEq, Eq, Structural, Debug)]
pub enum TransactionError {
    /// The instruction at the given index failed.
    InstructionError(u8, InstructionError),
    /// An identical transaction was already processed.
    AlreadyProcessed,
}

/// An account's state on the ledger.
pub struct Account {
    pub lamports: u64,
    pub data: Vec<u8>,
    pub owner: Address,
}

/// The mathematical value of an [`Account`].
#[verifier::ext_equal]
pub ghost struct AccountV {
    pub lamports: u64,
    pub data: Seq<u8>,
    pub owner: Seq<char>,
}

impl View for Account {
    type V = AccountV;

    open spec fn view(&self) -> AccountV {
        AccountV { lamports: self.lamports, data: self.data@, owner: self.owner@ }
    }
}

impl Clone for Account {
    fn clone(&self) -> (r: Self)
        ensures
            r@ == self@,
    {
        let r = Account {
            lamports: self.lamports,
            data: clone_bytes(&self.data),
            owner: self.owner.clone(),
        };
        proof {
            assert(r@ =~= self@);
        }
        r
    }
}

impl PartialEq for Account {
    fn eq(&self, other: &Self) -> (r: bool) {
        let r = self.lamports == other.lamports && self.data == other.data && self.owner
            == other.owner;
        proof {
            if r {
                assert(self@ =~= other@);
            }
        }
        r
    }
}

impl vstd::std_specs::cmp::PartialEqSpecImpl for Account {
    open spec fn obeys_eq_spec() -> bool {
        true
    }

    open spec fn eq_spec(&self, other: &Self) -> bool {
        self@ == other@
    }
}

/// Copies a byte vector.
pub fn clone_bytes(data: &Vec<u8>) -> (r: Vec<u8>)
    ensures
        r@ == data@,
{
    let mut r: Vec<u8> = Vec::new();
    let mut i: usize = 0;
    while i < data.len()
        invariant
            i <= data.len(),
            r@ == data@.take(i as int),
        decreases data.len() - i,
    {
        r.push(data[i]);
        proof {
            assert(r@ =~= data@.take(i + 1));
        }
        i += 1;
    }
    proof {
        assert(data@.take(data@.len() as int) =~= data@);
    }
    r
}

/// One account an instruction touches, with its signer and writability
/// flags.
pub struct AccountMeta {
    pub address: Address,
    pub is_signer: bool,
    pub is_writable: bool,
}

/// The mathematical value of an [`AccountMeta`].
#[verifier::ext_equal]
pub ghost struct AccountMetaV {
    pub address: Seq<char>,
    pub is_signer: bool,
    pub is_writable: bool,
}

impl View for AccountMeta {
    type V = AccountMetaV;

    open spec fn view(&self) -> AccountMetaV {
        AccountMetaV {
            address: self.address@,
            is_signer: self.is_signer,
            is_writable: self.is_writable,
        }
    }
}

impl Clone for AccountMeta {
    fn clone(&self) -> (r: Self)
        ensures
            r@ == self@,
    {
        let r = AccountMeta {
            address: self.address.clone(),
            is_signer: self.is_signer,
            is_writable: self.is_writable,
        };
        proof {
            assert(r@ =~= self@);
        }
        r
    }
}

impl PartialEq for AccountMeta {
    fn eq(&self, other: &Self) -> (r: bool) {
        let r = self.address == other.address && self.is_signer == other.is_signer
            && self.is_writable == other.is_writable;
        proof {
            if r {
                assert(self@ =~= other@);
            }
        }
        r
    }
}

impl vstd::std_specs::cmp::PartialEqSpecImpl for AccountMeta {
    open spec fn obeys_eq_spec() -> bool {
        true
    }

    open spec fn eq_spec(&self, other: &Self) -> bool {
        self@ == other@
    }
}

/// One instruction of a transaction: the program it addresses, the accounts
/// it touches and its input data.
pub struct Instruction {
    pub program_id: Address,
    pub accounts: Vec<AccountMeta>,
    pub data: Vec<u8>,
}

/// The mathematical value of an [`Instruction`].
#[verifier::ext_equal]
pub ghost struct InstructionV {
    pub program_id: Seq<char>,
    pub accounts: Seq<AccountMetaV>,
    pub data: Seq<u8>,
}

impl View for Instruction {
    type V = InstructionV;

    open spec fn view(&self) -> InstructionV {
        InstructionV {
            program_id: self.program_id@,
            accounts: self.accounts@.map_values(|m: AccountMeta| m@),
            data: self.data@,
        }
    }
}

/// Copies a list of account references.
pub fn clone_metas(metas: &Vec<AccountMeta>) -> (r: Vec<AccountMeta>)
    ensures
        r@.map_values(|m: AccountMeta| m@) == metas@.map_values(|m: AccountMeta| m@),
{
    let mut r: Vec<AccountMeta> = Vec::new();
    let mut i: usize = 0;
    while i < metas.len()
        invariant
            i <= metas.len(),
            r@.len() == i,
            forall|k: int| 0 <= k < i ==> (#[trigger] r@[k])@ == metas@[k]@,
        decreases metas.len() - i,
    {
        r.push(metas[i].clone());
        i += 1;
    }
    proof {
        assert(r@.map_values(|m: AccountMeta| m@) =~= metas@.map_values(|m: AccountMeta| m@));
    }
    r
}

impl Clone for Instruction {
    fn clone(&self) -> (r: Self)
        ensures
            r@ == self@,
    {
        let r = Instruction {
            program_id: self.program_id.clone(),
            accounts: clone_metas(&self.accounts),
            data: clone_bytes(&self.data),
        };
        proof {
            assert(r@ =~= self@);
        }
        r
    }
}

impl PartialEq for Instruction {
    fn eq(&self, other: &Self) -> (r: bool) {
        let r = self.program_id == other.program_id && self.accounts == other.accounts
            && self.data == other.data;
        proof {
            if r {
                assert(self@.accounts =~= other@.accounts);
                assert(self@ =~= other@);
            } else {
                if self@ == other@ {
                    assert(self@.accounts == other@.accounts);
                    assert(self@.accounts.len() == self.accounts@.len());
                    assert(other@.accounts.len() == other.accounts@.len());
                    assert forall|k: int|
                        0 <= k < self.accounts@.len() implies (#[trigger] self.accounts@[k])@
                        == other.accounts@[k]@ by {
                        assert(self@.accounts[k] == other@.accounts[k]);
                    }
                }
            }
        }
        r
    }
}

impl vstd::std_specs::cmp::PartialEqSpecImpl for Instruction {
    open spec fn obeys_eq_spec() -> bool {
        true
    }

    open spec fn eq_spec(&self, other: &Self) -> bool {
        self@ == other@
    }
}

/// A transaction: its instructions, the fee payer, who signed it, and the
/// blockhash it was built against.
pub struct Transaction {
    pub instructions: Vec<Instruction>,
    pub payer: Address,
    pub signers: Vec<Address>,
    pub recent_blockhash: u64,
}

/// The mathematical value of a [`Transaction`].
#[verifier::ext_equal]
pub ghost struct TransactionV {
    pub instructions: Seq<InstructionV>,
    pub payer: Seq<char>,
    pub signers: Seq<Seq<char>>,
    pub recent_blockhash: u64,
}

impl View for Transaction {
    type V = TransactionV;

    open spec fn view(&self) -> TransactionV {
        TransactionV {
            instructions: self.instructions@.map_values(|i: Instruction| i@),
            payer: self.payer@,
            signers: self.signers@.map_values(|s: Address| s@),
            recent_blockhash: self.recent_blockhash,
        }
    }
}

impl PartialEq for Transaction {
    fn eq(&self, other: &Self) -> (r: bool) {
        let r = self.instructions == other.instructions && self.payer == other.payer
            && self.signers == other.signers && self.recent_blockhash == other.recent_blockhash;
        proof {
            if r {
                assert(self@.instructions =~= other@.instructions);
                assert(self@.signers =~= other@.signers);
                assert(self@ =~= other@);
            } else {
                if self@ == other@ {
                    assert(self@.instructions == other@.instructions);
                    assert(self@.signers == other@.signers);
                    assert(self@.instructions.len() == self.instructions@.len());
                    assert(other@.instructions.len() == other.instructions@.len());
                    assert(self@.signers.len() == self.signers@.len());
                    assert(other@.signers.len() == other.signers@.len());
                    assert forall|k: int|
                        0 <= k < self.instructions@.len() implies (
                    #[trigger] self.instructions@[k])@ == other.instructions@[k]@ by {
                        assert(self@.instructions[k] == other@.instructions[k]);
                    }
                    assert forall|k: int|
                        0 <= k < self.signers@.len() implies (#[trigger] self.signers@[k])@
                        == other.signers@[k]@ by {
                        assert(self@.signers[k] == other@.signers[k]);
                    }
                }
            }
        }
        r
    }
}

impl vstd::std_specs::cmp::PartialEqSpecImpl for Transaction {
    open spec fn obeys_eq_spec() -> bool {
        true
    }

    open spec fn eq_spec(&self, other: &Self) -> bool {
        self@ == other@
    }
}

/// The address the built-in lookup-table program derives for a table
/// created by `authority` at `recent_slot`.
pub open spec fn spec_derive_lookup_table_address(authority: Seq<char>, recent_slot: u64) -> Seq<
    char,
> {
    authority + "-"@ + spec_decimal(recent_slot as nat)
}

/// Derives the lookup-table address for `authority` at `recent_slot`. The
/// derivation is deterministic, so an identical creation can be re-derived
/// and re-submitted.
pub fn derive_lookup_table_address(authority: &Address, recent_slot: u64) -> (r: Address)
    ensures
        r@ == spec_derive_lookup_table_address(authority@, recent_slot),
{
    let mut s = authority.to_text();
    s.append("-");
    let d = u64_to_decimal(recent_slot);
    s.append(d.as_str());
    Address::new(s)
}

/// The opcode of the idempotent create instruction.
pub const OPCODE_CREATE: u8 = 0;

/// The opcode of the signed, non-idempotent create instruction.
pub const OPCODE_CREATE_SIGNED: u8 = 1;

/// The instruction data of a create instruction: the opcode followed by the
/// recent slot in little-endian bytes.
pub open spec fn spec_create_data(opcode: u8, recent_slot: u64) -> Seq<u8> {
    seq![opcode] + spec_u64_to_le_bytes(recent_slot)
}

/// The account list of a create instruction: the derived table account, the
/// authority, and the fee payer.
pub open spec fn spec_create_accounts(
    target: Seq<char>,
    authority: Seq<char>,
    payer: Seq<char>,
    authority_signs: bool,
) -> Seq<AccountMetaV> {
    seq![
        AccountMetaV { address: target, is_signer: false, is_writable: true },
        AccountMetaV { address: authority, is_signer: authority_signs, is_writable: false },
        AccountMetaV { address: payer, is_signer: true, is_writable: true },
    ]
}

/// The full mathematical value of a create instruction.
pub open spec fn spec_create_instruction(
    program_id: Seq<char>,
    authority: Seq<char>,
    payer: Seq<char>,
    recent_slot: u64,
    opcode: u8,
) -> InstructionV {
    InstructionV {
        program_id: program_id,
        accounts: spec_create_accounts(
            spec_derive_lookup_table_address(authority, recent_slot),
            authority,
            payer,
            opcode == OPCODE_CREATE_SIGNED,
        ),
        data: spec_create_data(opcode, recent_slot),
    }
}

/// The slot encoded into a create instruction's data decodes back to
/// itself: a built create instruction always carries the slot it was built
/// for.
pub proof fn lemma_create_data_slot(opcode: u8, recent_slot: u64)
    ensures
        crate::codec::spec_u64_from_le_bytes(spec_create_data(opcode, recent_slot).subrange(1, 9))
            == recent_slot,
{
    assert(spec_create_data(opcode, recent_slot).subrange(1, 9) =~= spec_u64_to_le_bytes(
        recent_slot,
    ));
    crate::codec::lemma_le_bytes_round_trip(recent_slot);
}

/// Builds the instruction pair shared by both create variants.
fn build_create_instruction(
    authority: &Address,
    payer: &Address,
    recent_slot: u64,
    opcode: u8,
) -> (r: (Instruction, Address))
    requires
        opcode == OPCODE_CREATE || opcode == OPCODE_CREATE_SIGNED,
    ensures
        r.0@ == spec_create_instruction("lookup-table-program"@, authority@, payer@, recent_slot,
            opcode),
        r.1@ == spec_derive_lookup_table_address(authority@, recent_slot),
{
    let target = derive_lookup_table_address(authority, recent_slot);
    let mut accounts: Vec<AccountMeta> = Vec::new();
    accounts.push(AccountMeta { address: target.clone(), is_signer: false, is_writable: true });
    accounts.push(
        AccountMeta {
            address: authority.clone(),
            is_signer: opcode == OPCODE_CREATE_SIGNED,
            is_writable: false,
        },
    );
    accounts.push(AccountMeta { address: payer.clone(), is_signer: true, is_writable: true });
    let mut data: Vec<u8> = Vec::new();
    data.push(opcode);
    proof {
        assert(data@ =~= seq![opcode]);
    }
    push_le_bytes(&mut data, recent_slot);
    proof {
        assert(data@ == spec_create_data(opcode, recent_slot));
    }
    let ix = Instruction {
        program_id: Address::from_str("lookup-table-program"),
        accounts,
        data,
    };
    proof {
        assert(ix@.accounts =~= spec_create_accounts(
            spec_derive_lookup_table_address(authority@, recent_slot),
            authority@,
            payer@,
            opcode == OPCODE_CREATE_SIGNED,
        ));
        assert(ix@ =~= spec_create_instruction("lookup-table-program"@, authority@, payer@,
            recent_slot, opcode));
    }
    (ix, target)
}

/// Builds the idempotent create instruction for a lookup table derived from
/// `authority` and `recent_slot`, returning the instruction and the derived
/// table address. The instruction addresses the program generically; the
/// client substitutes the real program id at transaction construction.
pub fn create_lookup_table(authority: &Address, payer: &Address, recent_slot: u64) -> (r: (
    Instruction,
    Address,
))
    ensures
        r.0@ == spec_create_instruction("lookup-table-program"@, authority@, payer@, recent_slot,
            OPCODE_CREATE),
        r.1@ == spec_derive_lookup_table_address(authority@, recent_slot),
{
    build_create_instruction(authority, payer, recent_slot, OPCODE_CREATE)
}

/// Builds the signed, non-idempotent create instruction, returning the
/// instruction and the derived table address.
pub fn create_lookup_table_signed(authority: &Address, payer: &Address, recent_slot: u64) -> (r: (
    Instruction,
    Address,
))
    ensures
        r.0@ == spec_create_instruction("lookup-table-program"@, authority@, payer@, recent_slot,
            OPCODE_CREATE_SIGNED),
        r.1@ == spec_derive_lookup_table_address(authority@, recent_slot),
{
    build_create_instruction(authority, payer, recent_slot, OPCODE_CREATE_SIGNED)
}

} // verus!
