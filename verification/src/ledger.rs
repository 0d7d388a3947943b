//! The in-process simulated ledger.
//!
//! The in-process backend embeds a deterministic ledger model in the test
//! process: a map from addresses to accounts, the slots pre-seeded into
//! history at startup, the features disabled in genesis, and the
//! transactions already processed. Its program semantics is the built-in
//! lookup-table creation program the harness validates implementations of:
//! an idempotent create instruction and a signed, non-idempotent one, gated
//! by a feature flag.
//!
//! Transactions are atomic: a transaction whose instruction fails leaves
//! the ledger exactly as it was.

use vstd::prelude::*;

use crate::address::{address_set, holds_address, lemma_views_contains, Address};
use crate::codec::{spec_u64_from_le_bytes, u64_from_le_bytes_at};
use crate::config::{BoomerangTestClientConfig, ConfigV};
use crate::transaction::{
    spec_derive_lookup_table_address,
    Account,
    AccountV,
    InstructionError,
    InstructionV,
    Transaction,
    TransactionError,
    TransactionV,
    OPCODE_CREATE,
    OPCODE_CREATE_SIGNED,
};

verus! {

/// The feature that relaxes the authority-signer check of lookup-table
/// creation: while it is active (not disabled), the unsigned create
/// instruction is accepted and is idempotent.
pub open spec fn spec_relax_feature() -> Seq<char> {
    "relax-authority-signer-check-for-lookup-table-creation"@
}

/// The address of the relax-authority-signer feature.
pub fn relax_authority_feature() -> (r: Address)
    ensures
        r@ == spec_relax_feature(),
{
    Address::from_str("relax-authority-signer-check-for-lookup-table-creation")
}

/// The byte layout of a freshly initialized lookup-table account: an
/// initialized tag followed by the creation slot in little-endian bytes.
pub open spec fn spec_fresh_account_data(slot: u64) -> Seq<u8> {
    seq![1u8] + crate::codec::spec_u64_to_le_bytes(slot)
}

/// The state of a freshly initialized lookup-table account.
pub open spec fn spec_fresh_account(slot: u64, owner: Seq<char>) -> AccountV {
    AccountV { lamports: 1, data: spec_fresh_account_data(slot), owner: owner }
}

/// Builds the byte contents of a freshly initialized lookup-table account.
pub fn fresh_account_data(slot: u64) -> (r: Vec<u8>)
    ensures
        r@ == spec_fresh_account_data(slot),
{
    let mut r: Vec<u8> = Vec::new();
    r.push(1u8);
    proof {
        assert(r@ =~= seq![1u8]);
    }
    crate::codec::push_le_bytes(&mut r, slot);
    r
}

/// The account map denoted by an association list; a later entry for the
/// same address supersedes an earlier one.
pub open spec fn accounts_map(s: Seq<(Address, Account)>) -> Map<Seq<char>, AccountV>
    decreases s.len(),
{
    if s.len() == 0 {
        Map::empty()
    } else {
        accounts_map(s.drop_last()).insert(s.last().0@, s.last().1@)
    }
}

/// What executing one instruction does to the account map: either a new
/// account map or the structured error of this instruction. The context
/// (recent slots, disabled features, the transaction's signers) is read
/// only. The authority's signature is checked before the slot and the
/// derived address are: a create without its required signer reports the
/// missing signature even when the slot is stale. While the relax-authority
/// feature is active, the unsigned create needs no authority signature;
/// with the feature disabled, every create demands it.
pub open spec fn spec_instruction_result(
    accounts: Map<Seq<char>, AccountV>,
    recent_slots: Set<u64>,
    features_disabled: Set<Seq<char>>,
    ix: InstructionV,
    signers: Seq<Seq<char>>,
) -> Result<Map<Seq<char>, AccountV>, InstructionError> {
    if !(ix.data.len() == 9 && (ix.data[0] == OPCODE_CREATE || ix.data[0] == OPCODE_CREATE_SIGNED)
        && ix.accounts.len() == 3) {
        Err(InstructionError::InvalidInstructionData)
    } else {
        let opcode = ix.data[0];
        let slot = spec_u64_from_le_bytes(ix.data.subrange(1, 9)) as u64;
        let target = ix.accounts[0].address;
        let authority = ix.accounts[1].address;
        if (opcode == OPCODE_CREATE_SIGNED || features_disabled.contains(spec_relax_feature()))
            && !(ix.accounts[1].is_signer && signers.contains(authority)) {
            Err(InstructionError::MissingRequiredSignature)
        } else if !recent_slots.contains(slot) {
            Err(InstructionError::InvalidInstructionData)
        } else if target != spec_derive_lookup_table_address(authority, slot) {
            Err(InstructionError::InvalidArgument)
        } else if accounts.contains_key(target) {
            if opcode == OPCODE_CREATE && !features_disabled.contains(spec_relax_feature()) {
                Ok(accounts)
            } else {
                Err(InstructionError::AccountAlreadyInitialized)
            }
        } else {
            Ok(accounts.insert(target, spec_fresh_account(slot, ix.program_id)))
        }
    }
}

/// Runs the instructions from index `i` on, threading the account map and
/// reporting the first failure with its instruction index.
pub open spec fn spec_run_instructions(
    accounts: Map<Seq<char>, AccountV>,
    recent_slots: Set<u64>,
    features_disabled: Set<Seq<char>>,
    ixs: Seq<InstructionV>,
    signers: Seq<Seq<char>>,
    i: int,
) -> Result<Map<Seq<char>, AccountV>, (int, InstructionError)>
    decreases ixs.len() - i,
{
    if i < 0 || i >= ixs.len() {
        Ok(accounts)
    } else {
        match spec_instruction_result(accounts, recent_slots, features_disabled, ixs[i], signers) {
            Ok(next) => spec_run_instructions(next, recent_slots, features_disabled, ixs, signers,
                i + 1),
            Err(e) => Err((i, e)),
        }
    }
}

/// The mathematical value of a [`Ledger`].
#[verifier::ext_equal]
pub ghost struct LedgerV {
    pub accounts: Map<Seq<char>, AccountV>,
    pub recent_slots: Set<u64>,
    pub features_disabled: Set<Seq<char>>,
    pub processed: Seq<TransactionV>,
}

/// What processing one transaction does to the ledger: the new ledger and
/// the submission result. A transaction identical to one already processed
/// is rejected; a transaction whose instruction fails leaves the ledger
/// unchanged; a successful transaction commits its account writes and is
/// recorded as processed.
pub open spec fn spec_process(l: LedgerV, tx: TransactionV) -> (LedgerV, Result<
    (),
    TransactionError,
>) {
    if l.processed.contains(tx) {
        (l, Err(TransactionError::AlreadyProcessed))
    } else {
        match spec_run_instructions(l.accounts, l.recent_slots, l.features_disabled,
            tx.instructions, tx.signers, 0) {
            Ok(accounts) => (
                LedgerV { accounts, processed: l.processed.push(tx), ..l },
                Ok(()),
            ),
            Err((i, e)) => (l, Err(TransactionError::InstructionError(i as u8, e))),
        }
    }
}

/// The ledger a backend starts from, as its configuration alone determines
/// it: no accounts, no processed transactions, the configured features
/// disabled, and the warp slot (when one is set) pre-seeded into history.
pub open spec fn spec_genesis(c: ConfigV) -> LedgerV {
    LedgerV {
        accounts: Map::empty(),
        recent_slots: if c.warp_slot > 0 {
            Set::empty().insert(c.warp_slot)
        } else {
            Set::empty()
        },
        features_disabled: c.features_disabled.to_set(),
        processed: Seq::empty(),
    }
}

/// The in-process simulated ledger.
pub struct Ledger {
    accounts: Vec<(Address, Account)>,
    recent_slots: Vec<u64>,
    features_disabled: Vec<Address>,
    processed: Vec<Transaction>,
}

impl View for Ledger {
    type V = LedgerV;

    closed spec fn view(&self) -> LedgerV {
        LedgerV {
            accounts: accounts_map(self.accounts@),
            recent_slots: self.recent_slots@.to_set(),
            features_disabled: address_set(self.features_disabled@),
            processed: self.processed@.map_values(|t: Transaction| t@),
        }
    }
}

/// Finds the index of the live entry for `key`, scanning from the newest
/// entry back.
fn find_account(accounts: &Vec<(Address, Account)>, key: &Address) -> (r: Option<usize>)
    ensures
        match r {
            Some(i) => i < accounts@.len() && accounts_map(accounts@).contains_key(key@)
                && accounts_map(accounts@)[key@] == accounts@[i as int].1@,
            None => !accounts_map(accounts@).contains_key(key@),
        },
{
    let mut i: usize = accounts.len();
    proof {
        assert(accounts@.take(accounts@.len() as int) =~= accounts@);
    }
    while i > 0
        invariant
            i <= accounts@.len(),
            accounts_map(accounts@).contains_key(key@) == accounts_map(
                accounts@.take(i as int),
            ).contains_key(key@),
            accounts_map(accounts@).contains_key(key@) ==> accounts_map(accounts@)[key@]
                == accounts_map(accounts@.take(i as int))[key@],
        decreases i,
    {
        let j = i - 1;
        proof {
            assert(accounts@.take(j + 1).drop_last() =~= accounts@.take(j as int));
            assert(accounts@.take(j + 1).last() == accounts@[j as int]);
        }
        if &accounts[j].0 == key {
            return Some(j);
        }
        i = j;
    }
    proof {
        assert(accounts@.take(0) =~= Seq::<(Address, Account)>::empty());
    }
    None
}

impl Clone for Ledger {
    fn clone(&self) -> (r: Self)
        ensures
            r@ == self@,
    {
        let r = Ledger {
            accounts: clone_accounts(&self.accounts),
            recent_slots: clone_slots(&self.recent_slots),
            features_disabled: clone_addresses(&self.features_disabled),
            processed: clone_transactions(&self.processed),
        };
        proof {
            assert(r@ =~= self@);
        }
        r
    }
}

/// Copies an account association list, preserving its denoted map.
fn clone_accounts(accounts: &Vec<(Address, Account)>) -> (r: Vec<(Address, Account)>)
    ensures
        r@.len() == accounts@.len(),
        accounts_map(r@) == accounts_map(accounts@),
{
    let mut r: Vec<(Address, Account)> = Vec::new();
    let mut i: usize = 0;
    while i < accounts.len()
        invariant
            i <= accounts.len(),
            r@.len() == i,
            accounts_map(r@) == accounts_map(accounts@.take(i as int)),
        decreases accounts.len() - i,
    {
        let ghost pre = r@;
        r.push((accounts[i].0.clone(), accounts[i].1.clone()));
        proof {
            assert(r@.drop_last() =~= pre);
            assert(accounts@.take(i + 1).drop_last() =~= accounts@.take(i as int));
            assert(accounts@.take(i + 1).last() == accounts@[i as int]);
        }
        i += 1;
    }
    proof {
        assert(accounts@.take(accounts@.len() as int) =~= accounts@);
    }
    r
}

/// Copies a slot list, preserving its elements.
fn clone_slots(slots: &Vec<u64>) -> (r: Vec<u64>)
    ensures
        r@ == slots@,
{
    let mut r: Vec<u64> = Vec::new();
    let mut i: usize = 0;
    while i < slots.len()
        invariant
            i <= slots.len(),
            r@ == slots@.take(i as int),
        decreases slots.len() - i,
    {
        r.push(slots[i]);
        proof {
            assert(r@ =~= slots@.take(i + 1));
        }
        i += 1;
    }
    proof {
        assert(slots@.take(slots@.len() as int) =~= slots@);
    }
    r
}

/// Copies an address list, preserving each element's view.
pub fn clone_addresses(addresses: &Vec<Address>) -> (r: Vec<Address>)
    ensures
        r@.map_values(|a: Address| a@) == addresses@.map_values(|a: Address| a@),
{
    let mut r: Vec<Address> = Vec::new();
    let mut i: usize = 0;
    while i < addresses.len()
        invariant
            i <= addresses.len(),
            r@.len() == i,
            forall|k: int| 0 <= k < i ==> (#[trigger] r@[k])@ == addresses@[k]@,
        decreases addresses.len() - i,
    {
        r.push(addresses[i].clone());
        i += 1;
    }
    proof {
        assert(r@.map_values(|a: Address| a@) =~= addresses@.map_values(|a: Address| a@));
    }
    r
}

/// Copies a transaction list, preserving each element's view.
fn clone_transactions(txs: &Vec<Transaction>) -> (r: Vec<Transaction>)
    ensures
        r@.map_values(|t: Transaction| t@) == txs@.map_values(|t: Transaction| t@),
{
    let mut r: Vec<Transaction> = Vec::new();
    let mut i: usize = 0;
    while i < txs.len()
        invariant
            i <= txs.len(),
            r@.len() == i,
            forall|k: int| 0 <= k < i ==> (#[trigger] r@[k])@ == txs@[k]@,
        decreases txs.len() - i,
    {
        r.push(clone_transaction(&txs[i]));
        i += 1;
    }
    proof {
        assert(r@.map_values(|t: Transaction| t@) =~= txs@.map_values(|t: Transaction| t@));
    }
    r
}

/// Copies one transaction.
pub fn clone_transaction(tx: &Transaction) -> (r: Transaction)
    ensures
        r@ == tx@,
{
    let mut instructions: Vec<crate::transaction::Instruction> = Vec::new();
    let mut i: usize = 0;
    while i < tx.instructions.len()
        invariant
            i <= tx.instructions.len(),
            instructions@.len() == i,
            forall|k: int|
                0 <= k < i ==> (#[trigger] instructions@[k])@ == tx.instructions@[k]@,
        decreases tx.instructions.len() - i,
    {
        instructions.push(tx.instructions[i].clone());
        i += 1;
    }
    let r = Transaction {
        instructions,
        payer: tx.payer.clone(),
        signers: clone_addresses(&tx.signers),
        recent_blockhash: tx.recent_blockhash,
    };
    proof {
        assert(r@.instructions =~= tx@.instructions);
        assert(r@ =~= tx@);
    }
    r
}

/// Reports whether `slots` holds `slot`.
fn holds_slot(slots: &Vec<u64>, slot: u64) -> (r: bool)
    ensures
        r == slots@.to_set().contains(slot),
{
    let mut j: usize = 0;
    let mut found = false;
    while j < slots.len()
        invariant
            j <= slots.len(),
            found == exists|k: int| 0 <= k < j && slots@[k] == slot,
        decreases slots.len() - j,
    {
        if slots[j] == slot {
            found = true;
        }
        j += 1;
    }
    proof {
        if found {
            let k = choose|k: int| 0 <= k < j && slots@[k] == slot;
            assert(slots@.contains(slot));
        }
        if slots@.to_set().contains(slot) {
            let k = choose|k: int| 0 <= k < slots@.len() && slots@[k] == slot;
            assert(found);
        }
    }
    found
}

impl Ledger {
    /// The ledger a backend starts from under the given configuration.
    pub fn genesis(config: &BoomerangTestClientConfig) -> (l: Ledger)
        ensures
            l@ == spec_genesis(config@),
    {
        let mut recent_slots: Vec<u64> = Vec::new();
        if config.warp_slot > 0 {
            recent_slots.push(config.warp_slot);
        }
        let l = Ledger {
            accounts: Vec::new(),
            recent_slots,
            features_disabled: clone_addresses(&config.features_disabled),
            processed: Vec::new(),
        };
        proof {
            assert(l@.accounts =~= Map::<Seq<char>, AccountV>::empty());
            if config.warp_slot > 0 {
                assert(l.recent_slots@ =~= seq![config.warp_slot]);
                assert(l.recent_slots@[0] == config.warp_slot);
                assert(l.recent_slots@.contains(config.warp_slot));
                assert forall|x: u64| l@.recent_slots.contains(x) implies x == config.warp_slot by {
                    let k = choose|k: int|
                        0 <= k < l.recent_slots@.len() && l.recent_slots@[k] == x;
                }
                assert(l@.recent_slots =~= Set::empty().insert(config.warp_slot));
            } else {
                assert(l@.recent_slots =~= Set::<u64>::empty());
            }
            assert(l@.features_disabled =~= config@.features_disabled.to_set());
            assert(l@.processed =~= Seq::<TransactionV>::empty());
            assert(l@ =~= spec_genesis(config@));
        }
        l
    }

    /// Looks an account up; the result is exactly what the ledger's account
    /// map holds for that address.
    pub fn get_account(&self, address: &Address) -> (r: Option<Account>)
        ensures
            match r {
                Some(a) => self@.accounts.contains_key(address@) && a@ == self@.accounts[address@],
                None => !self@.accounts.contains_key(address@),
            },
    {
        match find_account(&self.accounts, address) {
            Some(i) => Some(self.accounts[i].1.clone()),
            None => None,
        }
    }

    /// Reports whether an identical transaction was already processed.
    fn contains_processed(&self, tx: &Transaction) -> (r: bool)
        ensures
            r == self@.processed.contains(tx@),
    {
        let mut j: usize = 0;
        let mut found = false;
        while j < self.processed.len()
            invariant
                j <= self.processed.len(),
                found == exists|k: int| 0 <= k < j && (#[trigger] self.processed@[k])@ == tx@,
            decreases self.processed.len() - j,
        {
            if &self.processed[j] == tx {
                found = true;
            }
            j += 1;
        }
        proof {
            let views = self.processed@.map_values(|t: Transaction| t@);
            if found {
                let k = choose|k: int|
                    0 <= k < j && (#[trigger] self.processed@[k])@ == tx@;
                assert(views[k] == tx@);
                assert(views.contains(tx@));
            }
            if views.contains(tx@) {
                let k = choose|k: int| 0 <= k < views.len() && views[k] == tx@;
                assert(self.processed@[k]@ == tx@);
                assert(found);
            }
        }
        found
    }

    /// Executes one instruction against the working account list; the
    /// account list afterwards denotes exactly what the instruction
    /// semantics prescribes, and an error leaves it untouched.
    fn execute_instruction(
        accounts: &mut Vec<(Address, Account)>,
        recent_slots: &Vec<u64>,
        features_disabled: &Vec<Address>,
        ix: &crate::transaction::Instruction,
        signers: &Vec<Address>,
    ) -> (r: Result<(), InstructionError>)
        ensures
            match spec_instruction_result(
                accounts_map(old(accounts)@),
                recent_slots@.to_set(),
                address_set(features_disabled@),
                ix@,
                signers@.map_values(|s: Address| s@),
            ) {
                Ok(m) => r is Ok && accounts_map(final(accounts)@) == m,
                Err(e) => r == Err::<(), InstructionError>(e) && final(accounts)@ == old(
                    accounts,
                )@,
            },
    {
        let ghost m0 = accounts_map(accounts@);
        let ghost sv = signers@.map_values(|s: Address| s@);
        if !(ix.data.len() == 9 && (ix.data[0] == OPCODE_CREATE || ix.data[0]
            == OPCODE_CREATE_SIGNED) && ix.accounts.len() == 3) {
            return Err(InstructionError::InvalidInstructionData);
        }
        let opcode = ix.data[0];
        let slot = u64_from_le_bytes_at(&ix.data, 1);
        let target = &ix.accounts[0].address;
        let authority = &ix.accounts[1].address;
        proof {
            assert(ix@.data =~= ix.data@);
            assert(ix@.data.subrange(1, 9) =~= ix.data@.subrange(1, 9));
            assert(ix@.accounts[0] == ix.accounts@[0]@);
            assert(ix@.accounts[1] == ix.accounts@[1]@);
        }
        let relax_disabled = holds_address(features_disabled, &relax_authority_feature());
        proof {
            crate::address::lemma_address_set_contains(features_disabled@, spec_relax_feature());
        }
        if opcode == OPCODE_CREATE_SIGNED || relax_disabled {
            let authority_signed = ix.accounts[1].is_signer && holds_address(signers, authority);
            proof {
                lemma_views_contains(signers@, authority@);
            }
            if !authority_signed {
                return Err(InstructionError::MissingRequiredSignature);
            }
        }
        if !holds_slot(recent_slots, slot) {
            return Err(InstructionError::InvalidInstructionData);
        }
        let derived = crate::transaction::derive_lookup_table_address(authority, slot);
        if !(target == &derived) {
            return Err(InstructionError::InvalidArgument);
        }
        match find_account(accounts, target) {
            Some(_) => {
                if opcode == OPCODE_CREATE && !holds_address(
                    features_disabled,
                    &relax_authority_feature(),
                ) {
                    proof {
                        crate::address::lemma_address_set_contains(
                            features_disabled@,
                            spec_relax_feature(),
                        );
                    }
                    Ok(())
                } else {
                    proof {
                        crate::address::lemma_address_set_contains(
                            features_disabled@,
                            spec_relax_feature(),
                        );
                    }
                    Err(InstructionError::AccountAlreadyInitialized)
                }
            },
            None => {
                let ghost pre = accounts@;
                let data = fresh_account_data(slot);
                let account = Account { lamports: 1, data, owner: ix.program_id.clone() };
                accounts.push((target.clone(), account));
                proof {
                    assert(accounts@.drop_last() =~= pre);
                    assert(accounts_map(accounts@) == accounts_map(pre).insert(
                        target@,
                        spec_fresh_account(slot, ix@.program_id),
                    ));
                }
                Ok(())
            },
        }
    }

    /// Processes one transaction: checks for a duplicate, runs the
    /// instructions atomically on a working copy, and commits the writes
    /// only when every instruction succeeded. The ledger afterwards and the
    /// returned result are exactly what the processing semantics
    /// prescribes; a transport-level failure (`Err(None)`) never occurs on
    /// the in-process backend.
    pub fn process_transaction(&mut self, tx: Transaction) -> (r: Result<
        (),
        Option<TransactionError>,
    >)
        requires
            tx.instructions@.len() <= 255,
        ensures
            final(self)@ == spec_process(old(self)@, tx@).0,
            match spec_process(old(self)@, tx@).1 {
                Ok(()) => r is Ok,
                Err(e) => r == Err::<(), Option<TransactionError>>(Some(e)),
            },
    {
        let ghost l0 = self@;
        if self.contains_processed(&tx) {
            return Err(Some(TransactionError::AlreadyProcessed));
        }
        let mut working = clone_accounts(&self.accounts);
        let ghost rs = self.recent_slots@.to_set();
        let ghost fd = address_set(self.features_disabled@);
        let ghost sv = tx.signers@.map_values(|s: Address| s@);
        let ghost ixv = tx.instructions@.map_values(|i: crate::transaction::Instruction| i@);
        let mut i: usize = 0;
        while i < tx.instructions.len()
            invariant
                i <= tx.instructions.len(),
                tx.instructions@.len() <= 255,
                self@ == l0,
                !l0.processed.contains(tx@),
                rs == l0.recent_slots,
                fd == l0.features_disabled,
                l0.accounts == accounts_map(self.accounts@),
                sv == tx@.signers,
                sv == tx.signers@.map_values(|s: Address| s@),
                ixv == tx@.instructions,
                ixv == tx.instructions@.map_values(|x: crate::transaction::Instruction| x@),
                spec_run_instructions(l0.accounts, rs, fd, ixv, sv, 0) == spec_run_instructions(
                    accounts_map(working@),
                    rs,
                    fd,
                    ixv,
                    sv,
                    i as int,
                ),
            decreases tx.instructions.len() - i,
        {
            let ghost before = accounts_map(working@);
            let step = Self::execute_instruction(
                &mut working,
                &self.recent_slots,
                &self.features_disabled,
                &tx.instructions[i],
                &tx.signers,
            );
            proof {
                assert(ixv[i as int] == tx.instructions@[i as int]@);
            }
            match step {
                Ok(()) => {
                    proof {
                        assert(spec_run_instructions(before, rs, fd, ixv, sv, i as int)
                            == spec_run_instructions(accounts_map(working@), rs, fd, ixv, sv, i
                            + 1));
                    }
                    i += 1;
                },
                Err(e) => {
                    proof {
                        assert(spec_run_instructions(before, rs, fd, ixv, sv, i as int) == Err::<
                            Map<Seq<char>, AccountV>,
                            (int, InstructionError),
                        >(((i as int), e)));
                        assert(spec_process(l0, tx@).1 == Err::<(), TransactionError>(
                            TransactionError::InstructionError(i as u8, e),
                        ));
                        assert(spec_process(l0, tx@).0 == l0);
                    }
                    return Err(Some(TransactionError::InstructionError(i as u8, e)));
                },
            }
        }
        proof {
            assert(spec_run_instructions(accounts_map(working@), rs, fd, ixv, sv,
                tx.instructions@.len() as int) == Ok::<Map<Seq<char>, AccountV>, (
                int,
                InstructionError,
            )>(accounts_map(working@)));
        }
        let ghost committed = accounts_map(working@);
        let ghost processed_before = self.processed@.map_values(|t: Transaction| t@);
        self.accounts = working;
        self.processed.push(tx);
        proof {
            assert(self.processed@.drop_last() =~= old(self).processed@);
            let tv = self.processed@.last()@;
            assert(self.processed@.map_values(|t: Transaction| t@) =~= processed_before.push(tv));
            assert(spec_process(l0, tv).0 == (LedgerV {
                accounts: committed,
                processed: l0.processed.push(tv),
                ..l0
            }));
            assert(self@ =~= spec_process(l0, tv).0);
        }
        Ok(())
    }
}

/// A freshly constructed in-process backend is isolated from every earlier
/// chunk: its genesis state is a function of its configuration alone and
/// holds no accounts and no processed transactions.
pub proof fn lemma_fresh_ledger_isolated(c: ConfigV)
    ensures
        spec_genesis(c).accounts =~= Map::<Seq<char>, AccountV>::empty(),
        spec_genesis(c).processed =~= Seq::<TransactionV>::empty(),
{
}

/// Read-after-write within one session: when a transaction holding one
/// create instruction is processed successfully, the account the
/// instruction targets is visible to the next account query, holding the
/// freshly initialized state when it did not exist before and its prior
/// state when the create was an idempotent re-creation.
pub proof fn lemma_read_after_write(l: LedgerV, tx: TransactionV)
    requires
        tx.instructions.len() == 1,
        spec_process(l, tx).1 is Ok,
    ensures
        ({
            let ix = tx.instructions[0];
            let target = ix.accounts[0].address;
            let slot = spec_u64_from_le_bytes(ix.data.subrange(1, 9)) as u64;
            &&& spec_process(l, tx).0.accounts.contains_key(target)
            &&& spec_process(l, tx).0.accounts[target] == (if l.accounts.contains_key(target) {
                l.accounts[target]
            } else {
                spec_fresh_account(slot, ix.program_id)
            })
        }),
{
    let ix = tx.instructions[0];
    let step = spec_instruction_result(l.accounts, l.recent_slots, l.features_disabled, ix,
        tx.signers);
    assert(spec_run_instructions(l.accounts, l.recent_slots, l.features_disabled,
        tx.instructions, tx.signers, 0) == match step {
        Ok(m) => spec_run_instructions(m, l.recent_slots, l.features_disabled, tx.instructions,
            tx.signers, 1),
        Err(e) => Err((0, e)),
    });
}

/// Success is owed: a create instruction built for a slot that is in the
/// backend's history, whose derived target is not yet initialized, and
/// whose authority signs when a signature is demanded (always for the
/// signed variant; for the unsigned one only while the relax-authority
/// feature is active) executes successfully and initializes its target with
/// the fresh account state.
pub proof fn lemma_create_succeeds(
    accounts: Map<Seq<char>, AccountV>,
    recent_slots: Set<u64>,
    features_disabled: Set<Seq<char>>,
    program_id: Seq<char>,
    authority: Seq<char>,
    payer: Seq<char>,
    slot: u64,
    opcode: u8,
    signers: Seq<Seq<char>>,
)
    requires
        opcode == OPCODE_CREATE || opcode == OPCODE_CREATE_SIGNED,
        recent_slots.contains(slot),
        !accounts.contains_key(spec_derive_lookup_table_address(authority, slot)),
        opcode == OPCODE_CREATE_SIGNED ==> signers.contains(authority),
        opcode == OPCODE_CREATE ==> !features_disabled.contains(spec_relax_feature()),
    ensures
        ({
            let ix = crate::transaction::spec_create_instruction(program_id, authority, payer,
                slot, opcode);
            spec_instruction_result(accounts, recent_slots, features_disabled, ix, signers)
                == Ok::<Map<Seq<char>, AccountV>, InstructionError>(
                accounts.insert(
                    spec_derive_lookup_table_address(authority, slot),
                    spec_fresh_account(slot, program_id),
                ),
            )
        }),
{
    crate::transaction::lemma_create_data_slot(opcode, slot);
}

/// A successfully executed instruction keeps every existing account and
/// leaves its target account present.
proof fn lemma_instruction_keeps_accounts(
    accounts: Map<Seq<char>, AccountV>,
    recent_slots: Set<u64>,
    features_disabled: Set<Seq<char>>,
    ix: InstructionV,
    signers: Seq<Seq<char>>,
)
    requires
        spec_instruction_result(accounts, recent_slots, features_disabled, ix, signers) is Ok,
    ensures
        ({
            let next = spec_instruction_result(accounts, recent_slots, features_disabled, ix,
                signers)->Ok_0;
            &&& forall|k: Seq<char>|
                accounts.contains_key(k) ==> #[trigger] next.contains_key(k)
            &&& next.contains_key(ix.accounts[0].address)
        }),
{
}

/// Every account still to be written from instruction `i` on is present
/// once the remaining instructions ran successfully, and no account is ever
/// dropped.
#[verifier::rlimit(60)]
proof fn lemma_run_keeps_accounts(
    accounts: Map<Seq<char>, AccountV>,
    recent_slots: Set<u64>,
    features_disabled: Set<Seq<char>>,
    ixs: Seq<InstructionV>,
    signers: Seq<Seq<char>>,
    i: int,
)
    requires
        0 <= i,
        spec_run_instructions(accounts, recent_slots, features_disabled, ixs, signers, i) is Ok,
    ensures
        ({
            let out = spec_run_instructions(accounts, recent_slots, features_disabled, ixs,
                signers, i)->Ok_0;
            &&& forall|k: Seq<char>|
                accounts.contains_key(k) ==> #[trigger] out.contains_key(k)
            &&& forall|j: int|
                i <= j < ixs.len() ==> out.contains_key(
                    #[trigger] ixs[j].accounts[0].address,
                )
        }),
    decreases ixs.len() - i,
{
    if 0 <= i < ixs.len() {
        let next = spec_instruction_result(accounts, recent_slots, features_disabled, ixs[i],
            signers)->Ok_0;
        let out = spec_run_instructions(accounts, recent_slots, features_disabled, ixs, signers,
            i)->Ok_0;
        lemma_instruction_keeps_accounts(accounts, recent_slots, features_disabled, ixs[i],
            signers);
        lemma_run_keeps_accounts(next, recent_slots, features_disabled, ixs, signers, i + 1);
        assert forall|k: Seq<char>| accounts.contains_key(k) implies #[trigger] out.contains_key(
            k,
        ) by {
            assert(next.contains_key(k));
        }
        assert forall|j: int| i <= j < ixs.len() implies out.contains_key(
            #[trigger] ixs[j].accounts[0].address,
        ) by {
            if j == i {
                assert(next.contains_key(ixs[i].accounts[0].address));
            }
        }
    }
}

/// Read-after-write for any successfully processed transaction: every
/// account an instruction of the transaction targets is visible to the next
/// account query on the resulting ledger.
pub proof fn lemma_written_accounts_visible(l: LedgerV, tx: TransactionV, i: int)
    requires
        spec_process(l, tx).1 is Ok,
        0 <= i < tx.instructions.len(),
    ensures
        spec_process(l, tx).0.accounts.contains_key(tx.instructions[i].accounts[0].address),
{
    lemma_run_keeps_accounts(l.accounts, l.recent_slots, l.features_disabled, tx.instructions,
        tx.signers, 0);
}

/// Idempotent creation: an unsigned create instruction that has succeeded
/// once succeeds again, unchanged, on the state it produced, as long as the
/// relax-authority-signer feature is active.
pub proof fn lemma_create_idempotent(
    accounts: Map<Seq<char>, AccountV>,
    recent_slots: Set<u64>,
    features_disabled: Set<Seq<char>>,
    ix: InstructionV,
    signers: Seq<Seq<char>>,
)
    requires
        ix.data.len() == 9,
        ix.data[0] == OPCODE_CREATE,
        !features_disabled.contains(spec_relax_feature()),
        spec_instruction_result(accounts, recent_slots, features_disabled, ix, signers) is Ok,
    ensures
        ({
            let next = spec_instruction_result(accounts, recent_slots, features_disabled, ix,
                signers)->Ok_0;
            spec_instruction_result(next, recent_slots, features_disabled, ix, signers) == Ok::<
                Map<Seq<char>, AccountV>,
                InstructionError,
            >(next)
        }),
{
}

/// Non-idempotent creation: a signed create instruction that has just
/// created its account fails with an already-initialized error when
/// submitted again on the state it produced.
pub proof fn lemma_create_signed_not_idempotent(
    accounts: Map<Seq<char>, AccountV>,
    recent_slots: Set<u64>,
    features_disabled: Set<Seq<char>>,
    ix: InstructionV,
    signers: Seq<Seq<char>>,
)
    requires
        ix.data.len() == 9,
        ix.data[0] == OPCODE_CREATE_SIGNED,
        spec_instruction_result(accounts, recent_slots, features_disabled, ix, signers) is Ok,
    ensures
        ({
            let next = spec_instruction_result(accounts, recent_slots, features_disabled, ix,
                signers)->Ok_0;
            spec_instruction_result(next, recent_slots, features_disabled, ix, signers) == Err::<
                Map<Seq<char>, AccountV>,
                InstructionError,
            >(InstructionError::AccountAlreadyInitialized)
        }),
{
}

} // verus!
