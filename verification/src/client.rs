//! The test-client abstraction: one capability interface over a closed set
//! of backends, so identical test bodies run unmodified against the
//! in-process simulated ledger or against a validator reached over RPC.
//!
//! The in-process backend computes everything here. The RPC backend is a
//! session whose transport results (a fetched blockhash, an observed epoch
//! or slot) are handed in by the caller that performs the network work; the
//! decisions taken on those values are made here.

use vstd::prelude::*;

use crate::address::{Address, Keypair};
use crate::config::{BoomerangTestClientConfig, Commitment, ConfigV};
use crate::ledger::{spec_genesis, spec_process, Ledger, LedgerV};
use crate::transaction::{
    clone_metas,
    clone_bytes,
    Account,
    Instruction,
    InstructionV,
    Transaction,
    TransactionError,
};

verus! {

/// An infrastructure-level client failure, kept apart from the structured
/// execution errors under test and from plain assertion mismatches.
#[derive(Clone, Copy, PartialEq, Eq, Structural, Debug)]
pub enum BoomerangClientError {
    /// The backend does not support the operation.
    Unsupported,
    /// The queried account does not exist.
    AccountNotFound,
    /// An expectation about an execution result or account state did not
    /// hold.
    AssertionFailed,
}

/// The fee payer the in-process backend funds at startup.
pub open spec fn spec_default_fee_payer() -> Seq<char> {
    "fee-payer"@
}

/// The in-process backend: a fresh simulated ledger per client.
pub struct BoomerangBanksClient {
    program_id: Address,
    fee_payer: Keypair,
    last_blockhash: u64,
    ledger: Ledger,
}

/// The mathematical value of a [`BoomerangBanksClient`].
#[verifier::ext_equal]
pub ghost struct BanksClientV {
    pub program_id: Seq<char>,
    pub fee_payer: Seq<char>,
    pub last_blockhash: u64,
    pub ledger: LedgerV,
}

impl View for BoomerangBanksClient {
    type V = BanksClientV;

    closed spec fn view(&self) -> BanksClientV {
        BanksClientV {
            program_id: self.program_id@,
            fee_payer: self.fee_payer@,
            last_blockhash: self.last_blockhash,
            ledger: self.ledger@,
        }
    }
}

/// The client state an in-process backend starts from under the given
/// configuration.
pub open spec fn spec_banks_setup(c: ConfigV) -> BanksClientV {
    BanksClientV {
        program_id: c.program_id,
        fee_payer: spec_default_fee_payer(),
        last_blockhash: 0,
        ledger: spec_genesis(c),
    }
}

impl BoomerangBanksClient {
    /// Builds a fresh in-process backend: a genesis ledger determined by
    /// the configuration alone, a funded fee payer, and an initial
    /// blockhash.
    pub fn setup(config: &BoomerangTestClientConfig) -> (r: Self)
        ensures
            r@ == spec_banks_setup(config@),
    {
        let r = BoomerangBanksClient {
            program_id: config.program_id.clone(),
            fee_payer: Keypair::new(Address::from_str("fee-payer")),
            last_blockhash: 0,
            ledger: Ledger::genesis(config),
        };
        proof {
            assert(r@ =~= spec_banks_setup(config@));
        }
        r
    }

    /// The program id under test.
    pub fn program_id(&self) -> (r: Address)
        ensures
            r@ == self@.program_id,
    {
        self.program_id.clone()
    }

    /// The fee payer, cloned so callers may hold it repeatedly.
    pub fn fee_payer(&self) -> (r: Keypair)
        ensures
            r@ == self@.fee_payer,
    {
        self.fee_payer.insecure_clone()
    }

    /// The last blockhash this client knows.
    pub fn last_blockhash(&self) -> (r: u64)
        ensures
            r == self@.last_blockhash,
    {
        self.last_blockhash
    }

    /// Advances to a new latest blockhash; instant on the simulated ledger.
    pub fn new_latest_blockhash(&mut self) -> (r: u64)
        requires
            old(self)@.last_blockhash < u64::MAX,
        ensures
            final(self)@ == (BanksClientV { last_blockhash: (old(self)@.last_blockhash + 1) as u64, ..old(
                self,
            )@ }),
            r == final(self)@.last_blockhash,
    {
        self.last_blockhash = self.last_blockhash + 1;
        proof {
            assert(self@ =~= (BanksClientV {
                last_blockhash: (old(self)@.last_blockhash + 1) as u64,
                ..old(self)@
            }));
        }
        self.last_blockhash
    }

    /// Submits a transaction to the simulated ledger; the ledger and the
    /// result afterwards are exactly what the processing semantics
    /// prescribes.
    pub fn process_transaction(&mut self, transaction: Transaction) -> (r: Result<
        (),
        Option<TransactionError>,
    >)
        requires
            transaction.instructions@.len() <= 255,
        ensures
            final(self)@ == (BanksClientV {
                ledger: spec_process(old(self)@.ledger, transaction@).0,
                ..old(self)@
            }),
            match spec_process(old(self)@.ledger, transaction@).1 {
                Ok(()) => r is Ok,
                Err(e) => r == Err::<(), Option<TransactionError>>(Some(e)),
            },
    {
        let r = self.ledger.process_transaction(transaction);
        proof {
            assert(self@ =~= (BanksClientV {
                ledger: self.ledger@,
                ..old(self)@
            }));
        }
        r
    }

    /// Confirms a transaction; immediate on the simulated ledger.
    pub fn confirm_transaction(&self) -> (r: Result<(), BoomerangClientError>)
        ensures
            r is Ok,
    {
        Ok(())
    }

    /// Fetches an account; the result is exactly what the ledger's account
    /// map holds.
    pub fn get_account(&mut self, pubkey: &Address) -> (r: Result<
        Option<Account>,
        BoomerangClientError,
    >)
        ensures
            final(self)@ == old(self)@,
            match r {
                Ok(Some(a)) => old(self)@.ledger.accounts.contains_key(pubkey@) && a@ == old(
                    self,
                )@.ledger.accounts[pubkey@],
                Ok(None) => !old(self)@.ledger.accounts.contains_key(pubkey@),
                Err(_) => false,
            },
    {
        Ok(self.ledger.get_account(pubkey))
    }

    /// Epoch polling is unsupported on the simulated ledger, which has no
    /// real time.
    pub fn poll_for_next_epoch(&self) -> (r: Result<(), BoomerangClientError>)
        ensures
            r == Err::<(), BoomerangClientError>(BoomerangClientError::Unsupported),
    {
        Err(BoomerangClientError::Unsupported)
    }

    /// Slot polling is unsupported on the simulated ledger.
    pub fn poll_slots(&self, _num_slots: u64) -> (r: Result<(), BoomerangClientError>)
        ensures
            r == Err::<(), BoomerangClientError>(BoomerangClientError::Unsupported),
    {
        Err(BoomerangClientError::Unsupported)
    }
}

/// The transport-derived values an RPC session starts from: the funded fee
/// payer and the blockhash first fetched from the cluster.
pub struct RpcSessionInfo {
    pub fee_payer: Keypair,
    pub latest_blockhash: u64,
}

/// The RPC backend's session state. The network work itself (sending a
/// transaction, fetching an account, reading the epoch) is performed by the
/// caller; this state records what the session knows and decides what those
/// observations mean.
pub struct BoomerangRpcClient {
    fee_payer: Keypair,
    latest_blockhash: u64,
    program_id: Address,
    rpc_endpoint: String,
    rpc_commitment: Commitment,
}

/// The mathematical value of a [`BoomerangRpcClient`].
#[verifier::ext_equal]
pub ghost struct RpcClientV {
    pub fee_payer: Seq<char>,
    pub latest_blockhash: u64,
    pub program_id: Seq<char>,
    pub rpc_endpoint: Seq<char>,
    pub rpc_commitment: Commitment,
}

impl View for BoomerangRpcClient {
    type V = RpcClientV;

    closed spec fn view(&self) -> RpcClientV {
        RpcClientV {
            fee_payer: self.fee_payer@,
            latest_blockhash: self.latest_blockhash,
            program_id: self.program_id@,
            rpc_endpoint: self.rpc_endpoint@,
            rpc_commitment: self.rpc_commitment,
        }
    }
}

impl BoomerangRpcClient {
    /// Opens an RPC session from the configuration and the values the
    /// transport obtained at startup.
    pub fn setup(config: &BoomerangTestClientConfig, session: RpcSessionInfo) -> (r: Self)
        ensures
            r@ == (RpcClientV {
                fee_payer: session.fee_payer@,
                latest_blockhash: session.latest_blockhash,
                program_id: config@.program_id,
                rpc_endpoint: config@.rpc_endpoint,
                rpc_commitment: config@.rpc_commitment,
            }),
    {
        let r = BoomerangRpcClient {
            fee_payer: session.fee_payer,
            latest_blockhash: session.latest_blockhash,
            program_id: config.program_id.clone(),
            rpc_endpoint: config.rpc_endpoint.clone(),
            rpc_commitment: config.rpc_commitment,
        };
        proof {
            assert(r@ =~= (RpcClientV {
                fee_payer: session.fee_payer@,
                latest_blockhash: session.latest_blockhash,
                program_id: config@.program_id,
                rpc_endpoint: config@.rpc_endpoint,
                rpc_commitment: config@.rpc_commitment,
            }));
        }
        r
    }

    /// The program id under test.
    pub fn program_id(&self) -> (r: Address)
        ensures
            r@ == self@.program_id,
    {
        self.program_id.clone()
    }

    /// The fee payer, cloned so callers may hold it repeatedly.
    pub fn fee_payer(&self) -> (r: Keypair)
        ensures
            r@ == self@.fee_payer,
    {
        self.fee_payer.insecure_clone()
    }

    /// The last blockhash this session knows.
    pub fn last_blockhash(&self) -> (r: u64)
        ensures
            r == self@.latest_blockhash,
    {
        self.latest_blockhash
    }

    /// The endpoint the transport reaches the cluster at.
    pub fn rpc_endpoint(&self) -> (r: &String)
        ensures
            r@ == self@.rpc_endpoint,
    {
        &self.rpc_endpoint
    }

    /// Records a blockhash the transport fetched.
    pub fn observe_latest_blockhash(&mut self, blockhash: u64)
        ensures
            final(self)@ == (RpcClientV { latest_blockhash: blockhash, ..old(self)@ }),
    {
        self.latest_blockhash = blockhash;
        proof {
            assert(self@ =~= (RpcClientV { latest_blockhash: blockhash, ..old(self)@ }));
        }
    }
}

/// Checks a submission result, however the backend obtained it, against an
/// expected execution failure: the expectation holds exactly when the
/// result is that structured error.
pub fn transaction_result_matches_failure(
    result: &Result<(), Option<TransactionError>>,
    expected_err: &TransactionError,
) -> (r: bool)
    ensures
        r == (*result == Err::<(), Option<TransactionError>>(Some(*expected_err))),
{
    match result {
        Err(Some(e)) => e == expected_err,
        _ => false,
    }
}

/// The epoch-polling decision: polling stops once the observed epoch has
/// passed the one the poll started from.
pub fn epoch_advanced(starting_epoch: u64, current_epoch: u64) -> (r: bool)
    ensures
        r == (current_epoch > starting_epoch),
{
    current_epoch > starting_epoch
}

/// The slot-polling decision: polling stops once the observed slot has
/// passed the starting slot by more than `num_slots`.
pub fn slots_elapsed(starting_slot: u64, current_slot: u64, num_slots: u64) -> (r: bool)
    ensures
        r == (current_slot as int > starting_slot as int + num_slots as int),
{
    match starting_slot.checked_add(num_slots) {
        Some(bound) => current_slot > bound,
        None => false,
    }
}

/// A test client bound to exactly one backend, selected at construction
/// and never at call time.
pub enum ClientBackend {
    Banks(BoomerangBanksClient),
    Rpc(BoomerangRpcClient),
}

/// The uniform test client handed to test bodies.
pub struct BoomerangClient {
    backend: ClientBackend,
}

impl BoomerangClient {
    /// Whether this client runs against the in-process backend.
    pub closed spec fn spec_is_banks(&self) -> bool {
        self.backend is Banks
    }

    /// The in-process backend's state.
    pub closed spec fn banks(&self) -> BanksClientV {
        self.backend->Banks_0@
    }

    /// The RPC session's state.
    pub closed spec fn rpc(&self) -> RpcClientV {
        self.backend->Rpc_0@
    }

    /// The program id the client is bound to.
    pub open spec fn spec_program_id(&self) -> Seq<char> {
        if self.spec_is_banks() {
            self.banks().program_id
        } else {
            self.rpc().program_id
        }
    }

    /// The fee payer the client owns.
    pub open spec fn spec_fee_payer(&self) -> Seq<char> {
        if self.spec_is_banks() {
            self.banks().fee_payer
        } else {
            self.rpc().fee_payer
        }
    }

    /// The last blockhash the client knows.
    pub open spec fn spec_last_blockhash(&self) -> u64 {
        if self.spec_is_banks() {
            self.banks().last_blockhash
        } else {
            self.rpc().latest_blockhash
        }
    }

    /// Builds a client bound to one backend: the in-process simulated
    /// ledger when `use_banks` is set, else an RPC session opened from the
    /// transport-derived startup values.
    pub fn new(
        config: &BoomerangTestClientConfig,
        use_banks: bool,
        rpc_session: Option<RpcSessionInfo>,
    ) -> (r: Self)
        requires
            use_banks || rpc_session is Some,
        ensures
            r.spec_is_banks() == use_banks,
            use_banks ==> r.banks() == spec_banks_setup(config@),
            !use_banks ==> r.rpc() == (RpcClientV {
                fee_payer: rpc_session->Some_0.fee_payer@,
                latest_blockhash: rpc_session->Some_0.latest_blockhash,
                program_id: config@.program_id,
                rpc_endpoint: config@.rpc_endpoint,
                rpc_commitment: config@.rpc_commitment,
            }),
    {
        if use_banks {
            BoomerangClient { backend: ClientBackend::Banks(BoomerangBanksClient::setup(config)) }
        } else {
            match rpc_session {
                Some(session) => BoomerangClient {
                    backend: ClientBackend::Rpc(BoomerangRpcClient::setup(config, session)),
                },
                None => {
                    proof {
                        assert(false);
                    }
                    BoomerangClient {
                        backend: ClientBackend::Banks(BoomerangBanksClient::setup(config)),
                    }
                },
            }
        }
    }

    /// The program id under test.
    pub fn program_id(&self) -> (r: Address)
        ensures
            r@ == self.spec_program_id(),
    {
        match &self.backend {
            ClientBackend::Banks(banks) => banks.program_id(),
            ClientBackend::Rpc(rpc) => rpc.program_id(),
        }
    }

    /// The fee payer, cloned so callers may hold it repeatedly.
    pub fn fee_payer(&self) -> (r: Keypair)
        ensures
            r@ == self.spec_fee_payer(),
    {
        match &self.backend {
            ClientBackend::Banks(banks) => banks.fee_payer(),
            ClientBackend::Rpc(rpc) => rpc.fee_payer(),
        }
    }

    /// The last blockhash the client knows.
    pub fn last_blockhash(&self) -> (r: u64)
        ensures
            r == self.spec_last_blockhash(),
    {
        match &self.backend {
            ClientBackend::Banks(banks) => banks.last_blockhash(),
            ClientBackend::Rpc(rpc) => rpc.last_blockhash(),
        }
    }

    /// Whether this client runs against the in-process backend.
    pub fn is_banks(&self) -> (r: bool)
        ensures
            r == self.spec_is_banks(),
    {
        match &self.backend {
            ClientBackend::Banks(_) => true,
            ClientBackend::Rpc(_) => false,
        }
    }
}

/// The instruction list with every target program id replaced. Tests
/// address the program generically, because a program deployed at genesis
/// cannot be overwritten at its fixed address; the client substitutes the
/// id it is bound to.
pub open spec fn spec_rewrite_program_ids(ixs: Seq<InstructionV>, program_id: Seq<char>) -> Seq<
    InstructionV,
> {
    ixs.map_values(|x: InstructionV| InstructionV { program_id: program_id, ..x })
}

/// The full mathematical value of a transaction built by the client.
pub open spec fn spec_built_transaction(
    ixs: Seq<InstructionV>,
    program_id: Seq<char>,
    payer: Seq<char>,
    signers: Seq<Seq<char>>,
    recent_blockhash: u64,
) -> crate::transaction::TransactionV {
    crate::transaction::TransactionV {
        instructions: spec_rewrite_program_ids(ixs, program_id),
        payer: payer,
        signers: signers,
        recent_blockhash: recent_blockhash,
    }
}

impl BoomerangClient {
    /// Builds a transaction from the given instructions, rewriting every
    /// instruction's target program id to the client's, paid by the given
    /// fee payer and signed by the given signers against the given
    /// blockhash.
    pub fn create_transaction(
        &self,
        instructions: &Vec<Instruction>,
        fee_payer: &Keypair,
        signers: &Vec<Address>,
        recent_blockhash: u64,
    ) -> (r: Transaction)
        ensures
            r@ == spec_built_transaction(
                instructions@.map_values(|x: Instruction| x@),
                self.spec_program_id(),
                fee_payer@,
                signers@.map_values(|s: Address| s@),
                recent_blockhash,
            ),
    {
        let program_id = self.program_id();
        let mut rewritten: Vec<Instruction> = Vec::new();
        let mut i: usize = 0;
        while i < instructions.len()
            invariant
                i <= instructions.len(),
                rewritten@.len() == i,
                forall|k: int|
                    0 <= k < i ==> (#[trigger] rewritten@[k])@ == (InstructionV {
                        program_id: program_id@,
                        ..instructions@[k]@
                    }),
            decreases instructions.len() - i,
        {
            let ix = Instruction {
                program_id: program_id.clone(),
                accounts: clone_metas(&instructions[i].accounts),
                data: clone_bytes(&instructions[i].data),
            };
            proof {
                assert(ix@ =~= (InstructionV {
                    program_id: program_id@,
                    ..instructions@[i as int]@
                }));
            }
            rewritten.push(ix);
            i += 1;
        }
        let r = Transaction {
            instructions: rewritten,
            payer: fee_payer.pubkey(),
            signers: crate::ledger::clone_addresses(signers),
            recent_blockhash,
        };
        proof {
            assert(r@.instructions =~= spec_rewrite_program_ids(
                instructions@.map_values(|x: Instruction| x@),
                self.spec_program_id(),
            ));
            assert(r@ =~= spec_built_transaction(
                instructions@.map_values(|x: Instruction| x@),
                self.spec_program_id(),
                fee_payer@,
                signers@.map_values(|s: Address| s@),
                recent_blockhash,
            ));
        }
        r
    }

    /// Builds a transaction with the client's fee payer as payer and first
    /// signer, against the client's current blockhash.
    pub fn create_default_transaction(
        &self,
        instructions: &Vec<Instruction>,
        additional_signers: &Vec<Keypair>,
    ) -> (r: Transaction)
        ensures
            r@ == spec_built_transaction(
                instructions@.map_values(|x: Instruction| x@),
                self.spec_program_id(),
                self.spec_fee_payer(),
                seq![self.spec_fee_payer()] + additional_signers@.map_values(|k: Keypair| k@),
                self.spec_last_blockhash(),
            ),
    {
        let fee_payer = self.fee_payer();
        let recent_blockhash = self.last_blockhash();
        let mut signers: Vec<Address> = Vec::new();
        signers.push(fee_payer.pubkey());
        let mut i: usize = 0;
        while i < additional_signers.len()
            invariant
                i <= additional_signers.len(),
                signers@.len() == i + 1,
                signers@[0]@ == self.spec_fee_payer(),
                forall|k: int|
                    1 <= k < i + 1 ==> (#[trigger] signers@[k])@ == additional_signers@[k - 1]@,
            decreases additional_signers.len() - i,
        {
            signers.push(additional_signers[i].pubkey());
            i += 1;
        }
        proof {
            assert(signers@.map_values(|s: Address| s@) =~= seq![self.spec_fee_payer()]
                + additional_signers@.map_values(|k: Keypair| k@));
        }
        self.create_transaction(instructions, &fee_payer, &signers, recent_blockhash)
    }

    /// Builds a default transaction against a freshly advanced blockhash;
    /// available on the in-process backend, whose blockhash refresh is
    /// instant.
    pub fn create_default_transaction_with_new_blockhash(
        &mut self,
        instructions: &Vec<Instruction>,
        additional_signers: &Vec<Keypair>,
    ) -> (r: Transaction)
        requires
            old(self).spec_is_banks(),
            old(self).banks().last_blockhash < u64::MAX,
        ensures
            final(self).spec_is_banks(),
            final(self).banks() == (BanksClientV {
                last_blockhash: (old(self).banks().last_blockhash + 1) as u64,
                ..old(self).banks()
            }),
            r@ == spec_built_transaction(
                instructions@.map_values(|x: Instruction| x@),
                old(self).spec_program_id(),
                old(self).spec_fee_payer(),
                seq![old(self).spec_fee_payer()] + additional_signers@.map_values(
                    |k: Keypair| k@,
                ),
                (old(self).banks().last_blockhash + 1) as u64,
            ),
    {
        match &mut self.backend {
            ClientBackend::Banks(banks) => {
                banks.new_latest_blockhash();
            },
            ClientBackend::Rpc(_) => {
                proof {
                    assert(false);
                }
            },
        }
        self.create_default_transaction(instructions, additional_signers)
    }

    /// Submits a transaction to the in-process backend.
    pub fn process_transaction(&mut self, transaction: Transaction) -> (r: Result<
        (),
        Option<TransactionError>,
    >)
        requires
            old(self).spec_is_banks(),
            transaction.instructions@.len() <= 255,
        ensures
            final(self).spec_is_banks(),
            final(self).banks() == (BanksClientV {
                ledger: spec_process(old(self).banks().ledger, transaction@).0,
                ..old(self).banks()
            }),
            match spec_process(old(self).banks().ledger, transaction@).1 {
                Ok(()) => r is Ok,
                Err(e) => r == Err::<(), Option<TransactionError>>(Some(e)),
            },
    {
        match &mut self.backend {
            ClientBackend::Banks(banks) => banks.process_transaction(transaction),
            ClientBackend::Rpc(_) => {
                proof {
                    assert(false);
                }
                Err(None)
            },
        }
    }

    /// Fetches an account from the in-process backend.
    pub fn get_account(&mut self, pubkey: &Address) -> (r: Result<
        Option<Account>,
        BoomerangClientError,
    >)
        requires
            old(self).spec_is_banks(),
        ensures
            final(self).spec_is_banks(),
            final(self).banks() == old(self).banks(),
            match r {
                Ok(Some(a)) => old(self).banks().ledger.accounts.contains_key(pubkey@) && a@
                    == old(self).banks().ledger.accounts[pubkey@],
                Ok(None) => !old(self).banks().ledger.accounts.contains_key(pubkey@),
                Err(_) => false,
            },
    {
        match &mut self.backend {
            ClientBackend::Banks(banks) => banks.get_account(pubkey),
            ClientBackend::Rpc(_) => {
                proof {
                    assert(false);
                }
                Err(BoomerangClientError::Unsupported)
            },
        }
    }

    /// Confirms a transaction; immediate on the in-process backend.
    pub fn confirm_transaction(&self) -> (r: Result<(), BoomerangClientError>)
        requires
            self.spec_is_banks(),
        ensures
            r is Ok,
    {
        match &self.backend {
            ClientBackend::Banks(banks) => banks.confirm_transaction(),
            ClientBackend::Rpc(_) => {
                proof {
                    assert(false);
                }
                Err(BoomerangClientError::Unsupported)
            },
        }
    }

    /// Epoch polling on the in-process backend, which has no real time.
    pub fn poll_for_next_epoch(&self) -> (r: Result<(), BoomerangClientError>)
        requires
            self.spec_is_banks(),
        ensures
            r == Err::<(), BoomerangClientError>(BoomerangClientError::Unsupported),
    {
        match &self.backend {
            ClientBackend::Banks(banks) => banks.poll_for_next_epoch(),
            ClientBackend::Rpc(_) => {
                proof {
                    assert(false);
                }
                Err(BoomerangClientError::Unsupported)
            },
        }
    }

    /// Slot polling on the in-process backend, which has no real time.
    pub fn poll_slots(&self, num_slots: u64) -> (r: Result<(), BoomerangClientError>)
        requires
            self.spec_is_banks(),
        ensures
            r == Err::<(), BoomerangClientError>(BoomerangClientError::Unsupported),
    {
        match &self.backend {
            ClientBackend::Banks(banks) => banks.poll_slots(num_slots),
            ClientBackend::Rpc(_) => {
                proof {
                    assert(false);
                }
                Err(BoomerangClientError::Unsupported)
            },
        }
    }

    /// Submits a transaction expected to succeed; the result is the
    /// submission's own, the error propagated as the semantics produced it.
    pub fn expect_successful_transaction(&mut self, transaction: Transaction) -> (r: Result<
        (),
        Option<TransactionError>,
    >)
        requires
            old(self).spec_is_banks(),
            transaction.instructions@.len() <= 255,
        ensures
            final(self).spec_is_banks(),
            final(self).banks() == (BanksClientV {
                ledger: spec_process(old(self).banks().ledger, transaction@).0,
                ..old(self).banks()
            }),
            match spec_process(old(self).banks().ledger, transaction@).1 {
                Ok(()) => r is Ok,
                Err(e) => r == Err::<(), Option<TransactionError>>(Some(e)),
            },
    {
        self.process_transaction(transaction)
    }

    /// Submits a transaction expected to fail with exactly the given
    /// transaction error; anything else is an assertion failure.
    pub fn expect_failed_transaction(
        &mut self,
        transaction: Transaction,
        expected_err: TransactionError,
    ) -> (r: Result<(), BoomerangClientError>)
        requires
            old(self).spec_is_banks(),
            transaction.instructions@.len() <= 255,
        ensures
            final(self).spec_is_banks(),
            final(self).banks() == (BanksClientV {
                ledger: spec_process(old(self).banks().ledger, transaction@).0,
                ..old(self).banks()
            }),
            r is Ok <==> spec_process(old(self).banks().ledger, transaction@).1 == Err::<
                (),
                TransactionError,
            >(expected_err),
    {
        match self.process_transaction(transaction) {
            Ok(()) => Err(BoomerangClientError::AssertionFailed),
            Err(None) => Err(BoomerangClientError::AssertionFailed),
            Err(Some(e)) => {
                if e == expected_err {
                    Ok(())
                } else {
                    Err(BoomerangClientError::AssertionFailed)
                }
            },
        }
    }

    /// Submits a transaction expected to fail at instruction `index` with
    /// exactly the given instruction error.
    pub fn expect_failed_transaction_instruction(
        &mut self,
        transaction: Transaction,
        index: u8,
        expected_err: crate::transaction::InstructionError,
    ) -> (r: Result<(), BoomerangClientError>)
        requires
            old(self).spec_is_banks(),
            transaction.instructions@.len() <= 255,
        ensures
            final(self).spec_is_banks(),
            final(self).banks() == (BanksClientV {
                ledger: spec_process(old(self).banks().ledger, transaction@).0,
                ..old(self).banks()
            }),
            r is Ok <==> spec_process(old(self).banks().ledger, transaction@).1 == Err::<
                (),
                TransactionError,
            >(TransactionError::InstructionError(index, expected_err)),
    {
        self.expect_failed_transaction(
            transaction,
            TransactionError::InstructionError(index, expected_err),
        )
    }

    /// Asserts an account exists and its whole state matches the expected
    /// value; a missing account and a mismatch are reported apart.
    pub fn expect_account_state(&mut self, pubkey: &Address, expected_state: &Account) -> (r:
        Result<(), BoomerangClientError>)
        requires
            old(self).spec_is_banks(),
        ensures
            final(self).spec_is_banks(),
            final(self).banks() == old(self).banks(),
            r is Ok <==> old(self).banks().ledger.accounts.contains_key(pubkey@) && old(
                self,
            ).banks().ledger.accounts[pubkey@] == expected_state@,
            r == Err::<(), BoomerangClientError>(BoomerangClientError::AccountNotFound) <==> !old(
                self,
            ).banks().ledger.accounts.contains_key(pubkey@),
    {
        match self.get_account(pubkey) {
            Ok(Some(account)) => {
                if &account == expected_state {
                    Ok(())
                } else {
                    Err(BoomerangClientError::AssertionFailed)
                }
            },
            Ok(None) => Err(BoomerangClientError::AccountNotFound),
            Err(_) => Err(BoomerangClientError::AccountNotFound),
        }
    }

    /// Asserts an account exists and its data bytes match the expected
    /// value; a missing account and a mismatch are reported apart.
    pub fn expect_account_data(&mut self, pubkey: &Address, expected_data: &Vec<u8>) -> (r: Result<
        (),
        BoomerangClientError,
    >)
        requires
            old(self).spec_is_banks(),
        ensures
            final(self).spec_is_banks(),
            final(self).banks() == old(self).banks(),
            r is Ok <==> old(self).banks().ledger.accounts.contains_key(pubkey@) && old(
                self,
            ).banks().ledger.accounts[pubkey@].data == expected_data@,
            r == Err::<(), BoomerangClientError>(BoomerangClientError::AccountNotFound) <==> !old(
                self,
            ).banks().ledger.accounts.contains_key(pubkey@),
    {
        match self.get_account(pubkey) {
            Ok(Some(account)) => {
                let matches = &account.data == expected_data;
                proof {
                    if matches {
                        assert(account.data@ =~= expected_data@);
                    }
                    if account.data@ == expected_data@ {
                        assert(matches);
                    }
                }
                if matches {
                    Ok(())
                } else {
                    Err(BoomerangClientError::AssertionFailed)
                }
            },
            Ok(None) => Err(BoomerangClientError::AccountNotFound),
            Err(_) => Err(BoomerangClientError::AccountNotFound),
        }
    }
}

} // verus!
