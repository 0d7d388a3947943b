//! Typed startup options for the validator process, and their serialization
//! into command-line argument fragments.
//!
//! Each option maps to exactly one space-joined fragment; a list of options
//! is serialized in insertion order, joined by single spaces.

use vstd::prelude::*;

use crate::address::Address;
use crate::decimal::{spec_decimal, u64_to_decimal};

verus! {

/// A program address given directly, or the path of a keypair file that
/// holds it.
pub enum AddressOrKeypair {
    Address(Address),
    Keypair(String),
}

/// The argument fragment an address-or-keypair serializes to.
pub open spec fn spec_address_or_keypair_arg(v: AddressOrKeypairV) -> Seq<char> {
    match v {
        AddressOrKeypairV::Address(address) => address,
        AddressOrKeypairV::Keypair(keypair_path) => keypair_path,
    }
}

impl AddressOrKeypair {
    /// The argument fragment this value serializes to.
    pub open spec fn spec_arg(&self) -> Seq<char> {
        spec_address_or_keypair_arg(self@)
    }

    /// Serializes this value for a command line.
    pub fn to_string_arg(&self) -> (r: String)
        ensures
            r@ == self.spec_arg(),
    {
        match self {
            AddressOrKeypair::Address(address) => address.to_text(),
            AddressOrKeypair::Keypair(keypair_path) => keypair_path.clone(),
        }
    }
}

/// The mathematical value of an [`AddressOrKeypair`].
#[verifier::ext_equal]
pub ghost enum AddressOrKeypairV {
    Address(Seq<char>),
    Keypair(Seq<char>),
}

impl View for AddressOrKeypair {
    type V = AddressOrKeypairV;

    open spec fn view(&self) -> AddressOrKeypairV {
        match self {
            AddressOrKeypair::Address(address) => AddressOrKeypairV::Address(address@),
            AddressOrKeypair::Keypair(keypair_path) => AddressOrKeypairV::Keypair(keypair_path@),
        }
    }
}

/// The cluster a validator option refers to: a JSON RPC URL or one of the
/// well-known cluster monikers.
pub enum UrlOrMoniker {
    Url(String),
    Localnet,
    Devnet,
    Testnet,
    MainnetBeta,
}

/// A single startup option of the validator process.
pub enum BoomerangTestValidatorStartOptions {
    /// Load an account from the provided JSON file.
    Account { address: Address, dump_path: String },
    /// Load all the accounts from the JSON files found in the specified
    /// directory.
    AccountDir { directory: String },
    /// Add a program to the genesis configuration with upgrades disabled.
    BpfProgram { address_or_keypair: AddressOrKeypair, so_file_path: String },
    /// Copy an account from the cluster referenced by the url argument into
    /// the genesis configuration.
    CloneAccount { address: Address },
    /// Copy an upgradeable program and its executable data from the cluster
    /// referenced by the url argument into the genesis configuration.
    CloneUpgradeableProgram { address: Address },
    /// Configuration file to use.
    ConfigFile { path: String },
    /// Deactivate this feature in genesis.
    DeactivateFeature { feature_pubkey: Address },
    /// Use the directory as the ledger location.
    Ledger { dir: String },
    /// Copy an account from the cluster referenced by the url argument,
    /// skipping it if it doesn't exist.
    MaybeClone { address: Address },
    /// Address of the mint account that will receive tokens created at
    /// genesis.
    Mint { address: Address },
    /// Override the number of slots in an epoch.
    SlotsPerEpoch { slots: u64 },
    /// Add an upgradeable program to the genesis configuration.
    UpgradeableProgram {
        address_or_keypair: AddressOrKeypair,
        so_file_path: String,
        upgrade_authority: AddressOrKeypair,
    },
    /// URL for the JSON RPC endpoint, or a cluster moniker.
    Url { url_or_moniker: UrlOrMoniker },
    /// Warp the ledger to this slot after starting the validator.
    WarpSlot { warp_slot: u64 },
}

/// The mathematical value of a [`UrlOrMoniker`].
#[verifier::ext_equal]
pub ghost enum UrlOrMonikerV {
    Url(Seq<char>),
    Localnet,
    Devnet,
    Testnet,
    MainnetBeta,
}

impl View for UrlOrMoniker {
    type V = UrlOrMonikerV;

    open spec fn view(&self) -> UrlOrMonikerV {
        match self {
            UrlOrMoniker::Url(url) => UrlOrMonikerV::Url(url@),
            UrlOrMoniker::Localnet => UrlOrMonikerV::Localnet,
            UrlOrMoniker::Devnet => UrlOrMonikerV::Devnet,
            UrlOrMoniker::Testnet => UrlOrMonikerV::Testnet,
            UrlOrMoniker::MainnetBeta => UrlOrMonikerV::MainnetBeta,
        }
    }
}

/// The mathematical value of a [`BoomerangTestValidatorStartOptions`].
#[verifier::ext_equal]
pub ghost enum StartOptionV {
    Account { address: Seq<char>, dump_path: Seq<char> },
    AccountDir { directory: Seq<char> },
    BpfProgram { address_or_keypair: AddressOrKeypairV, so_file_path: Seq<char> },
    CloneAccount { address: Seq<char> },
    CloneUpgradeableProgram { address: Seq<char> },
    ConfigFile { path: Seq<char> },
    DeactivateFeature { feature_pubkey: Seq<char> },
    Ledger { dir: Seq<char> },
    MaybeClone { address: Seq<char> },
    Mint { address: Seq<char> },
    SlotsPerEpoch { slots: u64 },
    UpgradeableProgram {
        address_or_keypair: AddressOrKeypairV,
        so_file_path: Seq<char>,
        upgrade_authority: AddressOrKeypairV,
    },
    Url { url_or_moniker: UrlOrMonikerV },
    WarpSlot { warp_slot: u64 },
}

impl View for BoomerangTestValidatorStartOptions {
    type V = StartOptionV;

    open spec fn view(&self) -> StartOptionV {
        match self {
            Self::Account { address, dump_path } => StartOptionV::Account {
                address: address@,
                dump_path: dump_path@,
            },
            Self::AccountDir { directory } => StartOptionV::AccountDir { directory: directory@ },
            Self::BpfProgram { address_or_keypair, so_file_path } => StartOptionV::BpfProgram {
                address_or_keypair: address_or_keypair@,
                so_file_path: so_file_path@,
            },
            Self::CloneAccount { address } => StartOptionV::CloneAccount { address: address@ },
            Self::CloneUpgradeableProgram { address } => StartOptionV::CloneUpgradeableProgram {
                address: address@,
            },
            Self::ConfigFile { path } => StartOptionV::ConfigFile { path: path@ },
            Self::DeactivateFeature { feature_pubkey } => StartOptionV::DeactivateFeature {
                feature_pubkey: feature_pubkey@,
            },
            Self::Ledger { dir } => StartOptionV::Ledger { dir: dir@ },
            Self::MaybeClone { address } => StartOptionV::MaybeClone { address: address@ },
            Self::Mint { address } => StartOptionV::Mint { address: address@ },
            Self::SlotsPerEpoch { slots } => StartOptionV::SlotsPerEpoch { slots: *slots },
            Self::UpgradeableProgram { address_or_keypair, so_file_path, upgrade_authority } =>
                StartOptionV::UpgradeableProgram {
                address_or_keypair: address_or_keypair@,
                so_file_path: so_file_path@,
                upgrade_authority: upgrade_authority@,
            },
            Self::Url { url_or_moniker } => StartOptionV::Url { url_or_moniker: url_or_moniker@ },
            Self::WarpSlot { warp_slot } => StartOptionV::WarpSlot { warp_slot: *warp_slot },
        }
    }
}

/// The argument fragment a startup option serializes to.
pub open spec fn spec_option_arg(v: StartOptionV) -> Seq<char> {
    match v {
        StartOptionV::Account { address, dump_path } => "--account "@ + address + " "@ + dump_path,
        StartOptionV::AccountDir { directory } => "--account-dir "@ + directory,
        StartOptionV::BpfProgram { address_or_keypair, so_file_path } => "--bpf-program "@
            + spec_address_or_keypair_arg(address_or_keypair) + " "@ + so_file_path,
        StartOptionV::CloneAccount { address } => "--clone "@ + address,
        StartOptionV::CloneUpgradeableProgram { address } => "--clone-upgradeable-program "@
            + address,
        StartOptionV::ConfigFile { path } => "--config "@ + path,
        StartOptionV::DeactivateFeature { feature_pubkey } => "--deactivate-feature "@
            + feature_pubkey,
        StartOptionV::Ledger { dir } => "--ledger "@ + dir,
        StartOptionV::MaybeClone { address } => "--maybe-clone "@ + address,
        StartOptionV::Mint { address } => "--mint "@ + address,
        StartOptionV::SlotsPerEpoch { slots } => "--slots-per-epoch "@ + spec_decimal(
            slots as nat,
        ),
        StartOptionV::UpgradeableProgram { address_or_keypair, so_file_path, upgrade_authority } =>
            "--upgradeable-program "@ + spec_address_or_keypair_arg(address_or_keypair) + " "@
            + so_file_path + " "@ + spec_address_or_keypair_arg(upgrade_authority),
        StartOptionV::Url { url_or_moniker } => match url_or_moniker {
            UrlOrMonikerV::Url(url) => "--url "@ + url,
            UrlOrMonikerV::Localnet => "--ul"@,
            UrlOrMonikerV::Devnet => "-ud"@,
            UrlOrMonikerV::Testnet => "-ut"@,
            UrlOrMonikerV::MainnetBeta => "-um"@,
        },
        StartOptionV::WarpSlot { warp_slot } => "--warp-slot "@ + spec_decimal(warp_slot as nat),
    }
}

/// The views of an option list.
pub open spec fn option_views(v: Seq<BoomerangTestValidatorStartOptions>) -> Seq<StartOptionV> {
    v.map_values(|o: BoomerangTestValidatorStartOptions| o@)
}

/// The serialization of a whole option list: each option's fragment in
/// insertion order, joined by single spaces.
pub open spec fn spec_args_of(args: Seq<StartOptionV>) -> Seq<char>
    decreases args.len(),
{
    if args.len() == 0 {
        Seq::empty()
    } else if args.len() == 1 {
        spec_option_arg(args[0])
    } else {
        spec_args_of(args.drop_last()) + " "@ + spec_option_arg(args.last())
    }
}

impl BoomerangTestValidatorStartOptions {
    /// The argument fragment this option serializes to.
    pub open spec fn spec_arg(&self) -> Seq<char> {
        spec_option_arg(self@)
    }

    /// Serializes this option into its command-line fragment.
    pub fn to_string_arg(&self) -> (r: String)
        ensures
            r@ == self.spec_arg(),
    {
        match self {
            Self::Account { address, dump_path } => {
                let mut s = "--account ".to_owned();
                s.append(address.as_str());
                s.append(" ");
                s.append(dump_path.as_str());
                s
            },
            Self::AccountDir { directory } => {
                let mut s = "--account-dir ".to_owned();
                s.append(directory.as_str());
                s
            },
            Self::BpfProgram { address_or_keypair, so_file_path } => {
                let mut s = "--bpf-program ".to_owned();
                let a = address_or_keypair.to_string_arg();
                s.append(a.as_str());
                s.append(" ");
                s.append(so_file_path.as_str());
                s
            },
            Self::CloneAccount { address } => {
                let mut s = "--clone ".to_owned();
                s.append(address.as_str());
                s
            },
            Self::CloneUpgradeableProgram { address } => {
                let mut s = "--clone-upgradeable-program ".to_owned();
                s.append(address.as_str());
                s
            },
            Self::ConfigFile { path } => {
                let mut s = "--config ".to_owned();
                s.append(path.as_str());
                s
            },
            Self::DeactivateFeature { feature_pubkey } => {
                let mut s = "--deactivate-feature ".to_owned();
                s.append(feature_pubkey.as_str());
                s
            },
            Self::Ledger { dir } => {
                let mut s = "--ledger ".to_owned();
                s.append(dir.as_str());
                s
            },
            Self::MaybeClone { address } => {
                let mut s = "--maybe-clone ".to_owned();
                s.append(address.as_str());
                s
            },
            Self::Mint { address } => {
                let mut s = "--mint ".to_owned();
                s.append(address.as_str());
                s
            },
            Self::SlotsPerEpoch { slots } => {
                let mut s = "--slots-per-epoch ".to_owned();
                let d = u64_to_decimal(*slots);
                s.append(d.as_str());
                s
            },
            Self::UpgradeableProgram { address_or_keypair, so_file_path, upgrade_authority } => {
                let mut s = "--upgradeable-program ".to_owned();
                let a = address_or_keypair.to_string_arg();
                s.append(a.as_str());
                s.append(" ");
                s.append(so_file_path.as_str());
                s.append(" ");
                let u = upgrade_authority.to_string_arg();
                s.append(u.as_str());
                s
            },
            Self::Url { url_or_moniker } => match url_or_moniker {
                UrlOrMoniker::Url(url) => {
                    let mut s = "--url ".to_owned();
                    s.append(url.as_str());
                    s
                },
                UrlOrMoniker::Localnet => "--ul".to_owned(),
                UrlOrMoniker::Devnet => "-ud".to_owned(),
                UrlOrMoniker::Testnet => "-ut".to_owned(),
                UrlOrMoniker::MainnetBeta => "-um".to_owned(),
            },
            Self::WarpSlot { warp_slot } => {
                let mut s = "--warp-slot ".to_owned();
                let d = u64_to_decimal(*warp_slot);
                s.append(d.as_str());
                s
            },
        }
    }

    /// Serializes an option list into one space-joined argument string.
    pub fn args_to_string(args: &Vec<BoomerangTestValidatorStartOptions>) -> (r: String)
        ensures
            r@ == spec_args_of(option_views(args@)),
    {
        let mut s = String::new();
        let mut i: usize = 0;
        while i < args.len()
            invariant
                i <= args.len(),
                s@ == spec_args_of(option_views(args@.take(i as int))),
            decreases args.len() - i,
        {
            if i > 0 {
                s.append(" ");
            }
            let a = args[i].to_string_arg();
            s.append(a.as_str());
            proof {
                assert(option_views(args@.take(i + 1)).drop_last() =~= option_views(
                    args@.take(i as int),
                ));
                assert(option_views(args@.take(i + 1)).last() == args@[i as int]@);
                if i == 0 {
                    assert(s@ =~= spec_args_of(option_views(args@.take(i + 1))));
                }
            }
            i += 1;
        }
        proof {
            assert(args@.take(args@.len() as int) =~= args@);
        }
        s
    }
}

} // verus!
