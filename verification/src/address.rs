//! Plain-value models of the on-chain identity types the harness works with.
//!
//! The orchestration logic only ever reads two things from an on-chain
//! address: its identity (for grouping and for ledger lookups) and its
//! textual form (for command-line serialization). An [`Address`] therefore
//! carries exactly that textual form, and its view is the character
//! sequence of that text.

use vstd::prelude::*;

verus! {

/// An on-chain address, carried as its textual (display) form.
#[derive(Debug)]
pub struct Address {
    text: String,
}

impl View for Address {
    type V = Seq<char>;

    closed spec fn view(&self) -> Seq<char> {
        self.text@
    }
}

impl Address {
    /// Builds an address from its textual form.
    pub fn new(text: String) -> (r: Self)
        ensures
            r@ == text@,
    {
        Address { text }
    }

    /// Builds an address from a string slice.
    pub fn from_str(text: &str) -> (r: Self)
        ensures
            r@ == text@,
    {
        Address { text: text.to_owned() }
    }

    /// The textual form of the address.
    pub fn as_str(&self) -> (r: &str)
        ensures
            r@ == self@,
    {
        self.text.as_str()
    }

    /// The textual form of the address, as an owned string.
    pub fn to_text(&self) -> (r: String)
        ensures
            r@ == self@,
    {
        self.text.clone()
    }
}

impl Clone for Address {
    fn clone(&self) -> (r: Self)
        ensures
            r@ == self@,
    {
        Address { text: self.text.clone() }
    }
}

impl PartialEq for Address {
    fn eq(&self, other: &Self) -> (r: bool) {
        self.text == other.text
    }
}

impl vstd::std_specs::cmp::PartialEqSpecImpl for Address {
    open spec fn obeys_eq_spec() -> bool {
        true
    }

    open spec fn eq_spec(&self, other: &Self) -> bool {
        self@ == other@
    }
}

/// A signing key pair, modelled by the address it signs for. The secret
/// material itself never flows through the orchestration logic: tests only
/// ever compare signer identities and write key files, and both read the
/// address alone.
pub struct Keypair {
    address: Address,
}

impl View for Keypair {
    type V = Seq<char>;

    closed spec fn view(&self) -> Seq<char> {
        self.address@
    }
}

impl Keypair {
    /// Builds a key pair that signs for the given address.
    pub fn new(address: Address) -> (r: Self)
        ensures
            r@ == address@,
    {
        Keypair { address }
    }

    /// The address this key pair signs for.
    pub fn pubkey(&self) -> (r: Address)
        ensures
            r@ == self@,
    {
        self.address.clone()
    }

    /// A copy of the key pair, for callers that need to hold it repeatedly.
    pub fn insecure_clone(&self) -> (r: Self)
        ensures
            r@ == self@,
    {
        Keypair { address: self.address.clone() }
    }
}

/// Holds when `features` contains an address whose view is `a`.
pub open spec fn contains_address(features: Seq<Address>, a: Seq<char>) -> bool {
    exists|k: int| 0 <= k < features.len() && (#[trigger] features[k])@ == a
}

/// The set of address views held by `features`.
pub open spec fn address_set(features: Seq<Address>) -> Set<Seq<char>> {
    features.map_values(|f: Address| f@).to_set()
}

/// Membership in the view sequence of `features` is exactly
/// `contains_address`.
pub proof fn lemma_views_contains(features: Seq<Address>, a: Seq<char>)
    ensures
        features.map_values(|f: Address| f@).contains(a) == contains_address(features, a),
{
    let views = features.map_values(|f: Address| f@);
    if views.contains(a) {
        let k = choose|k: int| 0 <= k < views.len() && views[k] == a;
        assert(features[k]@ == a);
        assert(contains_address(features, a));
    }
    if contains_address(features, a) {
        let k = choose|k: int| 0 <= k < features.len() && (#[trigger] features[k])@ == a;
        assert(views[k] == a);
        assert(views.contains(a));
    }
}

/// Membership in `address_set` is exactly `contains_address`.
pub broadcast proof fn lemma_address_set_contains(features: Seq<Address>, a: Seq<char>)
    ensures
        #[trigger] address_set(features).contains(a) == contains_address(features, a),
{
    let views = features.map_values(|f: Address| f@);
    if views.contains(a) {
        let k = choose|k: int| 0 <= k < views.len() && views[k] == a;
        assert(features[k]@ == a);
        assert(contains_address(features, a));
    }
    if contains_address(features, a) {
        let k = choose|k: int| 0 <= k < features.len() && (#[trigger] features[k])@ == a;
        assert(views[k] == a);
        assert(views.contains(a));
    }
}

/// Reports whether `features` holds an address equal to `a`.
pub fn holds_address(features: &Vec<Address>, a: &Address) -> (r: bool)
    ensures
        r == contains_address(features@, a@),
{
    let mut j: usize = 0;
    let mut found = false;
    while j < features.len()
        invariant
            j <= features.len(),
            found == exists|k: int| 0 <= k < j && (#[trigger] features@[k])@ == a@,
        decreases features.len() - j,
    {
        if &features[j] == a {
            found = true;
        }
        j += 1;
    }
    proof {
        if found {
            let k = choose|k: int| 0 <= k < j && (#[trigger] features@[k])@ == a@;
            assert(contains_address(features@, a@));
        }
        if contains_address(features@, a@) {
            let k = choose|k: int| 0 <= k < features@.len() && (#[trigger] features@[k])@ == a@;
            assert(found);
        }
    }
    found
}

} // verus!
