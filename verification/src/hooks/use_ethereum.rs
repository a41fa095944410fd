//! The wallet session: three cells of state and the transitions that the
//! provider's answers and events cause.

use vstd::prelude::*;
use vstd::std_specs::cmp::PartialEqSpecImpl;
use crate::text::{decimal_value, is_decimal, upper_hex_text};
use crate::types::{uint256_limit, Address, Uint256};

verus! {

/// What a session holds, as mathematical values.
pub struct Session {
    /// Whether the wallet counts as connected.
    pub connected: bool,
    /// The accounts that the wallet exposed last, if it ever did.
    pub accounts: Option<Seq<Address>>,
    /// The chain that the wallet reported last, if it ever did.
    pub chain_id: Option<Uint256>,
}

impl Session {
    /// The state before anything was heard from the wallet.
    pub open spec fn initial() -> Session {
        Session { connected: false, accounts: None, chain_id: None }
    }

    /// The account that the session acts for: the first one exposed.
    pub open spec fn address(self) -> Option<Address> {
        match self.accounts {
            Some(a) => if a.len() > 0 {
                Some(a[0])
            } else {
                None
            },
            None => None,
        }
    }
}

/// An answer of the wallet while a connection is being made.
pub enum ConnectReply {
    /// The answer to the request for accounts: the accounts, or `None`
    /// where the wallet refused or failed.
    Accounts(Option<Vec<Address>>),
    /// The answer to the query for the chain: the chain identifier, or
    /// `None` where the query failed.
    ChainId(Option<Uint256>),
}

/// What is to be done next while a connection is being made.
#[derive(Clone, Copy, Debug, PartialEq, Eq, Structural)]
pub enum ConnectStep {
    /// Ask the wallet for its chain and hand the answer to `connect`.
    QueryChain,
    /// Listen for the four events: chain changed, accounts changed,
    /// connect and disconnect.
    Subscribe,
    /// The wallet gave no accounts: nothing more is done.
    Finished,
}

/// The state of one wallet session.
#[derive(Clone, Debug)]
pub struct UseEthereumHandle {
    connected: bool,
    accounts: Option<Vec<Address>>,
    chain_id: Option<Uint256>,
}

impl View for UseEthereumHandle {
    type V = Session;

    closed spec fn view(&self) -> Session {
        Session {
            connected: self.connected,
            accounts: match self.accounts {
                Some(a) => Some(a@),
                None => None,
            },
            chain_id: self.chain_id,
        }
    }
}

impl Default for UseEthereumHandle {
    /// A session of which nothing is known yet: disconnected, with no
    /// accounts and no chain.
    fn default() -> (r: Self)
        ensures
            r@ == Session::initial(),
    {
        UseEthereumHandle { connected: false, accounts: None, chain_id: None }
    }
}

/// Whether two lists hold the same addresses in the same order.
fn same_addresses(a: &Vec<Address>, b: &Vec<Address>) -> (r: bool)
    ensures
        r == (a@ == b@),
{
    if a.len() != b.len() {
        return false;
    }
    let mut i: usize = 0;
    while i < a.len()
        invariant
            a@.len() == b@.len(),
            i <= a@.len(),
            forall|j: int| 0 <= j < i ==> a@[j] == b@[j],
        decreases a@.len() - i,
    {
        if !a[i].eq(&b[i]) {
            return false;
        }
        i += 1;
    }
    proof {
        assert(a@ =~= b@);
    }
    true
}

impl PartialEq for UseEthereumHandle {
    /// Whether the two sessions are in the same state.
    fn eq(&self, other: &Self) -> (r: bool) {
        if self.connected != other.connected {
            return false;
        }
        let same_chain = match (&self.chain_id, &other.chain_id) {
            (Some(a), Some(b)) => a.eq(b),
            (None, None) => true,
            _ => false,
        };
        if !same_chain {
            return false;
        }
        match (&self.accounts, &other.accounts) {
            (Some(a), Some(b)) => same_addresses(a, b),
            (None, None) => true,
            _ => false,
        }
    }
}

impl PartialEqSpecImpl for UseEthereumHandle {
    open spec fn obeys_eq_spec() -> bool {
        true
    }

    open spec fn eq_spec(&self, other: &Self) -> bool {
        self@ == other@
    }
}

impl UseEthereumHandle {
    /// Applies an answer of the wallet to the session and says what to do
    /// next. Accounts that were granted mark the session connected and are
    /// stored, and the chain is to be queried; a refusal changes nothing and
    /// ends the attempt. The chain's answer is stored as it came, also where
    /// the query failed, and the events are to be listened for. No answer
    /// makes the attempt fail.
    pub fn connect(&mut self, reply: ConnectReply) -> (r: Result<ConnectStep, String>)
        ensures
            match reply {
                ConnectReply::Accounts(Some(granted)) => {
                    &&& r == Ok::<ConnectStep, String>(ConnectStep::QueryChain)
                    &&& final(self)@ == (Session {
                        connected: true,
                        accounts: Some(granted@),
                        chain_id: old(self)@.chain_id,
                    })
                },
                ConnectReply::Accounts(None) => {
                    &&& r == Ok::<ConnectStep, String>(ConnectStep::Finished)
                    &&& final(self)@ == old(self)@
                },
                ConnectReply::ChainId(answer) => {
                    &&& r == Ok::<ConnectStep, String>(ConnectStep::Subscribe)
                    &&& final(self)@ == (Session { chain_id: answer, ..old(self)@ })
                },
            },
    {
        match reply {
            ConnectReply::Accounts(Some(granted)) => {
                self.connected = true;
                self.accounts = Some(granted);
                Ok(ConnectStep::QueryChain)
            },
            ConnectReply::Accounts(None) => Ok(ConnectStep::Finished),
            ConnectReply::ChainId(answer) => {
                self.chain_id = answer;
                Ok(ConnectStep::Subscribe)
            },
        }
    }

    /// Marks the session disconnected. Accounts and chain stay as they are.
    pub fn disconnect(&mut self)
        ensures
            final(self)@ == (Session { connected: false, ..old(self)@ }),
    {
        self.connected = false;
    }

    /// Whether the wallet counts as connected.
    pub fn connected(&self) -> (r: bool)
        ensures
            r == self@.connected,
    {
        self.connected
    }

    /// The first account that the wallet exposed; `None` where it exposed
    /// none yet or an empty list.
    pub fn address(&self) -> (r: Option<&Address>)
        ensures
            match r {
                Some(a) => self@.address() == Some(*a),
                None => self@.address() is None,
            },
    {
        match &self.accounts {
            Some(a) => {
                if a.len() > 0 {
                    Some(&a[0])
                } else {
                    None
                }
            },
            None => None,
        }
    }

    /// The chain that the wallet reported last, in full.
    pub fn chain(&self) -> (r: Option<Uint256>)
        ensures
            r == self@.chain_id,
    {
        self.chain_id
    }

    /// The chain identifier as a `u64`; `None` where no chain is known. The
    /// identifier, where there is one, must fit a `u64`.
    pub fn chain_id(&self) -> (r: Option<u64>)
        requires
            self@.chain_id is Some ==> self@.chain_id->0.fits_u64(),
        ensures
            match r {
                Some(id) => self@.chain_id is Some && id == self@.chain_id->0.value(),
                None => self@.chain_id is None,
            },
    {
        match &self.chain_id {
            Some(id) => Some(id.as_u64()),
            None => None,
        }
    }

    /// The chain identifier in upper-case hexadecimal behind `0x`; `None`
    /// where no chain is known.
    pub fn chain_id_hex(&self) -> (r: Option<String>)
        ensures
            match r {
                Some(text) => self@.chain_id is Some && text@ == seq!['0', 'x'] + upper_hex_text(
                    self@.chain_id->0.value(),
                ),
                None => self@.chain_id is None,
            },
    {
        match &self.chain_id {
            Some(id) => Some(id.to_hex()),
            None => None,
        }
    }

    /// The session's address abbreviated; the empty text where it has none.
    pub fn display_short_address(&self) -> (r: String)
        ensures
            r@ == match self@.address() {
                Some(a) => a.short_text(),
                None => Seq::<char>::empty(),
            },
    {
        match self.address() {
            Some(a) => a.to_short_string(),
            None => String::new(),
        }
    }

    /// The session's address in full; the empty text where it has none.
    pub fn display_address(&self) -> (r: String)
        ensures
            r@ == match self@.address() {
                Some(a) => a.full_text(),
                None => Seq::<char>::empty(),
            },
    {
        match self.address() {
            Some(a) => a.to_full_string(),
            None => String::new(),
        }
    }

    /// The wallet exposes another list of accounts. The list is stored; an
    /// empty one also marks the session disconnected.
    pub fn on_accounts_changed(&mut self, addresses: Vec<Address>)
        ensures
            final(self)@ == (Session {
                connected: old(self)@.connected && addresses@.len() > 0,
                accounts: Some(addresses@),
                chain_id: old(self)@.chain_id,
            }),
    {
        if addresses.len() == 0 {
            self.connected = false;
        }
        self.accounts = Some(addresses);
    }

    /// The wallet moved to another chain, named in decimal. The text must be
    /// a decimal number below two to the 256th power, as every text from
    /// `Uint256::to_decimal` is.
    pub fn on_chain_changed(&mut self, chain_id: &str)
        requires
            is_decimal(chain_id@),
            decimal_value(chain_id@) < uint256_limit(),
        ensures
            final(self)@.connected == old(self)@.connected,
            final(self)@.accounts == old(self)@.accounts,
            final(self)@.chain_id is Some,
            final(self)@.chain_id->0.value() == decimal_value(chain_id@),
    {
        let parsed = Uint256::from_dec_str(chain_id);
        self.chain_id = parsed;
    }

    /// The wallet reports that it is connected.
    pub fn on_connect(&mut self)
        ensures
            final(self)@ == (Session { connected: true, ..old(self)@ }),
    {
        self.connected = true;
    }

    /// The wallet reports that it is disconnected.
    pub fn on_disconnect(&mut self)
        ensures
            final(self)@ == (Session { connected: false, ..old(self)@ }),
    {
        self.connected = false;
    }
}

/// Starts a session on a provider: the one given, else the one that the
/// browser injected. With neither there is no session. The session starts
/// disconnected, with no accounts and no chain.
pub fn use_ethereum<P>(default: Option<P>, injected: Option<P>) -> (r: Option<
    (P, UseEthereumHandle),
>)
    ensures
        match r {
            Some((provider, handle)) => {
                &&& handle@ == Session::initial()
                &&& Some(provider) == (if default is Some {
                    default
                } else {
                    injected
                })
            },
            None => default is None && injected is None,
        },
{
    let chosen = match default {
        Some(provider) => Some(provider),
        None => injected,
    };
    match chosen {
        Some(provider) => Some((provider, UseEthereumHandle::default())),
        None => None,
    }
}

} // verus!
