use vstd::prelude::*;

use ethers::providers::{Http, Provider};
use ethers::signers::LocalWallet;
use ethers::types::H160;

verus! {

#[verifier::external_type_specification]
#[verifier::external_body]
pub struct ExH160(H160);

#[verifier::external_type_specification]
#[verifier::external_body]
pub struct ExHttp(Http);

#[verifier::external_type_specification]
#[verifier::external_body]
#[verifier::reject_recursive_types(P)]
pub struct ExProvider<P>(Provider<P>);

/// Whether the endpoint text is accepted as an absolute URL.
pub uninterp spec fn url_accepted(s: Seq<char>) -> bool;

/// Whether the key text decodes to a valid secp256k1 signing key.
pub uninterp spec fn key_accepted(s: Seq<char>) -> bool;

/// Relies on `Provider::<Http>::try_from(&str)`: it parses the text as a URL
/// and succeeds exactly when the URL parser accepts it; nothing is sent.
#[verifier::external_body]
fn parse_endpoint(s: &str) -> (r: Option<Provider<Http>>)
    ensures
        r is Some <==> url_accepted(s@),
{
    Provider::<Http>::try_from(s).ok()
}

/// Relies on `LocalWallet::from_str`: it hex-decodes the text into a
/// secp256k1 signing key and fails on any text that does not make one. Only
/// whether it succeeds is kept; the wallet is built again where it signs.
#[verifier::external_body]
fn signing_key_valid(s: &str) -> (r: bool)
    ensures
        r == key_accepted(s@),
{
    s.parse::<LocalWallet>().is_ok()
}

/// Relies on `H160::from_str`: it drops one leading `0x`, skips spaces, tabs,
/// carriage returns and line feeds, and succeeds exactly when what is left is
/// forty hex digits.
#[verifier::external_body]
fn parse_address(s: &str) -> (r: Option<H160>)
    ensures
        r is Some <==> address_text(s@),
{
    s.parse::<H160>().ok()
}

pub open spec fn is_hex_digit(ch: char) -> bool {
    ('0' <= ch && ch <= '9') || ('a' <= ch && ch <= 'f') || ('A' <= ch && ch <= 'F')
}

pub open spec fn is_blank(ch: char) -> bool {
    ch == ' ' || ch == '\r' || ch == '\n' || ch == '\t'
}

/// The text after one leading `0x`, if there is one.
pub open spec fn without_hex_prefix(s: Seq<char>) -> Seq<char> {
    if s.len() >= 2 && s[0] == '0' && s[1] == 'x' {
        s.skip(2)
    } else {
        s
    }
}

/// Whether `s` spells a 20-byte contract address in hex.
pub open spec fn address_text(s: Seq<char>) -> bool {
    let t = without_hex_prefix(s);
    &&& forall|i: int| 0 <= i < t.len() ==> is_hex_digit(#[trigger] t[i]) || is_blank(t[i])
    &&& t.filter(|ch: char| is_hex_digit(ch)).len() == 40
}

/// The three values the ledger connection is made from. Any of them may be
/// missing.
pub struct LedgerConfig {
    pub rpc_url: Option<String>,
    pub contract_address: Option<String>,
    pub account_key: Option<String>,
}

/// What is wrong with a configuration.
#[derive(Clone, Copy, Debug, PartialEq, Eq)]
pub enum ConfigError {
    MissingRpcUrl,
    MissingContractAddress,
    MissingAccountKey,
    InvalidRpcUrl,
    InvalidContractAddress,
    InvalidAccountKey,
}

/// Why the bridge runs without the ledger.
#[derive(Clone, Copy, Debug, PartialEq, Eq)]
pub enum OfflineReason {
    /// The configuration is incomplete or malformed.
    Config(ConfigError),
    /// The endpoint could not be reached, or did not name its chain.
    Connect,
}

/// The first problem found in a configuration, if any: missing values
/// before malformed ones, each group in the order endpoint, contract
/// address, signing key.
pub open spec fn config_problem(config: LedgerConfig) -> Option<ConfigError> {
    if config.rpc_url is None {
        Some(ConfigError::MissingRpcUrl)
    } else if config.contract_address is None {
        Some(ConfigError::MissingContractAddress)
    } else if config.account_key is None {
        Some(ConfigError::MissingAccountKey)
    } else if !url_accepted(config.rpc_url->Some_0@) {
        Some(ConfigError::InvalidRpcUrl)
    } else if !address_text(config.contract_address->Some_0@) {
        Some(ConfigError::InvalidContractAddress)
    } else if !key_accepted(config.account_key->Some_0@) {
        Some(ConfigError::InvalidAccountKey)
    } else {
        None
    }
}

/// A checked configuration, not yet connected.
pub struct Endpoint {
    provider: Provider<Http>,
    account_key: String,
    contract_address: H160,
}

impl Endpoint {
    #[verifier::type_invariant]
    spec fn key_checked(&self) -> bool {
        key_accepted(self.account_key@)
    }

    /// The endpoint's transport: the chain identifier is asked of it.
    pub fn provider(&self) -> &Provider<Http> {
        &self.provider
    }
}

/// A connected ledger: shared read-only by every remote worker, never
/// changed after it is made.
pub struct BlockchainClient {
    provider: Provider<Http>,
    account_key: String,
    contract_address: H160,
    chain_id: u64,
}

impl BlockchainClient {
    #[verifier::type_invariant]
    spec fn key_checked(&self) -> bool {
        key_accepted(self.account_key@)
    }

    pub closed spec fn chain(&self) -> u64 {
        self.chain_id
    }

    pub fn provider(&self) -> &Provider<Http> {
        &self.provider
    }

    /// The signing key, as configured; it is known to make a wallet.
    pub fn account_key(&self) -> (r: &str)
        ensures
            key_accepted(r@),
    {
        proof {
            use_type_invariant(self);
        }
        self.account_key.as_str()
    }

    pub fn contract_address(&self) -> &H160 {
        &self.contract_address
    }

    pub fn chain_id(&self) -> (r: u64)
        ensures
            r == self.chain(),
    {
        self.chain_id
    }
}

/// Either a usable ledger or the reason there is none. Offline is a mode of
/// its own, not an error: the rest of the bridge runs on in it.
pub enum Connection {
    Online(BlockchainClient),
    Offline(OfflineReason),
}

impl Connection {
    pub fn is_online(&self) -> (r: bool)
        ensures
            r == (self is Online),
    {
        match self {
            Connection::Online(_) => true,
            Connection::Offline(_) => false,
        }
    }
}

/// Checks a configuration and builds from it the endpoint, the signing
/// credentials and the contract address. Nothing is sent over the network.
pub fn prepare(config: LedgerConfig) -> (r: Result<Endpoint, ConfigError>)
    ensures
        match config_problem(config) {
            Some(e) => r == Err::<Endpoint, ConfigError>(e),
            None => r is Ok,
        },
{
    let ghost spec_config = config;
    let LedgerConfig { rpc_url, contract_address, account_key } = config;
    let rpc_url = match rpc_url {
        Some(u) => u,
        None => return Err(ConfigError::MissingRpcUrl),
    };
    let contract_address = match contract_address {
        Some(a) => a,
        None => return Err(ConfigError::MissingContractAddress),
    };
    let account_key = match account_key {
        Some(k) => k,
        None => return Err(ConfigError::MissingAccountKey),
    };
    let provider = match parse_endpoint(rpc_url.as_str()) {
        Some(p) => p,
        None => return Err(ConfigError::InvalidRpcUrl),
    };
    let contract_address = match parse_address(contract_address.as_str()) {
        Some(a) => a,
        None => return Err(ConfigError::InvalidContractAddress),
    };
    if !signing_key_valid(account_key.as_str()) {
        return Err(ConfigError::InvalidAccountKey);
    }
    Ok(Endpoint { provider, account_key, contract_address })
}

/// Finishes a connection from a prepared endpoint and the chain identifier
/// that the endpoint answered with, if it answered. Every input gives a
/// connection: a usable one, or an offline one that says why.
pub fn connect(prepared: Result<Endpoint, ConfigError>, chain_id: Option<u64>) -> (r: Connection)
    ensures
        match prepared {
            Err(e) => r == Connection::Offline(OfflineReason::Config(e)),
            Ok(_) => match chain_id {
                None => r == Connection::Offline(OfflineReason::Connect),
                Some(id) => r is Online && r->Online_0.chain() == id,
            },
        },
{
    match prepared {
        Err(e) => Connection::Offline(OfflineReason::Config(e)),
        Ok(endpoint) => match chain_id {
            Some(id) => {
                proof {
                    use_type_invariant(&endpoint);
                }
                Connection::Online(
                    BlockchainClient {
                        provider: endpoint.provider,
                        account_key: endpoint.account_key,
                        contract_address: endpoint.contract_address,
                        chain_id: id,
                    },
                )
            },
            None => Connection::Offline(OfflineReason::Connect),
        },
    }
}

} // verus!
