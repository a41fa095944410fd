//! The requests that a session makes of the wallet, framed as plain values,
//! and what each answer turns into for the caller.

use vstd::prelude::*;
use vstd::string::StringExecFns;
use crate::hooks::use_ethereum::UseEthereumHandle;
use crate::text::json_member_text;

verus! {

/// One call of a wallet method. Each parameter is a JSON document.
#[derive(Clone, Debug, PartialEq, Eq)]
pub struct RpcRequest {
    /// The method's name.
    pub method: String,
    /// The parameters in order, each as JSON text.
    pub params: Vec<String>,
}

impl RpcRequest {
    /// Whether this is a call of `method` with `param` as its one parameter.
    pub open spec fn is_call(&self, method: Seq<char>, param: Seq<char>) -> bool {
        &&& self.method@ == method
        &&& self.params@.len() == 1
        &&& self.params@[0]@ == param
    }
}

/// A JSON document written compactly, as `serde_json` prints what it read
/// of it; `None` where the text is not one JSON document.
pub uninterp spec fn json_compact_text(document: Seq<char>) -> Option<Seq<char>>;

/// The parameter of a request to track a token: an object whose member
/// `options` is the token's description and whose member `r#type` is the
/// string `ERC20`.
pub open spec fn watch_asset_param(options: Seq<char>) -> Seq<char> {
    "{\"options\":"@ + options + ",\"r#type\":\"ERC20\"}"@
}

/// Builds a `serde_json::Value` object with one string member and prints it
/// with the value's `Display`. That writes compact JSON: a brace, the key
/// and the value as JSON strings with a colon between them, a brace; inside
/// a string it escapes the quotation mark, the backslash and the characters
/// below the space, and nothing else.
#[verifier::external_body]
fn json_string_member(key: &str, value: &str) -> (r: String)
    ensures
        r@ == json_member_text(key@, value@),
{
    let mut object = serde_json::Map::new();
    object.insert(key.to_string(), serde_json::Value::String(value.to_string()));
    serde_json::Value::Object(object).to_string()
}

/// Reads a document with `serde_json::from_str` into a `serde_json::Value`
/// and prints the value with its `Display`. The outcome depends on the text
/// alone; it is `None` exactly where `from_str` fails.
#[verifier::external_body]
fn json_compact(document: &str) -> (r: Option<String>)
    ensures
        match r {
            Some(text) => json_compact_text(document@) == Some(text@),
            None => json_compact_text(document@) is None,
        },
{
    match serde_json::from_str::<serde_json::Value>(document) {
        Ok(value) => Some(value.to_string()),
        Err(_) => None,
    }
}

/// What a caller is told where the wallet did not answer a request well.
pub open spec fn failure_text() -> Seq<char> {
    "error deserializing request params"@
}

/// The outcome of a request whose answer carries nothing: success where the
/// wallet answered, the failure text where it did not.
pub open spec fn settled(answered: bool, r: Result<(), String>) -> bool {
    match r {
        Ok(_) => answered,
        Err(e) => !answered && e@ == failure_text(),
    }
}

fn failure() -> (r: String)
    ensures
        r@ == failure_text(),
{
    String::from_str("error deserializing request params")
}

fn single(method: &str, param: String) -> (r: RpcRequest)
    ensures
        r.is_call(method@, param@),
{
    let mut params: Vec<String> = Vec::new();
    params.push(param);
    UseEthereumHandle::request(method, params)
}

impl UseEthereumHandle {
    /// A call of `method` with `params`.
    pub fn request(method: &str, params: Vec<String>) -> (r: RpcRequest)
        ensures
            r.method@ == method@,
            r.params == params,
    {
        RpcRequest { method: String::from_str(method), params }
    }

    /// The request that moves the wallet to the chain `chain_id`: one
    /// parameter, an object whose member `chainId` is that text.
    pub fn switch_chain(chain_id: &str) -> (r: RpcRequest)
        ensures
            r.is_call("wallet_switchEthereumChain"@, json_member_text("chainId"@, chain_id@)),
    {
        single("wallet_switchEthereumChain", json_string_member("chainId", chain_id))
    }

    /// The request that proposes a chain to the wallet: one parameter, the
    /// chain's description written compactly. Where the description is not
    /// JSON there is no request.
    pub fn add_chain(chain_json: &str) -> (r: Option<RpcRequest>)
        ensures
            match r {
                Some(call) => {
                    let chain = json_compact_text(chain_json@);
                    chain is Some && call.is_call("wallet_addEthereumChain"@, chain->0)
                },
                None => json_compact_text(chain_json@) is None,
            },
    {
        match json_compact(chain_json) {
            Some(chain) => Some(single("wallet_addEthereumChain", chain)),
            None => None,
        }
    }

    /// The request that asks the wallet to track a token whose description
    /// is the JSON document `options`.
    pub fn watch_asset_with(options: &str) -> (r: RpcRequest)
        ensures
            r.is_call("wallet_watchAsset"@, watch_asset_param(options@)),
    {
        let param = String::from_str("{\"options\":").concat(options).concat(
            ",\"r#type\":\"ERC20\"}",
        );
        single("wallet_watchAsset", param)
    }

    /// The request that asks the wallet to track a token. The token's
    /// description is written compactly first; where it is not JSON there
    /// is no request.
    pub fn watch_asset(asset_json: &str) -> (r: Option<RpcRequest>)
        ensures
            match r {
                Some(call) => {
                    let options = json_compact_text(asset_json@);
                    options is Some && call.is_call(
                        "wallet_watchAsset"@,
                        watch_asset_param(options->0),
                    )
                },
                None => json_compact_text(asset_json@) is None,
            },
    {
        match json_compact(asset_json) {
            Some(options) => Some(Self::watch_asset_with(options.as_str())),
            None => None,
        }
    }

    /// The two requests that move the wallet to a chain it may not know yet,
    /// in the order in which they are sent: the proposal of the chain, then
    /// the switch. The switch is made whatever became of the proposal, also
    /// where there is none because the chain's description is not JSON.
    pub fn switch_chain_with_fallback(chain_id: &str, chain_json: &str) -> (r: (
        Option<RpcRequest>,
        RpcRequest,
    ))
        ensures
            match r.0 {
                Some(call) => {
                    let chain = json_compact_text(chain_json@);
                    chain is Some && call.is_call("wallet_addEthereumChain"@, chain->0)
                },
                None => json_compact_text(chain_json@) is None,
            },
            r.1.is_call("wallet_switchEthereumChain"@, json_member_text("chainId"@, chain_id@)),
    {
        (Self::add_chain(chain_json), Self::switch_chain(chain_id))
    }

    /// What the caller of `switch_chain` gets: the chain identifier back
    /// where the wallet answered, the failure text where it did not.
    pub fn switch_chain_outcome(chain_id: &str, answered: bool) -> (r: Result<String, String>)
        ensures
            match r {
                Ok(id) => answered && id@ == chain_id@,
                Err(e) => !answered && e@ == failure_text(),
            },
    {
        if answered {
            Ok(String::from_str(chain_id))
        } else {
            Err(failure())
        }
    }

    /// What the caller of `add_chain` or `watch_asset` gets.
    pub fn outcome(answered: bool) -> (r: Result<(), String>)
        ensures
            settled(answered, r),
    {
        if answered {
            Ok(())
        } else {
            Err(failure())
        }
    }

    /// What the caller of `switch_chain_with_fallback` gets. Whether the
    /// proposal was answered does not count: the switch alone decides.
    pub fn switch_chain_with_fallback_outcome(added: bool, switched: bool) -> (r: Result<
        (),
        String,
    >)
        ensures
            settled(switched, r),
    {
        Self::outcome(switched)
    }
}

} // verus!
