use vstd::prelude::*;
use vstd::string::StringExecFns;

verus! {

/// Explicit configuration for one invocation: the chain RPC endpoint, the
/// API key appended to it, and the path of the signing-key file. Loaded
/// once and passed to every component; there is no ambient configuration.
pub struct Config {
    pub rpc_endpoint: String,
    pub api_key: String,
    pub keypair_path: String,
}

impl Config {
    /// The documented default value of every field.
    pub fn default() -> (c: Config)
        ensures
            c.rpc_endpoint@ == "https://api.mainnet-beta.solana.com"@,
            c.api_key@ == ""@,
            c.keypair_path@ == "./keypair.json"@,
    {
        Config {
            rpc_endpoint: String::from_str("https://api.mainnet-beta.solana.com"),
            api_key: String::from_str(""),
            keypair_path: String::from_str("./keypair.json"),
        }
    }
}

} // verus!
