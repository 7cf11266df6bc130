//! Fixed values of the deployment.

use vstd::prelude::*;

verus! {

/// The distributor contract that pays out claims, as hex digits.
pub const CLAIMER_CONTRACT_ADDRESS: &'static str = "E8bE8eB940c0ca3BD19D911CD3bEBc97Bea0ED62";

/// The token contract, as hex digits.
pub const TOKEN_CONTRACT_ADDRESS: &'static str = "d29687c813D741E2F938F4aC377128810E217b1b";

/// Where eligibility proofs are asked for.
pub const REQUEST_PROOF_URL: &'static str = "https://claim.scroll.io/";

/// The file of private keys, one per line.
pub const PRIVATE_KEYS_FILE_PATH: &'static str = "data/private_keys.txt";

/// The file of recipient addresses, one per line.
pub const RECIPIENTS_FILE_PATH: &'static str = "data/recipients.txt";

/// The configuration file.
pub const CONFIG_FILE_PATH: &'static str = "data/config.toml";

/// The chain on which every transaction is sent.
pub const SCROLL_CHAIN_ID: u64 = 534352;

/// Where a sent transaction can be looked at.
pub const SCROLL_EXPLORER_URL: &'static str = "https://scrollscan.com";

} // verus!
