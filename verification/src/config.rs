//! The settings of a run.

use crate::random::choose_one;
use vstd::prelude::*;

verus! {

/// The settings of a run, as the configuration file gives them.
#[derive(Clone, Debug)]
pub struct Config {
    /// The connection strings of the endpoints.
    pub rpc_urls: Vec<String>,
    /// The pause before each first admission, in milliseconds.
    pub spawn_task_delay: u64,
    /// The proxies through which eligibility is looked up.
    pub proxies: Vec<String>,
}

impl Config {
    /// Picks one of the configured proxies at random. What is promised holds
    /// of every pick: the proxy is one of those configured.
    pub fn get_random_proxy(&self) -> (proxy: &String)
        requires
            self.proxies@.len() > 0,
        ensures
            self.proxies@.contains(*proxy),
    {
        let chosen = choose_one(&self.proxies);
        match chosen {
            Some(proxy) => proxy,
            None => &self.proxies[0],
        }
    }
}

} // verus!
