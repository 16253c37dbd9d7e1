//! Where the server is found.

use vstd::prelude::*;
use vstd::string::*;

verus! {

/// Where the Jira server is found.
#[derive(Debug)]
pub struct Config {
    pub api_url: String,
}

impl Config {
    /// The configuration for the server at `jira_url`.
    pub fn new(jira_url: &str) -> (config: Config)
        ensures
            config.api_url@ == jira_url@,
    {
        Config { api_url: jira_url.to_owned() }
    }
}

impl Default for Config {
    fn default() -> (config: Config)
        ensures
            config.api_url@ == Seq::<char>::empty(),
    {
        Config { api_url: String::new() }
    }
}

} // verus!
