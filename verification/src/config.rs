//! The runtime configuration and its validation rules.
//!
//! Reading the environment happens outside the crate; validation of the
//! resulting values is verified here.

use vstd::prelude::*;

verus! {

/// The connection and retry settings one invocation runs with.
pub struct Config {
    pub deepseek_api_key: String,
    pub deepseek_api_url: String,
    pub deepseek_model: String,
    pub mcp_server_command: String,
    pub request_timeout: u64,
    pub max_retries: u32,
    pub retry_delay: u64,
}

impl Default for Config {
    /// The defaults used when the environment sets nothing: an empty key
    /// (which fails validation), the public endpoint and model, and the
    /// stock timeouts.
    fn default() -> (r: Config)
        ensures
            r.deepseek_api_key@ == Seq::<char>::empty(),
            r.deepseek_api_url@ == "https://api.deepseek.com/v1/chat/completions"@,
            r.deepseek_model@ == "deepseek-chat"@,
            r.mcp_server_command@ == "node"@,
            r.request_timeout == 30,
            r.max_retries == 3,
            r.retry_delay == 1000,
    {
        Config {
            deepseek_api_key: String::new(),
            deepseek_api_url: String::from_str("https://api.deepseek.com/v1/chat/completions"),
            deepseek_model: String::from_str("deepseek-chat"),
            mcp_server_command: String::from_str("node"),
            request_timeout: 30,
            max_retries: 3,
            retry_delay: 1000,
        }
    }
}

/// Whether a configuration passes validation: the four textual settings
/// must all be non-empty.
pub open spec fn config_valid(c: Config) -> bool {
    &&& c.deepseek_api_key@.len() > 0
    &&& c.deepseek_api_url@.len() > 0
    &&& c.deepseek_model@.len() > 0
    &&& c.mcp_server_command@.len() > 0
}

/// The message naming the first setting that fails validation.
pub open spec fn config_error_text(c: Config) -> Seq<char> {
    if c.deepseek_api_key@.len() == 0 {
        "DeepSeek API key cannot be empty"@
    } else if c.deepseek_api_url@.len() == 0 {
        "DeepSeek API URL cannot be empty"@
    } else if c.deepseek_model@.len() == 0 {
        "DeepSeek model cannot be empty"@
    } else {
        "MCP server command cannot be empty"@
    }
}

impl Config {
    /// Accepts the configuration exactly when every textual setting is
    /// non-empty; otherwise names the first offender.
    pub fn validate(&self) -> (r: Result<(), String>)
        ensures
            (r is Ok) == config_valid(*self),
            r is Err ==> r->Err_0@ == config_error_text(*self),
    {
        if self.deepseek_api_key.as_str().is_empty() {
            return Err(String::from_str("DeepSeek API key cannot be empty"));
        }
        if self.deepseek_api_url.as_str().is_empty() {
            return Err(String::from_str("DeepSeek API URL cannot be empty"));
        }
        if self.deepseek_model.as_str().is_empty() {
            return Err(String::from_str("DeepSeek model cannot be empty"));
        }
        if self.mcp_server_command.as_str().is_empty() {
            return Err(String::from_str("MCP server command cannot be empty"));
        }
        Ok(())
    }
}

} // verus!
