//! Resolution of the upstream credentials.
//!
//! The gateway needs an API key and an API secret before it can sign in.
//! They come either from the process configuration or, where that holds
//! empty strings, from the first two lines of a secrets file. Reading the
//! environment and the file is the caller's concern; the decision which
//! source wins, and when the input is unusable, is made here.

use vstd::prelude::*;

verus! {

/// The two credential strings as the process configuration delivered them;
/// either may be empty when it was not configured.
#[derive(Debug)]
pub struct Config {
    pub api_key: String,
    pub api_secret: String,
}

/// Picks the credentials: the configured pair when both parts are
/// non-empty, otherwise the first two lines of the secrets file. Fails
/// exactly when the fallback is needed and the file does not supply two
/// non-empty lines.
pub fn get_credentials(config: &Config, file_lines: &Vec<String>) -> (r: Result<
    (String, String),
    String,
>)
    ensures
        config.api_key@.len() > 0 && config.api_secret@.len() > 0 ==> (r matches Ok(c)
            && c.0@ == config.api_key@ && c.1@ == config.api_secret@),
        !(config.api_key@.len() > 0 && config.api_secret@.len() > 0) ==> (if file_lines@.len() >= 2
            && file_lines@[0]@.len() > 0 && file_lines@[1]@.len() > 0 {
            r matches Ok(c) && c.0@ == file_lines@[0]@ && c.1@ == file_lines@[1]@
        } else {
            r matches Err(m) && m@
                == "The first line needs to be the apiKey, the second line the apiSecret"@
        }),
{
    if !config.api_key.as_str().is_empty() && !config.api_secret.as_str().is_empty() {
        return Ok((config.api_key.clone(), config.api_secret.clone()));
    }
    if file_lines.len() >= 2 {
        let first = &file_lines[0];
        let second = &file_lines[1];
        if !first.as_str().is_empty() && !second.as_str().is_empty() {
            return Ok((first.clone(), second.clone()));
        }
    }
    Err("The first line needs to be the apiKey, the second line the apiSecret".to_owned())
}

} // verus!
