//! The user's settings: GitHub credentials, the OpenAI key and a default list.
use vstd::prelude::*;

verus! {

/// Settings as stored in the configuration file.
#[derive(Debug, Clone)]
pub struct Config {
    pub github_token: Option<String>,
    pub github_username: Option<String>,
    pub openai_api_key: Option<String>,
    pub default_list: Option<String>,
}

impl Default for Config {
    /// Settings with every entry absent.
    fn default() -> (r: Config)
        ensures
            r.github_token is None,
            r.github_username is None,
            r.openai_api_key is None,
            r.default_list is None,
    {
        Config { github_token: None, github_username: None, openai_api_key: None, default_list: None }
    }
}

/// `given` when it is present, else `current`.
pub open spec fn overridden(current: Option<String>, given: Option<String>) -> Option<String> {
    match given {
        Some(v) => Some(v),
        None => current,
    }
}

impl Config {
    /// Replaces each setting for which a command-line value is given by that value.
    pub fn apply_overrides(
        &mut self,
        token: Option<String>,
        username: Option<String>,
        openai_key: Option<String>,
    )
        ensures
            final(self).github_token == overridden(old(self).github_token, token),
            final(self).github_username == overridden(old(self).github_username, username),
            final(self).openai_api_key == overridden(old(self).openai_api_key, openai_key),
            final(self).default_list == old(self).default_list,
    {
        if let Some(token) = token {
            self.github_token = Some(token);
        }
        if let Some(username) = username {
            self.github_username = Some(username);
        }
        if let Some(openai_key) = openai_key {
            self.openai_api_key = Some(openai_key);
        }
    }

    /// Whether both the GitHub username and token are set, which the application needs to start.
    pub fn has_credentials(&self) -> (r: bool)
        ensures
            r == (self.github_username is Some && self.github_token is Some),
    {
        self.github_username.is_some() && self.github_token.is_some()
    }
}

} // verus!
