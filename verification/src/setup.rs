//! First-run setup: when it is needed and what a provider entry must hold.
use vstd::prelude::*;
use crate::config::{example_url, example_username, Config};
use crate::text::{str_eq, str_starts_with};

verus! {

/// Setup runs when there is no configuration file, no provider, or only the
/// untouched example provider.
pub open spec fn setup_needed(config_exists: bool, config: Config) -> bool {
    ||| !config_exists
    ||| config.providers@.len() == 0
    ||| (config.providers@.len() == 1 && config.providers@[0].url@ == example_url()
        && config.providers@[0].username@ == example_username())
}

/// Whether the interactive setup should run (`config_exists`: the
/// configuration file is present).
pub fn should_run_setup(config_exists: bool, config: &Config) -> (r: bool)
    ensures
        r == setup_needed(config_exists, *config),
{
    !config_exists || config.providers.len() == 0 || (config.providers.len() == 1
        && str_eq(config.providers[0].url.as_str(), "https://your-server.com:port/player_api.php")
        && str_eq(config.providers[0].username.as_str(), "your-username"))
}

/// Why a value typed in the setup prompts is refused.
#[derive(Debug, Clone, Copy, PartialEq, Eq, Structural)]
pub enum SetupInputError {
    UrlRequired,
    UrlScheme,
    UsernameRequired,
    PasswordRequired,
}

impl SetupInputError {
    /// The message shown next to the prompt.
    pub fn message(&self) -> (r: &'static str)
        ensures
            r@ == (match *self {
                SetupInputError::UrlRequired => "Server URL is required"@,
                SetupInputError::UrlScheme => "URL must start with http:// or https://"@,
                SetupInputError::UsernameRequired => "Username is required"@,
                SetupInputError::PasswordRequired => "Password is required"@,
            }),
    {
        match self {
            SetupInputError::UrlRequired => "Server URL is required",
            SetupInputError::UrlScheme => "URL must start with http:// or https://",
            SetupInputError::UsernameRequired => "Username is required",
            SetupInputError::PasswordRequired => "Password is required",
        }
    }
}

/// `s` begins with `p`.
pub open spec fn begins_with(s: Seq<char>, p: Seq<char>) -> bool {
    p.len() <= s.len() && s.subrange(0, p.len() as int) == p
}

/// A server URL must be non-empty and start with `http://` or `https://`.
pub fn validate_server_url(input: &str) -> (r: Result<(), SetupInputError>)
    ensures
        input@.len() == 0 ==> r == Err::<(), SetupInputError>(SetupInputError::UrlRequired),
        input@.len() > 0 && !begins_with(input@, "http://"@) && !begins_with(input@, "https://"@)
            ==> r == Err::<(), SetupInputError>(SetupInputError::UrlScheme),
        input@.len() > 0 && (begins_with(input@, "http://"@) || begins_with(input@, "https://"@))
            ==> r is Ok,
{
    if input.unicode_len() == 0 {
        Err(SetupInputError::UrlRequired)
    } else if !str_starts_with(input, "http://") && !str_starts_with(input, "https://") {
        Err(SetupInputError::UrlScheme)
    } else {
        Ok(())
    }
}

/// A user name must be non-empty.
pub fn validate_username(input: &str) -> (r: Result<(), SetupInputError>)
    ensures
        r is Ok <==> input@.len() > 0,
        r is Err ==> r == Err::<(), SetupInputError>(SetupInputError::UsernameRequired),
{
    if input.unicode_len() == 0 {
        Err(SetupInputError::UsernameRequired)
    } else {
        Ok(())
    }
}

/// A password must be non-empty.
pub fn validate_password(input: &str) -> (r: Result<(), SetupInputError>)
    ensures
        r is Ok <==> input@.len() > 0,
        r is Err ==> r == Err::<(), SetupInputError>(SetupInputError::PasswordRequired),
{
    if input.unicode_len() == 0 {
        Err(SetupInputError::PasswordRequired)
    } else {
        Ok(())
    }
}

} // verus!
