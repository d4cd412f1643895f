use vstd::prelude::*;
use crate::paths::{join_path, join_spec, Platform};

verus! {

/// How the client authenticates to the music service.
#[derive(Debug, Clone, Copy, PartialEq, Eq, Structural)]
pub enum AuthType {
    /// A browser cookie, read from `cookie.txt`.
    Browser,
    /// An OAuth token, read from `oauth.json` (set up from
    /// `oauth.input.json`).
    OAuth,
    /// No authentication.
    Unauthenticated,
}

impl Default for AuthType {
    fn default() -> (a: AuthType)
        ensures
            a == AuthType::Browser,
    {
        AuthType::Browser
    }
}

/// The client credentials used to obtain an OAuth token.
#[derive(Debug, Clone)]
pub struct OAuthInput {
    pub client_id: String,
    pub client_secret: String,
}

/// The file that holds an authentication type's credential.
pub open spec fn credential_file_spec(a: AuthType) -> Option<Seq<char>> {
    match a {
        AuthType::Browser => Some("cookie.txt"@),
        AuthType::OAuth => Some("oauth.json"@),
        AuthType::Unauthenticated => None,
    }
}

impl AuthType {
    /// The file that holds the credential (`cookie.txt` or `oauth.json`).
    pub fn credential_file(&self) -> (f: Option<&'static str>)
        ensures
            match f {
                Some(n) => credential_file_spec(*self) == Some(n@),
                None => credential_file_spec(*self) is None,
            },
    {
        match self {
            AuthType::Browser => Some("cookie.txt"),
            AuthType::OAuth => Some("oauth.json"),
            AuthType::Unauthenticated => None,
        }
    }

    /// The file that holds the client credentials an OAuth token is set up
    /// from.
    pub fn input_file(&self) -> (f: Option<&'static str>)
        ensures
            match f {
                Some(n) => *self == AuthType::OAuth && n@ == "oauth.input.json"@,
                None => *self != AuthType::OAuth,
            },
    {
        match self {
            AuthType::OAuth => Some("oauth.input.json"),
            _ => None,
        }
    }

    /// Where to read how to set up OAuth.
    pub fn setup_url(&self) -> (u: Option<&'static str>)
        ensures
            match u {
                Some(n) => *self == AuthType::OAuth
                    && n@ == "https://github.com/nick42d/youtui?tab=readme-ov-file#oauth-setup-steps-optional"@,
                None => *self != AuthType::OAuth,
            },
    {
        match self {
            AuthType::OAuth => Some(
                "https://github.com/nick42d/youtui?tab=readme-ov-file#oauth-setup-steps-optional",
            ),
            _ => None,
        }
    }
}

/// How to load the credential of an authentication type.
#[derive(Debug, Clone)]
pub enum AuthLoadPlan {
    /// No credential is needed.
    NoKey,
    /// The configuration directory does not exist.
    InvalidConfigPath,
    /// Read the browser cookie from this file.
    ReadBrowserCookie { file: String },
    /// Read the OAuth token from this file.
    ReadOAuthToken { file: String },
    /// Read the client credentials from `input_file`, obtain a token with
    /// them, write it to `token_file`, then read it from there.
    BootstrapOAuth { input_file: String, token_file: String },
}

/// Decides how to load the credential: no credential without
/// authentication; an error when the configuration directory is missing;
/// the cookie file for a browser; the token file for OAuth, set up first
/// from the client credentials when it does not exist.
pub fn plan_auth_load(
    auth: AuthType,
    config_dir: &str,
    p: Platform,
    config_dir_exists: bool,
    token_file_exists: bool,
) -> (plan: AuthLoadPlan)
    ensures
        auth == AuthType::Unauthenticated ==> plan is NoKey,
        auth != AuthType::Unauthenticated && !config_dir_exists ==> plan is InvalidConfigPath,
        auth == AuthType::Browser && config_dir_exists ==> (plan matches AuthLoadPlan::ReadBrowserCookie {
            file,
        } && file@ == join_spec(config_dir@, "cookie.txt"@, p)),
        auth == AuthType::OAuth && config_dir_exists && token_file_exists
            ==> (plan matches AuthLoadPlan::ReadOAuthToken { file } && file@ == join_spec(
            config_dir@,
            "oauth.json"@,
            p,
        )),
        auth == AuthType::OAuth && config_dir_exists && !token_file_exists
            ==> (plan matches AuthLoadPlan::BootstrapOAuth { input_file, token_file }
            && input_file@ == join_spec(config_dir@, "oauth.input.json"@, p) && token_file@
            == join_spec(config_dir@, "oauth.json"@, p)),
{
    match auth {
        AuthType::Unauthenticated => AuthLoadPlan::NoKey,
        _ => if !config_dir_exists {
            AuthLoadPlan::InvalidConfigPath
        } else {
            match auth {
                AuthType::Browser => AuthLoadPlan::ReadBrowserCookie {
                    file: join_path(config_dir, "cookie.txt", p),
                },
                _ => {
                    let token_file = join_path(config_dir, "oauth.json", p);
                    if token_file_exists {
                        AuthLoadPlan::ReadOAuthToken { file: token_file }
                    } else {
                        AuthLoadPlan::BootstrapOAuth {
                            input_file: join_path(config_dir, "oauth.input.json", p),
                            token_file,
                        }
                    }
                },
            }
        },
    }
}

} // verus!
