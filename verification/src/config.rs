//! The service configuration, from the values of its environment
//! variables.

use vstd::prelude::*;

use crate::text::{chars_of, parse_i64, parse_i64_chars};

verus! {

/// The serialisation of the absolute URL a text parses to, if it parses.
pub uninterp spec fn url_parse(s: Seq<char>) -> Option<Seq<char>>;

/// Parses `s` with `url::Url::parse` and returns the URL's serialisation
/// (`Url::as_str`). Trusted: the result is the one named `url_parse(s@)`,
/// a function of the text alone; what the parser accepts is not stated.
#[verifier::external_body]
fn parse_url(s: &str) -> (res: Option<String>)
    ensures
        match res {
            Some(u) => url_parse(s@) == Some(u@),
            None => url_parse(s@) is None,
        },
{
    match url::Url::parse(s) {
        Ok(u) => Some(u.as_str().to_string()),
        Err(_) => None,
    }
}

/// The values of the service's environment variables (`None` when a
/// variable is unset).
pub struct EnvValues {
    pub master_bot_token: Option<String>,
    pub owner_id: Option<String>,
    pub database_url: Option<String>,
    pub watermark_username: Option<String>,
    pub instruction_url: Option<String>,
    pub deploy_server: Option<String>,
}

/// The service configuration.
#[derive(Debug)]
pub struct Config {
    pub master_bot_token: String,
    /// The Telegram user id of the service owner.
    pub owner_id: i64,
    pub database_url: String,
    /// The bot named in the watermark of posts of free-plan bots.
    pub watermark_username: String,
    /// The link to the user instructions (a parsed, absolute URL).
    pub instruction_url: String,
    pub deploy_server: String,
}

/// Why the configuration cannot be made.
#[derive(Debug, PartialEq, Eq, Clone, Copy, Structural)]
pub enum ConfigError {
    InvalidInstructionUrl,
    MasterBotTokenMissing,
    OwnerIdMissing,
    OwnerIdNotANumber,
    DatabaseUrlMissing,
}

/// An optional string as an optional character sequence.
pub open spec fn opt_view(s: Option<String>) -> Option<Seq<char>> {
    match s {
        Some(v) => Some(v@),
        None => None,
    }
}

/// A value, or the default when unset.
pub open spec fn or_default(s: Option<String>, d: Seq<char>) -> Seq<char> {
    match s {
        Some(v) => v@,
        None => d,
    }
}

/// The outcome of making the configuration: the first problem, in this
/// order (instruction URL, bot token, owner id, database URL), or success.
pub open spec fn config_outcome(env: EnvValues) -> Result<(), ConfigError> {
    if url_parse(or_default(env.instruction_url, "https://telegra.ph/"@)) is None {
        Err(ConfigError::InvalidInstructionUrl)
    } else if env.master_bot_token is None {
        Err(ConfigError::MasterBotTokenMissing)
    } else if env.owner_id is None {
        Err(ConfigError::OwnerIdMissing)
    } else if parse_i64(env.owner_id->0@) is None {
        Err(ConfigError::OwnerIdNotANumber)
    } else if env.database_url is None {
        Err(ConfigError::DatabaseUrlMissing)
    } else {
        Ok(())
    }
}

fn or_default_exec(s: Option<String>, d: &str) -> (res: String)
    ensures
        res@ == or_default(s, d@),
{
    match s {
        Some(v) => v,
        None => String::from_str(d),
    }
}

impl Config {
    /// The configuration from the values of its variables. The instruction
    /// URL defaults to "https://telegra.ph/" and must parse; the bot token,
    /// owner id (a number) and database URL are required; the watermark
    /// bot defaults to "@superduperbot" and the deploy server to
    /// "production".
    pub fn from_values(env: EnvValues) -> (res: Result<Config, ConfigError>)
        ensures
            match (res, config_outcome(env)) {
                (Ok(c), Ok(())) => {
                    &&& c.master_bot_token@ == env.master_bot_token->0@
                    &&& Some(c.owner_id) == parse_i64(env.owner_id->0@)
                    &&& c.database_url@ == env.database_url->0@
                    &&& c.watermark_username@ == or_default(env.watermark_username, "@superduperbot"@)
                    &&& Some(c.instruction_url@) == url_parse(
                        or_default(env.instruction_url, "https://telegra.ph/"@),
                    )
                    &&& c.deploy_server@ == or_default(env.deploy_server, "production"@)
                },
                (Err(e), Err(f)) => e == f,
                _ => false,
            },
    {
        let ghost env0 = env;
        let deploy_server = or_default_exec(env.deploy_server, "production");
        let url_text = or_default_exec(env.instruction_url, "https://telegra.ph/");
        let instruction_url = match parse_url(url_text.as_str()) {
            Some(u) => u,
            None => return Err(ConfigError::InvalidInstructionUrl),
        };
        let master_bot_token = match env.master_bot_token {
            Some(t) => t,
            None => return Err(ConfigError::MasterBotTokenMissing),
        };
        let owner_text = match env.owner_id {
            Some(o) => o,
            None => return Err(ConfigError::OwnerIdMissing),
        };
        let oc = chars_of(owner_text.as_str());
        assert(oc@.subrange(0, oc.len() as int) =~= oc@);
        let owner_id = match parse_i64_chars(&oc, 0, oc.len()) {
            Some(v) => v,
            None => return Err(ConfigError::OwnerIdNotANumber),
        };
        let database_url = match env.database_url {
            Some(d) => d,
            None => return Err(ConfigError::DatabaseUrlMissing),
        };
        let watermark_username = or_default_exec(env.watermark_username, "@superduperbot");
        Ok(Config {
            master_bot_token,
            owner_id,
            database_url,
            watermark_username,
            instruction_url,
            deploy_server,
        })
    }
}

} // verus!
