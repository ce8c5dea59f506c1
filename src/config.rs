//! The bot's configuration, where it is read from, and the texts shown while
//! loading it.
use vstd::prelude::*;

verus! {

/// The access token that the example configuration shows.
pub open spec fn example_token() -> Seq<char> {
    "telegramtoken:data"@
}

/// Where the configuration file is looked for, relative to the working
/// directory.
pub open spec fn config_path_text() -> Seq<char> {
    "config.json"@
}

/// What is shown when there is no configuration file, around the example
/// configuration written out as JSON.
pub open spec fn missing_config_text(example_json: Seq<char>) -> Seq<char> {
    "Please create config.json file.\nExample:\n"@ + example_json
}

/// What is shown when the configuration file is not valid, around the
/// parser's description of the fault.
pub open spec fn parse_error_text(error: Seq<char>) -> Seq<char> {
    "Error parsing config.json: "@ + error
}

/// What is shown when the configuration file exists but cannot be read.
pub open spec fn unreadable_config_text() -> Seq<char> {
    "Can't read file config.json"@
}

/// The configuration file: one access token for the messaging service.
#[derive(Debug)]
pub struct Configuration {
    pub telegram_api_token: String,
}

impl Configuration {
    /// The configuration shown to a user who has none yet.
    pub fn example() -> (r: Configuration)
        ensures
            r.telegram_api_token@ == example_token(),
    {
        Configuration { telegram_api_token: String::from_str("telegramtoken:data") }
    }
}

/// The path of the configuration file.
pub fn config_file_path() -> (r: &'static str)
    ensures
        r@ == config_path_text(),
{
    "config.json"
}

/// The text shown when no configuration file exists; `example_json` is the
/// example configuration written out as JSON.
pub fn missing_config_notice(example_json: &str) -> (r: String)
    ensures
        r@ == missing_config_text(example_json@),
{
    String::from_str("Please create config.json file.\nExample:\n").concat(example_json)
}

/// The text shown when the configuration file does not parse; `error` is the
/// parser's description of the fault.
pub fn parse_error_notice(error: &str) -> (r: String)
    ensures
        r@ == parse_error_text(error@),
{
    String::from_str("Error parsing config.json: ").concat(error)
}

/// The text shown when the configuration file exists but cannot be read.
pub fn unreadable_config_notice() -> (r: String)
    ensures
        r@ == unreadable_config_text(),
{
    String::from_str("Can't read file config.json")
}

} // verus!
