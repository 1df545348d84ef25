//! What an installation of the service configures.
use vstd::prelude::*;
use vstd::string::*;

verus! {

/// The settings of an installation.
#[derive(Clone, Debug, PartialEq, Eq)]
pub struct Config {
    pub branding: String,
    pub email_sender_name: String,
    pub email_sender_address: String,
    pub email_replyto_name: String,
    pub email_replyto_address: String,
    pub email_admin_notifications: String,
    /// The IANA name of the time zone in whose calendar weeks are counted.
    pub timezone_name: String,
    pub cors_allowed: String,
}

impl Default for Config {
    /// The settings of an installation that configures nothing.
    fn default() -> (config: Config)
        ensures
            config.branding@ == "unbranded"@,
            config.email_sender_name@ == "Unknown"@,
            config.email_sender_address@ == "unknown@example.com"@,
            config.email_replyto_name@ == "Unknown"@,
            config.email_replyto_address@ == "unknown@example.com"@,
            config.email_admin_notifications@ == "admin@anotherlevelfitness.uk"@,
            config.timezone_name@ == "Europe/London"@,
            config.cors_allowed@ == "^http://localhost"@,
    {
        Config {
            branding: String::from_str("unbranded"),
            email_sender_name: String::from_str("Unknown"),
            email_sender_address: String::from_str("unknown@example.com"),
            email_replyto_name: String::from_str("Unknown"),
            email_replyto_address: String::from_str("unknown@example.com"),
            email_admin_notifications: String::from_str("admin@anotherlevelfitness.uk"),
            timezone_name: String::from_str("Europe/London"),
            cors_allowed: String::from_str("^http://localhost"),
        }
    }
}

} // verus!
