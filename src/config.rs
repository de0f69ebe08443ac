//! Settings: which publishers and cities to watch, and where to keep data
//! and send mail.
use crate::error::{is_config_error, WeatherCheckerError};
use vstd::prelude::*;

verus! {

/// A publisher (a local meteorological observatory) and the cities of it
/// that are watched.
#[derive(Clone, Debug)]
pub struct MonitoredRegion {
    pub lmo: String,
    pub cities: Vec<String>,
}

/// The regions watched.
#[derive(Clone, Debug)]
pub struct MonitorConfig {
    pub monitored_regions: Vec<MonitoredRegion>,
}

/// Where data is kept and how mail is sent.
#[derive(Clone, Debug)]
pub struct Config {
    pub data_dir: String,
    pub deleted_dir: String,
    pub db_path: String,
    pub gmail_app_pass: String,
    pub gmail_from: String,
    pub email_to: String,
    pub email_bcc: Option<String>,
}

/// The value given, or the default when none is.
fn or_default(value: Option<String>, default: &str) -> (r: String)
    ensures
        r@ == match value {
            Some(v) => v@,
            None => default@,
        },
{
    match value {
        Some(v) => v,
        None => String::from_str(default),
    }
}

/// The error for a required setting that is missing.
fn missing(name: &str) -> (r: WeatherCheckerError)
    ensures
        is_config_error(r, name@ + " not set"@),
{
    WeatherCheckerError::Config(String::from_str(name).concat(" not set"))
}

pub open spec fn opt_view(o: Option<String>) -> Option<Seq<char>> {
    match o {
        Some(s) => Some(s@),
        None => None,
    }
}

impl MonitorConfig {
    /// The path of the configuration file: the one given, or `config.yaml`.
    pub fn default_path(config_path: Option<String>) -> (r: String)
        ensures
            r@ == match config_path {
                Some(p) => p@,
                None => "config.yaml"@,
            },
    {
        or_default(config_path, "config.yaml")
    }

    /// Accepts a configuration that names at least one region.
    pub fn validate(self) -> (r: Result<MonitorConfig, WeatherCheckerError>)
        ensures
            self.monitored_regions@.len() > 0 <==> r is Ok,
            r is Ok ==> r->Ok_0 == self,
            r is Err ==> is_config_error(r->Err_0, "No monitored regions defined in config file"@),
    {
        if self.monitored_regions.len() == 0 {
            Err(WeatherCheckerError::Config(String::from_str("No monitored regions defined in config file")))
        } else {
            Ok(self)
        }
    }
}

impl Config {
    /// Settings from the values found: the three directories and paths have
    /// defaults, the mail password, sender and recipient are required (the
    /// first one missing is reported), the blind copy is optional.
    pub fn from_settings(
        data_dir: Option<String>,
        deleted_dir: Option<String>,
        db_path: Option<String>,
        gmail_app_pass: Option<String>,
        gmail_from: Option<String>,
        email_to: Option<String>,
        email_bcc: Option<String>,
    ) -> (r: Result<Config, WeatherCheckerError>)
        ensures
            r is Ok <==> gmail_app_pass is Some && gmail_from is Some && email_to is Some,
            gmail_app_pass is None ==> is_config_error(r->Err_0, "GMAIL_APP_PASS"@ + " not set"@),
            gmail_app_pass is Some && gmail_from is None ==> is_config_error(
                r->Err_0,
                "GMAIL_FROM"@ + " not set"@,
            ),
            gmail_app_pass is Some && gmail_from is Some && email_to is None ==> is_config_error(
                r->Err_0,
                "EMAIL_TO"@ + " not set"@,
            ),
            r is Ok ==> {
                let c = r->Ok_0;
                &&& c.data_dir@ == match data_dir {
                    Some(v) => v@,
                    None => "data/xml"@,
                }
                &&& c.deleted_dir@ == match deleted_dir {
                    Some(v) => v@,
                    None => "data/deleted"@,
                }
                &&& c.db_path@ == match db_path {
                    Some(v) => v@,
                    None => "data/weather.sqlite3"@,
                }
                &&& Some(c.gmail_app_pass@) == opt_view(gmail_app_pass)
                &&& Some(c.gmail_from@) == opt_view(gmail_from)
                &&& Some(c.email_to@) == opt_view(email_to)
                &&& opt_view(c.email_bcc) == opt_view(email_bcc)
            },
    {
        let gmail_app_pass = match gmail_app_pass {
            Some(v) => v,
            None => {
                return Err(missing("GMAIL_APP_PASS"));
            },
        };
        let gmail_from = match gmail_from {
            Some(v) => v,
            None => {
                return Err(missing("GMAIL_FROM"));
            },
        };
        let email_to = match email_to {
            Some(v) => v,
            None => {
                return Err(missing("EMAIL_TO"));
            },
        };
        Ok(
            Config {
                data_dir: or_default(data_dir, "data/xml"),
                deleted_dir: or_default(deleted_dir, "data/deleted"),
                db_path: or_default(db_path, "data/weather.sqlite3"),
                gmail_app_pass,
                gmail_from,
                email_to,
                email_bcc,
            },
        )
    }
}

} // verus!
