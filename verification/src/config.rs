//! The settings of the update client and their validation.

use crate::text::{decimal, decimal_string, is_digit, same_text};
use vstd::prelude::*;

verus! {

/// The settings of the update client.
#[derive(Clone, Debug, PartialEq, Eq)]
pub struct Config {
    pub endpoint: String,
    pub auth_file: String,
    pub staging_dir: String,
    /// How many releases the host means to keep for rollback. It is validated
    /// here; an installation never deletes a release directory.
    pub rollback_keep: usize,
    pub update_interval: String,
    pub self_update: bool,
    pub log_file: String,
}

/// The settings as plain values.
pub struct ConfigModel {
    pub endpoint: Seq<char>,
    pub auth_file: Seq<char>,
    pub staging_dir: Seq<char>,
    pub rollback_keep: usize,
    pub update_interval: Seq<char>,
    pub self_update: bool,
    pub log_file: Seq<char>,
}

impl View for Config {
    type V = ConfigModel;

    open spec fn view(&self) -> ConfigModel {
        ConfigModel {
            endpoint: self.endpoint@,
            auth_file: self.auth_file@,
            staging_dir: self.staging_dir@,
            rollback_keep: self.rollback_keep,
            update_interval: self.update_interval@,
            self_update: self.self_update,
            log_file: self.log_file@,
        }
    }
}

/// The update cadences that the client knows.
pub open spec fn known_interval(s: Seq<char>) -> bool {
    s == "manual"@ || s == "hourly"@ || s == "daily"@ || s == "daemon"@
}

/// `c` is a letter of ASCII.
pub open spec fn is_letter(c: char) -> bool {
    ('a' <= c && c <= 'z') || ('A' <= c && c <= 'Z')
}

/// `c` may stand in the scheme of an address: a letter, a digit, `+`, `-`
/// or `.`.
pub open spec fn scheme_char(c: char) -> bool {
    is_letter(c) || is_digit(c) || c == '+' || c == '-' || c == '.'
}

/// `s` names a scheme: it begins with a letter, and a colon follows the
/// letter and the scheme characters behind it. So `https://host/m` and
/// `ftp://host/m` have a scheme; `httpfoo`, `://host` and the empty text have
/// none.
pub open spec fn has_scheme(s: Seq<char>) -> bool {
    exists|k: int|
        0 < k < s.len() && #[trigger] s[k] == ':' && is_letter(s[0]) && forall|i: int|
            0 < i < k ==> scheme_char(#[trigger] s[i])
}

/// What is wrong with the settings, if anything: the first of an endpoint
/// without a scheme, a retention count of zero, and an update cadence that the
/// client does not know.
pub open spec fn complaint(c: ConfigModel) -> Option<Seq<char>> {
    if !has_scheme(c.endpoint) {
        Some("Endpoint must be a valid url"@)
    } else if c.rollback_keep == 0 {
        Some("rollback_keep must be at least 1"@)
    } else if !known_interval(c.update_interval) {
        Some("Invalid update_interval: "@ + c.update_interval)
    } else {
        None
    }
}

/// What loading the settings from `path` comes to, given what reading and
/// decoding the file gave: the settings where they were read and are valid,
/// else a message that names the file.
pub open spec fn load_outcome(path: Seq<char>, loaded: Result<ConfigModel, Seq<char>>) -> Result<
    ConfigModel,
    Seq<char>,
> {
    match loaded {
        Ok(c) => match complaint(c) {
            Some(e) => Err("Config error in "@ + path + ": "@ + e),
            None => Ok(c),
        },
        Err(e) => Err("Failed to load "@ + path + ": "@ + e),
    }
}

/// The decimal text of a count.
pub open spec fn count_text(n: usize) -> Seq<char> {
    decimal(n as nat)
}

/// The text of a switch.
pub open spec fn switch_text(b: bool) -> Seq<char> {
    if b {
        "true"@
    } else {
        "false"@
    }
}

/// The settings as text, one per line.
pub open spec fn listing(c: ConfigModel) -> Seq<char> {
    "endpoint       = "@ + c.endpoint + "\n"@ + "auth_file      = "@ + c.auth_file + "\n"@
        + "staging_dir    = "@ + c.staging_dir + "\n"@ + "rollback_keep  = "@ + count_text(
        c.rollback_keep,
    ) + "\n"@ + "update_interval= "@ + c.update_interval + "\n"@ + "self_update    = "@
        + switch_text(c.self_update) + "\n"@ + "log_file       = "@ + c.log_file + "\n"@
}

fn letter(c: char) -> (r: bool)
    ensures
        r == is_letter(c),
{
    ('a' <= c && c <= 'z') || ('A' <= c && c <= 'Z')
}

fn in_scheme(c: char) -> (r: bool)
    ensures
        r == scheme_char(c),
{
    letter(c) || ('0' <= c && c <= '9') || c == '+' || c == '-' || c == '.'
}

/// Tells whether an address names a scheme.
pub fn names_scheme(s: &str) -> (r: bool)
    ensures
        r == has_scheme(s@),
{
    let n: usize = s.unicode_len();
    if n == 0 || !letter(s.get_char(0)) {
        return false;
    }
    let mut k: usize = 1;
    while k < n
        invariant
            1 <= k <= n,
            n == s@.len(),
            is_letter(s@[0]),
            forall|i: int| 0 < i < k ==> scheme_char(#[trigger] s@[i]) && s@[i] != ':',
        decreases n - k,
    {
        let c = s.get_char(k);
        if c == ':' {
            assert(s@[k as int] == ':');
            return true;
        }
        if !in_scheme(c) {
            assert(!scheme_char(s@[k as int]));
            return false;
        }
        k += 1;
    }
    false
}

impl Config {
    /// Validates the settings.
    pub fn check(&self) -> (r: Result<(), String>)
        ensures
            match r {
                Ok(_) => complaint(self@) is None,
                Err(e) => complaint(self@) == Some(e@),
            },
    {
        if !names_scheme(self.endpoint.as_str()) {
            return Err(String::from_str("Endpoint must be a valid url"));
        }
        if self.rollback_keep == 0 {
            return Err(String::from_str("rollback_keep must be at least 1"));
        }
        let interval = self.update_interval.as_str();
        if !(same_text(interval, "manual") || same_text(interval, "hourly") || same_text(
            interval,
            "daily",
        ) || same_text(interval, "daemon")) {
            let mut e = String::from_str("Invalid update_interval: ");
            e.append(interval);
            return Err(e);
        }
        Ok(())
    }

    /// Finishes the loading of the settings from `path`: `loaded` is what
    /// reading and decoding the file gave. Settings that were read are
    /// validated.
    pub fn try_load(path: &str, loaded: Result<Config, String>) -> (r: Result<Config, String>)
        ensures
            match r {
                Ok(c) => load_outcome(
                    path@,
                    match loaded {
                        Ok(l) => Ok(l@),
                        Err(e) => Err(e@),
                    },
                ) == Ok::<ConfigModel, Seq<char>>(c@),
                Err(m) => load_outcome(
                    path@,
                    match loaded {
                        Ok(l) => Ok(l@),
                        Err(e) => Err(e@),
                    },
                ) == Err::<ConfigModel, Seq<char>>(m@),
            },
    {
        match loaded {
            Ok(cfg) => match cfg.check() {
                Ok(_) => Ok(cfg),
                Err(e) => {
                    let mut m = String::from_str("Config error in ");
                    m.append(path);
                    m.append(": ");
                    m.append(e.as_str());
                    Err(m)
                },
            },
            Err(e) => {
                let mut m = String::from_str("Failed to load ");
                m.append(path);
                m.append(": ");
                m.append(e.as_str());
                Err(m)
            },
        }
    }

    /// The settings as text, one per line.
    pub fn to_string(&self) -> (r: String)
        ensures
            r@ == listing(self@),
    {
        let mut r = String::from_str("endpoint       = ");
        r.append(self.endpoint.as_str());
        r.append("\n");
        r.append("auth_file      = ");
        r.append(self.auth_file.as_str());
        r.append("\n");
        r.append("staging_dir    = ");
        r.append(self.staging_dir.as_str());
        r.append("\n");
        r.append("rollback_keep  = ");
        r.append(decimal_string(self.rollback_keep as u64).as_str());
        r.append("\n");
        r.append("update_interval= ");
        r.append(self.update_interval.as_str());
        r.append("\n");
        r.append("self_update    = ");
        r.append(if self.self_update {
            "true"
        } else {
            "false"
        });
        r.append("\n");
        r.append("log_file       = ");
        r.append(self.log_file.as_str());
        r.append("\n");
        r
    }
}

} // verus!
