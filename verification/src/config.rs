//! Run-wide configuration: SMTP settings, the per-site entries, their
//! validation rules, and the country-code lookup table.

use vstd::prelude::*;

use crate::error::AppError;
use crate::text::{contains_char, str_eq};
use crate::window::{tz_known, tz_name_known};

verus! {

/// Whether `url::Url::parse` accepts this text; names the success of that
/// parse, a pure function of the text.
pub uninterp spec fn url_parsable(s: Seq<char>) -> bool;

/// Relies on `url::Url::parse`: whether the text is an absolute URL the crate
/// accepts; the outcome depends on the text alone.
#[verifier::external_body]
pub fn url_is_parsable(s: &str) -> (r: bool)
    ensures
        r == url_parsable(s@),
{
    url::Url::parse(s).is_ok()
}

/// SMTP transport settings for report delivery.
#[derive(Clone, Debug)]
pub struct SmtpConfig {
    pub host: String,
    pub port: u16,
    pub username: String,
    pub password: String,
    pub from: String,
    pub tls: bool,
    pub timeout_seconds: u64,
    pub skip_verify: bool,
}

/// One configured analytics site.
#[derive(Clone, Debug)]
pub struct WebsiteConfig {
    pub id: String,
    pub name: String,
    pub base_url: String,
    pub username: String,
    pub password: String,
    pub recipients: Vec<String>,
    pub timezone: String,
    pub disabled: bool,
}

/// The whole run's configuration.
#[derive(Clone, Debug)]
pub struct Config {
    pub smtp: SmtpConfig,
    pub websites: Vec<(String, WebsiteConfig)>,
    pub max_concurrent_jobs: usize,
}

/// The default concurrency ceiling.
pub fn default_max_concurrent_jobs() -> (r: usize)
    ensures
        r == 4,
{
    4
}

/// The default SMTP timeout in seconds.
pub fn default_timeout() -> (r: u64)
    ensures
        r == 30,
{
    30
}

/// TLS is on unless configured off.
pub fn default_tls() -> (r: bool)
    ensures
        r == true,
{
    true
}

/// The default site timezone.
pub fn default_timezone() -> (r: String)
    ensures
        r@ == "UTC"@,
{
    "UTC".to_owned()
}

impl SmtpConfig {
    /// What a valid SMTP configuration requires: a host, a nonzero port,
    /// credentials, and a from address containing `@`.
    pub open spec fn spec_valid(&self) -> bool {
        &&& self.host@.len() > 0
        &&& self.port != 0
        &&& self.username@.len() > 0
        &&& self.password@.len() > 0
        &&& self.from@.contains('@')
    }

    /// Checks the SMTP configuration, accepting exactly the valid ones.
    pub fn validate(&self) -> (r: Result<(), AppError>)
        ensures
            r is Ok <==> self.spec_valid(),
            r matches Err(e) ==> e is Config,
    {
        if self.host.as_str().is_empty() {
            return Err(AppError::config("SMTP host cannot be empty"));
        }
        if self.port == 0 {
            return Err(AppError::config("Invalid SMTP port"));
        }
        if self.username.as_str().is_empty() {
            return Err(AppError::config("SMTP username cannot be empty"));
        }
        if self.password.as_str().is_empty() {
            return Err(AppError::config("SMTP password cannot be empty"));
        }
        if !contains_char(self.from.as_str(), '@') {
            return Err(AppError::config("Invalid SMTP from address"));
        }
        Ok(())
    }
}

impl WebsiteConfig {
    /// What a valid site entry requires: identity and credentials present, a
    /// parsable base URL, at least one recipient, every recipient containing
    /// `@`, and a known timezone.
    pub open spec fn spec_valid(&self) -> bool {
        &&& self.id@.len() > 0
        &&& self.name@.len() > 0
        &&& url_parsable(self.base_url@)
        &&& self.username@.len() > 0
        &&& self.password@.len() > 0
        &&& self.recipients@.len() > 0
        &&& forall|i: int|
            0 <= i < self.recipients@.len() ==> (#[trigger] self.recipients@[i])@.contains('@')
        &&& tz_known(self.timezone@)
    }

    /// Checks the site entry, accepting exactly the valid ones.
    pub fn validate(&self) -> (r: Result<(), AppError>)
        ensures
            r is Ok <==> self.spec_valid(),
            r matches Err(e) ==> e is Config,
    {
        if self.id.as_str().is_empty() {
            return Err(AppError::config("Website ID cannot be empty"));
        }
        if self.name.as_str().is_empty() {
            return Err(AppError::config("Website name cannot be empty"));
        }
        if !url_is_parsable(self.base_url.as_str()) {
            return Err(AppError::config("Invalid base URL"));
        }
        if self.username.as_str().is_empty() {
            return Err(AppError::config("Username cannot be empty"));
        }
        if self.password.as_str().is_empty() {
            return Err(AppError::config("Password cannot be empty"));
        }
        if self.recipients.len() == 0 {
            return Err(AppError::config("At least one recipient is required"));
        }
        let mut i: usize = 0;
        while i < self.recipients.len()
            invariant
                0 <= i <= self.recipients@.len(),
                forall|j: int|
                    0 <= j < i ==> (#[trigger] self.recipients@[j])@.contains('@'),
            decreases self.recipients@.len() - i,
        {
            if !contains_char(self.recipients[i].as_str(), '@') {
                return Err(AppError::config("Invalid email address"));
            }
            i = i + 1;
        }
        if !tz_name_known(self.timezone.as_str()) {
            return Err(AppError::config("Invalid timezone"));
        }
        Ok(())
    }
}

impl Config {
    /// Whether the site at index `i` takes part in the run.
    pub open spec fn spec_enabled(&self, i: int) -> bool {
        0 <= i < self.websites@.len() && !self.websites@[i].1.disabled
    }

    /// The indices of the sites that take part in the run, in configuration
    /// order.
    pub fn enabled_websites(&self) -> (r: Vec<usize>)
        ensures
            forall|k: int| 0 <= k < r@.len() ==> self.spec_enabled(#[trigger] r@[k] as int),
            forall|k1: int, k2: int| 0 <= k1 < k2 < r@.len() ==> r@[k1] < r@[k2],
            forall|j: int| #![trigger self.websites@[j]]
                0 <= j < self.websites@.len() && !self.websites@[j].1.disabled ==> exists|k: int|
                    0 <= k < r@.len() && r@[k] == j,
    {
        let mut r: Vec<usize> = Vec::new();
        let mut i: usize = 0;
        while i < self.websites.len()
            invariant
                0 <= i <= self.websites@.len(),
                forall|k: int| 0 <= k < r@.len() ==> self.spec_enabled(#[trigger] r@[k] as int),
                forall|k: int| 0 <= k < r@.len() ==> r@[k] < i,
                forall|k1: int, k2: int| 0 <= k1 < k2 < r@.len() ==> r@[k1] < r@[k2],
                forall|j: int| #![trigger self.websites@[j]]
                    0 <= j < i && !self.websites@[j].1.disabled ==> exists|k: int|
                        0 <= k < r@.len() && r@[k] == j,
            decreases self.websites@.len() - i,
        {
            let ghost prev = r@;
            if !self.websites[i].1.disabled {
                r.push(i);
                proof {
                    assert(r@ =~= prev.push(i));
                    assert(r@[r@.len() - 1] == i);
                    assert(forall|k: int| 0 <= k < prev.len() ==> r@[k] == prev[k]);
                }
            }
            i = i + 1;
        }
        r
    }
}

/// What a valid run configuration requires: valid SMTP settings, at least one
/// site, at least one enabled site, every enabled site valid, and a positive
/// concurrency ceiling.
pub open spec fn spec_config_valid(c: &Config) -> bool {
    &&& c.smtp.spec_valid()
    &&& c.websites@.len() > 0
    &&& exists|i: int| c.spec_enabled(i)
    &&& forall|i: int|
        c.spec_enabled(i) ==> (#[trigger] c.websites@[i]).1.spec_valid()
    &&& c.max_concurrent_jobs > 0
}

/// Checks the whole configuration before any pipeline starts, accepting
/// exactly the valid ones.
pub fn validate_config(config: &Config) -> (r: Result<(), AppError>)
    ensures
        r is Ok <==> spec_config_valid(config),
        r matches Err(e) ==> e is Config,
{
    match config.smtp.validate() {
        Ok(()) => (),
        Err(e) => {
            return Err(e);
        },
    }
    if config.websites.len() == 0 {
        return Err(AppError::config("No websites configured"));
    }
    let mut has_enabled_websites = false;
    let ghost mut first_enabled: int = 0;
    let mut i: usize = 0;
    while i < config.websites.len()
        invariant
            0 <= i <= config.websites@.len(),
            has_enabled_websites ==> config.spec_enabled(first_enabled),
            has_enabled_websites == exists|j: int| 0 <= j < i && config.spec_enabled(j),
            forall|j: int|
                0 <= j < i && config.spec_enabled(j) ==> (
                #[trigger] config.websites@[j]).1.spec_valid(),
        decreases config.websites@.len() - i,
    {
        if config.websites[i].1.disabled {
            proof {
                assert(!config.spec_enabled(i as int));
            }
            i = i + 1;
            continue ;
        }
        if !has_enabled_websites {
            has_enabled_websites = true;
            proof {
                first_enabled = i as int;
                assert(config.spec_enabled(i as int));
            }
        }
        match config.websites[i].1.validate() {
            Ok(()) => (),
            Err(e) => {
                return Err(e);
            },
        }
        i = i + 1;
    }
    if !has_enabled_websites {
        return Err(AppError::config("No enabled websites found"));
    }
    if config.max_concurrent_jobs == 0 {
        return Err(AppError::config("max_concurrent_jobs must be greater than 0"));
    }
    Ok(())
}

/// The mapping from country codes to display names, searched in order; the
/// first entry with a matching code wins.
pub open spec fn country_lookup(entries: Seq<(String, String)>, code: Seq<char>) -> Option<
    Seq<char>,
>
    decreases entries.len(),
{
    if entries.len() == 0 {
        None
    } else if entries[0].0@ == code {
        Some(entries[0].1@)
    } else {
        country_lookup(entries.drop_first(), code)
    }
}

/// The display name a code resolves to: its mapped name when the table has
/// the code, the code itself otherwise.
pub open spec fn spec_country_name(entries: Seq<(String, String)>, code: Seq<char>) -> Seq<char> {
    match country_lookup(entries, code) {
        Some(n) => n,
        None => code,
    }
}

/// Resolves a country code to its display name through the lookup table;
/// unknown codes pass through unchanged.
pub fn get_country_name(map: &Vec<(String, String)>, code: &str) -> (r: String)
    ensures
        r@ == spec_country_name(map@, code@),
{
    let mut i: usize = 0;
    proof {
        assert(map@.skip(0) =~= map@);
    }
    while i < map.len()
        invariant
            0 <= i <= map@.len(),
            country_lookup(map@, code@) == country_lookup(map@.skip(i as int), code@),
        decreases map@.len() - i,
    {
        let entry = &map[i];
        proof {
            assert(map@.skip(i as int)[0] == map@[i as int]);
        }
        if str_eq(entry.0.as_str(), code) {
            return entry.1.clone();
        }
        proof {
            assert(map@.skip(i as int).drop_first() =~= map@.skip(i as int + 1));
        }
        i = i + 1;
    }
    proof {
        assert(map@.skip(map@.len() as int).len() == 0);
    }
    code.to_owned()
}

} // verus!
