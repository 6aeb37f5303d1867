//! Runtime configuration: the settings record, the resolved location, the
//! configuration value itself, sink URL normalization and validation.

use vstd::prelude::*;

use crate::strutil::count_char;
use crate::strutil::is_decimal;
use crate::strutil::lemma_concat_starts_with;
use crate::strutil::lemma_count_char_concat;
use crate::strutil::lemma_count_char_positive;
use crate::strutil::lemma_starts_with_append;
use crate::strutil::starts_with;
use crate::strutil::str_count_char;
use crate::strutil::str_is_decimal;
use crate::strutil::str_starts_with;
use crate::urls::geocode_url;
use crate::urls::spec_geocode_url;

verus! {

/// A resolved geographic location: postal code, canonical place name,
/// coordinates as decimal-degree strings, and country code.
#[derive(Clone, Debug, PartialEq)]
pub struct ZipLoc {
    pub zip: String,
    pub name: String,
    pub lat: String,
    pub lon: String,
    pub country: String,
}

impl ZipLoc {
    /// The canonical place name of this location.
    pub fn get_name(&self) -> (r: &str)
        ensures
            r@ == self.name@,
    {
        self.name.as_str()
    }
}

/// The named inputs that a configuration is assembled from, as read from a
/// configuration file or from the environment.
pub struct ConfigFile {
    pub apikey: Option<String>,
    pub zipcode: Option<String>,
    pub country: Option<String>,
    pub timing: u64,
    pub dbname: Option<String>,
    pub dbserver: Option<String>,
    pub dbuser: Option<String>,
    pub dbpass: Option<String>,
    pub max_retry: u8,
    pub token: Option<String>,
}

impl Default for ConfigFile {
    /// All optional inputs absent; interval and failure budget at their defaults.
    fn default() -> (c: Self)
        ensures
            c.apikey is None,
            c.zipcode is None,
            c.country is None,
            c.timing == 3600,
            c.dbname is None,
            c.dbserver is None,
            c.dbuser is None,
            c.dbpass is None,
            c.max_retry == 3,
            c.token is None,
    {
        ConfigFile {
            apikey: None,
            zipcode: None,
            country: None,
            timing: 3600,
            dbname: None,
            dbserver: None,
            dbuser: None,
            dbpass: None,
            max_retry: 3,
            token: None,
        }
    }
}

/// A fatal configuration fault, detected before the poll loop may start.
#[derive(Clone, Copy, Debug, PartialEq, Eq, Structural)]
pub enum ConfigError {
    ApiKeyNotSet,
    LocationNotSet,
    MalformedLatitude,
    MalformedLongitude,
    UserWithoutPassword,
    PasswordWithoutUser,
}

impl ConfigError {
    /// A human-readable account of the fault.
    pub fn message(&self) -> (r: &str)
        ensures
            *self is ApiKeyNotSet ==> r@ == "API key is not set. Unable to proceed."@,
            *self is LocationNotSet ==> r@ == "Location not set. Unable to proceed."@,
            *self is MalformedLatitude ==> r@ == "Latitude looks malformed. Unable to proceed."@,
            *self is MalformedLongitude ==> r@ == "Longitude looks malformed. Unable to proceed."@,
            *self is UserWithoutPassword ==> r@ == "InfluxDB user set but password is not."@,
            *self is PasswordWithoutUser ==> r@
                == "InfluxDB password added but not user! Unable to proceed."@,
    {
        match self {
            ConfigError::ApiKeyNotSet => "API key is not set. Unable to proceed.",
            ConfigError::LocationNotSet => "Location not set. Unable to proceed.",
            ConfigError::MalformedLatitude => "Latitude looks malformed. Unable to proceed.",
            ConfigError::MalformedLongitude => "Longitude looks malformed. Unable to proceed.",
            ConfigError::UserWithoutPassword => "InfluxDB user set but password is not.",
            ConfigError::PasswordWithoutUser => {
                "InfluxDB password added but not user! Unable to proceed."
            },
        }
    }
}

/// A username and a password must be given together or not at all.
pub open spec fn credentials_complete(user: Option<String>, pass: Option<String>) -> bool {
    (user is Some) == (pass is Some)
}

/// Checks the credential-pair invariant, naming the half that is missing.
pub fn check_credentials(user: &Option<String>, pass: &Option<String>) -> (r: Result<
    (),
    ConfigError,
>)
    ensures
        r is Ok <==> credentials_complete(*user, *pass),
        *user is Some && *pass is None ==> r == Err::<(), ConfigError>(
            ConfigError::UserWithoutPassword,
        ),
        *user is None && *pass is Some ==> r == Err::<(), ConfigError>(
            ConfigError::PasswordWithoutUser,
        ),
{
    match (user, pass) {
        (Some(_), None) => Err(ConfigError::UserWithoutPassword),
        (None, Some(_)) => Err(ConfigError::PasswordWithoutUser),
        _ => Ok(()),
    }
}

/// The sink URL as stored: a scheme of `http://` or `https://` is kept, any
/// other form gets `http://` put in front; a URL with fewer than two colons
/// after that gets the default port `:8086` appended.
pub open spec fn spec_normalized_server(s: Seq<char>) -> Seq<char> {
    let base = if starts_with(s, "http://"@) || starts_with(s, "https://"@) {
        s
    } else {
        "http://"@ + s
    };
    if count_char(base, ':') < 2 {
        base + ":8086"@
    } else {
        base
    }
}

/// Normalization reaches a fixed point in one step: normalizing an already
/// normalized sink URL changes nothing, whatever the input was.
pub proof fn lemma_normalize_idempotent(s: Seq<char>)
    ensures
        spec_normalized_server(spec_normalized_server(s)) == spec_normalized_server(s),
{
    reveal_strlit("http://");
    reveal_strlit("https://");
    reveal_strlit(":8086");
    let http = "http://"@;
    let https = "https://"@;
    let port = ":8086"@;
    let base = if starts_with(s, http) || starts_with(s, https) {
        s
    } else {
        http + s
    };
    let r = spec_normalized_server(s);
    // The first pass leaves a URL that carries one of the two schemes.
    if starts_with(s, http) || starts_with(s, https) {
    } else {
        lemma_concat_starts_with(http, s);
    }
    if count_char(base, ':') < 2 {
        if starts_with(base, http) {
            lemma_starts_with_append(base, http, port);
        } else {
            lemma_starts_with_append(base, https, port);
        }
    }
    assert(starts_with(r, http) || starts_with(r, https));
    // The first pass leaves at least two colons: the scheme brings one and
    // the appended port brings another.
    if count_char(base, ':') < 2 {
        if starts_with(base, http) {
            assert(base.subrange(0, http.len() as int)[4] == base[4]);
            assert(base[4] == ':');
            lemma_count_char_positive(base, ':', 4);
        } else {
            assert(base.subrange(0, https.len() as int)[5] == base[5]);
            assert(base[5] == ':');
            lemma_count_char_positive(base, ':', 5);
        }
        lemma_count_char_concat(base, port, ':');
        assert(port[0] == ':');
        lemma_count_char_positive(port, ':', 0);
        assert(count_char(r, ':') >= 2);
    } else {
        assert(count_char(r, ':') >= 2);
    }
    assert(spec_normalized_server(r) == r);
}

/// Applies the sink URL normalization that `spec_normalized_server` states.
fn normalize_server(new_dbserver: String) -> (r: String)
    ensures
        r@ == spec_normalized_server(new_dbserver@),
{
    let keeps_scheme = str_starts_with(new_dbserver.as_str(), "http://") || str_starts_with(
        new_dbserver.as_str(),
        "https://",
    );
    let mut base = if keeps_scheme {
        new_dbserver
    } else {
        let mut b = String::from_str("http://");
        b.append(new_dbserver.as_str());
        b
    };
    let colons = str_count_char(base.as_str(), ':');
    if colons < 2 {
        base.append(":8086");
    }
    base
}

/// The validated runtime configuration, built once at startup and immutable
/// while the poll loop runs.
#[derive(Clone, Debug)]
pub struct Config {
    pub apikey: Option<String>,
    pub location: Option<ZipLoc>,
    pub timing: u64,
    pub dbname: Option<String>,
    pub dbserver: Option<String>,
    pub dbuser: Option<String>,
    pub dbpass: Option<String>,
    pub max_retry: u8,
    pub token: Option<String>,
}

impl Default for Config {
    /// Nothing set; interval and failure budget at their defaults.
    fn default() -> (c: Self)
        ensures
            c.apikey is None,
            c.location is None,
            c.timing == 3600,
            c.dbname is None,
            c.dbserver is None,
            c.dbuser is None,
            c.dbpass is None,
            c.max_retry == 3,
            c.token is None,
    {
        Config {
            apikey: None,
            location: None,
            timing: 3600,
            dbname: None,
            dbserver: None,
            dbuser: None,
            dbpass: None,
            max_retry: 3,
            token: None,
        }
    }
}

impl Config {
    /// A fresh configuration with nothing set and default timing and budget.
    pub fn new() -> (c: Config)
        ensures
            c.apikey is None,
            c.location is None,
            c.timing == 3600,
            c.dbname is None,
            c.dbserver is None,
            c.dbuser is None,
            c.dbpass is None,
            c.max_retry == 3,
            c.token is None,
    {
        Config::default()
    }

    pub fn set_loc(&mut self, new_loc: ZipLoc)
        ensures
            *final(self) == (Config { location: Some(new_loc), ..*old(self) }),
    {
        self.location = Some(new_loc);
    }

    pub fn set_key(&mut self, new_key: String)
        ensures
            *final(self) == (Config { apikey: Some(new_key), ..*old(self) }),
    {
        self.apikey = Some(new_key);
    }

    pub fn set_timing(&mut self, new_timing: u64)
        ensures
            *final(self) == (Config { timing: new_timing, ..*old(self) }),
    {
        self.timing = new_timing;
    }

    pub fn set_dbname(&mut self, new_dbname: String)
        ensures
            *final(self) == (Config { dbname: Some(new_dbname), ..*old(self) }),
    {
        self.dbname = Some(new_dbname);
    }

    pub fn set_dbuser(&mut self, new_dbuser: String)
        ensures
            *final(self) == (Config { dbuser: Some(new_dbuser), ..*old(self) }),
    {
        self.dbuser = Some(new_dbuser);
    }

    pub fn set_dbpass(&mut self, new_dbpass: String)
        ensures
            *final(self) == (Config { dbpass: Some(new_dbpass), ..*old(self) }),
    {
        self.dbpass = Some(new_dbpass);
    }

    /// Stores the sink URL in normalized form.
    pub fn set_dbserver(&mut self, new_dbserver: String)
        ensures
            final(self).dbserver matches Some(sv) && sv@ == spec_normalized_server(new_dbserver@),
            *final(self) == (Config { dbserver: final(self).dbserver, ..*old(self) }),
    {
        let normalized = normalize_server(new_dbserver);
        self.dbserver = Some(normalized);
    }

    pub fn set_maxretry(&mut self, new_retry: u8)
        ensures
            *final(self) == (Config { max_retry: new_retry, ..*old(self) }),
    {
        self.max_retry = new_retry;
    }

    pub fn set_token(&mut self, new_token: String)
        ensures
            *final(self) == (Config { token: Some(new_token), ..*old(self) }),
    {
        self.token = Some(new_token);
    }

    /// The API key, or the unset sentinel when none was given.
    pub fn get_key(&self) -> (r: String)
        ensures
            self.apikey matches Some(k) ==> r == k,
            self.apikey is None ==> r@ == "NOAPISET"@,
    {
        match &self.apikey {
            Some(key) => key.clone(),
            None => String::from_str("NOAPISET"),
        }
    }

    /// The coordinate pair as decimal-degree strings, or the unset sentinel
    /// in both places when no location was resolved.
    pub fn get_coords(&self) -> (r: [String; 2])
        ensures
            self.location matches Some(loc) ==> r[0] == loc.lat && r[1] == loc.lon,
            self.location is None ==> r[0]@ == "NOTSET"@ && r[1]@ == "NOTSET"@,
    {
        match &self.location {
            Some(loc) => [loc.lat.clone(), loc.lon.clone()],
            None => [String::from_str("NOTSET"), String::from_str("NOTSET")],
        }
    }

    /// The resolved location's place name.
    pub fn get_location(&self) -> (r: &str)
        requires
            self.location is Some,
        ensures
            r@ == self.location->Some_0.name@,
    {
        match &self.location {
            Some(loc) => loc.name.as_str(),
            None => "",
        }
    }

    /// The configured poll interval in seconds.
    pub fn get_timing(&self) -> (r: u64)
        ensures
            r == self.timing,
    {
        self.timing
    }

    /// The sink URL as this configuration will use it.
    pub open spec fn spec_dbserver(self) -> Seq<char> {
        match self.dbserver {
            Some(server) => server@,
            None => "http://localhost:8086"@,
        }
    }

    /// The sink URL, or the default server when none was given.
    pub fn get_dbserver(&self) -> (r: String)
        ensures
            r@ == self.spec_dbserver(),
    {
        match &self.dbserver {
            Some(server) => server.clone(),
            None => String::from_str("http://localhost:8086"),
        }
    }

    /// The sink database name as this configuration will use it.
    pub open spec fn spec_dbname(self) -> Seq<char> {
        match self.dbname {
            Some(name) => name@,
            None => "test"@,
        }
    }

    /// The sink database name, or the default when none was given.
    pub fn get_dbname(&self) -> (r: String)
        ensures
            r@ == self.spec_dbname(),
    {
        match &self.dbname {
            Some(name) => name.clone(),
            None => String::from_str("test"),
        }
    }

    /// The configured failure budget.
    pub fn get_maxretry(&self) -> (r: u8)
        ensures
            r == self.max_retry,
    {
        self.max_retry
    }

    /// Whether a location has been resolved.
    pub fn location_is_set(&self) -> (r: bool)
        ensures
            r == (self.location is Some),
    {
        match self.location {
            Some(_) => true,
            None => false,
        }
    }

    /// Everything the poll loop needs is present and well-formed: an API key,
    /// a resolved location, and coordinates written as decimal degrees.
    pub open spec fn ready_for_polling(self) -> bool {
        &&& self.apikey is Some
        &&& self.location matches Some(loc)
        &&& is_decimal(loc.lat@)
        &&& is_decimal(loc.lon@)
    }

    /// Checks that the poll loop may start, naming the first missing or
    /// malformed input otherwise.
    pub fn validate_for_polling(&self) -> (r: Result<(), ConfigError>)
        ensures
            r is Ok <==> self.ready_for_polling(),
            self.apikey is None ==> r == Err::<(), ConfigError>(ConfigError::ApiKeyNotSet),
            self.apikey is Some && self.location is None ==> r == Err::<(), ConfigError>(
                ConfigError::LocationNotSet,
            ),
            self.location matches Some(loc) && self.apikey is Some && !is_decimal(loc.lat@) ==> r
                == Err::<(), ConfigError>(ConfigError::MalformedLatitude),
            self.location matches Some(loc) && self.apikey is Some && is_decimal(loc.lat@)
                && !is_decimal(loc.lon@) ==> r == Err::<(), ConfigError>(
                ConfigError::MalformedLongitude,
            ),
    {
        if self.apikey.is_none() {
            return Err(ConfigError::ApiKeyNotSet);
        }
        match &self.location {
            None => Err(ConfigError::LocationNotSet),
            Some(loc) => {
                if !str_is_decimal(loc.lat.as_str()) {
                    Err(ConfigError::MalformedLatitude)
                } else if !str_is_decimal(loc.lon.as_str()) {
                    Err(ConfigError::MalformedLongitude)
                } else {
                    Ok(())
                }
            },
        }
    }
}

/// The country that a geocoding request will carry: the configured one, or
/// the default when none was given.
pub open spec fn spec_country_or_default(country: Option<String>) -> Seq<char> {
    match country {
        Some(c) => c@,
        None => "US"@,
    }
}

impl Config {
    /// Assembles a configuration from its named inputs. The API key must be
    /// present and the credential pair complete, else the matching fault is
    /// returned. The sink URL is normalized on the way in. When a postal code
    /// is given, the geocoding URL that must be resolved before the loop can
    /// start is returned beside the configuration; the location itself is
    /// left unset until the caller resolves it.
    pub fn assemble(settings: ConfigFile) -> (r: Result<(Config, Option<String>), ConfigError>)
        ensures
            r is Ok <==> (settings.apikey is Some && credentials_complete(
                settings.dbuser,
                settings.dbpass,
            )),
            settings.apikey is None ==> r == Err::<(Config, Option<String>), ConfigError>(
                ConfigError::ApiKeyNotSet,
            ),
            settings.apikey is Some && settings.dbuser is Some && settings.dbpass is None ==> r
                == Err::<(Config, Option<String>), ConfigError>(ConfigError::UserWithoutPassword),
            settings.apikey is Some && settings.dbuser is None && settings.dbpass is Some ==> r
                == Err::<(Config, Option<String>), ConfigError>(ConfigError::PasswordWithoutUser),
            r matches Ok((c, geo)) ==> {
                &&& c.apikey == settings.apikey
                &&& c.location is None
                &&& c.timing == settings.timing
                &&& c.dbname == settings.dbname
                &&& (settings.dbserver matches Some(sv) ==> c.dbserver matches Some(ns) && ns@
                    == spec_normalized_server(sv@))
                &&& (settings.dbserver is None ==> c.dbserver is None)
                &&& c.dbuser == settings.dbuser
                &&& c.dbpass == settings.dbpass
                &&& c.max_retry == settings.max_retry
                &&& c.token == settings.token
                &&& (settings.zipcode is None ==> geo is None)
                &&& (settings.zipcode matches Some(z) ==> geo matches Some(u) && u@
                    == spec_geocode_url(
                    z@,
                    spec_country_or_default(settings.country),
                    settings.apikey->0@,
                ))
            },
    {
        if settings.apikey.is_none() {
            return Err(ConfigError::ApiKeyNotSet);
        }
        if let Err(fault) = check_credentials(&settings.dbuser, &settings.dbpass) {
            return Err(fault);
        }
        let mut config = Config::new();
        let key = match settings.apikey {
            Some(k) => k,
            None => String::from_str(""),
        };
        config.set_key(key);
        config.set_timing(settings.timing);
        config.set_maxretry(settings.max_retry);
        config.dbname = settings.dbname;
        if let Some(server) = settings.dbserver {
            config.set_dbserver(server);
        }
        config.dbuser = settings.dbuser;
        config.dbpass = settings.dbpass;
        config.token = settings.token;
        let geo = match settings.zipcode {
            Some(zip) => {
                let country = match settings.country {
                    Some(c) => c,
                    None => String::from_str("US"),
                };
                let url = geocode_url(zip.as_str(), country.as_str(), config.get_key().as_str());
                Some(url)
            },
            None => None,
        };
        Ok((config, geo))
    }
}

} // verus!
