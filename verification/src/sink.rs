//! Mapping a reading onto the sink: client parameters with a validated
//! authentication mode, and the tagged time-series point of one write.

use vstd::prelude::*;

use crate::config::check_credentials;
use crate::config::credentials_complete;
use crate::config::Config;
use crate::config::ConfigError;
use crate::reading::PollUpdate;

verus! {

/// How the sink client authenticates.
#[derive(Clone, Debug, PartialEq)]
pub enum SinkAuth {
    Unauthenticated,
    UserPass { user: String, pass: String },
    Token { token: String },
}

/// Everything needed to open the sink connection: server URL, database name
/// and authentication mode.
#[derive(Clone, Debug)]
pub struct SinkParams {
    pub url: String,
    pub dbname: String,
    pub auth: SinkAuth,
}

/// Decides the sink client parameters from a configuration, checking the
/// credential-pair invariant once more before any connection exists: a
/// complete username and password pair wins, else a bearer token, else no
/// authentication; a half-set pair is a fault, never a silently authless
/// client.
pub fn build_client(current_config: &Config) -> (r: Result<SinkParams, ConfigError>)
    ensures
        r is Ok <==> credentials_complete(current_config.dbuser, current_config.dbpass),
        current_config.dbuser is Some && current_config.dbpass is None ==> r == Err::<
            SinkParams,
            ConfigError,
        >(ConfigError::UserWithoutPassword),
        current_config.dbuser is None && current_config.dbpass is Some ==> r == Err::<
            SinkParams,
            ConfigError,
        >(ConfigError::PasswordWithoutUser),
        r matches Ok(p) ==> {
            &&& p.url@ == current_config.spec_dbserver()
            &&& p.dbname@ == current_config.spec_dbname()
            &&& (current_config.dbpass matches Some(pw) ==> (p.auth matches SinkAuth::UserPass {
                user,
                pass,
            } && Some(user) == current_config.dbuser && pass == pw))
            &&& (current_config.token matches Some(t) ==> (current_config.dbpass is None
                ==> (p.auth matches SinkAuth::Token { token } && token == t)))
            &&& (current_config.dbpass is None && current_config.token is None
                ==> p.auth is Unauthenticated)
        },
{
    if let Err(fault) = check_credentials(&current_config.dbuser, &current_config.dbpass) {
        return Err(fault);
    }
    let url = current_config.get_dbserver();
    let dbname = current_config.get_dbname();
    let auth = match (&current_config.dbuser, &current_config.dbpass) {
        (Some(user), Some(pass)) => SinkAuth::UserPass { user: user.clone(), pass: pass.clone() },
        _ => {
            match &current_config.token {
                Some(token) => SinkAuth::Token { token: token.clone() },
                None => SinkAuth::Unauthenticated,
            }
        },
    };
    Ok(SinkParams { url, dbname, auth })
}

/// The tagged time-series point of one sink write: the fixed measurement
/// name, the capture time, the location tag, and the index and
/// concentrations as fields.
#[derive(Clone, Debug)]
pub struct WritePoint {
    pub measurement: String,
    pub time: i64,
    pub location: String,
    pub aqi: i8,
    pub co: String,
    pub no: String,
    pub no2: String,
    pub o3: String,
    pub so2: String,
    pub pm2_5: String,
    pub pm10: String,
    pub nh3: String,
}

/// `p` carries exactly the values of `u` under the fixed measurement name,
/// tagged with `location`.
pub open spec fn point_matches_update(p: WritePoint, u: PollUpdate, location: Seq<char>) -> bool {
    &&& p.measurement@ == "pollution"@
    &&& p.time == u.time
    &&& p.location@ == location
    &&& p.aqi == u.aqi
    &&& p.co == u.co
    &&& p.no == u.no
    &&& p.no2 == u.no2
    &&& p.o3 == u.o3
    &&& p.so2 == u.so2
    &&& p.pm2_5 == u.pm2_5
    &&& p.pm10 == u.pm10
    &&& p.nh3 == u.nh3
}

impl PollUpdate {
    /// Consumes the reading into the point of one write under the fixed
    /// measurement name, replacing the pending location label with `location`
    /// and losing no value on the way.
    pub fn into_point(self, location: &str) -> (p: WritePoint)
        ensures
            point_matches_update(p, self, location@),
    {
        WritePoint {
            measurement: String::from_str("pollution"),
            time: self.time,
            location: String::from_str(location),
            aqi: self.aqi,
            co: self.co,
            no: self.no,
            no2: self.no2,
            o3: self.o3,
            so2: self.so2,
            pm2_5: self.pm2_5,
            pm10: self.pm10,
            nh3: self.nh3,
        }
    }
}

} // verus!
