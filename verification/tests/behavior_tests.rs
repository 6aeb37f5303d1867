use pollutionclient_rs::config::check_credentials;
use pollutionclient_rs::config::Config;
use pollutionclient_rs::config::ConfigError;
use pollutionclient_rs::config::ConfigFile;
use pollutionclient_rs::config::ZipLoc;
use pollutionclient_rs::cycle::FetchOutcome;
use pollutionclient_rs::cycle::LoopDirective;
use pollutionclient_rs::cycle::LoopState;
use pollutionclient_rs::defaults::default_country;
use pollutionclient_rs::defaults::default_retries;
use pollutionclient_rs::defaults::default_timing;
use pollutionclient_rs::reading::Components;
use pollutionclient_rs::reading::MainAqi;
use pollutionclient_rs::reading::PollList;
use pollutionclient_rs::reading::PollResponse;
use pollutionclient_rs::reading::PollUpdate;
use pollutionclient_rs::sink::build_client;
use pollutionclient_rs::sink::SinkAuth;
use pollutionclient_rs::sink::WritePoint;
use pollutionclient_rs::strutil::str_is_decimal;
use pollutionclient_rs::urls::geocode_url;
use pollutionclient_rs::urls::pollution_url;

fn fixture_components() -> Components {
    Components {
        co: "201.94".to_string(),
        no: "0.01".to_string(),
        no2: "0.77".to_string(),
        o3: "68.66".to_string(),
        so2: "0.64".to_string(),
        pm2_5: "0.5".to_string(),
        pm10: "0.54".to_string(),
        nh3: "0.12".to_string(),
    }
}

fn fixture_response() -> PollResponse {
    PollResponse {
        list: vec![PollList { components: fixture_components(), main: MainAqi { aqi: 2 } }],
    }
}

fn located_config() -> Config {
    let mut config = Config::new();
    config.set_key("TestKey".to_string());
    config.set_loc(ZipLoc {
        zip: "99999".to_string(),
        name: "TestLoc".to_string(),
        lat: "42.5".to_string(),
        lon: "-71.06".to_string(),
        country: "US".to_string(),
    });
    config
}

#[test]
fn success_cycle_sleeps_full_interval() {
    let mut state = LoopState::new();
    let d = state.advance(FetchOutcome::Success, 3600, 3);
    assert_eq!(d, LoopDirective::Continue { sleep_secs: 3600 });
    let d = state.advance(FetchOutcome::Success, 17, 3);
    assert_eq!(d, LoopDirective::Continue { sleep_secs: 17 });
}

#[test]
fn failure_cycle_sleeps_half_interval_rounded_down() {
    let mut state = LoopState::new();
    let d = state.advance(FetchOutcome::Failure, 3601, 3);
    assert_eq!(d, LoopDirective::Continue { sleep_secs: 1800 });
    let mut state = LoopState::new();
    let d = state.advance(FetchOutcome::Failure, 3600, 3);
    assert_eq!(d, LoopDirective::Continue { sleep_secs: 1800 });
}

#[test]
fn success_resets_failure_counter() {
    let mut state = LoopState::new();
    state.advance(FetchOutcome::Failure, 100, 5);
    state.advance(FetchOutcome::Failure, 100, 5);
    state.advance(FetchOutcome::Failure, 100, 5);
    assert_eq!(state.failures, 3);
    state.advance(FetchOutcome::Success, 100, 5);
    assert_eq!(state.failures, 0);
}

#[test]
fn loop_terminates_exactly_at_budget() {
    let mut state = LoopState::new();
    let max: u8 = 3;
    let d = state.advance(FetchOutcome::Failure, 100, max);
    assert_eq!(state.failures, 1);
    assert_ne!(d, LoopDirective::Terminate);
    let d = state.advance(FetchOutcome::Failure, 100, max);
    assert_eq!(state.failures, 2);
    assert_ne!(d, LoopDirective::Terminate);
    let d = state.advance(FetchOutcome::Failure, 100, max);
    assert_eq!(state.failures, 3);
    assert_eq!(d, LoopDirective::Terminate);
}

#[test]
fn loop_terminates_on_first_failure_with_budget_one() {
    let mut state = LoopState::new();
    let d = state.advance(FetchOutcome::Failure, 100, 1);
    assert_eq!(state.failures, 1);
    assert_eq!(d, LoopDirective::Terminate);
}

#[test]
fn normalization_is_idempotent_at_runtime() {
    let mut first = Config::new();
    first.set_dbserver("localhost".to_string());
    let once = first.dbserver.clone().unwrap();
    let mut second = Config::new();
    second.set_dbserver(once.clone());
    assert_eq!(second.dbserver, Some(once));
    assert_eq!(first.dbserver, Some("http://localhost:8086".to_string()));
}

#[test]
fn credential_pair_validation() {
    assert!(check_credentials(&None, &None).is_ok());
    assert!(check_credentials(&Some("u".to_string()), &Some("p".to_string())).is_ok());
    assert_eq!(
        check_credentials(&Some("u".to_string()), &None),
        Err(ConfigError::UserWithoutPassword)
    );
    assert_eq!(
        check_credentials(&None, &Some("p".to_string())),
        Err(ConfigError::PasswordWithoutUser)
    );
}

#[test]
fn build_client_rejects_half_set_credentials() {
    let mut config = Config::new();
    config.set_dbuser("user".to_string());
    assert_eq!(build_client(&config).unwrap_err(), ConfigError::UserWithoutPassword);
    let mut config = Config::new();
    config.set_dbpass("pass".to_string());
    assert_eq!(build_client(&config).unwrap_err(), ConfigError::PasswordWithoutUser);
}

#[test]
fn build_client_picks_auth_mode() {
    let config = Config::new();
    let params = build_client(&config).unwrap();
    assert_eq!(params.url, "http://localhost:8086");
    assert_eq!(params.dbname, "test");
    assert_eq!(params.auth, SinkAuth::Unauthenticated);

    let mut config = Config::new();
    config.set_dbuser("user".to_string());
    config.set_dbpass("pass".to_string());
    config.set_token("tok".to_string());
    let params = build_client(&config).unwrap();
    assert_eq!(
        params.auth,
        SinkAuth::UserPass { user: "user".to_string(), pass: "pass".to_string() }
    );

    let mut config = Config::new();
    config.set_token("tok".to_string());
    let params = build_client(&config).unwrap();
    assert_eq!(params.auth, SinkAuth::Token { token: "tok".to_string() });
}

#[test]
fn unpack_uses_only_first_entry() {
    let mut with_extras = fixture_response();
    with_extras.list.push(PollList {
        components: Components {
            co: "999.9".to_string(),
            no: "999.9".to_string(),
            no2: "999.9".to_string(),
            o3: "999.9".to_string(),
            so2: "999.9".to_string(),
            pm2_5: "999.9".to_string(),
            pm10: "999.9".to_string(),
            nh3: "999.9".to_string(),
        },
        main: MainAqi { aqi: 5 },
    });
    let lone = fixture_response().unpack_at(1700000000);
    let crowded = with_extras.unpack_at(1700000000);
    assert_eq!(crowded.time, lone.time);
    assert_eq!(crowded.location, lone.location);
    assert_eq!(crowded.aqi, lone.aqi);
    assert_eq!(crowded.co, lone.co);
    assert_eq!(crowded.no, lone.no);
    assert_eq!(crowded.no2, lone.no2);
    assert_eq!(crowded.o3, lone.o3);
    assert_eq!(crowded.so2, lone.so2);
    assert_eq!(crowded.pm2_5, lone.pm2_5);
    assert_eq!(crowded.pm10, lone.pm10);
    assert_eq!(crowded.nh3, lone.nh3);
}

#[test]
fn fixture_unpacks_exactly_and_round_trips_to_point() {
    let update: PollUpdate = fixture_response().unpack_at(1700000000);
    assert_eq!(update.time, 1700000000);
    assert_eq!(update.location, "pending");
    assert_eq!(update.aqi, 2);
    assert_eq!(update.co, "201.94");
    assert_eq!(update.no, "0.01");
    assert_eq!(update.no2, "0.77");
    assert_eq!(update.o3, "68.66");
    assert_eq!(update.so2, "0.64");
    assert_eq!(update.pm2_5, "0.5");
    assert_eq!(update.pm10, "0.54");
    assert_eq!(update.nh3, "0.12");

    let point: WritePoint = update.into_point("TestLoc");
    assert_eq!(point.measurement, "pollution");
    assert_eq!(point.time, 1700000000);
    assert_eq!(point.location, "TestLoc");
    assert_eq!(point.aqi, 2);
    assert_eq!(point.co, "201.94");
    assert_eq!(point.no, "0.01");
    assert_eq!(point.no2, "0.77");
    assert_eq!(point.o3, "68.66");
    assert_eq!(point.so2, "0.64");
    assert_eq!(point.pm2_5, "0.5");
    assert_eq!(point.pm10, "0.54");
    assert_eq!(point.nh3, "0.12");
}

#[test]
fn unpack_takes_capture_time_from_clock() {
    let update = fixture_response().unpack();
    assert!(update.time > 1500000000);
    assert_eq!(update.location, "pending");
    assert_eq!(update.aqi, 2);
}

#[test]
fn missing_api_key_is_fatal_before_any_network_step() {
    let mut settings = ConfigFile::default();
    settings.zipcode = Some("99999".to_string());
    let fault = Config::assemble(settings).unwrap_err();
    assert_eq!(fault, ConfigError::ApiKeyNotSet);
    assert_eq!(fault.message(), "API key is not set. Unable to proceed.");
}

#[test]
fn assemble_rejects_half_set_credentials() {
    let mut settings = ConfigFile::default();
    settings.apikey = Some("Key".to_string());
    settings.dbuser = Some("user".to_string());
    assert_eq!(Config::assemble(settings).unwrap_err(), ConfigError::UserWithoutPassword);
    let mut settings = ConfigFile::default();
    settings.apikey = Some("Key".to_string());
    settings.dbpass = Some("pass".to_string());
    assert_eq!(Config::assemble(settings).unwrap_err(), ConfigError::PasswordWithoutUser);
}

#[test]
fn assemble_applies_inputs_and_requests_geocoding() {
    let settings = ConfigFile {
        apikey: Some("Key".to_string()),
        zipcode: Some("99999".to_string()),
        country: None,
        timing: 60,
        dbname: Some("airdata".to_string()),
        dbserver: Some("dbhost".to_string()),
        dbuser: None,
        dbpass: None,
        max_retry: 7,
        token: None,
    };
    let (config, geo) = Config::assemble(settings).unwrap();
    assert_eq!(config.apikey, Some("Key".to_string()));
    assert_eq!(config.location, None);
    assert_eq!(config.timing, 60);
    assert_eq!(config.dbname, Some("airdata".to_string()));
    assert_eq!(config.dbserver, Some("http://dbhost:8086".to_string()));
    assert_eq!(config.max_retry, 7);
    assert_eq!(geo, Some("http://api.openweathermap.org/geo/1.0/zip?zip=99999,US&appid=Key".to_string()));
}

#[test]
fn assemble_without_zipcode_requests_nothing() {
    let mut settings = ConfigFile::default();
    settings.apikey = Some("Key".to_string());
    let (config, geo) = Config::assemble(settings).unwrap();
    assert_eq!(geo, None);
    assert_eq!(config.location, None);
    assert_eq!(config.timing, 3600);
    assert_eq!(config.max_retry, 3);
    assert_eq!(config.dbserver, None);
}

#[test]
fn geocode_url_is_exact() {
    let url = geocode_url("10001", "US", "SECRETKEY");
    assert_eq!(url, "http://api.openweathermap.org/geo/1.0/zip?zip=10001,US&appid=SECRETKEY");
}

#[test]
fn pollution_url_is_exact() {
    let url = pollution_url("42.5", "-71.06", "SECRETKEY");
    assert_eq!(
        url,
        "http://api.openweathermap.org/data/2.5/air_pollution?lat=42.5&lon=-71.06&appid=SECRETKEY"
    );
}

#[test]
fn validate_accepts_complete_configuration() {
    let config = located_config();
    assert!(config.validate_for_polling().is_ok());
}

#[test]
fn validate_reports_first_fault() {
    let config = Config::new();
    assert_eq!(config.validate_for_polling().unwrap_err(), ConfigError::ApiKeyNotSet);

    let mut config = Config::new();
    config.set_key("Key".to_string());
    assert_eq!(config.validate_for_polling().unwrap_err(), ConfigError::LocationNotSet);

    let mut config = located_config();
    if let Some(loc) = config.location.as_mut() {
        loc.lat = "NOTSET".to_string();
    }
    assert_eq!(config.validate_for_polling().unwrap_err(), ConfigError::MalformedLatitude);

    let mut config = located_config();
    if let Some(loc) = config.location.as_mut() {
        loc.lon = "NOTSET".to_string();
    }
    assert_eq!(config.validate_for_polling().unwrap_err(), ConfigError::MalformedLongitude);
}

#[test]
fn error_messages_are_fixed() {
    assert_eq!(ConfigError::LocationNotSet.message(), "Location not set. Unable to proceed.");
    assert_eq!(
        ConfigError::MalformedLatitude.message(),
        "Latitude looks malformed. Unable to proceed."
    );
    assert_eq!(
        ConfigError::MalformedLongitude.message(),
        "Longitude looks malformed. Unable to proceed."
    );
    assert_eq!(
        ConfigError::UserWithoutPassword.message(),
        "InfluxDB user set but password is not."
    );
    assert_eq!(
        ConfigError::PasswordWithoutUser.message(),
        "InfluxDB password added but not user! Unable to proceed."
    );
}

#[test]
fn decimal_syntax_check() {
    assert!(str_is_decimal("42.5"));
    assert!(str_is_decimal("-71.06"));
    assert!(str_is_decimal("12"));
    assert!(str_is_decimal("-12"));
    assert!(!str_is_decimal(""));
    assert!(!str_is_decimal("-"));
    assert!(!str_is_decimal("4."));
    assert!(!str_is_decimal(".5"));
    assert!(!str_is_decimal("1.2.3"));
    assert!(!str_is_decimal("NOTSET"));
    assert!(!str_is_decimal("4-2"));
}

#[test]
fn default_values() {
    assert_eq!(default_retries(), 3);
    assert_eq!(default_timing(), 3600);
    assert_eq!(default_country(), Some("US".to_string()));
    let settings = ConfigFile::default();
    assert_eq!(settings.timing, 3600);
    assert_eq!(settings.max_retry, 3);
    assert_eq!(settings.country, None);
}
