use skin_randomizer::discovery::{capture_after, discover_from_listing, CharClass};
use skin_randomizer::DiscoveryError;

#[test]
fn discovers_port_and_token_from_command_line() {
    let line = "\"C:/Riot/LeagueClientUx.exe\" --riotclient-app-port=991 \
                --app-port=52300 --remoting-auth-token=abc-DEF_9 --no-rads";
    let creds = discover_from_listing(Some(line)).unwrap();
    assert_eq!(creds.port, "52300");
    assert_eq!(creds.auth_token, "abc-DEF_9");
}

#[test]
fn no_process_is_process_not_found() {
    let r = discover_from_listing(None);
    assert_eq!(r.unwrap_err(), DiscoveryError::ProcessNotFound);
}

#[test]
fn missing_token_flag_is_pattern_not_matched() {
    let r = discover_from_listing(Some("LeagueClientUx.exe --app-port=1234"));
    assert_eq!(r.unwrap_err(), DiscoveryError::PatternNotMatched);
}

#[test]
fn missing_port_flag_is_pattern_not_matched() {
    let r = discover_from_listing(Some("--remoting-auth-token=tok"));
    assert_eq!(r.unwrap_err(), DiscoveryError::PatternNotMatched);
}

#[test]
fn empty_command_line_is_pattern_not_matched() {
    let r = discover_from_listing(Some(""));
    assert_eq!(r.unwrap_err(), DiscoveryError::PatternNotMatched);
}

#[test]
fn leftmost_occurrence_wins() {
    let creds = discover_from_listing(Some(
        "--app-port=1 --app-port=2 --remoting-auth-token=x --remoting-auth-token=y",
    ))
    .unwrap();
    assert_eq!(creds.port, "1");
    assert_eq!(creds.auth_token, "x");
}

#[test]
fn occurrence_without_value_is_skipped() {
    let creds = discover_from_listing(Some(
        "--app-port= --app-port=77 --remoting-auth-token=%% --remoting-auth-token=ok",
    ))
    .unwrap();
    assert_eq!(creds.port, "77");
    assert_eq!(creds.auth_token, "ok");
}

#[test]
fn capture_stops_at_first_foreign_character() {
    let cap = capture_after("--app-port=123abc", "--app-port=", CharClass::Digits);
    assert_eq!(cap.unwrap(), "123");
    let cap = capture_after("--remoting-auth-token=a_b-9\"x", "--remoting-auth-token=", CharClass::Word);
    assert_eq!(cap.unwrap(), "a_b-9");
}

#[test]
fn capture_runs_to_end_of_line() {
    let cap = capture_after("xx--app-port=9", "--app-port=", CharClass::Digits);
    assert_eq!(cap.unwrap(), "9");
}

#[test]
fn capture_without_any_occurrence_is_none() {
    assert!(capture_after("nothing here", "--app-port=", CharClass::Digits).is_none());
}

#[test]
fn discovered_credentials_configure_the_client() {
    let creds = discover_from_listing(Some(
        "LeagueClientUx.exe --app-port=443 --remoting-auth-token=abc",
    ))
    .unwrap();
    assert_eq!(
        skin_randomizer::client::build_url(&creds.port, "/help"),
        "https://127.0.0.1:443/help"
    );
    assert_eq!(
        skin_randomizer::client::auth_header_value(&creds.auth_token),
        "Basic cmlvdDphYmM="
    );
}
