use lead_barry::configuration::settings::WiFiSettings;
use lead_barry::web_server::{
    apply_wifi_config, fixed_reply, route_request, str_equals, strip_prefix, wifi_config_for_page,
    HttpMethod, Route, StatusCode, WifiConfig,
};

#[test]
fn routes_of_the_configuration_server() {
    assert_eq!(route_request(HttpMethod::GET, "/"), Route::MainPage);
    assert_eq!(route_request(HttpMethod::POST, "/"), Route::MainPage);
    assert_eq!(route_request(HttpMethod::GET, "/index.html"), Route::NotFound);
    assert_eq!(route_request(HttpMethod::GET, "/api/version"), Route::Version);
    assert_eq!(route_request(HttpMethod::GET, "/api/reboot"), Route::Reboot);
    assert_eq!(route_request(HttpMethod::GET, "/api/wifi_config"), Route::WifiConfig);
    assert_eq!(route_request(HttpMethod::POST, "/api/set_wifi_config"), Route::SetWifiConfig);
    assert_eq!(route_request(HttpMethod::GET, "/api/date_time"), Route::DateTime);
    assert_eq!(route_request(HttpMethod::POST, "/api/set_date_time"), Route::SetDateTime);
    assert_eq!(route_request(HttpMethod::OPTIONS, "/api/anything"), Route::Preflight);
    assert_eq!(route_request(HttpMethod::POST, "/api/version"), Route::NotFound);
    assert_eq!(route_request(HttpMethod::GET, "/api/"), Route::NotFound);
    assert_eq!(route_request(HttpMethod::GET, "/api"), Route::NotFound);
    assert_eq!(route_request(HttpMethod::GET, ""), Route::NotFound);
}

#[test]
fn text_helpers() {
    assert!(str_equals("ab", "ab"));
    assert!(!str_equals("ab", "abc"));
    assert!(!str_equals("ab", "ac"));
    assert_eq!(strip_prefix("/api/x", "/api/"), Some("x"));
    assert_eq!(strip_prefix("/ap", "/api/"), None);
    assert_eq!(strip_prefix("äb", "ä"), Some("b"));
}

#[test]
fn fixed_replies() {
    assert_eq!(fixed_reply(Route::NotFound, true), Some((StatusCode::NotFound, "Not Found")));
    assert_eq!(fixed_reply(Route::Reboot, false), Some((StatusCode::Success, "System is resetting...")));
    assert_eq!(
        fixed_reply(Route::SetWifiConfig, true),
        Some((StatusCode::Success, "WiFi configuration updated"))
    );
    assert_eq!(
        fixed_reply(Route::SetWifiConfig, false),
        Some((StatusCode::InternalServerError, "Failed to save WiFi configuration"))
    );
    assert_eq!(fixed_reply(Route::SetDateTime, true), Some((StatusCode::Success, "Date and time updated")));
    assert_eq!(fixed_reply(Route::MainPage, true), None);
    assert_eq!(fixed_reply(Route::Version, true), None);
}

#[test]
fn password_never_sent_to_page() {
    let stored = WiFiSettings { ssid: "home".to_string(), password: "secret".to_string() };
    let page = wifi_config_for_page(&stored);
    assert_eq!(page, WifiConfig { ssid: "home".to_string(), password: Some(String::new()) });
}

#[test]
fn missing_password_keeps_stored_one() {
    let stored = WiFiSettings { ssid: "home".to_string(), password: "secret".to_string() };
    let sent = WifiConfig { ssid: "office".to_string(), password: None };
    assert_eq!(
        apply_wifi_config(sent, &stored),
        WiFiSettings { ssid: "office".to_string(), password: "secret".to_string() }
    );
    let sent = WifiConfig { ssid: "office".to_string(), password: Some("new".to_string()) };
    assert_eq!(
        apply_wifi_config(sent, &stored),
        WiFiSettings { ssid: "office".to_string(), password: "new".to_string() }
    );
}
