//! Routing of the requests that the configuration web server answers.

use vstd::prelude::*;
use vstd::string::*;

use crate::configuration::settings::{WiFiSettings, PASSWORD_CAPACITY, SSID_CAPACITY};
use crate::text::{decimal, push_decimal_u64, utf8_len};

verus! {

/// Methods of an HTTP request.
#[allow(non_camel_case_types)]
#[derive(Debug, Clone, Copy, PartialEq, Eq, Structural)]
pub enum HttpMethod {
    GET,
    POST,
    PUT,
    DELETE,
    PATCH,
    HEAD,
    OPTIONS,
    TRACE,
    CONNECT,
}

/// How a request is answered.
#[derive(Debug, Clone, Copy, PartialEq, Eq, Structural)]
pub enum Route {
    /// The compressed configuration page.
    MainPage,
    /// "Not Found".
    NotFound,
    /// The answer to a CORS preflight request.
    Preflight,
    /// The firmware version.
    Version,
    /// Restart the device shortly, and say so.
    Reboot,
    /// The WiFi settings, without the password.
    WifiConfig,
    /// Store the WiFi settings sent, and save them.
    SetWifiConfig,
    /// The date and time of the real-time clock.
    DateTime,
    /// Set the real-time clock to the date and time sent.
    SetDateTime,
}

/// The path prefix of the API.
pub open spec fn api_prefix() -> Seq<char> {
    seq!['/', 'a', 'p', 'i', '/']
}

/// The answer to a request with `method` for `path`.
pub open spec fn route_of(method: HttpMethod, path: Seq<char>) -> Route {
    if path == seq!['/'] {
        Route::MainPage
    } else if !(path.len() >= 5 && path.take(5) == api_prefix()) {
        Route::NotFound
    } else {
        let api = path.skip(5);
        if method == HttpMethod::OPTIONS {
            Route::Preflight
        } else if method == HttpMethod::GET && api == "version"@ {
            Route::Version
        } else if method == HttpMethod::GET && api == "reboot"@ {
            Route::Reboot
        } else if method == HttpMethod::GET && api == "wifi_config"@ {
            Route::WifiConfig
        } else if method == HttpMethod::POST && api == "set_wifi_config"@ {
            Route::SetWifiConfig
        } else if method == HttpMethod::GET && api == "date_time"@ {
            Route::DateTime
        } else if method == HttpMethod::POST && api == "set_date_time"@ {
            Route::SetDateTime
        } else {
            Route::NotFound
        }
    }
}

/// Whether two texts are equal.
pub fn str_equals(a: &str, b: &str) -> (r: bool)
    ensures
        r == (a@ == b@),
{
    let n = a.unicode_len();
    if n != b.unicode_len() {
        return false;
    }
    let mut i: usize = 0;
    while i < n
        invariant
            n == a@.len() == b@.len(),
            i <= n,
            forall|j: int| 0 <= j < i ==> a@[j] == b@[j],
        decreases n - i,
    {
        if a.get_char(i) != b.get_char(i) {
            return false;
        }
        i += 1;
    }
    assert(a@ =~= b@);
    true
}

/// `text` without `prefix`, where it starts with it.
pub fn strip_prefix<'a>(text: &'a str, prefix: &str) -> (r: Option<&'a str>)
    ensures
        (text@.len() >= prefix@.len() && text@.take(prefix@.len() as int) == prefix@) ==> (r matches Some(
            rest,
        ) && rest@ == text@.skip(prefix@.len() as int)),
        !(text@.len() >= prefix@.len() && text@.take(prefix@.len() as int) == prefix@) ==> r is None,
{
    let n = text.unicode_len();
    let m = prefix.unicode_len();
    if m > n {
        return None;
    }
    let head = text.substring_char(0, m);
    assert(text@.subrange(0, m as int) =~= text@.take(m as int));
    if !str_equals(head, prefix) {
        return None;
    }
    assert(text@.subrange(m as int, n as int) =~= text@.skip(m as int));
    Some(text.substring_char(m, n))
}

/// How the configuration server answers a request with `method` for
/// `path`: the page at the root, the API under "/api/", "Not Found"
/// elsewhere.
pub fn route_request(method: HttpMethod, path: &str) -> (r: Route)
    ensures
        r == route_of(method, path@),
{
    proof {
        reveal_strlit("/");
        reveal_strlit("/api/");
    }
    if str_equals(path, "/") {
        assert(path@ =~= seq!['/']);
        return Route::MainPage;
    }
    assert(!(path@ == seq!['/'])) by {
        assert("/"@ =~= seq!['/']);
    }
    let api = match strip_prefix(path, "/api/") {
        Some(api) => api,
        None => {
            assert("/api/"@ =~= api_prefix());
            return Route::NotFound;
        },
    };
    assert("/api/"@ =~= api_prefix());
    if method == HttpMethod::OPTIONS {
        Route::Preflight
    } else if method == HttpMethod::GET && str_equals(api, "version") {
        Route::Version
    } else if method == HttpMethod::GET && str_equals(api, "reboot") {
        Route::Reboot
    } else if method == HttpMethod::GET && str_equals(api, "wifi_config") {
        Route::WifiConfig
    } else if method == HttpMethod::POST && str_equals(api, "set_wifi_config") {
        Route::SetWifiConfig
    } else if method == HttpMethod::GET && str_equals(api, "date_time") {
        Route::DateTime
    } else if method == HttpMethod::POST && str_equals(api, "set_date_time") {
        Route::SetDateTime
    } else {
        Route::NotFound
    }
}

/// Status codes of the answers: 200, 404 and 500.
#[derive(Debug, Clone, Copy, PartialEq, Eq, Structural)]
pub enum StatusCode {
    Success,
    NotFound,
    InternalServerError,
}

/// Seconds between a reboot request and the restart.
pub const REBOOT_REQUEST_DELAY_S: u64 = 1;

/// The WiFi settings as the configuration page reads and sends them; a
/// missing password keeps the stored one.
#[derive(Debug, Clone, PartialEq)]
pub struct WifiConfig {
    pub ssid: String,
    pub password: Option<String>,
}

/// The WiFi settings shown to the configuration page: the network name,
/// and a cleared password, so that the password never leaves the device.
pub fn wifi_config_for_page(settings: &WiFiSettings) -> (r: WifiConfig)
    ensures
        r.ssid@ == settings.ssid@,
        r.password matches Some(p) && p@.len() == 0,
{
    WifiConfig { ssid: settings.ssid.clone(), password: Some(String::new()) }
}

/// The WiFi settings after the page sent `config`: its network name, and
/// its password, or the stored one where it sent none.
pub fn apply_wifi_config(config: WifiConfig, current: &WiFiSettings) -> (r: WiFiSettings)
    ensures
        r.ssid@ == config.ssid@,
        r.password@ == match config.password {
            Some(p) => p@,
            None => current.password@,
        },
        utf8_len(config.ssid@) <= SSID_CAPACITY && current.wf() && (config.password matches Some(p)
            ==> utf8_len(p@) <= PASSWORD_CAPACITY) ==> r.wf(),
{
    let password = match config.password {
        Some(p) => p,
        None => current.password.clone(),
    };
    WiFiSettings { ssid: config.ssid, password }
}

/// The status and plain-text body of the routes whose answer is fixed:
/// "Not Found", the reboot acknowledgement, the outcome of saving the WiFi
/// settings, and the date update acknowledgement. `None` for the routes
/// whose body is computed.
pub fn fixed_reply(route: Route, saved: bool) -> (r: Option<(StatusCode, &'static str)>)
    ensures
        match route {
            Route::NotFound => r matches Some((c, b)) && c == StatusCode::NotFound && b@
                == "Not Found"@,
            Route::Reboot => r matches Some((c, b)) && c == StatusCode::Success && b@
                == "System is resetting..."@,
            Route::SetWifiConfig => if saved {
                r matches Some((c, b)) && c == StatusCode::Success && b@ == "WiFi configuration updated"@
            } else {
                r matches Some((c, b)) && c == StatusCode::InternalServerError && b@
                    == "Failed to save WiFi configuration"@
            },
            Route::SetDateTime => r matches Some((c, b)) && c == StatusCode::Success && b@
                == "Date and time updated"@,
            _ => r is None,
        },
{
    match route {
        Route::NotFound => Some((StatusCode::NotFound, "Not Found")),
        Route::Reboot => Some((StatusCode::Success, "System is resetting...")),
        Route::SetWifiConfig => if saved {
            Some((StatusCode::Success, "WiFi configuration updated"))
        } else {
            Some((StatusCode::InternalServerError, "Failed to save WiFi configuration"))
        },
        Route::SetDateTime => Some((StatusCode::Success, "Date and time updated")),
        _ => None,
    }
}

/// The value of the Content-Length header of a body of `len` bytes.
pub fn content_length_text(len: u64) -> (r: String)
    ensures
        r@ == decimal(len as nat),
{
    let mut s = String::new();
    push_decimal_u64(&mut s, len);
    assert(s@ =~= decimal(len as nat));
    s
}

} // verus!
