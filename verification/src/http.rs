//! The camera on its HTTP link: from a base address to the requests.
//!
//! Addresses are parsed, changed and joined by the `url` crate. What this
//! module takes on trust of that crate stands first, under "What is trusted
//! of `url`"; the rest is proved from it.

use url::{ParseError, Url};
use vstd::prelude::*;
use vstd::string::*;
use crate::error::Error;
use crate::CameraControl;

verus! {

/// The address of a camera that serves as a Wi-Fi access point.
pub const WIFI_URL: &'static str = "http://10.5.5.9:8080";

/// The port on which a camera serves HTTP.
pub const DEFAULT_PORT: u16 = 8080;

/// The path that resets the time after which the camera goes to sleep.
pub const KEEP_ALIVE_PATH: &'static str = "/gopro/camera/keep_alive";

/// The longest base address, in characters, that is given a port.
pub const MAX_BASE_LEN: usize = 0x3fff_fff0;

// What is trusted of `url`
//
// A `Url` holds its text and the places of the parts in it. The crate
// compares, orders and hashes URLs by the text, and its `check_invariants`
// holds every other field to what parsing the text gives. So what a method
// returns is named here by the text of the URL and the other arguments.
// None of the names has a body: nothing below says what the text of any
// given URL is.

/// A parsed URL of the `url` crate. Nothing is known of a value of it beyond
/// what the items below say.
#[verifier::external_type_specification]
#[verifier::external_body]
pub struct ExUrl(Url);

/// The text of a URL: what `Url::as_str` returns.
pub uninterp spec fn url_text(url: Url) -> Seq<char>;

/// What `Url::parse` makes of an input: the text of the URL it reads, or
/// the error it reports.
pub uninterp spec fn url_parse(input: Seq<char>) -> Result<Seq<char>, ParseError>;

/// What `Url::port` returns for the URL with this text.
pub uninterp spec fn url_port(text: Seq<char>) -> Option<u16>;

/// What `Url::set_port` makes of the URL with this text: the text with the
/// port in place, or nothing where the URL cannot carry a port.
pub uninterp spec fn url_with_port(text: Seq<char>, port: Option<u16>) -> Option<Seq<char>>;

/// What `Url::join` makes of a reference against the base with this text:
/// the text of the URL it reads, or the error it reports.
pub uninterp spec fn url_join(base: Seq<char>, reference: Seq<char>) -> Result<
    Seq<char>,
    ParseError,
>;

/// Trusted of `Url::parse`: it reads its input and nothing else, so that
/// the same input gives a URL with the same text, or the same error.
pub assume_specification[ Url::parse ](input: &str) -> (parsed: Result<Url, ParseError>)
    ensures
        match parsed {
            Ok(url) => url_parse(input@) == Ok::<Seq<char>, ParseError>(url_text(url)),
            Err(e) => url_parse(input@) == Err::<Seq<char>, ParseError>(e),
        },
;

/// Trusted of `Url::as_str`: it returns the text that the URL holds.
pub assume_specification[ Url::as_str ](url: &Url) -> (text: &str)
    ensures
        text@ == url_text(*url),
;

/// Trusted of `Url::port`: it returns the port that the URL holds, and two
/// URLs with the same text hold the same port.
pub assume_specification[ Url::port ](url: &Url) -> (port: Option<u16>)
    ensures
        port == url_port(url_text(*url)),
;

/// Trusted of `Url::set_port`: it either puts the port in place and
/// returns `Ok`, or returns `Err` and leaves the URL as it was; which of
/// the two, and the new text, follow from the old text and the port alone.
///
/// The method counts the bytes of the new text in 32 bits and panics where
/// they do not fit. A character takes four bytes at most and a port six
/// characters, so a text of no more than `MAX_BASE_LEN` characters is safe;
/// longer ones are left out.
pub assume_specification[ Url::set_port ](url: &mut Url, port: Option<u16>) -> (set: Result<
    (),
    (),
>)
    requires
        url_text(*old(url)).len() <= 0x3fff_fff0,
    ensures
        match set {
            Ok(_) => url_with_port(url_text(*old(url)), port) == Some(url_text(*final(url))),
            Err(_) => url_with_port(url_text(*old(url)), port) is None && *final(url) == *old(url),
        },
;

/// Trusted of `Url::join`: it parses its input with the URL as the base and
/// reads nothing but the two, so that the same base text and input give a
/// URL with the same text, or the same error.
pub assume_specification[ Url::join ](base: &Url, input: &str) -> (joined: Result<Url, ParseError>)
    ensures
        match joined {
            Ok(url) => url_join(url_text(*base), input@) == Ok::<Seq<char>, ParseError>(
                url_text(url),
            ),
            Err(e) => url_join(url_text(*base), input@) == Err::<Seq<char>, ParseError>(e),
        },
;

// The camera

/// A camera that is reached over HTTP: its base address.
pub struct HttpCamera {
    base: Url,
}

impl View for HttpCamera {
    type V = Seq<char>;

    /// The text of the base address.
    closed spec fn view(&self) -> Seq<char> {
        url_text(self.base)
    }
}

/// The port to put on a base address with this port: the camera's own where
/// the address names none, and none where it names one.
pub open spec fn spec_port_to_set(port: Option<u16>) -> Option<u16> {
    if port is None {
        Some(DEFAULT_PORT)
    } else {
        None
    }
}

/// The base address that a parsed address with this text gives, or nothing
/// where it names no port and cannot carry one, or is too long to be given
/// one.
pub open spec fn base_address(text: Seq<char>) -> Option<Seq<char>> {
    match spec_port_to_set(url_port(text)) {
        Some(port) => if text.len() > MAX_BASE_LEN {
            None
        } else {
            url_with_port(text, Some(port))
        },
        None => Some(text),
    }
}

/// The decimal digit with this value.
pub open spec fn digit(value: nat) -> char {
    if value == 0 {
        '0'
    } else if value == 1 {
        '1'
    } else if value == 2 {
        '2'
    } else if value == 3 {
        '3'
    } else if value == 4 {
        '4'
    } else if value == 5 {
        '5'
    } else if value == 6 {
        '6'
    } else if value == 7 {
        '7'
    } else if value == 8 {
        '8'
    } else {
        '9'
    }
}

/// A number in decimal, without leading zeros.
pub open spec fn decimal(value: nat) -> Seq<char>
    decreases value,
{
    if value < 10 {
        seq![digit(value)]
    } else {
        decimal(value / 10).push(digit(value % 10))
    }
}

/// The address `http://host:port`.
pub open spec fn spec_usb_address(host: Seq<char>, port: u16) -> Seq<char> {
    "http://"@ + host + ":"@ + decimal(port as nat)
}

/// The path that starts or stops the shutter.
pub open spec fn spec_shutter_path(on: bool) -> Seq<char> {
    if on {
        "/gopro/camera/shutter/start"@
    } else {
        "/gopro/camera/shutter/stop"@
    }
}

/// Whether `camera` is what is owed for a parsed address with this text:
/// the camera at its base address, or `BadBaseUrl` with the text where it
/// has none.
pub open spec fn is_camera_at_url(camera: Result<HttpCamera, Error>, text: Seq<char>) -> bool {
    match camera {
        Ok(camera) => base_address(text) == Some(camera@),
        Err(Error::BadBaseUrl { base: refused }) => base_address(text) is None && refused@ == text,
        Err(_) => false,
    }
}

/// Whether `camera` is what is owed for the address `base`: `UrlParse` with
/// the error of the parser where `base` is no URL, and else what is owed
/// for the URL that it is.
pub open spec fn is_camera_at(camera: Result<HttpCamera, Error>, base: Seq<char>) -> bool {
    match url_parse(base) {
        Ok(text) => is_camera_at_url(camera, text),
        Err(e) => camera matches Err(refused) && refused == Error::UrlParse(e),
    }
}

/// Whether `request` is what a camera at `base` owes for `path`: the
/// address that joining the two gives, or `UrlParse` with the error of the
/// parser.
pub open spec fn is_request_for(request: Result<Url, Error>, base: Seq<char>, path: Seq<char>)
    -> bool {
    match url_join(base, path) {
        Ok(text) => request matches Ok(url) && url_text(url) == text,
        Err(e) => request matches Err(refused) && refused == Error::UrlParse(e),
    }
}

fn digit_text(value: u16) -> (text: &'static str)
    requires
        value < 10,
    ensures
        text@ == seq![digit(value as nat)],
{
    proof {
        reveal_strlit("0");
        reveal_strlit("1");
        reveal_strlit("2");
        reveal_strlit("3");
        reveal_strlit("4");
        reveal_strlit("5");
        reveal_strlit("6");
        reveal_strlit("7");
        reveal_strlit("8");
        reveal_strlit("9");
    }
    let text = if value == 0 {
        "0"
    } else if value == 1 {
        "1"
    } else if value == 2 {
        "2"
    } else if value == 3 {
        "3"
    } else if value == 4 {
        "4"
    } else if value == 5 {
        "5"
    } else if value == 6 {
        "6"
    } else if value == 7 {
        "7"
    } else if value == 8 {
        "8"
    } else {
        "9"
    };
    text
}

/// Appends `value` in decimal to `text`.
fn push_decimal(text: &mut String, value: u16)
    ensures
        final(text)@ == old(text)@ + decimal(value as nat),
    decreases value,
{
    if value >= 10 {
        push_decimal(text, value / 10);
    }
    text.append(digit_text(value % 10));
}

impl HttpCamera {
    /// The port to put on a base address that names `port`: 8080 where it
    /// names none, and none where it names one.
    pub fn port_to_set(port: Option<u16>) -> (missing: Option<u16>)
        ensures
            missing == spec_port_to_set(port),
    {
        match port {
            Some(_) => None,
            None => Some(DEFAULT_PORT),
        }
    }

    /// The path of the request that starts (`on`) or stops the shutter.
    pub fn shutter_path(on: bool) -> (path: &'static str)
        ensures
            path@ == spec_shutter_path(on),
    {
        if on {
            "/gopro/camera/shutter/start"
        } else {
            "/gopro/camera/shutter/stop"
        }
    }

    /// The address of a camera that was found at `host`, serving on `port`.
    pub fn usb_address(host: &str, port: u16) -> (address: String)
        ensures
            address@ == spec_usb_address(host@, port),
    {
        let mut address = String::from_str("http://");
        address.append(host);
        address.append(":");
        push_decimal(&mut address, port);
        address
    }

    /// The camera at its address as a Wi-Fi access point.
    pub fn new_wifi() -> (camera: Result<Self, Error>)
        ensures
            is_camera_at(camera, WIFI_URL@),
    {
        Self::new_custom_address(WIFI_URL)
    }

    /// The camera that a resolved service advertisement leads to: the one at
    /// the first of its addresses, on its port. An advertisement without an
    /// address leads to none, and the search goes on.
    pub fn new_usb(addresses: &Vec<String>, port: u16) -> (found: Option<Result<Self, Error>>)
        ensures
            match found {
                Some(camera) => addresses@.len() > 0 && is_camera_at(
                    camera,
                    spec_usb_address(addresses@[0]@, port),
                ),
                None => addresses@.len() == 0,
            },
    {
        if addresses.len() == 0 {
            return None;
        }
        let address = Self::usb_address(addresses[0].as_str(), port);
        Some(Self::new_custom_address(address.as_str()))
    }

    /// The camera at `base`. An address that names no port gets port 8080.
    ///
    /// Fails with `UrlParse` where `base` is no URL, and with `BadBaseUrl`
    /// where it is one that names no port and cannot carry one, or is longer
    /// than `MAX_BASE_LEN`.
    pub fn new_custom_address(base: &str) -> (camera: Result<Self, Error>)
        ensures
            is_camera_at(camera, base@),
    {
        match Url::parse(base) {
            Ok(url) => Self::from_url(url),
            Err(e) => Err(Error::from(e)),
        }
    }

    /// The camera at an address that has been parsed. An address that names
    /// no port gets port 8080; one that cannot carry a port, or is longer
    /// than `MAX_BASE_LEN`, is refused with `BadBaseUrl`.
    pub fn from_url(base: Url) -> (camera: Result<Self, Error>)
        ensures
            is_camera_at_url(camera, url_text(base)),
    {
        let mut base = base;
        match Self::port_to_set(base.port()) {
            Some(port) => {
                if base.as_str().unicode_len() > MAX_BASE_LEN {
                    return Err(Error::BadBaseUrl { base: base.as_str().to_owned() });
                }
                match base.set_port(Some(port)) {
                    Ok(_) => {},
                    Err(_) => {
                        return Err(Error::BadBaseUrl { base: base.as_str().to_owned() });
                    },
                }
            },
            None => {},
        }
        Ok(HttpCamera { base })
    }

    /// The base address.
    pub fn base(&self) -> (url: &Url)
        ensures
            url_text(*url) == self@,
    {
        &self.base
    }
}

impl CameraControl for HttpCamera {
    open spec fn base_text(&self) -> Seq<char> {
        self@
    }

    fn set_shutter(&mut self, on: bool) -> (request: Result<Url, Error>) {
        match self.base.join(Self::shutter_path(on)) {
            Ok(url) => Ok(url),
            Err(e) => Err(Error::from(e)),
        }
    }

    fn keep_alive(&mut self) -> (request: Result<Url, Error>) {
        match self.base.join(KEEP_ALIVE_PATH) {
            Ok(url) => Ok(url),
            Err(e) => Err(Error::from(e)),
        }
    }
}

} // verus!
