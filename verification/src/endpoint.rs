//! Endpoint addresses of the local backend service.

use vstd::prelude::*;
use vstd::string::*;

verus! {

/// The character that writes the decimal digit `d`.
pub open spec fn digit_char(d: nat) -> char
    recommends
        d < 10,
{
    if d == 0 {
        '0'
    } else if d == 1 {
        '1'
    } else if d == 2 {
        '2'
    } else if d == 3 {
        '3'
    } else if d == 4 {
        '4'
    } else if d == 5 {
        '5'
    } else if d == 6 {
        '6'
    } else if d == 7 {
        '7'
    } else if d == 8 {
        '8'
    } else {
        '9'
    }
}

/// The shortest base-10 numeral of `n`, most significant digit first.
pub open spec fn decimal(n: nat) -> Seq<char>
    decreases n,
{
    if n < 10 {
        seq![digit_char(n)]
    } else {
        decimal(n / 10).push(digit_char(n % 10))
    }
}

/// The one-character text of a decimal digit.
fn digit_text(d: u32) -> (text: &'static str)
    requires
        d < 10,
    ensures
        text@ == seq![digit_char(d as nat)],
{
    proof {
        reveal_strlit("0");
        reveal_strlit("1");
        reveal_strlit("2");
        reveal_strlit("3");
        reveal_strlit("4");
        reveal_strlit("5");
        reveal_strlit("6");
        reveal_strlit("7");
        reveal_strlit("8");
        reveal_strlit("9");
    }
    let text = if d == 0 {
        "0"
    } else if d == 1 {
        "1"
    } else if d == 2 {
        "2"
    } else if d == 3 {
        "3"
    } else if d == 4 {
        "4"
    } else if d == 5 {
        "5"
    } else if d == 6 {
        "6"
    } else if d == 7 {
        "7"
    } else if d == 8 {
        "8"
    } else {
        "9"
    };
    assert(text@ =~= seq![digit_char(d as nat)]);
    text
}

/// Appends the decimal numeral of `n` to `out`.
pub fn push_decimal(out: &mut String, n: u32)
    ensures
        final(out)@ == old(out)@ + decimal(n as nat),
    decreases n,
{
    if n >= 10 {
        push_decimal(out, n / 10);
    }
    let ghost before = out@;
    out.append(digit_text(n % 10));
    proof {
        if n >= 10 {
            assert(before == old(out)@ + decimal((n / 10) as nat));
            assert(out@ =~= old(out)@ + decimal(n as nat));
        } else {
            assert(out@ =~= old(out)@ + decimal(n as nat));
        }
    }
}

/// The scheme, loopback host and separator that every endpoint starts with.
pub open spec fn base_prefix() -> Seq<char> {
    "http://127.0.0.1:"@
}

/// The base address of the service that listens on `port`.
pub open spec fn base_url(port: u16) -> Seq<char> {
    base_prefix() + decimal(port as nat)
}

/// Builds the base address of the service that listens on `port`.
pub fn get_api_base_url(port: u16) -> (url: String)
    ensures
        url@ == base_url(port),
{
    let mut url = String::from_str("http://127.0.0.1:");
    push_decimal(&mut url, port as u32);
    url
}

/// What is shown in place of an address while no port is known.
pub open spec fn not_started_text() -> Seq<char> {
    "API server not started"@
}

/// The address shown for a port that may not be known yet.
pub open spec fn shown_url(port: Option<u16>) -> Seq<char> {
    match port {
        Some(p) => base_url(p),
        None => not_started_text(),
    }
}

/// The base address for display: that of the port where one is known, and a
/// fixed notice where none is.
pub fn get_api_url(port: Option<u16>) -> (url: String)
    ensures
        url@ == shown_url(port),
{
    match port {
        Some(p) => get_api_base_url(p),
        None => String::from_str("API server not started"),
    }
}

/// The address of the liveness probe of the service on `port`.
pub open spec fn health_address(port: u16) -> Seq<char> {
    base_url(port) + "/health"@
}

/// The address of the one-shot database initialisation of the service on `port`.
pub open spec fn init_database_address(port: u16) -> Seq<char> {
    base_url(port) + "/init_database"@
}

/// Builds the address of the liveness probe.
pub fn health_url(port: u16) -> (url: String)
    ensures
        url@ == health_address(port),
{
    let mut url = get_api_base_url(port);
    url.append("/health");
    url
}

/// Builds the address of the database initialisation.
pub fn init_database_url(port: u16) -> (url: String)
    ensures
        url@ == init_database_address(port),
{
    let mut url = get_api_base_url(port);
    url.append("/init_database");
    url
}

} // verus!
