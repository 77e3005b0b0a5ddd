use vstd::prelude::*;
use vstd::string::*;

use crate::decimal::{all_digits, decimal, decimal_string, digits_value, is_digit, lemma_digits_value_prefix};

verus! {

/// The port the server listens on when none is configured.
pub const DEFAULT_PORT: u16 = 9000;

/// The port that the text `s` names: a non-empty run of decimal digits worth at most 65535.
pub open spec fn port_value(s: Seq<char>) -> Option<nat> {
    if s.len() > 0 && all_digits(s) && digits_value(s) <= 65535 {
        Some(digits_value(s))
    } else {
        None
    }
}

/// The port that an optional setting selects, the default where it is missing or not a port.
pub open spec fn configured_port(v: Option<Seq<char>>) -> nat {
    match v {
        Some(s) => match port_value(s) {
            Some(p) => p,
            None => DEFAULT_PORT as nat,
        },
        None => DEFAULT_PORT as nat,
    }
}

/// Names the kind of port a server was configured with.
pub fn classify_port(port: i32) -> (r: &'static str)
    ensures
        port == 9000 ==> r@ == "default-port"@,
        port != 9000 ==> r@ == "custom-port"@,
{
    if port == 9000 {
        "default-port"
    } else {
        "custom-port"
    }
}

/// Reads a port number written as decimal digits.
pub fn parse_port(s: &str) -> (r: Option<u16>)
    ensures
        r matches Some(p) ==> port_value(s@) == Some(p as nat),
        r is None ==> port_value(s@) is None,
{
    let n = s.unicode_len();
    if n == 0 {
        return None;
    }
    let mut value: u32 = 0;
    let mut i: usize = 0;
    while i < n
        invariant
            n == s@.len(),
            i <= n,
            value <= 65535,
            value == digits_value(s@.subrange(0, i as int)),
            all_digits(s@.subrange(0, i as int)),
        decreases n - i,
    {
        let c = s.get_char(i);
        if !(c >= '0' && c <= '9') {
            proof {
                assert(!is_digit(s@[i as int]));
            }
            return None;
        }
        let ghost prefix = s@.subrange(0, i as int);
        let ghost next = s@.subrange(0, i as int + 1);
        proof {
            assert(next.drop_last() =~= prefix);
            assert(next.last() == c);
        }
        value = value * 10 + (c as u32 - '0' as u32);
        i = i + 1;
        proof {
            assert(value == digits_value(next));
            assert forall|j: int| 0 <= j < next.len() implies is_digit(#[trigger] next[j]) by {
                if j < prefix.len() {
                    assert(next[j] == prefix[j]);
                }
            }
        }
        if value > 65535 {
            proof {
                if all_digits(s@) {
                    lemma_digits_value_prefix(s@, i as int);
                }
            }
            return None;
        }
    }
    proof {
        assert(s@.subrange(0, n as int) =~= s@);
    }
    Some(value as u16)
}

/// The settings that the server is started with.
pub struct ServerConfig {
    pub port: u16,
}

impl ServerConfig {
    /// The settings from the optional `PORT` value: its port where it names one, else the default.
    pub fn from_port_var(v: Option<&str>) -> (r: ServerConfig)
        ensures
            r.port as nat == configured_port(
                match v {
                    Some(s) => Some(s@),
                    None => None,
                },
            ),
    {
        match v {
            Some(s) => match parse_port(s) {
                Some(p) => ServerConfig { port: p },
                None => ServerConfig { port: DEFAULT_PORT },
            },
            None => ServerConfig { port: DEFAULT_PORT },
        }
    }

    /// The address to listen on: every interface, at the configured port.
    pub fn bind_address(&self) -> (r: String)
        ensures
            r@ == "0.0.0.0:"@ + decimal(self.port as nat),
    {
        String::from_str("0.0.0.0:").concat(decimal_string(self.port as usize).as_str())
    }
}

/// The secret that signs tokens: the configured one, else a fixed default.
pub fn jwt_secret(v: Option<&str>) -> (r: String)
    ensures
        v matches Some(s) ==> r@ == s@,
        v is None ==> r@ == "SAFECHAIN_SECRET"@,
{
    match v {
        Some(s) => String::from_str(s),
        None => String::from_str("SAFECHAIN_SECRET"),
    }
}

/// The lines printed when the server starts.
pub fn startup_logs() -> (r: Vec<String>)
    ensures
        r@.len() == 2,
        r@[0]@ == "Rust backend starting…"@,
        r@[1]@ == "Initializing services…"@,
{
    let mut logs: Vec<String> = Vec::new();
    logs.push(String::from_str("Rust backend starting…"));
    logs.push(String::from_str("Initializing services…"));
    logs
}

} // verus!
