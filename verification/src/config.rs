//! Server configuration read from environment variables.
//!
//! The application reads each variable at startup and [`Config::from_vars`]
//! falls back to sensible defaults when a variable is absent.
use vstd::prelude::*;
use vstd::string::{StrSliceExecFns, StringExecFns};

verus! {

/// Runtime configuration for the server process.
#[derive(Debug, Clone)]
pub struct Config {
    /// Host address the TCP listener binds to. Defaults to `"0.0.0.0"`.
    pub host: String,
    /// TCP port the server listens on. Defaults to `5000`.
    pub port: u16,
    /// GCP project ID used to connect to Firestore; read from
    /// `FIRESTORE_PROJECT_ID`.
    pub firestore_project_id: Option<String>,
    /// MongoDB connection URI; read from `MONGODB_URI`, defaulting to
    /// `"mongodb://localhost:27017"` for local development.
    pub mongodb_uri: String,
}

/// The port used when `PORT` is absent or not a valid port number.
pub const DEFAULT_PORT: u16 = 5000;

/// Whether `c` is an ASCII decimal digit.
pub open spec fn is_ascii_digit(c: char) -> bool {
    '0' <= c && c <= '9'
}

/// The value of a sequence of decimal digits.
pub open spec fn digits_value(d: Seq<char>) -> nat
    decreases d.len(),
{
    if d.len() == 0 {
        0
    } else {
        digits_value(d.drop_last()) * 10 + (d.last() as nat - 48) as nat
    }
}

/// The digits of a number text: the text after an optional leading `+`.
pub open spec fn number_digits(s: Seq<char>) -> Seq<char> {
    if s.len() > 0 && s[0] == '+' {
        s.drop_first()
    } else {
        s
    }
}

/// What `str::parse::<u16>` gives for `s`: an optional `+`, then at least one
/// ASCII digit and nothing else, for a value up to 65535.
pub open spec fn parse_u16_spec(s: Seq<char>) -> Option<u16> {
    let d = number_digits(s);
    if d.len() == 0 || exists|i: int| 0 <= i < d.len() && !is_ascii_digit(#[trigger] d[i]) {
        None
    } else if digits_value(d) > 65535 {
        None
    } else {
        Some(digits_value(d) as u16)
    }
}

/// A longer run of digits is worth at least as much as its prefix.
pub proof fn lemma_digits_value_grows(d: Seq<char>, k: int)
    requires
        0 <= k <= d.len(),
        forall|i: int| 0 <= i < d.len() ==> is_ascii_digit(#[trigger] d[i]),
    ensures
        digits_value(d.take(k)) <= digits_value(d),
    decreases d.len() - k,
{
    if k < d.len() {
        lemma_digits_value_grows(d, k + 1);
        assert(d.take(k + 1).drop_last() =~= d.take(k));
    } else {
        assert(d.take(k) =~= d);
    }
}

/// Parse a port number as `str::parse::<u16>` does.
pub fn parse_port(s: &str) -> (r: Option<u16>)
    ensures
        r == parse_u16_spec(s@),
{
    let n = s.unicode_len();
    let start: usize = if n > 0 && s.get_char(0) == '+' {
        1
    } else {
        0
    };
    let ghost d = number_digits(s@);
    proof {
        assert(d =~= s@.skip(start as int));
    }
    if start >= n {
        return None;
    }
    let mut value: u32 = 0;
    let mut i: usize = start;
    while i < n
        invariant
            n == s@.len(),
            start <= i <= n,
            d == number_digits(s@),
            d =~= s@.skip(start as int),
            forall|j: int| 0 <= j < i - start ==> is_ascii_digit(#[trigger] d[j]),
            value == digits_value(d.take(i - start)),
            value <= 65535,
        decreases n - i,
    {
        let c = s.get_char(i);
        assert(c == d[i - start]);
        if !('0' <= c && c <= '9') {
            assert(!is_ascii_digit(d[i - start]));
            return None;
        }
        let digit = (c as u32) - 48;
        assert(d.take(i - start + 1).drop_last() =~= d.take(i - start));
        if value > 6553 || (value == 6553 && digit > 5) {
            proof {
                let k = i - start;
                assert(d.take(k + 1).last() == c);
                assert(digits_value(d.take(k + 1)) == value * 10 + digit);
                assert(digits_value(d.take(k + 1)) > 65535);
                if forall|j: int| 0 <= j < d.len() ==> is_ascii_digit(#[trigger] d[j]) {
                    lemma_digits_value_grows(d, k + 1);
                } else {
                    let j = choose|j: int| 0 <= j < d.len() && !is_ascii_digit(#[trigger] d[j]);
                    assert(!is_ascii_digit(d[j]));
                }
            }
            return None;
        }
        value = value * 10 + digit;
        i = i + 1;
    }
    proof {
        assert(d.take(n - start) =~= d);
    }
    Some(value as u16)
}

/// `value` if present, `default` otherwise.
fn or_default(value: Option<String>, default: &str) -> (r: String)
    ensures
        match value {
            Some(v) => r == v,
            None => r@ == default@,
        },
{
    match value {
        Some(v) => v,
        None => String::from_str(default),
    }
}

impl Config {
    /// Build a [`Config`] from the values of the `HOST`, `PORT`,
    /// `FIRESTORE_PROJECT_ID` and `MONGODB_URI` environment variables.
    ///
    /// Missing variables fall back to the defaults documented on each field.
    /// An invalid `PORT` value (non-numeric) silently falls back to `5000`.
    pub fn from_vars(
        host: Option<String>,
        port: Option<String>,
        firestore_project_id: Option<String>,
        mongodb_uri: Option<String>,
    ) -> (r: Config)
        ensures
            match host {
                Some(h) => r.host == h,
                None => r.host@ == "0.0.0.0"@,
            },
            r.port == match port {
                Some(p) => match parse_u16_spec(p@) {
                    Some(v) => v,
                    None => DEFAULT_PORT,
                },
                None => DEFAULT_PORT,
            },
            r.firestore_project_id == firestore_project_id,
            match mongodb_uri {
                Some(u) => r.mongodb_uri == u,
                None => r.mongodb_uri@ == "mongodb://localhost:27017"@,
            },
    {
        let port_number = match &port {
            Some(p) => match parse_port(p.as_str()) {
                Some(v) => v,
                None => DEFAULT_PORT,
            },
            None => DEFAULT_PORT,
        };
        Config {
            host: or_default(host, "0.0.0.0"),
            port: port_number,
            firestore_project_id,
            mongodb_uri: or_default(mongodb_uri, "mongodb://localhost:27017"),
        }
    }
}

} // verus!
