//! What a session advertises on the local network until a client connects.
use vstd::prelude::*;
use vstd::string::StringExecFns;
use crate::options::EngineOptions;

verus! {

pub open spec fn is_alphanumeric(c: char) -> bool {
    ('A' <= c && c <= 'Z') || ('a' <= c && c <= 'z') || ('0' <= c && c <= '9')
}

/// Relies on rand's `Alphanumeric.sample_string(&mut thread_rng(), len)`: a
/// string of `len` characters, each an ASCII letter or digit.
#[verifier::external_body]
fn random_alphanumeric(len: usize) -> (r: String)
    ensures
        r@.len() == len,
        forall|i: int| 0 <= i < len ==> is_alphanumeric(#[trigger] r@[i]),
{
    rand::distributions::DistString::sample_string(
        &rand::distributions::Alphanumeric,
        &mut rand::thread_rng(),
        len,
    )
}

/// Port advertised where the options name none.
pub const DEFAULT_ADVERTISED_PORT: u16 = 12345;

/// Length of the random part of an instance name.
pub const RANDOM_SUFFIX_LEN: usize = 6;

/// An advertisement of the client-facing server.
pub struct Advertisement {
    pub instance_name: String,
    pub host_name: String,
    pub port: u16,
}

pub open spec fn suffix_of(options: EngineOptions) -> Seq<char> {
    match options.mdns_suffix {
        Some(s) => s@,
        None => Seq::empty(),
    }
}

/// `intiface_engine_<suffix>_<random>`
pub open spec fn instance_name_of(suffix: Seq<char>, random: Seq<char>) -> Seq<char> {
    "intiface_engine_"@ + suffix + "_"@ + random
}

pub open spec fn advertised_port(options: EngineOptions) -> u16 {
    match options.websocket_port {
        Some(p) => p,
        None => DEFAULT_ADVERTISED_PORT,
    }
}

impl Advertisement {
    /// The service type under which the server is advertised.
    pub fn service_type() -> (r: &'static str)
        ensures
            r@ == "_intiface_engine._tcp.local."@,
    {
        "_intiface_engine._tcp.local."
    }

    /// The advertisement for `options`, with `random` as the part of the
    /// instance name that keeps instances on one network apart.
    pub fn with_random(options: &EngineOptions, random: &str) -> (r: Advertisement)
        ensures
            r.instance_name@ == instance_name_of(suffix_of(*options), random@),
            r.host_name@ == r.instance_name@ + ".local."@,
            r.port == advertised_port(*options),
    {
        let mut name = String::from_str("intiface_engine_");
        match &options.mdns_suffix {
            Some(s) => name.append(s.as_str()),
            None => {},
        }
        name.append("_");
        name.append(random);
        assert(name@ =~= instance_name_of(suffix_of(*options), random@));
        let mut host = name.clone();
        host.append(".local.");
        let port = match options.websocket_port {
            Some(p) => p,
            None => DEFAULT_ADVERTISED_PORT,
        };
        Advertisement { instance_name: name, host_name: host, port }
    }

    /// The advertisement for `options`, with a fresh random part of six
    /// letters or digits.
    pub fn new(options: &EngineOptions) -> (r: Advertisement)
        ensures
            exists|random: Seq<char>|
                #![trigger instance_name_of(suffix_of(*options), random)]
                random.len() == RANDOM_SUFFIX_LEN && (forall|i: int|
                    0 <= i < random.len() ==> is_alphanumeric(#[trigger] random[i]))
                    && r.instance_name@ == instance_name_of(suffix_of(*options), random),
            r.host_name@ == r.instance_name@ + ".local."@,
            r.port == advertised_port(*options),
    {
        let random = random_alphanumeric(RANDOM_SUFFIX_LEN);
        Advertisement::with_random(options, random.as_str())
    }
}

} // verus!
