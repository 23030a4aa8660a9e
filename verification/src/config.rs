use vstd::prelude::*;

use crate::address::SocketAddress;
use crate::cluster::Endpoint;
use crate::inbound::{ListenAddr, TimeoutConfig};
use crate::text::{split_first, split_scheme, str_eq};
use crate::tls::TlsConfig;

verus! {

#[verifier::external_type_specification]
#[verifier::external_body]
pub struct ExTomlError(toml::de::Error);

/// One `[[listen]]` entry as written in the configuration file.
#[derive(Debug, Clone)]
pub struct RawListen {
    pub addr: String,
    pub cert_path: Option<String>,
    pub key_path: Option<String>,
}

/// The `[backends]` table as written in the configuration file.
#[derive(Debug, Clone)]
pub struct RawBackends {
    pub addrs: Vec<SocketAddress>,
}

/// The `[timeouts]` table as written in the configuration file, in seconds.
#[derive(Debug, Clone, Copy, PartialEq, Eq, Structural)]
pub struct RawTimeouts {
    pub header_read_secs: u64,
    pub idle_secs: u64,
}

/// The configuration file as written.
#[derive(Debug, Clone)]
pub struct RawConfig {
    pub listen: Vec<RawListen>,
    pub backends: RawBackends,
    pub timeouts: RawTimeouts,
}

/// The header-read timeout when the file gives none: 10 seconds.
pub fn default_header_read_secs() -> (secs: u64)
    ensures
        secs == 10,
{
    10
}

/// The inactivity timeout when the file gives none: 60 seconds.
pub fn default_idle_secs() -> (secs: u64)
    ensures
        secs == 60,
{
    60
}

impl Default for RawTimeouts {
    fn default() -> (t: Self)
        ensures
            t.header_read_secs == 10,
            t.idle_secs == 60,
    {
        RawTimeouts { header_read_secs: default_header_read_secs(), idle_secs: default_idle_secs() }
    }
}

/// Why a configuration was refused.
#[derive(Debug)]
pub enum ConfigError {
    /// The file at `path` could not be read.
    Read { path: String, source: std::io::Error },
    /// The file at `path` is not a valid configuration file.
    Parse { path: String, source: toml::de::Error },
    /// A listen address has no `scheme://` in front.
    MissingScheme(String),
    /// A listen address has a scheme other than `http` and `https`.
    UnsupportedScheme(String),
    /// A listen address could not be parsed; the second field says why.
    InvalidAddr(String, String),
    /// An `https` listener has no certificate path.
    MissingCertPath(String),
    /// An `https` listener has no private-key path.
    MissingKeyPath(String),
    /// No backend address was given.
    EmptyBackends,
}

/// A validated configuration.
#[derive(Debug)]
pub struct Config {
    pub listeners: Vec<ListenAddr>,
    pub backends: Vec<Endpoint>,
    pub timeouts: TimeoutConfig,
}

/// Whether `res` is what a listen entry `raw` with scheme `scheme` becomes when
/// the address after the scheme parsed to `parsed`. The address is checked
/// before the scheme; an `https` entry needs a certificate path, then a key
/// path.
pub open spec fn listen_entry(
    raw: RawListen,
    scheme: Seq<char>,
    parsed: Result<SocketAddress, String>,
    res: Result<ListenAddr, ConfigError>,
) -> bool {
    match parsed {
        Err(why) => res matches Err(ConfigError::InvalidAddr(a, w)) && a == raw.addr && w == why,
        Ok(sa) => if scheme == "http"@ {
            res matches Ok(ListenAddr::Http(b)) && b == sa
        } else if scheme == "https"@ {
            match raw.cert_path {
                None => res matches Err(ConfigError::MissingCertPath(a)) && a == raw.addr,
                Some(cert) => match raw.key_path {
                    None => res matches Err(ConfigError::MissingKeyPath(a)) && a == raw.addr,
                    Some(key) => res matches Ok(ListenAddr::Https { addr, tls }) && addr == sa
                        && tls.cert_path == cert && tls.key_path == key,
                },
            }
        } else {
            res matches Err(ConfigError::UnsupportedScheme(s)) && s@ == scheme
        },
    }
}

/// Whether `res` is a possible result of parsing the listen entry `raw` with
/// `parse_addr` parsing socket addresses: an entry without `scheme://` is
/// refused; otherwise the text after the first `://` goes to `parse_addr`, and
/// `listen_entry` says what follows from its answer.
pub open spec fn listen_outcome<F: Fn(&str) -> Result<SocketAddress, String>>(
    raw: RawListen,
    parse_addr: F,
    res: Result<ListenAddr, ConfigError>,
) -> bool {
    match split_first(raw.addr@, "://"@) {
        None => res matches Err(ConfigError::MissingScheme(a)) && a == raw.addr,
        Some((scheme, rest)) => exists|text: &str, parsed: Result<SocketAddress, String>|
            text@ == rest && #[trigger] parse_addr.ensures((text,), parsed) && listen_entry(
                raw,
                scheme,
                parsed,
                res,
            ),
    }
}

/// Turns one listen entry into a listen address. The entry's `addr` is
/// `scheme://address`; `parse_addr` parses the address part.
pub fn parse_listen<F: Fn(&str) -> Result<SocketAddress, String>>(raw: RawListen, parse_addr: &F) -> (res:
    Result<ListenAddr, ConfigError>)
    requires
        forall|text: &str| #[trigger] parse_addr.requires((text,)),
    ensures
        listen_outcome(raw, *parse_addr, res),
{
    let split = split_scheme(raw.addr.as_str());
    let (scheme, rest) = match split {
        Some(parts) => parts,
        None => return Err(ConfigError::MissingScheme(raw.addr.clone())),
    };
    let parsed = parse_addr(rest);
    let socket_addr = match parsed {
        Ok(a) => a,
        Err(why) => {
            let res = Err(ConfigError::InvalidAddr(raw.addr.clone(), why));
            assert(listen_entry(raw, scheme@, parsed, res));
            return res;
        },
    };
    proof {
        reveal_strlit("http");
        reveal_strlit("https");
    }
    let res = if str_eq(scheme, "http") {
        Ok(ListenAddr::Http(socket_addr))
    } else if str_eq(scheme, "https") {
        match raw.cert_path {
            None => Err(ConfigError::MissingCertPath(raw.addr.clone())),
            Some(cert_path) => match raw.key_path {
                None => Err(ConfigError::MissingKeyPath(raw.addr.clone())),
                Some(key_path) => Ok(ListenAddr::Https { addr: socket_addr, tls: TlsConfig { cert_path, key_path } }),
            },
        }
    } else {
        Err(ConfigError::UnsupportedScheme(scheme.to_owned()))
    };
    assert(listen_entry(raw, scheme@, parsed, res));
    res
}


/// The timeouts a configuration asks for, in nanoseconds.
pub open spec fn timeouts_of(raw: RawTimeouts) -> TimeoutConfig {
    TimeoutConfig {
        header_read_nanos: (raw.header_read_secs * 1_000_000_000) as u128,
        idle_nanos: (raw.idle_secs * 1_000_000_000) as u128,
    }
}

/// The endpoints a configuration names, in order.
pub open spec fn endpoints_of(addrs: Seq<SocketAddress>) -> Seq<Endpoint> {
    addrs.map_values(|a: SocketAddress| Endpoint { addr: a })
}

/// Whether the first `k` listen entries can all be accepted, as `accepted`.
pub open spec fn accepted_as<F: Fn(&str) -> Result<SocketAddress, String>>(
    entries: Seq<RawListen>,
    parse_addr: F,
    accepted: Seq<ListenAddr>,
    k: int,
) -> bool {
    &&& accepted.len() == k
    &&& forall|j: int|
        0 <= j < k ==> #[trigger] listen_outcome(entries[j], parse_addr, Ok(accepted[j]))
}

/// Whether `res` is a possible result of validating `raw`: no backends is an
/// error; otherwise each listen entry is parsed in order and the first one
/// refused gives the error; when all are accepted, the configuration holds the
/// listeners in order, one endpoint per backend address in order, and the
/// timeouts in nanoseconds.
pub open spec fn config_outcome<F: Fn(&str) -> Result<SocketAddress, String>>(
    raw: RawConfig,
    parse_addr: F,
    res: Result<Config, ConfigError>,
) -> bool {
    if raw.backends.addrs.len() == 0 {
        res matches Err(ConfigError::EmptyBackends)
    } else {
        match res {
            Ok(cfg) => {
                &&& cfg.listeners.len() == raw.listen.len()
                &&& forall|i: int|
                    0 <= i < raw.listen.len() ==> listen_outcome(
                        #[trigger] raw.listen[i],
                        parse_addr,
                        Ok(cfg.listeners[i]),
                    )
                &&& cfg.backends@ == endpoints_of(raw.backends.addrs@)
                &&& cfg.timeouts == timeouts_of(raw.timeouts)
            },
            Err(e) => exists|k: int|
                0 <= k < raw.listen.len() && (exists|accepted: Seq<ListenAddr>|
                    accepted_as(raw.listen@, parse_addr, accepted, k))
                    && #[trigger] listen_outcome(raw.listen@[k], parse_addr, Err(e)),
        }
    }
}

impl Config {
    /// Validates a configuration as written: checks that there is a backend,
    /// turns each listen entry into a listen address (`parse_addr` parses the
    /// socket addresses), one endpoint per backend address, and the timeouts
    /// into nanoseconds.
    pub fn from_raw<F: Fn(&str) -> Result<SocketAddress, String>>(raw: RawConfig, parse_addr: &F) -> (res:
        Result<Config, ConfigError>)
        requires
            forall|text: &str| #[trigger] parse_addr.requires((text,)),
        ensures
            config_outcome(raw, *parse_addr, res),
    {
        if raw.backends.addrs.len() == 0 {
            return Err(ConfigError::EmptyBackends);
        }
        let ghost entries = raw.listen@;
        let mut listeners: Vec<ListenAddr> = Vec::new();
        for entry in it: raw.listen.into_iter()
            invariant
                forall|text: &str| #[trigger] parse_addr.requires((text,)),
                it.seq() == entries,
                entries == raw.listen@,
                raw.backends.addrs.len() > 0,
                listeners.len() == it.index(),
                forall|i: int|
                    0 <= i < it.index() ==> listen_outcome(
                        #[trigger] entries[i],
                        *parse_addr,
                        Ok(listeners@[i]),
                    ),
        {
            match parse_listen(entry, parse_addr) {
                Ok(l) => listeners.push(l),
                Err(e) => {
                    proof {
                        let k = it.index() as int;
                        assert(accepted_as(entries, *parse_addr, listeners@, k));
                        assert(listen_outcome(raw.listen@[k], *parse_addr, Err(e)));
                    }
                    return Err(e);
                },
            }
        }
        let mut backends: Vec<Endpoint> = Vec::new();
        let n = raw.backends.addrs.len();
        for i in 0..n
            invariant
                n == raw.backends.addrs.len(),
                backends@ == endpoints_of(raw.backends.addrs@.subrange(0, i as int)),
        {
            proof {
                assert(raw.backends.addrs@.subrange(0, i + 1) =~= raw.backends.addrs@.subrange(0, i as int).push(raw.backends.addrs@[i as int]));
            }
            backends.push(Endpoint { addr: raw.backends.addrs[i] });
            proof {
                assert(backends@ =~= endpoints_of(raw.backends.addrs@.subrange(0, i + 1)));
            }
        }
        proof {
            assert(raw.backends.addrs@.subrange(0, n as int) =~= raw.backends.addrs@);
        }
        let timeouts = TimeoutConfig {
            header_read_nanos: raw.timeouts.header_read_secs as u128 * 1_000_000_000,
            idle_nanos: raw.timeouts.idle_secs as u128 * 1_000_000_000,
        };
        Ok(Config { listeners, backends, timeouts })
    }
}


/// A configuration that validates names at least one backend, so a cluster
/// can always be made from its endpoints.
pub proof fn lemma_valid_config_has_backends<F: Fn(&str) -> Result<SocketAddress, String>>(
    raw: RawConfig,
    parse_addr: F,
    cfg: Config,
)
    requires
        config_outcome(raw, parse_addr, Ok(cfg)),
    ensures
        cfg.backends@.len() > 0,
{
}


/// An accepted listen entry keeps what it was given: the entry has a scheme;
/// a plaintext listener comes from an `http` entry; a TLS listener comes from
/// an `https` entry and takes its certificate path from the entry's
/// `cert_path` and its key path from the entry's `key_path`.
pub proof fn lemma_accepted_entry_keeps_its_paths<F: Fn(&str) -> Result<SocketAddress, String>>(
    raw: RawListen,
    parse_addr: F,
    l: ListenAddr,
)
    requires
        listen_outcome(raw, parse_addr, Ok(l)),
    ensures
        split_first(raw.addr@, "://"@) is Some,
        l is Http ==> (split_first(raw.addr@, "://"@)->0).0 == "http"@,
        l matches ListenAddr::Https { tls, .. } ==> {
            &&& (split_first(raw.addr@, "://"@)->0).0 == "https"@
            &&& raw.cert_path == Some(tls.cert_path)
            &&& raw.key_path == Some(tls.key_path)
        },
{
    reveal_strlit("http");
    reveal_strlit("https");
}

/// A validated configuration's TLS listeners take their certificate and key
/// paths from the corresponding entries.
pub proof fn lemma_config_keeps_tls_paths<F: Fn(&str) -> Result<SocketAddress, String>>(
    raw: RawConfig,
    parse_addr: F,
    cfg: Config,
    i: int,
)
    requires
        config_outcome(raw, parse_addr, Ok(cfg)),
        0 <= i < cfg.listeners.len(),
    ensures
        cfg.listeners[i] matches ListenAddr::Https { tls, .. } ==> raw.listen[i].cert_path == Some(
            tls.cert_path,
        ) && raw.listen[i].key_path == Some(tls.key_path),
{
    lemma_valid_config_has_backends(raw, parse_addr, cfg);
    assert(listen_outcome(raw.listen[i], parse_addr, Ok(cfg.listeners[i])));
    lemma_accepted_entry_keeps_its_paths(raw.listen[i], parse_addr, cfg.listeners[i]);
}

} // verus!
