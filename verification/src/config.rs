//! Benchmark configuration. Every knob is explicit, every knob is
//! disclosed in the emitted report; nothing rides on library defaults
//! silently.
//!
//! The per-link bandwidth is a floating-point number of megabits per
//! second. Reading and using that number is left to the caller; the
//! configuration keeps what it needs of it (see [`Bandwidth`]), and
//! [`BenchConfig::apply`] hands the flag's text back when it meets one.
use vstd::prelude::*;
use vstd::string::*;

use crate::error::{Error, ErrorView};
use crate::shaping::Nanos;
use crate::text::{bool_text, dec, lemma_prefix_extends, parse_bool, parse_u64, parse_usize, push_bool, push_decimal, split_once, split_once_spec, str_eq, unsigned_value};

verus! {

broadcast use vstd::string::group_string_axioms;

/// Message validation policy, mirroring gossipsub's modes.
#[derive(Clone, Copy, Debug, PartialEq, Eq, Structural)]
pub enum Validation {
    /// Full signature + fields validation (default).
    Strict,
    /// Signatures validated when present.
    Permissive,
    /// Signatures must be absent.
    Anonymous,
    /// No validation at all.
    Off,
}

/// The mode a `--validation` value names, if any.
pub open spec fn validation_named(v: Seq<char>) -> Option<Validation> {
    if v == "strict"@ {
        Some(Validation::Strict)
    } else if v == "permissive"@ {
        Some(Validation::Permissive)
    } else if v == "anonymous"@ {
        Some(Validation::Anonymous)
    } else if v == "off"@ {
        Some(Validation::Off)
    } else {
        None
    }
}

impl Validation {
    /// The stable label of a mode.
    pub open spec fn label_spec(self) -> Seq<char> {
        match self {
            Validation::Strict => "strict"@,
            Validation::Permissive => "permissive"@,
            Validation::Anonymous => "anonymous"@,
            Validation::Off => "off"@,
        }
    }

    fn parse(v: &str) -> (r: Option<Self>)
        ensures
            r == validation_named(v@),
    {
        if str_eq(v, "strict") {
            Some(Validation::Strict)
        } else if str_eq(v, "permissive") {
            Some(Validation::Permissive)
        } else if str_eq(v, "anonymous") {
            Some(Validation::Anonymous)
        } else if str_eq(v, "off") {
            Some(Validation::Off)
        } else {
            None
        }
    }

    /// Stable label used in the disclosure JSON.
    pub fn label(&self) -> (r: &'static str)
        ensures
            r@ == self.label_spec(),
    {
        match self {
            Validation::Strict => "strict",
            Validation::Permissive => "permissive",
            Validation::Anonymous => "anonymous",
            Validation::Off => "off",
        }
    }
}

/// Every mode is read back from its label, and only the four labels name a
/// mode.
pub proof fn lemma_validation_round_trip(v: Validation, s: Seq<char>)
    ensures
        validation_named(v.label_spec()) == Some(v),
        validation_named(s) is Some <==> (s == "strict"@ || s == "permissive"@ || s == "anonymous"@ || s == "off"@),
{
    reveal_strlit("strict");
    reveal_strlit("permissive");
    reveal_strlit("anonymous");
    reveal_strlit("off");
    assert("strict"@.len() == 6 && "permissive"@.len() == 10);
    assert("anonymous"@.len() == 9 && "off"@.len() == 3);
}

/// Per-link bandwidth as the configuration keeps it: the megabits per
/// second that the flag's text reads as, printed as `{}` prints that number,
/// and whether it is greater than zero.
#[derive(Clone, Debug)]
pub struct Bandwidth {
    /// The number, printed as `{}` prints it.
    pub text: String,
    /// Whether the number is greater than zero.
    pub positive: bool,
}

/// A configuration with its texts as character sequences.
pub ghost struct ConfigView {
    pub nodes: usize,
    pub edges_per_node: usize,
    pub mesh_n: usize,
    pub mesh_n_low: usize,
    pub mesh_n_high: usize,
    pub message_bytes: usize,
    pub messages: u64,
    pub latency_ms: u64,
    pub bandwidth_text: Seq<char>,
    pub bandwidth_positive: bool,
    pub flood_publish: bool,
    pub idontwant_on_publish: bool,
    pub validation: Validation,
    pub heartbeat_ms: u64,
    pub history_length: usize,
    pub history_gossip: usize,
    pub warmup_secs: u64,
    pub settle_secs: u64,
    pub seed: u64,
    pub out_dir: Seq<char>,
}

/// Full harness configuration. Constructed via `default` and `apply`.
#[derive(Clone, Debug)]
pub struct BenchConfig {
    nodes: usize,
    edges_per_node: usize,
    mesh_n: usize,
    mesh_n_low: usize,
    mesh_n_high: usize,
    message_bytes: usize,
    messages: u64,
    latency_ms: u64,
    bandwidth: Bandwidth,
    flood_publish: bool,
    idontwant_on_publish: bool,
    validation: Validation,
    heartbeat_ms: u64,
    history_length: usize,
    history_gossip: usize,
    warmup_secs: u64,
    settle_secs: u64,
    seed: u64,
    out_dir: String,
}

impl View for BenchConfig {
    type V = ConfigView;

    closed spec fn view(&self) -> ConfigView {
        ConfigView {
            nodes: self.nodes,
            edges_per_node: self.edges_per_node,
            mesh_n: self.mesh_n,
            mesh_n_low: self.mesh_n_low,
            mesh_n_high: self.mesh_n_high,
            message_bytes: self.message_bytes,
            messages: self.messages,
            latency_ms: self.latency_ms,
            bandwidth_text: self.bandwidth.text@,
            bandwidth_positive: self.bandwidth.positive,
            flood_publish: self.flood_publish,
            idontwant_on_publish: self.idontwant_on_publish,
            validation: self.validation,
            heartbeat_ms: self.heartbeat_ms,
            history_length: self.history_length,
            history_gossip: self.history_gossip,
            warmup_secs: self.warmup_secs,
            settle_secs: self.settle_secs,
            seed: self.seed,
            out_dir: self.out_dir@,
        }
    }
}

/// The defaults the README lists.
pub open spec fn default_view() -> ConfigView {
    ConfigView {
        nodes: 30,
        edges_per_node: 12,
        mesh_n: 8,
        mesh_n_low: 6,
        mesh_n_high: 12,
        message_bytes: 5_000_000,
        messages: 10,
        latency_ms: 50,
        bandwidth_text: "50"@,
        bandwidth_positive: true,
        flood_publish: false,
        idontwant_on_publish: false,
        validation: Validation::Strict,
        heartbeat_ms: 1_000,
        history_length: 5,
        history_gossip: 3,
        warmup_secs: 10,
        settle_secs: 30,
        seed: 42,
        out_dir: "results"@,
    }
}

impl Default for BenchConfig {
    fn default() -> (c: Self)
        ensures
            c@ == default_view(),
    {
        BenchConfig {
            nodes: 30,
            edges_per_node: 12,
            mesh_n: 8,
            mesh_n_low: 6,
            mesh_n_high: 12,
            message_bytes: 5_000_000,
            messages: 10,
            latency_ms: 50,
            bandwidth: Bandwidth { text: "50".to_owned(), positive: true },
            flood_publish: false,
            idontwant_on_publish: false,
            validation: Validation::Strict,
            heartbeat_ms: 1_000,
            history_length: 5,
            history_gossip: 3,
            warmup_secs: 10,
            settle_secs: 30,
            seed: 42,
            out_dir: "results".to_owned(),
        }
    }
}

/// The combined constraints every configuration must meet.
pub open spec fn config_valid(c: ConfigView) -> bool {
    &&& c.nodes >= 2
    &&& c.message_bytes >= 8
    &&& c.messages >= 1
    &&& c.mesh_n_low <= c.mesh_n
    &&& c.mesh_n <= c.mesh_n_high
    &&& c.mesh_n_high <= c.edges_per_node
    &&& c.bandwidth_positive
}

/// The combined constraints accept exactly the configurations with at least
/// two nodes, eight-byte messages and one message, `mesh_n_low <= mesh_n <=
/// mesh_n_high <= edges_per_node` (equalities allowed) and a positive
/// bandwidth; so a validated flag is refused exactly when one of these fails.
pub proof fn lemma_accepted_configurations(c: ConfigView)
    ensures
        config_valid(c) <==> (c.nodes >= 2 && c.message_bytes >= 8 && c.messages >= 1 && c.mesh_n_low
            <= c.mesh_n && c.mesh_n <= c.mesh_n_high && c.mesh_n_high <= c.edges_per_node && c.bandwidth_positive),
        config_valid(default_view()),
        config_valid(c) ==> config_valid(ConfigView { mesh_n_low: c.mesh_n, ..c }),
        config_valid(c) ==> config_valid(ConfigView { mesh_n_high: c.mesh_n, mesh_n_low: c.mesh_n, ..c }),
        config_valid(c) ==> config_valid(ConfigView { edges_per_node: c.mesh_n_high, ..c }),
{
}

/// The size limit handed to gossipsub is twice the payload size, or the
/// largest `usize` when twice the payload does not fit.
pub proof fn lemma_max_transmit_doubles(c: ConfigView)
    ensures
        c.message_bytes * 2 <= usize::MAX ==> max_transmit_spec(c) == c.message_bytes * 2,
        c.message_bytes * 2 > usize::MAX ==> max_transmit_spec(c) == usize::MAX,
        max_transmit_spec(c) >= c.message_bytes,
{
}

/// The error for a configuration that breaks the combined constraints.
pub open spec fn combined_error() -> ErrorView {
    ErrorView::InvalidFlag {
        flag: "(combined)"@,
        reason: "need nodes>=2, message-bytes>=8, messages>=1, mesh-n-low<=mesh-n<=mesh-n-high<=edges-per-node, bandwidth>0"@,
    }
}


/// What one `--key=value` flag does to a configuration.
pub ghost enum FlagEffect {
    /// The knob is set; the result still has to pass [`config_valid`].
    Assign(ConfigView),
    /// The bandwidth flag: its value is read by the caller.
    Bandwidth,
    /// The value does not parse as the knob's type.
    BadValue,
    /// The value names no validation mode.
    BadValidation,
    /// No such flag.
    Unknown,
}

/// The `usize` that `v` reads as, if it parses and fits.
pub open spec fn usize_text(v: Seq<char>) -> Option<usize> {
    match unsigned_value(v) {
        Some(n) => if n <= usize::MAX { Some(n as usize) } else { None },
        None => None,
    }
}

/// The `u64` that `v` reads as, if it parses and fits.
pub open spec fn u64_text(v: Seq<char>) -> Option<u64> {
    match unsigned_value(v) {
        Some(n) => if n <= u64::MAX { Some(n as u64) } else { None },
        None => None,
    }
}

/// The `bool` that `v` reads as, if it is `true` or `false`.
pub open spec fn bool_value(v: Seq<char>) -> Option<bool> {
    if v == "true"@ {
        Some(true)
    } else if v == "false"@ {
        Some(false)
    } else {
        None
    }
}

/// The effect of the flag `key` with the text `value` on `c`.
pub open spec fn flag_effect(c: ConfigView, key: Seq<char>, value: Seq<char>) -> FlagEffect {
    if key == "--nodes"@ {
        match usize_text(value) {
            Some(v) => FlagEffect::Assign(ConfigView { nodes: v, ..c }),
            None => FlagEffect::BadValue,
        }
    } else if key == "--edges-per-node"@ {
        match usize_text(value) {
            Some(v) => FlagEffect::Assign(ConfigView { edges_per_node: v, ..c }),
            None => FlagEffect::BadValue,
        }
    } else if key == "--mesh-n"@ {
        match usize_text(value) {
            Some(v) => FlagEffect::Assign(ConfigView { mesh_n: v, ..c }),
            None => FlagEffect::BadValue,
        }
    } else if key == "--mesh-n-low"@ {
        match usize_text(value) {
            Some(v) => FlagEffect::Assign(ConfigView { mesh_n_low: v, ..c }),
            None => FlagEffect::BadValue,
        }
    } else if key == "--mesh-n-high"@ {
        match usize_text(value) {
            Some(v) => FlagEffect::Assign(ConfigView { mesh_n_high: v, ..c }),
            None => FlagEffect::BadValue,
        }
    } else if key == "--message-bytes"@ {
        match usize_text(value) {
            Some(v) => FlagEffect::Assign(ConfigView { message_bytes: v, ..c }),
            None => FlagEffect::BadValue,
        }
    } else if key == "--messages"@ {
        match u64_text(value) {
            Some(v) => FlagEffect::Assign(ConfigView { messages: v, ..c }),
            None => FlagEffect::BadValue,
        }
    } else if key == "--latency-ms"@ {
        match u64_text(value) {
            Some(v) => FlagEffect::Assign(ConfigView { latency_ms: v, ..c }),
            None => FlagEffect::BadValue,
        }
    } else if key == "--bandwidth-mbps"@ {
        FlagEffect::Bandwidth
    } else if key == "--flood-publish"@ {
        match bool_value(value) {
            Some(v) => FlagEffect::Assign(ConfigView { flood_publish: v, ..c }),
            None => FlagEffect::BadValue,
        }
    } else if key == "--idontwant-on-publish"@ {
        match bool_value(value) {
            Some(v) => FlagEffect::Assign(ConfigView { idontwant_on_publish: v, ..c }),
            None => FlagEffect::BadValue,
        }
    } else if key == "--heartbeat-ms"@ {
        match u64_text(value) {
            Some(v) => FlagEffect::Assign(ConfigView { heartbeat_ms: v, ..c }),
            None => FlagEffect::BadValue,
        }
    } else if key == "--history-length"@ {
        match usize_text(value) {
            Some(v) => FlagEffect::Assign(ConfigView { history_length: v, ..c }),
            None => FlagEffect::BadValue,
        }
    } else if key == "--history-gossip"@ {
        match usize_text(value) {
            Some(v) => FlagEffect::Assign(ConfigView { history_gossip: v, ..c }),
            None => FlagEffect::BadValue,
        }
    } else if key == "--warmup-secs"@ {
        match u64_text(value) {
            Some(v) => FlagEffect::Assign(ConfigView { warmup_secs: v, ..c }),
            None => FlagEffect::BadValue,
        }
    } else if key == "--settle-secs"@ {
        match u64_text(value) {
            Some(v) => FlagEffect::Assign(ConfigView { settle_secs: v, ..c }),
            None => FlagEffect::BadValue,
        }
    } else if key == "--seed"@ {
        match u64_text(value) {
            Some(v) => FlagEffect::Assign(ConfigView { seed: v, ..c }),
            None => FlagEffect::BadValue,
        }
    } else if key == "--out-dir"@ {
        FlagEffect::Assign(ConfigView { out_dir: value, ..c })
    } else if key == "--validation"@ {
        match validation_named(value) {
            Some(m) => FlagEffect::Assign(ConfigView { validation: m, ..c }),
            None => FlagEffect::BadValidation,
        }
    } else {
        FlagEffect::Unknown
    }
}

/// The result of applying one flag.
pub enum Applied {
    /// The configuration with the flag applied and checked.
    Done(BenchConfig),
    /// The flag was `--bandwidth-mbps`: `cfg` is unchanged, and `value` is
    /// to be read as a number and passed to [`BenchConfig::with_bandwidth`].
    Bandwidth { cfg: BenchConfig, value: String },
}

fn parsed_usize(flag: &str, v: &str) -> (r: Result<usize, Error>)
    ensures
        match usize_text(v@) {
            Some(n) => r == Ok::<usize, Error>(n),
            None => r matches Err(Error::InvalidFlag { flag: f, reason: _ }) && f@ == flag@,
        },
{
    match parse_usize(v) {
        Ok(n) => Ok(n),
        Err(reason) => Err(Error::InvalidFlag { flag: flag.to_owned(), reason }),
    }
}

fn parsed_u64(flag: &str, v: &str) -> (r: Result<u64, Error>)
    ensures
        match u64_text(v@) {
            Some(n) => r == Ok::<u64, Error>(n),
            None => r matches Err(Error::InvalidFlag { flag: f, reason: _ }) && f@ == flag@,
        },
{
    match parse_u64(v) {
        Ok(n) => Ok(n),
        Err(reason) => Err(Error::InvalidFlag { flag: flag.to_owned(), reason }),
    }
}

fn parsed_bool(flag: &str, v: &str) -> (r: Result<bool, Error>)
    ensures
        match bool_value(v@) {
            Some(b) => r == Ok::<bool, Error>(b),
            None => r matches Err(Error::InvalidFlag { flag: f, reason: _ }) && f@ == flag@,
        },
{
    proof {
        reveal_strlit("true");
        reveal_strlit("false");
        assert("true"@.len() != "false"@.len());
    }
    match parse_bool(v) {
        Ok(b) => Ok(b),
        Err(reason) => Err(Error::InvalidFlag { flag: flag.to_owned(), reason }),
    }
}

impl BenchConfig {
    fn validate(self) -> (r: Result<Self, Error>)
        ensures
            config_valid(self@) ==> (r matches Ok(c) && c@ == self@),
            !config_valid(self@) ==> (r matches Err(e) && e@ == combined_error()),
    {
        let ok = self.nodes >= 2 && self.message_bytes >= 8 && self.messages >= 1 && self.mesh_n_low
            <= self.mesh_n && self.mesh_n <= self.mesh_n_high && self.mesh_n_high <= self.edges_per_node
            && self.bandwidth.positive;
        if ok {
            Ok(self)
        } else {
            Err(
                Error::InvalidFlag {
                    flag: "(combined)".to_owned(),
                    reason: "need nodes>=2, message-bytes>=8, messages>=1, mesh-n-low<=mesh-n<=mesh-n-high<=edges-per-node, bandwidth>0".to_owned(),
                },
            )
        }
    }

    /// Apply one `--key=value` flag, then check the combined constraints.
    pub fn apply(self, arg: &str) -> (r: Result<Applied, Error>)
        ensures
            match split_once_spec(arg@, '=') {
                None => r matches Err(e) && e@ == (ErrorView::InvalidFlag {
                    flag: arg@,
                    reason: "expected --key=value"@,
                }),
                Some((key, value)) => match flag_effect(self@, key, value) {
                    FlagEffect::Assign(c) => if config_valid(c) {
                        r matches Ok(Applied::Done(d)) && d@ == c
                    } else {
                        r matches Err(e) && e@ == combined_error()
                    },
                    FlagEffect::Bandwidth => r matches Ok(Applied::Bandwidth { cfg, value: v }) && cfg@
                        == self@ && v@ == value,
                    FlagEffect::BadValue => r matches Err(Error::InvalidFlag { flag: f, reason: _ }) && f@
                        == key,
                    FlagEffect::BadValidation => r matches Err(e) && e@ == (ErrorView::InvalidFlag {
                        flag: key,
                        reason: "expected strict|permissive|anonymous|off"@,
                    }),
                    FlagEffect::Unknown => r matches Err(e) && e@ == ErrorView::UnknownFlag(key),
                },
            },
    {
        let (key, value) = match split_once(arg, '=') {
            Some(kv) => kv,
            None => {
                return Err(
                    Error::InvalidFlag {
                        flag: arg.to_owned(),
                        reason: "expected --key=value".to_owned(),
                    },
                );
            },
        };
        let mut cfg = self;
        if str_eq(key, "--nodes") {
            match parsed_usize(key, value) {
                Ok(v) => {
                    cfg.nodes = v;
                },
                Err(e) => {
                    return Err(e);
                },
            }
        } else if str_eq(key, "--edges-per-node") {
            match parsed_usize(key, value) {
                Ok(v) => {
                    cfg.edges_per_node = v;
                },
                Err(e) => {
                    return Err(e);
                },
            }
        } else if str_eq(key, "--mesh-n") {
            match parsed_usize(key, value) {
                Ok(v) => {
                    cfg.mesh_n = v;
                },
                Err(e) => {
                    return Err(e);
                },
            }
        } else if str_eq(key, "--mesh-n-low") {
            match parsed_usize(key, value) {
                Ok(v) => {
                    cfg.mesh_n_low = v;
                },
                Err(e) => {
                    return Err(e);
                },
            }
        } else if str_eq(key, "--mesh-n-high") {
            match parsed_usize(key, value) {
                Ok(v) => {
                    cfg.mesh_n_high = v;
                },
                Err(e) => {
                    return Err(e);
                },
            }
        } else if str_eq(key, "--message-bytes") {
            match parsed_usize(key, value) {
                Ok(v) => {
                    cfg.message_bytes = v;
                },
                Err(e) => {
                    return Err(e);
                },
            }
        } else if str_eq(key, "--messages") {
            match parsed_u64(key, value) {
                Ok(v) => {
                    cfg.messages = v;
                },
                Err(e) => {
                    return Err(e);
                },
            }
        } else if str_eq(key, "--latency-ms") {
            match parsed_u64(key, value) {
                Ok(v) => {
                    cfg.latency_ms = v;
                },
                Err(e) => {
                    return Err(e);
                },
            }
        } else if str_eq(key, "--bandwidth-mbps") {
            return Ok(Applied::Bandwidth { cfg, value: value.to_owned() });
        } else if str_eq(key, "--flood-publish") {
            match parsed_bool(key, value) {
                Ok(v) => {
                    cfg.flood_publish = v;
                },
                Err(e) => {
                    return Err(e);
                },
            }
        } else if str_eq(key, "--idontwant-on-publish") {
            match parsed_bool(key, value) {
                Ok(v) => {
                    cfg.idontwant_on_publish = v;
                },
                Err(e) => {
                    return Err(e);
                },
            }
        } else if str_eq(key, "--heartbeat-ms") {
            match parsed_u64(key, value) {
                Ok(v) => {
                    cfg.heartbeat_ms = v;
                },
                Err(e) => {
                    return Err(e);
                },
            }
        } else if str_eq(key, "--history-length") {
            match parsed_usize(key, value) {
                Ok(v) => {
                    cfg.history_length = v;
                },
                Err(e) => {
                    return Err(e);
                },
            }
        } else if str_eq(key, "--history-gossip") {
            match parsed_usize(key, value) {
                Ok(v) => {
                    cfg.history_gossip = v;
                },
                Err(e) => {
                    return Err(e);
                },
            }
        } else if str_eq(key, "--warmup-secs") {
            match parsed_u64(key, value) {
                Ok(v) => {
                    cfg.warmup_secs = v;
                },
                Err(e) => {
                    return Err(e);
                },
            }
        } else if str_eq(key, "--settle-secs") {
            match parsed_u64(key, value) {
                Ok(v) => {
                    cfg.settle_secs = v;
                },
                Err(e) => {
                    return Err(e);
                },
            }
        } else if str_eq(key, "--seed") {
            match parsed_u64(key, value) {
                Ok(v) => {
                    cfg.seed = v;
                },
                Err(e) => {
                    return Err(e);
                },
            }
        } else if str_eq(key, "--out-dir") {
            cfg.out_dir = value.to_owned();
        } else if str_eq(key, "--validation") {
            match Validation::parse(value) {
                Some(m) => {
                    cfg.validation = m;
                },
                None => {
                    return Err(Error::InvalidFlag {
                        flag: key.to_owned(),
                        reason: "expected strict|permissive|anonymous|off".to_owned(),
                    });
                },
            }
        } else {
            return Err(Error::UnknownFlag(key.to_owned()));
        }
        match cfg.validate() {
            Ok(c) => Ok(Applied::Done(c)),
            Err(e) => Err(e),
        }
    }

    /// Finish a `--bandwidth-mbps` flag with the reading of its value: the
    /// error text of a value that is no number, or the number as kept.
    pub fn with_bandwidth(self, reading: Result<Bandwidth, String>) -> (r: Result<Self, Error>)
        ensures
            match reading {
                Err(reason) => r matches Err(e) && e@ == (ErrorView::InvalidFlag {
                    flag: "--bandwidth-mbps"@,
                    reason: reason@,
                }),
                Ok(b) => {
                    let c = ConfigView { bandwidth_text: b.text@, bandwidth_positive: b.positive, ..self@ };
                    if config_valid(c) {
                        r matches Ok(d) && d@ == c
                    } else {
                        r matches Err(e) && e@ == combined_error()
                    }
                },
            },
    {
        match reading {
            Err(reason) => Err(Error::InvalidFlag { flag: "--bandwidth-mbps".to_owned(), reason }),
            Ok(b) => {
                let mut cfg = self;
                cfg.bandwidth = b;
                cfg.validate()
            },
        }
    }
}

/// The texts of a list of arguments.
pub open spec fn args_view(args: Seq<String>) -> Seq<Seq<char>> {
    args.map_values(|a: String| a@)
}

/// A bandwidth reading as text: the number as kept and whether it is
/// positive, or the reason the value is no number.
pub open spec fn reading_view(r: Result<Bandwidth, String>) -> Result<(Seq<char>, bool), Seq<char>> {
    match r {
        Ok(b) => Ok((b.text@, b.positive)),
        Err(e) => Err(e@),
    }
}

/// The texts of a list of bandwidth readings.
pub open spec fn readings_view(rs: Seq<Result<Bandwidth, String>>) -> Seq<Result<(Seq<char>, bool), Seq<char>>> {
    rs.map_values(|r: Result<Bandwidth, String>| reading_view(r))
}

/// Whether `arg` is a `--bandwidth-mbps=<value>` flag.
pub open spec fn is_bandwidth_arg(arg: Seq<char>) -> bool {
    match split_once_spec(arg, '=') {
        Some((key, _)) => key == "--bandwidth-mbps"@,
        None => false,
    }
}

/// The values of the `--bandwidth-mbps` flags among `args`, in order.
pub open spec fn bandwidth_args(args: Seq<Seq<char>>) -> Seq<Seq<char>>
    decreases args.len(),
{
    if args.len() == 0 {
        Seq::empty()
    } else {
        let rest = bandwidth_args(args.drop_first());
        match split_once_spec(args[0], '=') {
            Some((key, value)) => if key == "--bandwidth-mbps"@ {
                seq![value] + rest
            } else {
                rest
            },
            None => rest,
        }
    }
}

/// What parsing a list of flags comes to.
pub ghost enum Parsed {
    /// Every flag applied: the configuration.
    Config(ConfigView),
    /// Stopped at a flag with this error.
    Failed(ErrorView),
    /// Stopped at the flag `key` whose value does not parse as its type (the
    /// reason is the standard parser's text).
    BadValue(Seq<char>),
}

/// Apply `args` in order from `c`, stopping at the first flag that fails;
/// the bandwidth flags take their readings from `readings`, in order.
pub open spec fn parse_from(
    c: ConfigView,
    args: Seq<Seq<char>>,
    readings: Seq<Result<(Seq<char>, bool), Seq<char>>>,
) -> Parsed
    decreases args.len(),
{
    if args.len() == 0 {
        Parsed::Config(c)
    } else {
        match split_once_spec(args[0], '=') {
            None => Parsed::Failed(ErrorView::InvalidFlag { flag: args[0], reason: "expected --key=value"@ }),
            Some((key, value)) => match flag_effect(c, key, value) {
                FlagEffect::Assign(d) => if config_valid(d) {
                    parse_from(d, args.drop_first(), readings)
                } else {
                    Parsed::Failed(combined_error())
                },
                FlagEffect::Bandwidth => match readings[0] {
                    Err(reason) => Parsed::Failed(ErrorView::InvalidFlag { flag: "--bandwidth-mbps"@, reason }),
                    Ok((text, positive)) => {
                        let d = ConfigView { bandwidth_text: text, bandwidth_positive: positive, ..c };
                        if config_valid(d) {
                            parse_from(d, args.drop_first(), readings.drop_first())
                        } else {
                            Parsed::Failed(combined_error())
                        }
                    },
                },
                FlagEffect::BadValue => Parsed::BadValue(key),
                FlagEffect::BadValidation => Parsed::Failed(ErrorView::InvalidFlag {
                    flag: key,
                    reason: "expected strict|permissive|anonymous|off"@,
                }),
                FlagEffect::Unknown => Parsed::Failed(ErrorView::UnknownFlag(key)),
            },
        }
    }
}

/// A flag is the bandwidth flag exactly when its key is `--bandwidth-mbps`.
proof fn lemma_bandwidth_key(c: ConfigView, key: Seq<char>, value: Seq<char>)
    ensures
        (flag_effect(c, key, value) is Bandwidth) <==> key == "--bandwidth-mbps"@,
{
    reveal_strlit("--nodes");
    reveal_strlit("--edges-per-node");
    reveal_strlit("--mesh-n");
    reveal_strlit("--mesh-n-low");
    reveal_strlit("--mesh-n-high");
    reveal_strlit("--message-bytes");
    reveal_strlit("--messages");
    reveal_strlit("--latency-ms");
    reveal_strlit("--bandwidth-mbps");
    if key == "--bandwidth-mbps"@ {
        assert(key[2] == 'b');
        assert(key.len() == 16);
    }
}

/// Parsing from a configuration that meets the combined constraints only
/// ever yields configurations that meet them.
pub proof fn lemma_parsed_configs_are_valid(
    c: ConfigView,
    args: Seq<Seq<char>>,
    readings: Seq<Result<(Seq<char>, bool), Seq<char>>>,
)
    requires
        config_valid(c),
    ensures
        parse_from(c, args, readings) matches Parsed::Config(d) ==> config_valid(d),
    decreases args.len(),
{
    if args.len() > 0 {
        match split_once_spec(args[0], '=') {
            None => {},
            Some((key, value)) => match flag_effect(c, key, value) {
                FlagEffect::Assign(d) => {
                    if config_valid(d) {
                        lemma_parsed_configs_are_valid(d, args.drop_first(), readings);
                    }
                },
                FlagEffect::Bandwidth => match readings[0] {
                    Err(_) => {},
                    Ok((text, positive)) => {
                        let d = ConfigView { bandwidth_text: text, bandwidth_positive: positive, ..c };
                        if config_valid(d) {
                            lemma_parsed_configs_are_valid(d, args.drop_first(), readings.drop_first());
                        }
                    },
                },
                _ => {},
            },
        }
    }
}

impl BenchConfig {
    /// The values of the `--bandwidth-mbps` flags among `args`, in order:
    /// the texts to read as numbers for [`BenchConfig::parse`].
    pub fn bandwidth_values(args: &Vec<String>) -> (r: Vec<String>)
        ensures
            r@.map_values(|v: String| v@) == bandwidth_args(args_view(args@)),
    {
        let ghost a = args_view(args@);
        let mut out: Vec<String> = Vec::new();
        let mut i: usize = args.len();
        proof {
            assert(a.skip(i as int) =~= Seq::<Seq<char>>::empty());
            assert(out@.map_values(|v: String| v@) =~= Seq::<Seq<char>>::empty());
        }
        // Walk from the back so that each value is put in front of the later ones.
        let mut rev: Vec<String> = Vec::new();
        while i > 0
            invariant
                i <= args@.len(),
                a == args_view(args@),
                rev@.map_values(|v: String| v@).reverse() == bandwidth_args(a.skip(i as int)),
            decreases i,
        {
            i = i - 1;
            let ghost tail = a.skip(i + 1);
            proof {
                assert(a.skip(i as int).drop_first() =~= tail);
                assert(a.skip(i as int)[0] == args@[i as int]@);
            }
            let ghost before = rev@.map_values(|v: String| v@);
            match split_once(args[i].as_str(), '=') {
                Some((key, value)) => {
                    if str_eq(key, "--bandwidth-mbps") {
                        rev.push(value.to_owned());
                        proof {
                            assert(rev@.map_values(|v: String| v@) =~= before.push(value@));
                            assert(before.push(value@).reverse() =~= seq![value@] + before.reverse());
                        }
                    } else {
                        proof {
                            assert(rev@.map_values(|v: String| v@) =~= before);
                        }
                    }
                },
                None => {
                    proof {
                        assert(rev@.map_values(|v: String| v@) =~= before);
                    }
                },
            }
        }
        let n = rev.len();
        let mut k: usize = n;
        let ghost rv = rev@.map_values(|v: String| v@);
        proof {
            assert(a.skip(0) =~= a);
        }
        while k > 0
            invariant
                k <= n,
                n == rev@.len(),
                rv.len() == n,
                rv == rev@.map_values(|v: String| v@),
                out@.map_values(|v: String| v@) == rv.reverse().take((n - k) as int),
            decreases k,
        {
            k = k - 1;
            let ghost before = out@.map_values(|v: String| v@);
            out.push(rev[k].clone());
            proof {
                assert(out@.map_values(|v: String| v@) =~= before.push(rv[k as int]));
                assert(rv.reverse().take((n - k) as int) =~= rv.reverse().take((n - k - 1) as int).push(rv[k as int]));
            }
        }
        proof {
            assert(rv.reverse().take(n as int) =~= rv.reverse());
        }
        out
    }

    /// Parse `--key=value` flags on top of the defaults, in order, stopping at
    /// the first one that fails. `readings` are the readings of the values
    /// that [`BenchConfig::bandwidth_values`] lists, in the same order.
    pub fn parse(args: &Vec<String>, readings: Vec<Result<Bandwidth, String>>) -> (r: Result<Self, Error>)
        requires
            readings@.len() == bandwidth_args(args_view(args@)).len(),
        ensures
            match parse_from(default_view(), args_view(args@), readings_view(readings@)) {
                Parsed::Config(c) => r matches Ok(d) && d@ == c,
                Parsed::Failed(e) => r matches Err(x) && x@ == e,
                Parsed::BadValue(key) => r matches Err(Error::InvalidFlag { flag: f, reason: _ }) && f@ == key,
            },
            r matches Ok(d) ==> config_valid(d@),
    {
        let ghost a = args_view(args@);
        let ghost rv0 = readings_view(readings@);
        let mut cfg = BenchConfig::default();
        let mut rest = readings;
        let mut i: usize = 0;
        proof {
            assert(a.skip(0) =~= a);
            assert(readings_view(rest@) == rv0);
            lemma_parsed_configs_are_valid(default_view(), a, rv0);
        }
        while i < args.len()
            invariant
                i <= args@.len(),
                a == args_view(args@),
                rv0 == readings_view(readings@),
                parse_from(default_view(), a, rv0) == parse_from(cfg@, a.skip(i as int), readings_view(rest@)),
                rest@.len() == bandwidth_args(a.skip(i as int)).len(),
            decreases args@.len() - i,
        {
            let ghost here = a.skip(i as int);
            let ghost rvi = readings_view(rest@);
            proof {
                assert(a.len() == args@.len());
                assert(here.len() > 0);
                assert(here[0] == args@[i as int]@);
                assert(here.drop_first() =~= a.skip(i + 1));
            }
            match cfg.apply(args[i].as_str()) {
                Err(e) => {
                    return Err(e);
                },
                Ok(Applied::Done(c)) => {
                    proof {
                        let (key, value) = split_once_spec(here[0], '=')->Some_0;
                        lemma_bandwidth_key(cfg@, key, value);
                    }
                    cfg = c;
                },
                Ok(Applied::Bandwidth { cfg: c, value: _ }) => {
                    proof {
                        let (key, value) = split_once_spec(here[0], '=')->Some_0;
                        lemma_bandwidth_key(cfg@, key, value);
                        assert(rest@.len() > 0);
                        assert(rvi[0] == reading_view(rest@[0]));
                    }
                    let reading = rest.remove(0);
                    proof {
                        assert(readings_view(rest@) =~= rvi.drop_first());
                    }
                    match c.with_bandwidth(reading) {
                        Ok(d) => {
                            cfg = d;
                        },
                        Err(e) => {
                            return Err(e);
                        },
                    }
                },
            }
            i = i + 1;
        }
        proof {
            assert(a.skip(i as int) =~= Seq::<Seq<char>>::empty());
        }
        Ok(cfg)
    }
}


/// `message_bytes * 2`, saturating.
pub open spec fn max_transmit_spec(c: ConfigView) -> usize {
    if c.message_bytes * 2 <= usize::MAX {
        (c.message_bytes * 2) as usize
    } else {
        usize::MAX
    }
}

/// The libp2p revision the harness was built against.
pub open spec fn pinned_rev() -> Seq<char> {
    "ee8bf12e6d94d48518ea67773abb11625b2c4f41"@
}

/// The disclosure document: every knob as one JSON object, naming `rev` as
/// the libp2p revision measured.
pub open spec fn disclosure_for(c: ConfigView, rev: Seq<char>) -> Seq<char> {
    "{\"nodes\":"@ + dec(c.nodes as nat)
        + ",\"edges_per_node\":"@ + dec(c.edges_per_node as nat)
        + ",\"mesh_n\":"@ + dec(c.mesh_n as nat)
        + ",\"mesh_n_low\":"@ + dec(c.mesh_n_low as nat)
        + ",\"mesh_n_high\":"@ + dec(c.mesh_n_high as nat)
        + ",\"message_bytes\":"@ + dec(c.message_bytes as nat)
        + ",\"messages\":"@ + dec(c.messages as nat)
        + ",\"latency_ms\":"@ + dec(c.latency_ms as nat)
        + ",\"bandwidth_mbps\":"@ + c.bandwidth_text
        + ",\"flood_publish\":"@ + bool_text(c.flood_publish)
        + ",\"idontwant_on_publish\":"@ + bool_text(c.idontwant_on_publish)
        + ",\"validation\":\""@ + c.validation.label_spec()
        + "\",\"heartbeat_ms\":"@ + dec(c.heartbeat_ms as nat)
        + ",\"history_length\":"@ + dec(c.history_length as nat)
        + ",\"history_gossip\":"@ + dec(c.history_gossip as nat)
        + ",\"max_transmit_size\":"@ + dec(max_transmit_spec(c) as nat)
        + ",\"warmup_secs\":"@ + dec(c.warmup_secs as nat)
        + ",\"settle_secs\":"@ + dec(c.settle_secs as nat)
        + ",\"seed\":"@ + dec(c.seed as nat)
        + ",\"transport\":\"memory+plaintext+yamux-default-windows\",\"signing\":\"signed\",\"libp2p_rev\":\""@
        + rev + "\"}"@
}

#[verifier::rlimit(60)]
proof fn lemma_disclosure_first_knobs(c: ConfigView, rev: Seq<char>)
    ensures
        ({
            let t = disclosure_for(c, rev);
            &&& exists|p: Seq<char>, s: Seq<char>| t == p + "{\"nodes\":"@ + dec(c.nodes as nat) + ",\"edges_per_node\":"@ + s
            &&& exists|p: Seq<char>, s: Seq<char>| t == p + ",\"edges_per_node\":"@ + dec(c.edges_per_node as nat) + ",\"mesh_n\":"@ + s
            &&& exists|p: Seq<char>, s: Seq<char>| t == p + ",\"mesh_n\":"@ + dec(c.mesh_n as nat) + ",\"mesh_n_low\":"@ + s
            &&& exists|p: Seq<char>, s: Seq<char>| t == p + ",\"mesh_n_low\":"@ + dec(c.mesh_n_low as nat) + ",\"mesh_n_high\":"@ + s
            &&& exists|p: Seq<char>, s: Seq<char>| t == p + ",\"mesh_n_high\":"@ + dec(c.mesh_n_high as nat) + ",\"message_bytes\":"@ + s
        }),
{
    let t = disclosure_for(c, rev);
    {
        let x = "{\"nodes\":"@ + dec(c.nodes as nat) + ",\"edges_per_node\":"@;
        assert(x.take(x.len() as int) =~= x);
        lemma_prefix_extends(x, dec(c.edges_per_node as nat), x);
        lemma_prefix_extends(x + dec(c.edges_per_node as nat), ",\"mesh_n\":"@, x);
        lemma_prefix_extends(x + dec(c.edges_per_node as nat) + ",\"mesh_n\":"@, dec(c.mesh_n as nat), x);
        lemma_prefix_extends(x + dec(c.edges_per_node as nat) + ",\"mesh_n\":"@ + dec(c.mesh_n as nat), ",\"mesh_n_low\":"@, x);
        lemma_prefix_extends(x + dec(c.edges_per_node as nat) + ",\"mesh_n\":"@ + dec(c.mesh_n as nat) + ",\"mesh_n_low\":"@, dec(c.mesh_n_low as nat), x);
        lemma_prefix_extends(x + dec(c.edges_per_node as nat) + ",\"mesh_n\":"@ + dec(c.mesh_n as nat) + ",\"mesh_n_low\":"@ + dec(c.mesh_n_low as nat), ",\"mesh_n_high\":"@, x);
        lemma_prefix_extends(x + dec(c.edges_per_node as nat) + ",\"mesh_n\":"@ + dec(c.mesh_n as nat) + ",\"mesh_n_low\":"@ + dec(c.mesh_n_low as nat) + ",\"mesh_n_high\":"@, dec(c.mesh_n_high as nat), x);
        lemma_prefix_extends(x + dec(c.edges_per_node as nat) + ",\"mesh_n\":"@ + dec(c.mesh_n as nat) + ",\"mesh_n_low\":"@ + dec(c.mesh_n_low as nat) + ",\"mesh_n_high\":"@ + dec(c.mesh_n_high as nat), ",\"message_bytes\":"@, x);
        lemma_prefix_extends(x + dec(c.edges_per_node as nat) + ",\"mesh_n\":"@ + dec(c.mesh_n as nat) + ",\"mesh_n_low\":"@ + dec(c.mesh_n_low as nat) + ",\"mesh_n_high\":"@ + dec(c.mesh_n_high as nat) + ",\"message_bytes\":"@, dec(c.message_bytes as nat), x);
        lemma_prefix_extends(x + dec(c.edges_per_node as nat) + ",\"mesh_n\":"@ + dec(c.mesh_n as nat) + ",\"mesh_n_low\":"@ + dec(c.mesh_n_low as nat) + ",\"mesh_n_high\":"@ + dec(c.mesh_n_high as nat) + ",\"message_bytes\":"@ + dec(c.message_bytes as nat), ",\"messages\":"@, x);
        lemma_prefix_extends(x + dec(c.edges_per_node as nat) + ",\"mesh_n\":"@ + dec(c.mesh_n as nat) + ",\"mesh_n_low\":"@ + dec(c.mesh_n_low as nat) + ",\"mesh_n_high\":"@ + dec(c.mesh_n_high as nat) + ",\"message_bytes\":"@ + dec(c.message_bytes as nat) + ",\"messages\":"@, dec(c.messages as nat), x);
        lemma_prefix_extends(x + dec(c.edges_per_node as nat) + ",\"mesh_n\":"@ + dec(c.mesh_n as nat) + ",\"mesh_n_low\":"@ + dec(c.mesh_n_low as nat) + ",\"mesh_n_high\":"@ + dec(c.mesh_n_high as nat) + ",\"message_bytes\":"@ + dec(c.message_bytes as nat) + ",\"messages\":"@ + dec(c.messages as nat), ",\"latency_ms\":"@, x);
        lemma_prefix_extends(x + dec(c.edges_per_node as nat) + ",\"mesh_n\":"@ + dec(c.mesh_n as nat) + ",\"mesh_n_low\":"@ + dec(c.mesh_n_low as nat) + ",\"mesh_n_high\":"@ + dec(c.mesh_n_high as nat) + ",\"message_bytes\":"@ + dec(c.message_bytes as nat) + ",\"messages\":"@ + dec(c.messages as nat) + ",\"latency_ms\":"@, dec(c.latency_ms as nat), x);
        lemma_prefix_extends(x + dec(c.edges_per_node as nat) + ",\"mesh_n\":"@ + dec(c.mesh_n as nat) + ",\"mesh_n_low\":"@ + dec(c.mesh_n_low as nat) + ",\"mesh_n_high\":"@ + dec(c.mesh_n_high as nat) + ",\"message_bytes\":"@ + dec(c.message_bytes as nat) + ",\"messages\":"@ + dec(c.messages as nat) + ",\"latency_ms\":"@ + dec(c.latency_ms as nat), ",\"bandwidth_mbps\":"@, x);
        lemma_prefix_extends(x + dec(c.edges_per_node as nat) + ",\"mesh_n\":"@ + dec(c.mesh_n as nat) + ",\"mesh_n_low\":"@ + dec(c.mesh_n_low as nat) + ",\"mesh_n_high\":"@ + dec(c.mesh_n_high as nat) + ",\"message_bytes\":"@ + dec(c.message_bytes as nat) + ",\"messages\":"@ + dec(c.messages as nat) + ",\"latency_ms\":"@ + dec(c.latency_ms as nat) + ",\"bandwidth_mbps\":"@, c.bandwidth_text, x);
        lemma_prefix_extends(x + dec(c.edges_per_node as nat) + ",\"mesh_n\":"@ + dec(c.mesh_n as nat) + ",\"mesh_n_low\":"@ + dec(c.mesh_n_low as nat) + ",\"mesh_n_high\":"@ + dec(c.mesh_n_high as nat) + ",\"message_bytes\":"@ + dec(c.message_bytes as nat) + ",\"messages\":"@ + dec(c.messages as nat) + ",\"latency_ms\":"@ + dec(c.latency_ms as nat) + ",\"bandwidth_mbps\":"@ + c.bandwidth_text, ",\"flood_publish\":"@, x);
        lemma_prefix_extends(x + dec(c.edges_per_node as nat) + ",\"mesh_n\":"@ + dec(c.mesh_n as nat) + ",\"mesh_n_low\":"@ + dec(c.mesh_n_low as nat) + ",\"mesh_n_high\":"@ + dec(c.mesh_n_high as nat) + ",\"message_bytes\":"@ + dec(c.message_bytes as nat) + ",\"messages\":"@ + dec(c.messages as nat) + ",\"latency_ms\":"@ + dec(c.latency_ms as nat) + ",\"bandwidth_mbps\":"@ + c.bandwidth_text + ",\"flood_publish\":"@, bool_text(c.flood_publish), x);
        lemma_prefix_extends(x + dec(c.edges_per_node as nat) + ",\"mesh_n\":"@ + dec(c.mesh_n as nat) + ",\"mesh_n_low\":"@ + dec(c.mesh_n_low as nat) + ",\"mesh_n_high\":"@ + dec(c.mesh_n_high as nat) + ",\"message_bytes\":"@ + dec(c.message_bytes as nat) + ",\"messages\":"@ + dec(c.messages as nat) + ",\"latency_ms\":"@ + dec(c.latency_ms as nat) + ",\"bandwidth_mbps\":"@ + c.bandwidth_text + ",\"flood_publish\":"@ + bool_text(c.flood_publish), ",\"idontwant_on_publish\":"@, x);
        lemma_prefix_extends(x + dec(c.edges_per_node as nat) + ",\"mesh_n\":"@ + dec(c.mesh_n as nat) + ",\"mesh_n_low\":"@ + dec(c.mesh_n_low as nat) + ",\"mesh_n_high\":"@ + dec(c.mesh_n_high as nat) + ",\"message_bytes\":"@ + dec(c.message_bytes as nat) + ",\"messages\":"@ + dec(c.messages as nat) + ",\"latency_ms\":"@ + dec(c.latency_ms as nat) + ",\"bandwidth_mbps\":"@ + c.bandwidth_text + ",\"flood_publish\":"@ + bool_text(c.flood_publish) + ",\"idontwant_on_publish\":"@, bool_text(c.idontwant_on_publish), x);
        lemma_prefix_extends(x + dec(c.edges_per_node as nat) + ",\"mesh_n\":"@ + dec(c.mesh_n as nat) + ",\"mesh_n_low\":"@ + dec(c.mesh_n_low as nat) + ",\"mesh_n_high\":"@ + dec(c.mesh_n_high as nat) + ",\"message_bytes\":"@ + dec(c.message_bytes as nat) + ",\"messages\":"@ + dec(c.messages as nat) + ",\"latency_ms\":"@ + dec(c.latency_ms as nat) + ",\"bandwidth_mbps\":"@ + c.bandwidth_text + ",\"flood_publish\":"@ + bool_text(c.flood_publish) + ",\"idontwant_on_publish\":"@ + bool_text(c.idontwant_on_publish), ",\"validation\":\""@, x);
        lemma_prefix_extends(x + dec(c.edges_per_node as nat) + ",\"mesh_n\":"@ + dec(c.mesh_n as nat) + ",\"mesh_n_low\":"@ + dec(c.mesh_n_low as nat) + ",\"mesh_n_high\":"@ + dec(c.mesh_n_high as nat) + ",\"message_bytes\":"@ + dec(c.message_bytes as nat) + ",\"messages\":"@ + dec(c.messages as nat) + ",\"latency_ms\":"@ + dec(c.latency_ms as nat) + ",\"bandwidth_mbps\":"@ + c.bandwidth_text + ",\"flood_publish\":"@ + bool_text(c.flood_publish) + ",\"idontwant_on_publish\":"@ + bool_text(c.idontwant_on_publish) + ",\"validation\":\""@, c.validation.label_spec(), x);
        lemma_prefix_extends(x + dec(c.edges_per_node as nat) + ",\"mesh_n\":"@ + dec(c.mesh_n as nat) + ",\"mesh_n_low\":"@ + dec(c.mesh_n_low as nat) + ",\"mesh_n_high\":"@ + dec(c.mesh_n_high as nat) + ",\"message_bytes\":"@ + dec(c.message_bytes as nat) + ",\"messages\":"@ + dec(c.messages as nat) + ",\"latency_ms\":"@ + dec(c.latency_ms as nat) + ",\"bandwidth_mbps\":"@ + c.bandwidth_text + ",\"flood_publish\":"@ + bool_text(c.flood_publish) + ",\"idontwant_on_publish\":"@ + bool_text(c.idontwant_on_publish) + ",\"validation\":\""@ + c.validation.label_spec(), "\",\"heartbeat_ms\":"@, x);
        lemma_prefix_extends(x + dec(c.edges_per_node as nat) + ",\"mesh_n\":"@ + dec(c.mesh_n as nat) + ",\"mesh_n_low\":"@ + dec(c.mesh_n_low as nat) + ",\"mesh_n_high\":"@ + dec(c.mesh_n_high as nat) + ",\"message_bytes\":"@ + dec(c.message_bytes as nat) + ",\"messages\":"@ + dec(c.messages as nat) + ",\"latency_ms\":"@ + dec(c.latency_ms as nat) + ",\"bandwidth_mbps\":"@ + c.bandwidth_text + ",\"flood_publish\":"@ + bool_text(c.flood_publish) + ",\"idontwant_on_publish\":"@ + bool_text(c.idontwant_on_publish) + ",\"validation\":\""@ + c.validation.label_spec() + "\",\"heartbeat_ms\":"@, dec(c.heartbeat_ms as nat), x);
        lemma_prefix_extends(x + dec(c.edges_per_node as nat) + ",\"mesh_n\":"@ + dec(c.mesh_n as nat) + ",\"mesh_n_low\":"@ + dec(c.mesh_n_low as nat) + ",\"mesh_n_high\":"@ + dec(c.mesh_n_high as nat) + ",\"message_bytes\":"@ + dec(c.message_bytes as nat) + ",\"messages\":"@ + dec(c.messages as nat) + ",\"latency_ms\":"@ + dec(c.latency_ms as nat) + ",\"bandwidth_mbps\":"@ + c.bandwidth_text + ",\"flood_publish\":"@ + bool_text(c.flood_publish) + ",\"idontwant_on_publish\":"@ + bool_text(c.idontwant_on_publish) + ",\"validation\":\""@ + c.validation.label_spec() + "\",\"heartbeat_ms\":"@ + dec(c.heartbeat_ms as nat), ",\"history_length\":"@, x);
        lemma_prefix_extends(x + dec(c.edges_per_node as nat) + ",\"mesh_n\":"@ + dec(c.mesh_n as nat) + ",\"mesh_n_low\":"@ + dec(c.mesh_n_low as nat) + ",\"mesh_n_high\":"@ + dec(c.mesh_n_high as nat) + ",\"message_bytes\":"@ + dec(c.message_bytes as nat) + ",\"messages\":"@ + dec(c.messages as nat) + ",\"latency_ms\":"@ + dec(c.latency_ms as nat) + ",\"bandwidth_mbps\":"@ + c.bandwidth_text + ",\"flood_publish\":"@ + bool_text(c.flood_publish) + ",\"idontwant_on_publish\":"@ + bool_text(c.idontwant_on_publish) + ",\"validation\":\""@ + c.validation.label_spec() + "\",\"heartbeat_ms\":"@ + dec(c.heartbeat_ms as nat) + ",\"history_length\":"@, dec(c.history_length as nat), x);
        lemma_prefix_extends(x + dec(c.edges_per_node as nat) + ",\"mesh_n\":"@ + dec(c.mesh_n as nat) + ",\"mesh_n_low\":"@ + dec(c.mesh_n_low as nat) + ",\"mesh_n_high\":"@ + dec(c.mesh_n_high as nat) + ",\"message_bytes\":"@ + dec(c.message_bytes as nat) + ",\"messages\":"@ + dec(c.messages as nat) + ",\"latency_ms\":"@ + dec(c.latency_ms as nat) + ",\"bandwidth_mbps\":"@ + c.bandwidth_text + ",\"flood_publish\":"@ + bool_text(c.flood_publish) + ",\"idontwant_on_publish\":"@ + bool_text(c.idontwant_on_publish) + ",\"validation\":\""@ + c.validation.label_spec() + "\",\"heartbeat_ms\":"@ + dec(c.heartbeat_ms as nat) + ",\"history_length\":"@ + dec(c.history_length as nat), ",\"history_gossip\":"@, x);
        lemma_prefix_extends(x + dec(c.edges_per_node as nat) + ",\"mesh_n\":"@ + dec(c.mesh_n as nat) + ",\"mesh_n_low\":"@ + dec(c.mesh_n_low as nat) + ",\"mesh_n_high\":"@ + dec(c.mesh_n_high as nat) + ",\"message_bytes\":"@ + dec(c.message_bytes as nat) + ",\"messages\":"@ + dec(c.messages as nat) + ",\"latency_ms\":"@ + dec(c.latency_ms as nat) + ",\"bandwidth_mbps\":"@ + c.bandwidth_text + ",\"flood_publish\":"@ + bool_text(c.flood_publish) + ",\"idontwant_on_publish\":"@ + bool_text(c.idontwant_on_publish) + ",\"validation\":\""@ + c.validation.label_spec() + "\",\"heartbeat_ms\":"@ + dec(c.heartbeat_ms as nat) + ",\"history_length\":"@ + dec(c.history_length as nat) + ",\"history_gossip\":"@, dec(c.history_gossip as nat), x);
        lemma_prefix_extends(x + dec(c.edges_per_node as nat) + ",\"mesh_n\":"@ + dec(c.mesh_n as nat) + ",\"mesh_n_low\":"@ + dec(c.mesh_n_low as nat) + ",\"mesh_n_high\":"@ + dec(c.mesh_n_high as nat) + ",\"message_bytes\":"@ + dec(c.message_bytes as nat) + ",\"messages\":"@ + dec(c.messages as nat) + ",\"latency_ms\":"@ + dec(c.latency_ms as nat) + ",\"bandwidth_mbps\":"@ + c.bandwidth_text + ",\"flood_publish\":"@ + bool_text(c.flood_publish) + ",\"idontwant_on_publish\":"@ + bool_text(c.idontwant_on_publish) + ",\"validation\":\""@ + c.validation.label_spec() + "\",\"heartbeat_ms\":"@ + dec(c.heartbeat_ms as nat) + ",\"history_length\":"@ + dec(c.history_length as nat) + ",\"history_gossip\":"@ + dec(c.history_gossip as nat), ",\"max_transmit_size\":"@, x);
        lemma_prefix_extends(x + dec(c.edges_per_node as nat) + ",\"mesh_n\":"@ + dec(c.mesh_n as nat) + ",\"mesh_n_low\":"@ + dec(c.mesh_n_low as nat) + ",\"mesh_n_high\":"@ + dec(c.mesh_n_high as nat) + ",\"message_bytes\":"@ + dec(c.message_bytes as nat) + ",\"messages\":"@ + dec(c.messages as nat) + ",\"latency_ms\":"@ + dec(c.latency_ms as nat) + ",\"bandwidth_mbps\":"@ + c.bandwidth_text + ",\"flood_publish\":"@ + bool_text(c.flood_publish) + ",\"idontwant_on_publish\":"@ + bool_text(c.idontwant_on_publish) + ",\"validation\":\""@ + c.validation.label_spec() + "\",\"heartbeat_ms\":"@ + dec(c.heartbeat_ms as nat) + ",\"history_length\":"@ + dec(c.history_length as nat) + ",\"history_gossip\":"@ + dec(c.history_gossip as nat) + ",\"max_transmit_size\":"@, dec(max_transmit_spec(c) as nat), x);
        lemma_prefix_extends(x + dec(c.edges_per_node as nat) + ",\"mesh_n\":"@ + dec(c.mesh_n as nat) + ",\"mesh_n_low\":"@ + dec(c.mesh_n_low as nat) + ",\"mesh_n_high\":"@ + dec(c.mesh_n_high as nat) + ",\"message_bytes\":"@ + dec(c.message_bytes as nat) + ",\"messages\":"@ + dec(c.messages as nat) + ",\"latency_ms\":"@ + dec(c.latency_ms as nat) + ",\"bandwidth_mbps\":"@ + c.bandwidth_text + ",\"flood_publish\":"@ + bool_text(c.flood_publish) + ",\"idontwant_on_publish\":"@ + bool_text(c.idontwant_on_publish) + ",\"validation\":\""@ + c.validation.label_spec() + "\",\"heartbeat_ms\":"@ + dec(c.heartbeat_ms as nat) + ",\"history_length\":"@ + dec(c.history_length as nat) + ",\"history_gossip\":"@ + dec(c.history_gossip as nat) + ",\"max_transmit_size\":"@ + dec(max_transmit_spec(c) as nat), ",\"warmup_secs\":"@, x);
        lemma_prefix_extends(x + dec(c.edges_per_node as nat) + ",\"mesh_n\":"@ + dec(c.mesh_n as nat) + ",\"mesh_n_low\":"@ + dec(c.mesh_n_low as nat) + ",\"mesh_n_high\":"@ + dec(c.mesh_n_high as nat) + ",\"message_bytes\":"@ + dec(c.message_bytes as nat) + ",\"messages\":"@ + dec(c.messages as nat) + ",\"latency_ms\":"@ + dec(c.latency_ms as nat) + ",\"bandwidth_mbps\":"@ + c.bandwidth_text + ",\"flood_publish\":"@ + bool_text(c.flood_publish) + ",\"idontwant_on_publish\":"@ + bool_text(c.idontwant_on_publish) + ",\"validation\":\""@ + c.validation.label_spec() + "\",\"heartbeat_ms\":"@ + dec(c.heartbeat_ms as nat) + ",\"history_length\":"@ + dec(c.history_length as nat) + ",\"history_gossip\":"@ + dec(c.history_gossip as nat) + ",\"max_transmit_size\":"@ + dec(max_transmit_spec(c) as nat) + ",\"warmup_secs\":"@, dec(c.warmup_secs as nat), x);
        lemma_prefix_extends(x + dec(c.edges_per_node as nat) + ",\"mesh_n\":"@ + dec(c.mesh_n as nat) + ",\"mesh_n_low\":"@ + dec(c.mesh_n_low as nat) + ",\"mesh_n_high\":"@ + dec(c.mesh_n_high as nat) + ",\"message_bytes\":"@ + dec(c.message_bytes as nat) + ",\"messages\":"@ + dec(c.messages as nat) + ",\"latency_ms\":"@ + dec(c.latency_ms as nat) + ",\"bandwidth_mbps\":"@ + c.bandwidth_text + ",\"flood_publish\":"@ + bool_text(c.flood_publish) + ",\"idontwant_on_publish\":"@ + bool_text(c.idontwant_on_publish) + ",\"validation\":\""@ + c.validation.label_spec() + "\",\"heartbeat_ms\":"@ + dec(c.heartbeat_ms as nat) + ",\"history_length\":"@ + dec(c.history_length as nat) + ",\"history_gossip\":"@ + dec(c.history_gossip as nat) + ",\"max_transmit_size\":"@ + dec(max_transmit_spec(c) as nat) + ",\"warmup_secs\":"@ + dec(c.warmup_secs as nat), ",\"settle_secs\":"@, x);
        lemma_prefix_extends(x + dec(c.edges_per_node as nat) + ",\"mesh_n\":"@ + dec(c.mesh_n as nat) + ",\"mesh_n_low\":"@ + dec(c.mesh_n_low as nat) + ",\"mesh_n_high\":"@ + dec(c.mesh_n_high as nat) + ",\"message_bytes\":"@ + dec(c.message_bytes as nat) + ",\"messages\":"@ + dec(c.messages as nat) + ",\"latency_ms\":"@ + dec(c.latency_ms as nat) + ",\"bandwidth_mbps\":"@ + c.bandwidth_text + ",\"flood_publish\":"@ + bool_text(c.flood_publish) + ",\"idontwant_on_publish\":"@ + bool_text(c.idontwant_on_publish) + ",\"validation\":\""@ + c.validation.label_spec() + "\",\"heartbeat_ms\":"@ + dec(c.heartbeat_ms as nat) + ",\"history_length\":"@ + dec(c.history_length as nat) + ",\"history_gossip\":"@ + dec(c.history_gossip as nat) + ",\"max_transmit_size\":"@ + dec(max_transmit_spec(c) as nat) + ",\"warmup_secs\":"@ + dec(c.warmup_secs as nat) + ",\"settle_secs\":"@, dec(c.settle_secs as nat), x);
        lemma_prefix_extends(x + dec(c.edges_per_node as nat) + ",\"mesh_n\":"@ + dec(c.mesh_n as nat) + ",\"mesh_n_low\":"@ + dec(c.mesh_n_low as nat) + ",\"mesh_n_high\":"@ + dec(c.mesh_n_high as nat) + ",\"message_bytes\":"@ + dec(c.message_bytes as nat) + ",\"messages\":"@ + dec(c.messages as nat) + ",\"latency_ms\":"@ + dec(c.latency_ms as nat) + ",\"bandwidth_mbps\":"@ + c.bandwidth_text + ",\"flood_publish\":"@ + bool_text(c.flood_publish) + ",\"idontwant_on_publish\":"@ + bool_text(c.idontwant_on_publish) + ",\"validation\":\""@ + c.validation.label_spec() + "\",\"heartbeat_ms\":"@ + dec(c.heartbeat_ms as nat) + ",\"history_length\":"@ + dec(c.history_length as nat) + ",\"history_gossip\":"@ + dec(c.history_gossip as nat) + ",\"max_transmit_size\":"@ + dec(max_transmit_spec(c) as nat) + ",\"warmup_secs\":"@ + dec(c.warmup_secs as nat) + ",\"settle_secs\":"@ + dec(c.settle_secs as nat), ",\"seed\":"@, x);
        lemma_prefix_extends(x + dec(c.edges_per_node as nat) + ",\"mesh_n\":"@ + dec(c.mesh_n as nat) + ",\"mesh_n_low\":"@ + dec(c.mesh_n_low as nat) + ",\"mesh_n_high\":"@ + dec(c.mesh_n_high as nat) + ",\"message_bytes\":"@ + dec(c.message_bytes as nat) + ",\"messages\":"@ + dec(c.messages as nat) + ",\"latency_ms\":"@ + dec(c.latency_ms as nat) + ",\"bandwidth_mbps\":"@ + c.bandwidth_text + ",\"flood_publish\":"@ + bool_text(c.flood_publish) + ",\"idontwant_on_publish\":"@ + bool_text(c.idontwant_on_publish) + ",\"validation\":\""@ + c.validation.label_spec() + "\",\"heartbeat_ms\":"@ + dec(c.heartbeat_ms as nat) + ",\"history_length\":"@ + dec(c.history_length as nat) + ",\"history_gossip\":"@ + dec(c.history_gossip as nat) + ",\"max_transmit_size\":"@ + dec(max_transmit_spec(c) as nat) + ",\"warmup_secs\":"@ + dec(c.warmup_secs as nat) + ",\"settle_secs\":"@ + dec(c.settle_secs as nat) + ",\"seed\":"@, dec(c.seed as nat), x);
        lemma_prefix_extends(x + dec(c.edges_per_node as nat) + ",\"mesh_n\":"@ + dec(c.mesh_n as nat) + ",\"mesh_n_low\":"@ + dec(c.mesh_n_low as nat) + ",\"mesh_n_high\":"@ + dec(c.mesh_n_high as nat) + ",\"message_bytes\":"@ + dec(c.message_bytes as nat) + ",\"messages\":"@ + dec(c.messages as nat) + ",\"latency_ms\":"@ + dec(c.latency_ms as nat) + ",\"bandwidth_mbps\":"@ + c.bandwidth_text + ",\"flood_publish\":"@ + bool_text(c.flood_publish) + ",\"idontwant_on_publish\":"@ + bool_text(c.idontwant_on_publish) + ",\"validation\":\""@ + c.validation.label_spec() + "\",\"heartbeat_ms\":"@ + dec(c.heartbeat_ms as nat) + ",\"history_length\":"@ + dec(c.history_length as nat) + ",\"history_gossip\":"@ + dec(c.history_gossip as nat) + ",\"max_transmit_size\":"@ + dec(max_transmit_spec(c) as nat) + ",\"warmup_secs\":"@ + dec(c.warmup_secs as nat) + ",\"settle_secs\":"@ + dec(c.settle_secs as nat) + ",\"seed\":"@ + dec(c.seed as nat), ",\"transport\":\"memory+plaintext+yamux-default-windows\",\"signing\":\"signed\",\"libp2p_rev\":\""@, x);
        lemma_prefix_extends(x + dec(c.edges_per_node as nat) + ",\"mesh_n\":"@ + dec(c.mesh_n as nat) + ",\"mesh_n_low\":"@ + dec(c.mesh_n_low as nat) + ",\"mesh_n_high\":"@ + dec(c.mesh_n_high as nat) + ",\"message_bytes\":"@ + dec(c.message_bytes as nat) + ",\"messages\":"@ + dec(c.messages as nat) + ",\"latency_ms\":"@ + dec(c.latency_ms as nat) + ",\"bandwidth_mbps\":"@ + c.bandwidth_text + ",\"flood_publish\":"@ + bool_text(c.flood_publish) + ",\"idontwant_on_publish\":"@ + bool_text(c.idontwant_on_publish) + ",\"validation\":\""@ + c.validation.label_spec() + "\",\"heartbeat_ms\":"@ + dec(c.heartbeat_ms as nat) + ",\"history_length\":"@ + dec(c.history_length as nat) + ",\"history_gossip\":"@ + dec(c.history_gossip as nat) + ",\"max_transmit_size\":"@ + dec(max_transmit_spec(c) as nat) + ",\"warmup_secs\":"@ + dec(c.warmup_secs as nat) + ",\"settle_secs\":"@ + dec(c.settle_secs as nat) + ",\"seed\":"@ + dec(c.seed as nat) + ",\"transport\":\"memory+plaintext+yamux-default-windows\",\"signing\":\"signed\",\"libp2p_rev\":\""@, rev, x);
        lemma_prefix_extends(x + dec(c.edges_per_node as nat) + ",\"mesh_n\":"@ + dec(c.mesh_n as nat) + ",\"mesh_n_low\":"@ + dec(c.mesh_n_low as nat) + ",\"mesh_n_high\":"@ + dec(c.mesh_n_high as nat) + ",\"message_bytes\":"@ + dec(c.message_bytes as nat) + ",\"messages\":"@ + dec(c.messages as nat) + ",\"latency_ms\":"@ + dec(c.latency_ms as nat) + ",\"bandwidth_mbps\":"@ + c.bandwidth_text + ",\"flood_publish\":"@ + bool_text(c.flood_publish) + ",\"idontwant_on_publish\":"@ + bool_text(c.idontwant_on_publish) + ",\"validation\":\""@ + c.validation.label_spec() + "\",\"heartbeat_ms\":"@ + dec(c.heartbeat_ms as nat) + ",\"history_length\":"@ + dec(c.history_length as nat) + ",\"history_gossip\":"@ + dec(c.history_gossip as nat) + ",\"max_transmit_size\":"@ + dec(max_transmit_spec(c) as nat) + ",\"warmup_secs\":"@ + dec(c.warmup_secs as nat) + ",\"settle_secs\":"@ + dec(c.settle_secs as nat) + ",\"seed\":"@ + dec(c.seed as nat) + ",\"transport\":\"memory+plaintext+yamux-default-windows\",\"signing\":\"signed\",\"libp2p_rev\":\""@ + rev, "\"}"@, x);
        let s = t.skip(x.len() as int);
        assert(t =~= x + s);
        assert(x =~= Seq::<char>::empty() + "{\"nodes\":"@ + dec(c.nodes as nat) + ",\"edges_per_node\":"@);
    }
    {
        let x = "{\"nodes\":"@ + dec(c.nodes as nat) + ",\"edges_per_node\":"@ + dec(c.edges_per_node as nat) + ",\"mesh_n\":"@;
        assert(x.take(x.len() as int) =~= x);
        lemma_prefix_extends(x, dec(c.mesh_n as nat), x);
        lemma_prefix_extends(x + dec(c.mesh_n as nat), ",\"mesh_n_low\":"@, x);
        lemma_prefix_extends(x + dec(c.mesh_n as nat) + ",\"mesh_n_low\":"@, dec(c.mesh_n_low as nat), x);
        lemma_prefix_extends(x + dec(c.mesh_n as nat) + ",\"mesh_n_low\":"@ + dec(c.mesh_n_low as nat), ",\"mesh_n_high\":"@, x);
        lemma_prefix_extends(x + dec(c.mesh_n as nat) + ",\"mesh_n_low\":"@ + dec(c.mesh_n_low as nat) + ",\"mesh_n_high\":"@, dec(c.mesh_n_high as nat), x);
        lemma_prefix_extends(x + dec(c.mesh_n as nat) + ",\"mesh_n_low\":"@ + dec(c.mesh_n_low as nat) + ",\"mesh_n_high\":"@ + dec(c.mesh_n_high as nat), ",\"message_bytes\":"@, x);
        lemma_prefix_extends(x + dec(c.mesh_n as nat) + ",\"mesh_n_low\":"@ + dec(c.mesh_n_low as nat) + ",\"mesh_n_high\":"@ + dec(c.mesh_n_high as nat) + ",\"message_bytes\":"@, dec(c.message_bytes as nat), x);
        lemma_prefix_extends(x + dec(c.mesh_n as nat) + ",\"mesh_n_low\":"@ + dec(c.mesh_n_low as nat) + ",\"mesh_n_high\":"@ + dec(c.mesh_n_high as nat) + ",\"message_bytes\":"@ + dec(c.message_bytes as nat), ",\"messages\":"@, x);
        lemma_prefix_extends(x + dec(c.mesh_n as nat) + ",\"mesh_n_low\":"@ + dec(c.mesh_n_low as nat) + ",\"mesh_n_high\":"@ + dec(c.mesh_n_high as nat) + ",\"message_bytes\":"@ + dec(c.message_bytes as nat) + ",\"messages\":"@, dec(c.messages as nat), x);
        lemma_prefix_extends(x + dec(c.mesh_n as nat) + ",\"mesh_n_low\":"@ + dec(c.mesh_n_low as nat) + ",\"mesh_n_high\":"@ + dec(c.mesh_n_high as nat) + ",\"message_bytes\":"@ + dec(c.message_bytes as nat) + ",\"messages\":"@ + dec(c.messages as nat), ",\"latency_ms\":"@, x);
        lemma_prefix_extends(x + dec(c.mesh_n as nat) + ",\"mesh_n_low\":"@ + dec(c.mesh_n_low as nat) + ",\"mesh_n_high\":"@ + dec(c.mesh_n_high as nat) + ",\"message_bytes\":"@ + dec(c.message_bytes as nat) + ",\"messages\":"@ + dec(c.messages as nat) + ",\"latency_ms\":"@, dec(c.latency_ms as nat), x);
        lemma_prefix_extends(x + dec(c.mesh_n as nat) + ",\"mesh_n_low\":"@ + dec(c.mesh_n_low as nat) + ",\"mesh_n_high\":"@ + dec(c.mesh_n_high as nat) + ",\"message_bytes\":"@ + dec(c.message_bytes as nat) + ",\"messages\":"@ + dec(c.messages as nat) + ",\"latency_ms\":"@ + dec(c.latency_ms as nat), ",\"bandwidth_mbps\":"@, x);
        lemma_prefix_extends(x + dec(c.mesh_n as nat) + ",\"mesh_n_low\":"@ + dec(c.mesh_n_low as nat) + ",\"mesh_n_high\":"@ + dec(c.mesh_n_high as nat) + ",\"message_bytes\":"@ + dec(c.message_bytes as nat) + ",\"messages\":"@ + dec(c.messages as nat) + ",\"latency_ms\":"@ + dec(c.latency_ms as nat) + ",\"bandwidth_mbps\":"@, c.bandwidth_text, x);
        lemma_prefix_extends(x + dec(c.mesh_n as nat) + ",\"mesh_n_low\":"@ + dec(c.mesh_n_low as nat) + ",\"mesh_n_high\":"@ + dec(c.mesh_n_high as nat) + ",\"message_bytes\":"@ + dec(c.message_bytes as nat) + ",\"messages\":"@ + dec(c.messages as nat) + ",\"latency_ms\":"@ + dec(c.latency_ms as nat) + ",\"bandwidth_mbps\":"@ + c.bandwidth_text, ",\"flood_publish\":"@, x);
        lemma_prefix_extends(x + dec(c.mesh_n as nat) + ",\"mesh_n_low\":"@ + dec(c.mesh_n_low as nat) + ",\"mesh_n_high\":"@ + dec(c.mesh_n_high as nat) + ",\"message_bytes\":"@ + dec(c.message_bytes as nat) + ",\"messages\":"@ + dec(c.messages as nat) + ",\"latency_ms\":"@ + dec(c.latency_ms as nat) + ",\"bandwidth_mbps\":"@ + c.bandwidth_text + ",\"flood_publish\":"@, bool_text(c.flood_publish), x);
        lemma_prefix_extends(x + dec(c.mesh_n as nat) + ",\"mesh_n_low\":"@ + dec(c.mesh_n_low as nat) + ",\"mesh_n_high\":"@ + dec(c.mesh_n_high as nat) + ",\"message_bytes\":"@ + dec(c.message_bytes as nat) + ",\"messages\":"@ + dec(c.messages as nat) + ",\"latency_ms\":"@ + dec(c.latency_ms as nat) + ",\"bandwidth_mbps\":"@ + c.bandwidth_text + ",\"flood_publish\":"@ + bool_text(c.flood_publish), ",\"idontwant_on_publish\":"@, x);
        lemma_prefix_extends(x + dec(c.mesh_n as nat) + ",\"mesh_n_low\":"@ + dec(c.mesh_n_low as nat) + ",\"mesh_n_high\":"@ + dec(c.mesh_n_high as nat) + ",\"message_bytes\":"@ + dec(c.message_bytes as nat) + ",\"messages\":"@ + dec(c.messages as nat) + ",\"latency_ms\":"@ + dec(c.latency_ms as nat) + ",\"bandwidth_mbps\":"@ + c.bandwidth_text + ",\"flood_publish\":"@ + bool_text(c.flood_publish) + ",\"idontwant_on_publish\":"@, bool_text(c.idontwant_on_publish), x);
        lemma_prefix_extends(x + dec(c.mesh_n as nat) + ",\"mesh_n_low\":"@ + dec(c.mesh_n_low as nat) + ",\"mesh_n_high\":"@ + dec(c.mesh_n_high as nat) + ",\"message_bytes\":"@ + dec(c.message_bytes as nat) + ",\"messages\":"@ + dec(c.messages as nat) + ",\"latency_ms\":"@ + dec(c.latency_ms as nat) + ",\"bandwidth_mbps\":"@ + c.bandwidth_text + ",\"flood_publish\":"@ + bool_text(c.flood_publish) + ",\"idontwant_on_publish\":"@ + bool_text(c.idontwant_on_publish), ",\"validation\":\""@, x);
        lemma_prefix_extends(x + dec(c.mesh_n as nat) + ",\"mesh_n_low\":"@ + dec(c.mesh_n_low as nat) + ",\"mesh_n_high\":"@ + dec(c.mesh_n_high as nat) + ",\"message_bytes\":"@ + dec(c.message_bytes as nat) + ",\"messages\":"@ + dec(c.messages as nat) + ",\"latency_ms\":"@ + dec(c.latency_ms as nat) + ",\"bandwidth_mbps\":"@ + c.bandwidth_text + ",\"flood_publish\":"@ + bool_text(c.flood_publish) + ",\"idontwant_on_publish\":"@ + bool_text(c.idontwant_on_publish) + ",\"validation\":\""@, c.validation.label_spec(), x);
        lemma_prefix_extends(x + dec(c.mesh_n as nat) + ",\"mesh_n_low\":"@ + dec(c.mesh_n_low as nat) + ",\"mesh_n_high\":"@ + dec(c.mesh_n_high as nat) + ",\"message_bytes\":"@ + dec(c.message_bytes as nat) + ",\"messages\":"@ + dec(c.messages as nat) + ",\"latency_ms\":"@ + dec(c.latency_ms as nat) + ",\"bandwidth_mbps\":"@ + c.bandwidth_text + ",\"flood_publish\":"@ + bool_text(c.flood_publish) + ",\"idontwant_on_publish\":"@ + bool_text(c.idontwant_on_publish) + ",\"validation\":\""@ + c.validation.label_spec(), "\",\"heartbeat_ms\":"@, x);
        lemma_prefix_extends(x + dec(c.mesh_n as nat) + ",\"mesh_n_low\":"@ + dec(c.mesh_n_low as nat) + ",\"mesh_n_high\":"@ + dec(c.mesh_n_high as nat) + ",\"message_bytes\":"@ + dec(c.message_bytes as nat) + ",\"messages\":"@ + dec(c.messages as nat) + ",\"latency_ms\":"@ + dec(c.latency_ms as nat) + ",\"bandwidth_mbps\":"@ + c.bandwidth_text + ",\"flood_publish\":"@ + bool_text(c.flood_publish) + ",\"idontwant_on_publish\":"@ + bool_text(c.idontwant_on_publish) + ",\"validation\":\""@ + c.validation.label_spec() + "\",\"heartbeat_ms\":"@, dec(c.heartbeat_ms as nat), x);
        lemma_prefix_extends(x + dec(c.mesh_n as nat) + ",\"mesh_n_low\":"@ + dec(c.mesh_n_low as nat) + ",\"mesh_n_high\":"@ + dec(c.mesh_n_high as nat) + ",\"message_bytes\":"@ + dec(c.message_bytes as nat) + ",\"messages\":"@ + dec(c.messages as nat) + ",\"latency_ms\":"@ + dec(c.latency_ms as nat) + ",\"bandwidth_mbps\":"@ + c.bandwidth_text + ",\"flood_publish\":"@ + bool_text(c.flood_publish) + ",\"idontwant_on_publish\":"@ + bool_text(c.idontwant_on_publish) + ",\"validation\":\""@ + c.validation.label_spec() + "\",\"heartbeat_ms\":"@ + dec(c.heartbeat_ms as nat), ",\"history_length\":"@, x);
        lemma_prefix_extends(x + dec(c.mesh_n as nat) + ",\"mesh_n_low\":"@ + dec(c.mesh_n_low as nat) + ",\"mesh_n_high\":"@ + dec(c.mesh_n_high as nat) + ",\"message_bytes\":"@ + dec(c.message_bytes as nat) + ",\"messages\":"@ + dec(c.messages as nat) + ",\"latency_ms\":"@ + dec(c.latency_ms as nat) + ",\"bandwidth_mbps\":"@ + c.bandwidth_text + ",\"flood_publish\":"@ + bool_text(c.flood_publish) + ",\"idontwant_on_publish\":"@ + bool_text(c.idontwant_on_publish) + ",\"validation\":\""@ + c.validation.label_spec() + "\",\"heartbeat_ms\":"@ + dec(c.heartbeat_ms as nat) + ",\"history_length\":"@, dec(c.history_length as nat), x);
        lemma_prefix_extends(x + dec(c.mesh_n as nat) + ",\"mesh_n_low\":"@ + dec(c.mesh_n_low as nat) + ",\"mesh_n_high\":"@ + dec(c.mesh_n_high as nat) + ",\"message_bytes\":"@ + dec(c.message_bytes as nat) + ",\"messages\":"@ + dec(c.messages as nat) + ",\"latency_ms\":"@ + dec(c.latency_ms as nat) + ",\"bandwidth_mbps\":"@ + c.bandwidth_text + ",\"flood_publish\":"@ + bool_text(c.flood_publish) + ",\"idontwant_on_publish\":"@ + bool_text(c.idontwant_on_publish) + ",\"validation\":\""@ + c.validation.label_spec() + "\",\"heartbeat_ms\":"@ + dec(c.heartbeat_ms as nat) + ",\"history_length\":"@ + dec(c.history_length as nat), ",\"history_gossip\":"@, x);
        lemma_prefix_extends(x + dec(c.mesh_n as nat) + ",\"mesh_n_low\":"@ + dec(c.mesh_n_low as nat) + ",\"mesh_n_high\":"@ + dec(c.mesh_n_high as nat) + ",\"message_bytes\":"@ + dec(c.message_bytes as nat) + ",\"messages\":"@ + dec(c.messages as nat) + ",\"latency_ms\":"@ + dec(c.latency_ms as nat) + ",\"bandwidth_mbps\":"@ + c.bandwidth_text + ",\"flood_publish\":"@ + bool_text(c.flood_publish) + ",\"idontwant_on_publish\":"@ + bool_text(c.idontwant_on_publish) + ",\"validation\":\""@ + c.validation.label_spec() + "\",\"heartbeat_ms\":"@ + dec(c.heartbeat_ms as nat) + ",\"history_length\":"@ + dec(c.history_length as nat) + ",\"history_gossip\":"@, dec(c.history_gossip as nat), x);
        lemma_prefix_extends(x + dec(c.mesh_n as nat) + ",\"mesh_n_low\":"@ + dec(c.mesh_n_low as nat) + ",\"mesh_n_high\":"@ + dec(c.mesh_n_high as nat) + ",\"message_bytes\":"@ + dec(c.message_bytes as nat) + ",\"messages\":"@ + dec(c.messages as nat) + ",\"latency_ms\":"@ + dec(c.latency_ms as nat) + ",\"bandwidth_mbps\":"@ + c.bandwidth_text + ",\"flood_publish\":"@ + bool_text(c.flood_publish) + ",\"idontwant_on_publish\":"@ + bool_text(c.idontwant_on_publish) + ",\"validation\":\""@ + c.validation.label_spec() + "\",\"heartbeat_ms\":"@ + dec(c.heartbeat_ms as nat) + ",\"history_length\":"@ + dec(c.history_length as nat) + ",\"history_gossip\":"@ + dec(c.history_gossip as nat), ",\"max_transmit_size\":"@, x);
        lemma_prefix_extends(x + dec(c.mesh_n as nat) + ",\"mesh_n_low\":"@ + dec(c.mesh_n_low as nat) + ",\"mesh_n_high\":"@ + dec(c.mesh_n_high as nat) + ",\"message_bytes\":"@ + dec(c.message_bytes as nat) + ",\"messages\":"@ + dec(c.messages as nat) + ",\"latency_ms\":"@ + dec(c.latency_ms as nat) + ",\"bandwidth_mbps\":"@ + c.bandwidth_text + ",\"flood_publish\":"@ + bool_text(c.flood_publish) + ",\"idontwant_on_publish\":"@ + bool_text(c.idontwant_on_publish) + ",\"validation\":\""@ + c.validation.label_spec() + "\",\"heartbeat_ms\":"@ + dec(c.heartbeat_ms as nat) + ",\"history_length\":"@ + dec(c.history_length as nat) + ",\"history_gossip\":"@ + dec(c.history_gossip as nat) + ",\"max_transmit_size\":"@, dec(max_transmit_spec(c) as nat), x);
        lemma_prefix_extends(x + dec(c.mesh_n as nat) + ",\"mesh_n_low\":"@ + dec(c.mesh_n_low as nat) + ",\"mesh_n_high\":"@ + dec(c.mesh_n_high as nat) + ",\"message_bytes\":"@ + dec(c.message_bytes as nat) + ",\"messages\":"@ + dec(c.messages as nat) + ",\"latency_ms\":"@ + dec(c.latency_ms as nat) + ",\"bandwidth_mbps\":"@ + c.bandwidth_text + ",\"flood_publish\":"@ + bool_text(c.flood_publish) + ",\"idontwant_on_publish\":"@ + bool_text(c.idontwant_on_publish) + ",\"validation\":\""@ + c.validation.label_spec() + "\",\"heartbeat_ms\":"@ + dec(c.heartbeat_ms as nat) + ",\"history_length\":"@ + dec(c.history_length as nat) + ",\"history_gossip\":"@ + dec(c.history_gossip as nat) + ",\"max_transmit_size\":"@ + dec(max_transmit_spec(c) as nat), ",\"warmup_secs\":"@, x);
        lemma_prefix_extends(x + dec(c.mesh_n as nat) + ",\"mesh_n_low\":"@ + dec(c.mesh_n_low as nat) + ",\"mesh_n_high\":"@ + dec(c.mesh_n_high as nat) + ",\"message_bytes\":"@ + dec(c.message_bytes as nat) + ",\"messages\":"@ + dec(c.messages as nat) + ",\"latency_ms\":"@ + dec(c.latency_ms as nat) + ",\"bandwidth_mbps\":"@ + c.bandwidth_text + ",\"flood_publish\":"@ + bool_text(c.flood_publish) + ",\"idontwant_on_publish\":"@ + bool_text(c.idontwant_on_publish) + ",\"validation\":\""@ + c.validation.label_spec() + "\",\"heartbeat_ms\":"@ + dec(c.heartbeat_ms as nat) + ",\"history_length\":"@ + dec(c.history_length as nat) + ",\"history_gossip\":"@ + dec(c.history_gossip as nat) + ",\"max_transmit_size\":"@ + dec(max_transmit_spec(c) as nat) + ",\"warmup_secs\":"@, dec(c.warmup_secs as nat), x);
        lemma_prefix_extends(x + dec(c.mesh_n as nat) + ",\"mesh_n_low\":"@ + dec(c.mesh_n_low as nat) + ",\"mesh_n_high\":"@ + dec(c.mesh_n_high as nat) + ",\"message_bytes\":"@ + dec(c.message_bytes as nat) + ",\"messages\":"@ + dec(c.messages as nat) + ",\"latency_ms\":"@ + dec(c.latency_ms as nat) + ",\"bandwidth_mbps\":"@ + c.bandwidth_text + ",\"flood_publish\":"@ + bool_text(c.flood_publish) + ",\"idontwant_on_publish\":"@ + bool_text(c.idontwant_on_publish) + ",\"validation\":\""@ + c.validation.label_spec() + "\",\"heartbeat_ms\":"@ + dec(c.heartbeat_ms as nat) + ",\"history_length\":"@ + dec(c.history_length as nat) + ",\"history_gossip\":"@ + dec(c.history_gossip as nat) + ",\"max_transmit_size\":"@ + dec(max_transmit_spec(c) as nat) + ",\"warmup_secs\":"@ + dec(c.warmup_secs as nat), ",\"settle_secs\":"@, x);
        lemma_prefix_extends(x + dec(c.mesh_n as nat) + ",\"mesh_n_low\":"@ + dec(c.mesh_n_low as nat) + ",\"mesh_n_high\":"@ + dec(c.mesh_n_high as nat) + ",\"message_bytes\":"@ + dec(c.message_bytes as nat) + ",\"messages\":"@ + dec(c.messages as nat) + ",\"latency_ms\":"@ + dec(c.latency_ms as nat) + ",\"bandwidth_mbps\":"@ + c.bandwidth_text + ",\"flood_publish\":"@ + bool_text(c.flood_publish) + ",\"idontwant_on_publish\":"@ + bool_text(c.idontwant_on_publish) + ",\"validation\":\""@ + c.validation.label_spec() + "\",\"heartbeat_ms\":"@ + dec(c.heartbeat_ms as nat) + ",\"history_length\":"@ + dec(c.history_length as nat) + ",\"history_gossip\":"@ + dec(c.history_gossip as nat) + ",\"max_transmit_size\":"@ + dec(max_transmit_spec(c) as nat) + ",\"warmup_secs\":"@ + dec(c.warmup_secs as nat) + ",\"settle_secs\":"@, dec(c.settle_secs as nat), x);
        lemma_prefix_extends(x + dec(c.mesh_n as nat) + ",\"mesh_n_low\":"@ + dec(c.mesh_n_low as nat) + ",\"mesh_n_high\":"@ + dec(c.mesh_n_high as nat) + ",\"message_bytes\":"@ + dec(c.message_bytes as nat) + ",\"messages\":"@ + dec(c.messages as nat) + ",\"latency_ms\":"@ + dec(c.latency_ms as nat) + ",\"bandwidth_mbps\":"@ + c.bandwidth_text + ",\"flood_publish\":"@ + bool_text(c.flood_publish) + ",\"idontwant_on_publish\":"@ + bool_text(c.idontwant_on_publish) + ",\"validation\":\""@ + c.validation.label_spec() + "\",\"heartbeat_ms\":"@ + dec(c.heartbeat_ms as nat) + ",\"history_length\":"@ + dec(c.history_length as nat) + ",\"history_gossip\":"@ + dec(c.history_gossip as nat) + ",\"max_transmit_size\":"@ + dec(max_transmit_spec(c) as nat) + ",\"warmup_secs\":"@ + dec(c.warmup_secs as nat) + ",\"settle_secs\":"@ + dec(c.settle_secs as nat), ",\"seed\":"@, x);
        lemma_prefix_extends(x + dec(c.mesh_n as nat) + ",\"mesh_n_low\":"@ + dec(c.mesh_n_low as nat) + ",\"mesh_n_high\":"@ + dec(c.mesh_n_high as nat) + ",\"message_bytes\":"@ + dec(c.message_bytes as nat) + ",\"messages\":"@ + dec(c.messages as nat) + ",\"latency_ms\":"@ + dec(c.latency_ms as nat) + ",\"bandwidth_mbps\":"@ + c.bandwidth_text + ",\"flood_publish\":"@ + bool_text(c.flood_publish) + ",\"idontwant_on_publish\":"@ + bool_text(c.idontwant_on_publish) + ",\"validation\":\""@ + c.validation.label_spec() + "\",\"heartbeat_ms\":"@ + dec(c.heartbeat_ms as nat) + ",\"history_length\":"@ + dec(c.history_length as nat) + ",\"history_gossip\":"@ + dec(c.history_gossip as nat) + ",\"max_transmit_size\":"@ + dec(max_transmit_spec(c) as nat) + ",\"warmup_secs\":"@ + dec(c.warmup_secs as nat) + ",\"settle_secs\":"@ + dec(c.settle_secs as nat) + ",\"seed\":"@, dec(c.seed as nat), x);
        lemma_prefix_extends(x + dec(c.mesh_n as nat) + ",\"mesh_n_low\":"@ + dec(c.mesh_n_low as nat) + ",\"mesh_n_high\":"@ + dec(c.mesh_n_high as nat) + ",\"message_bytes\":"@ + dec(c.message_bytes as nat) + ",\"messages\":"@ + dec(c.messages as nat) + ",\"latency_ms\":"@ + dec(c.latency_ms as nat) + ",\"bandwidth_mbps\":"@ + c.bandwidth_text + ",\"flood_publish\":"@ + bool_text(c.flood_publish) + ",\"idontwant_on_publish\":"@ + bool_text(c.idontwant_on_publish) + ",\"validation\":\""@ + c.validation.label_spec() + "\",\"heartbeat_ms\":"@ + dec(c.heartbeat_ms as nat) + ",\"history_length\":"@ + dec(c.history_length as nat) + ",\"history_gossip\":"@ + dec(c.history_gossip as nat) + ",\"max_transmit_size\":"@ + dec(max_transmit_spec(c) as nat) + ",\"warmup_secs\":"@ + dec(c.warmup_secs as nat) + ",\"settle_secs\":"@ + dec(c.settle_secs as nat) + ",\"seed\":"@ + dec(c.seed as nat), ",\"transport\":\"memory+plaintext+yamux-default-windows\",\"signing\":\"signed\",\"libp2p_rev\":\""@, x);
        lemma_prefix_extends(x + dec(c.mesh_n as nat) + ",\"mesh_n_low\":"@ + dec(c.mesh_n_low as nat) + ",\"mesh_n_high\":"@ + dec(c.mesh_n_high as nat) + ",\"message_bytes\":"@ + dec(c.message_bytes as nat) + ",\"messages\":"@ + dec(c.messages as nat) + ",\"latency_ms\":"@ + dec(c.latency_ms as nat) + ",\"bandwidth_mbps\":"@ + c.bandwidth_text + ",\"flood_publish\":"@ + bool_text(c.flood_publish) + ",\"idontwant_on_publish\":"@ + bool_text(c.idontwant_on_publish) + ",\"validation\":\""@ + c.validation.label_spec() + "\",\"heartbeat_ms\":"@ + dec(c.heartbeat_ms as nat) + ",\"history_length\":"@ + dec(c.history_length as nat) + ",\"history_gossip\":"@ + dec(c.history_gossip as nat) + ",\"max_transmit_size\":"@ + dec(max_transmit_spec(c) as nat) + ",\"warmup_secs\":"@ + dec(c.warmup_secs as nat) + ",\"settle_secs\":"@ + dec(c.settle_secs as nat) + ",\"seed\":"@ + dec(c.seed as nat) + ",\"transport\":\"memory+plaintext+yamux-default-windows\",\"signing\":\"signed\",\"libp2p_rev\":\""@, rev, x);
        lemma_prefix_extends(x + dec(c.mesh_n as nat) + ",\"mesh_n_low\":"@ + dec(c.mesh_n_low as nat) + ",\"mesh_n_high\":"@ + dec(c.mesh_n_high as nat) + ",\"message_bytes\":"@ + dec(c.message_bytes as nat) + ",\"messages\":"@ + dec(c.messages as nat) + ",\"latency_ms\":"@ + dec(c.latency_ms as nat) + ",\"bandwidth_mbps\":"@ + c.bandwidth_text + ",\"flood_publish\":"@ + bool_text(c.flood_publish) + ",\"idontwant_on_publish\":"@ + bool_text(c.idontwant_on_publish) + ",\"validation\":\""@ + c.validation.label_spec() + "\",\"heartbeat_ms\":"@ + dec(c.heartbeat_ms as nat) + ",\"history_length\":"@ + dec(c.history_length as nat) + ",\"history_gossip\":"@ + dec(c.history_gossip as nat) + ",\"max_transmit_size\":"@ + dec(max_transmit_spec(c) as nat) + ",\"warmup_secs\":"@ + dec(c.warmup_secs as nat) + ",\"settle_secs\":"@ + dec(c.settle_secs as nat) + ",\"seed\":"@ + dec(c.seed as nat) + ",\"transport\":\"memory+plaintext+yamux-default-windows\",\"signing\":\"signed\",\"libp2p_rev\":\""@ + rev, "\"}"@, x);
        let s = t.skip(x.len() as int);
        assert(t =~= x + s);
    }
    {
        let x = "{\"nodes\":"@ + dec(c.nodes as nat) + ",\"edges_per_node\":"@ + dec(c.edges_per_node as nat) + ",\"mesh_n\":"@ + dec(c.mesh_n as nat) + ",\"mesh_n_low\":"@;
        assert(x.take(x.len() as int) =~= x);
        lemma_prefix_extends(x, dec(c.mesh_n_low as nat), x);
        lemma_prefix_extends(x + dec(c.mesh_n_low as nat), ",\"mesh_n_high\":"@, x);
        lemma_prefix_extends(x + dec(c.mesh_n_low as nat) + ",\"mesh_n_high\":"@, dec(c.mesh_n_high as nat), x);
        lemma_prefix_extends(x + dec(c.mesh_n_low as nat) + ",\"mesh_n_high\":"@ + dec(c.mesh_n_high as nat), ",\"message_bytes\":"@, x);
        lemma_prefix_extends(x + dec(c.mesh_n_low as nat) + ",\"mesh_n_high\":"@ + dec(c.mesh_n_high as nat) + ",\"message_bytes\":"@, dec(c.message_bytes as nat), x);
        lemma_prefix_extends(x + dec(c.mesh_n_low as nat) + ",\"mesh_n_high\":"@ + dec(c.mesh_n_high as nat) + ",\"message_bytes\":"@ + dec(c.message_bytes as nat), ",\"messages\":"@, x);
        lemma_prefix_extends(x + dec(c.mesh_n_low as nat) + ",\"mesh_n_high\":"@ + dec(c.mesh_n_high as nat) + ",\"message_bytes\":"@ + dec(c.message_bytes as nat) + ",\"messages\":"@, dec(c.messages as nat), x);
        lemma_prefix_extends(x + dec(c.mesh_n_low as nat) + ",\"mesh_n_high\":"@ + dec(c.mesh_n_high as nat) + ",\"message_bytes\":"@ + dec(c.message_bytes as nat) + ",\"messages\":"@ + dec(c.messages as nat), ",\"latency_ms\":"@, x);
        lemma_prefix_extends(x + dec(c.mesh_n_low as nat) + ",\"mesh_n_high\":"@ + dec(c.mesh_n_high as nat) + ",\"message_bytes\":"@ + dec(c.message_bytes as nat) + ",\"messages\":"@ + dec(c.messages as nat) + ",\"latency_ms\":"@, dec(c.latency_ms as nat), x);
        lemma_prefix_extends(x + dec(c.mesh_n_low as nat) + ",\"mesh_n_high\":"@ + dec(c.mesh_n_high as nat) + ",\"message_bytes\":"@ + dec(c.message_bytes as nat) + ",\"messages\":"@ + dec(c.messages as nat) + ",\"latency_ms\":"@ + dec(c.latency_ms as nat), ",\"bandwidth_mbps\":"@, x);
        lemma_prefix_extends(x + dec(c.mesh_n_low as nat) + ",\"mesh_n_high\":"@ + dec(c.mesh_n_high as nat) + ",\"message_bytes\":"@ + dec(c.message_bytes as nat) + ",\"messages\":"@ + dec(c.messages as nat) + ",\"latency_ms\":"@ + dec(c.latency_ms as nat) + ",\"bandwidth_mbps\":"@, c.bandwidth_text, x);
        lemma_prefix_extends(x + dec(c.mesh_n_low as nat) + ",\"mesh_n_high\":"@ + dec(c.mesh_n_high as nat) + ",\"message_bytes\":"@ + dec(c.message_bytes as nat) + ",\"messages\":"@ + dec(c.messages as nat) + ",\"latency_ms\":"@ + dec(c.latency_ms as nat) + ",\"bandwidth_mbps\":"@ + c.bandwidth_text, ",\"flood_publish\":"@, x);
        lemma_prefix_extends(x + dec(c.mesh_n_low as nat) + ",\"mesh_n_high\":"@ + dec(c.mesh_n_high as nat) + ",\"message_bytes\":"@ + dec(c.message_bytes as nat) + ",\"messages\":"@ + dec(c.messages as nat) + ",\"latency_ms\":"@ + dec(c.latency_ms as nat) + ",\"bandwidth_mbps\":"@ + c.bandwidth_text + ",\"flood_publish\":"@, bool_text(c.flood_publish), x);
        lemma_prefix_extends(x + dec(c.mesh_n_low as nat) + ",\"mesh_n_high\":"@ + dec(c.mesh_n_high as nat) + ",\"message_bytes\":"@ + dec(c.message_bytes as nat) + ",\"messages\":"@ + dec(c.messages as nat) + ",\"latency_ms\":"@ + dec(c.latency_ms as nat) + ",\"bandwidth_mbps\":"@ + c.bandwidth_text + ",\"flood_publish\":"@ + bool_text(c.flood_publish), ",\"idontwant_on_publish\":"@, x);
        lemma_prefix_extends(x + dec(c.mesh_n_low as nat) + ",\"mesh_n_high\":"@ + dec(c.mesh_n_high as nat) + ",\"message_bytes\":"@ + dec(c.message_bytes as nat) + ",\"messages\":"@ + dec(c.messages as nat) + ",\"latency_ms\":"@ + dec(c.latency_ms as nat) + ",\"bandwidth_mbps\":"@ + c.bandwidth_text + ",\"flood_publish\":"@ + bool_text(c.flood_publish) + ",\"idontwant_on_publish\":"@, bool_text(c.idontwant_on_publish), x);
        lemma_prefix_extends(x + dec(c.mesh_n_low as nat) + ",\"mesh_n_high\":"@ + dec(c.mesh_n_high as nat) + ",\"message_bytes\":"@ + dec(c.message_bytes as nat) + ",\"messages\":"@ + dec(c.messages as nat) + ",\"latency_ms\":"@ + dec(c.latency_ms as nat) + ",\"bandwidth_mbps\":"@ + c.bandwidth_text + ",\"flood_publish\":"@ + bool_text(c.flood_publish) + ",\"idontwant_on_publish\":"@ + bool_text(c.idontwant_on_publish), ",\"validation\":\""@, x);
        lemma_prefix_extends(x + dec(c.mesh_n_low as nat) + ",\"mesh_n_high\":"@ + dec(c.mesh_n_high as nat) + ",\"message_bytes\":"@ + dec(c.message_bytes as nat) + ",\"messages\":"@ + dec(c.messages as nat) + ",\"latency_ms\":"@ + dec(c.latency_ms as nat) + ",\"bandwidth_mbps\":"@ + c.bandwidth_text + ",\"flood_publish\":"@ + bool_text(c.flood_publish) + ",\"idontwant_on_publish\":"@ + bool_text(c.idontwant_on_publish) + ",\"validation\":\""@, c.validation.label_spec(), x);
        lemma_prefix_extends(x + dec(c.mesh_n_low as nat) + ",\"mesh_n_high\":"@ + dec(c.mesh_n_high as nat) + ",\"message_bytes\":"@ + dec(c.message_bytes as nat) + ",\"messages\":"@ + dec(c.messages as nat) + ",\"latency_ms\":"@ + dec(c.latency_ms as nat) + ",\"bandwidth_mbps\":"@ + c.bandwidth_text + ",\"flood_publish\":"@ + bool_text(c.flood_publish) + ",\"idontwant_on_publish\":"@ + bool_text(c.idontwant_on_publish) + ",\"validation\":\""@ + c.validation.label_spec(), "\",\"heartbeat_ms\":"@, x);
        lemma_prefix_extends(x + dec(c.mesh_n_low as nat) + ",\"mesh_n_high\":"@ + dec(c.mesh_n_high as nat) + ",\"message_bytes\":"@ + dec(c.message_bytes as nat) + ",\"messages\":"@ + dec(c.messages as nat) + ",\"latency_ms\":"@ + dec(c.latency_ms as nat) + ",\"bandwidth_mbps\":"@ + c.bandwidth_text + ",\"flood_publish\":"@ + bool_text(c.flood_publish) + ",\"idontwant_on_publish\":"@ + bool_text(c.idontwant_on_publish) + ",\"validation\":\""@ + c.validation.label_spec() + "\",\"heartbeat_ms\":"@, dec(c.heartbeat_ms as nat), x);
        lemma_prefix_extends(x + dec(c.mesh_n_low as nat) + ",\"mesh_n_high\":"@ + dec(c.mesh_n_high as nat) + ",\"message_bytes\":"@ + dec(c.message_bytes as nat) + ",\"messages\":"@ + dec(c.messages as nat) + ",\"latency_ms\":"@ + dec(c.latency_ms as nat) + ",\"bandwidth_mbps\":"@ + c.bandwidth_text + ",\"flood_publish\":"@ + bool_text(c.flood_publish) + ",\"idontwant_on_publish\":"@ + bool_text(c.idontwant_on_publish) + ",\"validation\":\""@ + c.validation.label_spec() + "\",\"heartbeat_ms\":"@ + dec(c.heartbeat_ms as nat), ",\"history_length\":"@, x);
        lemma_prefix_extends(x + dec(c.mesh_n_low as nat) + ",\"mesh_n_high\":"@ + dec(c.mesh_n_high as nat) + ",\"message_bytes\":"@ + dec(c.message_bytes as nat) + ",\"messages\":"@ + dec(c.messages as nat) + ",\"latency_ms\":"@ + dec(c.latency_ms as nat) + ",\"bandwidth_mbps\":"@ + c.bandwidth_text + ",\"flood_publish\":"@ + bool_text(c.flood_publish) + ",\"idontwant_on_publish\":"@ + bool_text(c.idontwant_on_publish) + ",\"validation\":\""@ + c.validation.label_spec() + "\",\"heartbeat_ms\":"@ + dec(c.heartbeat_ms as nat) + ",\"history_length\":"@, dec(c.history_length as nat), x);
        lemma_prefix_extends(x + dec(c.mesh_n_low as nat) + ",\"mesh_n_high\":"@ + dec(c.mesh_n_high as nat) + ",\"message_bytes\":"@ + dec(c.message_bytes as nat) + ",\"messages\":"@ + dec(c.messages as nat) + ",\"latency_ms\":"@ + dec(c.latency_ms as nat) + ",\"bandwidth_mbps\":"@ + c.bandwidth_text + ",\"flood_publish\":"@ + bool_text(c.flood_publish) + ",\"idontwant_on_publish\":"@ + bool_text(c.idontwant_on_publish) + ",\"validation\":\""@ + c.validation.label_spec() + "\",\"heartbeat_ms\":"@ + dec(c.heartbeat_ms as nat) + ",\"history_length\":"@ + dec(c.history_length as nat), ",\"history_gossip\":"@, x);
        lemma_prefix_extends(x + dec(c.mesh_n_low as nat) + ",\"mesh_n_high\":"@ + dec(c.mesh_n_high as nat) + ",\"message_bytes\":"@ + dec(c.message_bytes as nat) + ",\"messages\":"@ + dec(c.messages as nat) + ",\"latency_ms\":"@ + dec(c.latency_ms as nat) + ",\"bandwidth_mbps\":"@ + c.bandwidth_text + ",\"flood_publish\":"@ + bool_text(c.flood_publish) + ",\"idontwant_on_publish\":"@ + bool_text(c.idontwant_on_publish) + ",\"validation\":\""@ + c.validation.label_spec() + "\",\"heartbeat_ms\":"@ + dec(c.heartbeat_ms as nat) + ",\"history_length\":"@ + dec(c.history_length as nat) + ",\"history_gossip\":"@, dec(c.history_gossip as nat), x);
        lemma_prefix_extends(x + dec(c.mesh_n_low as nat) + ",\"mesh_n_high\":"@ + dec(c.mesh_n_high as nat) + ",\"message_bytes\":"@ + dec(c.message_bytes as nat) + ",\"messages\":"@ + dec(c.messages as nat) + ",\"latency_ms\":"@ + dec(c.latency_ms as nat) + ",\"bandwidth_mbps\":"@ + c.bandwidth_text + ",\"flood_publish\":"@ + bool_text(c.flood_publish) + ",\"idontwant_on_publish\":"@ + bool_text(c.idontwant_on_publish) + ",\"validation\":\""@ + c.validation.label_spec() + "\",\"heartbeat_ms\":"@ + dec(c.heartbeat_ms as nat) + ",\"history_length\":"@ + dec(c.history_length as nat) + ",\"history_gossip\":"@ + dec(c.history_gossip as nat), ",\"max_transmit_size\":"@, x);
        lemma_prefix_extends(x + dec(c.mesh_n_low as nat) + ",\"mesh_n_high\":"@ + dec(c.mesh_n_high as nat) + ",\"message_bytes\":"@ + dec(c.message_bytes as nat) + ",\"messages\":"@ + dec(c.messages as nat) + ",\"latency_ms\":"@ + dec(c.latency_ms as nat) + ",\"bandwidth_mbps\":"@ + c.bandwidth_text + ",\"flood_publish\":"@ + bool_text(c.flood_publish) + ",\"idontwant_on_publish\":"@ + bool_text(c.idontwant_on_publish) + ",\"validation\":\""@ + c.validation.label_spec() + "\",\"heartbeat_ms\":"@ + dec(c.heartbeat_ms as nat) + ",\"history_length\":"@ + dec(c.history_length as nat) + ",\"history_gossip\":"@ + dec(c.history_gossip as nat) + ",\"max_transmit_size\":"@, dec(max_transmit_spec(c) as nat), x);
        lemma_prefix_extends(x + dec(c.mesh_n_low as nat) + ",\"mesh_n_high\":"@ + dec(c.mesh_n_high as nat) + ",\"message_bytes\":"@ + dec(c.message_bytes as nat) + ",\"messages\":"@ + dec(c.messages as nat) + ",\"latency_ms\":"@ + dec(c.latency_ms as nat) + ",\"bandwidth_mbps\":"@ + c.bandwidth_text + ",\"flood_publish\":"@ + bool_text(c.flood_publish) + ",\"idontwant_on_publish\":"@ + bool_text(c.idontwant_on_publish) + ",\"validation\":\""@ + c.validation.label_spec() + "\",\"heartbeat_ms\":"@ + dec(c.heartbeat_ms as nat) + ",\"history_length\":"@ + dec(c.history_length as nat) + ",\"history_gossip\":"@ + dec(c.history_gossip as nat) + ",\"max_transmit_size\":"@ + dec(max_transmit_spec(c) as nat), ",\"warmup_secs\":"@, x);
        lemma_prefix_extends(x + dec(c.mesh_n_low as nat) + ",\"mesh_n_high\":"@ + dec(c.mesh_n_high as nat) + ",\"message_bytes\":"@ + dec(c.message_bytes as nat) + ",\"messages\":"@ + dec(c.messages as nat) + ",\"latency_ms\":"@ + dec(c.latency_ms as nat) + ",\"bandwidth_mbps\":"@ + c.bandwidth_text + ",\"flood_publish\":"@ + bool_text(c.flood_publish) + ",\"idontwant_on_publish\":"@ + bool_text(c.idontwant_on_publish) + ",\"validation\":\""@ + c.validation.label_spec() + "\",\"heartbeat_ms\":"@ + dec(c.heartbeat_ms as nat) + ",\"history_length\":"@ + dec(c.history_length as nat) + ",\"history_gossip\":"@ + dec(c.history_gossip as nat) + ",\"max_transmit_size\":"@ + dec(max_transmit_spec(c) as nat) + ",\"warmup_secs\":"@, dec(c.warmup_secs as nat), x);
        lemma_prefix_extends(x + dec(c.mesh_n_low as nat) + ",\"mesh_n_high\":"@ + dec(c.mesh_n_high as nat) + ",\"message_bytes\":"@ + dec(c.message_bytes as nat) + ",\"messages\":"@ + dec(c.messages as nat) + ",\"latency_ms\":"@ + dec(c.latency_ms as nat) + ",\"bandwidth_mbps\":"@ + c.bandwidth_text + ",\"flood_publish\":"@ + bool_text(c.flood_publish) + ",\"idontwant_on_publish\":"@ + bool_text(c.idontwant_on_publish) + ",\"validation\":\""@ + c.validation.label_spec() + "\",\"heartbeat_ms\":"@ + dec(c.heartbeat_ms as nat) + ",\"history_length\":"@ + dec(c.history_length as nat) + ",\"history_gossip\":"@ + dec(c.history_gossip as nat) + ",\"max_transmit_size\":"@ + dec(max_transmit_spec(c) as nat) + ",\"warmup_secs\":"@ + dec(c.warmup_secs as nat), ",\"settle_secs\":"@, x);
        lemma_prefix_extends(x + dec(c.mesh_n_low as nat) + ",\"mesh_n_high\":"@ + dec(c.mesh_n_high as nat) + ",\"message_bytes\":"@ + dec(c.message_bytes as nat) + ",\"messages\":"@ + dec(c.messages as nat) + ",\"latency_ms\":"@ + dec(c.latency_ms as nat) + ",\"bandwidth_mbps\":"@ + c.bandwidth_text + ",\"flood_publish\":"@ + bool_text(c.flood_publish) + ",\"idontwant_on_publish\":"@ + bool_text(c.idontwant_on_publish) + ",\"validation\":\""@ + c.validation.label_spec() + "\",\"heartbeat_ms\":"@ + dec(c.heartbeat_ms as nat) + ",\"history_length\":"@ + dec(c.history_length as nat) + ",\"history_gossip\":"@ + dec(c.history_gossip as nat) + ",\"max_transmit_size\":"@ + dec(max_transmit_spec(c) as nat) + ",\"warmup_secs\":"@ + dec(c.warmup_secs as nat) + ",\"settle_secs\":"@, dec(c.settle_secs as nat), x);
        lemma_prefix_extends(x + dec(c.mesh_n_low as nat) + ",\"mesh_n_high\":"@ + dec(c.mesh_n_high as nat) + ",\"message_bytes\":"@ + dec(c.message_bytes as nat) + ",\"messages\":"@ + dec(c.messages as nat) + ",\"latency_ms\":"@ + dec(c.latency_ms as nat) + ",\"bandwidth_mbps\":"@ + c.bandwidth_text + ",\"flood_publish\":"@ + bool_text(c.flood_publish) + ",\"idontwant_on_publish\":"@ + bool_text(c.idontwant_on_publish) + ",\"validation\":\""@ + c.validation.label_spec() + "\",\"heartbeat_ms\":"@ + dec(c.heartbeat_ms as nat) + ",\"history_length\":"@ + dec(c.history_length as nat) + ",\"history_gossip\":"@ + dec(c.history_gossip as nat) + ",\"max_transmit_size\":"@ + dec(max_transmit_spec(c) as nat) + ",\"warmup_secs\":"@ + dec(c.warmup_secs as nat) + ",\"settle_secs\":"@ + dec(c.settle_secs as nat), ",\"seed\":"@, x);
        lemma_prefix_extends(x + dec(c.mesh_n_low as nat) + ",\"mesh_n_high\":"@ + dec(c.mesh_n_high as nat) + ",\"message_bytes\":"@ + dec(c.message_bytes as nat) + ",\"messages\":"@ + dec(c.messages as nat) + ",\"latency_ms\":"@ + dec(c.latency_ms as nat) + ",\"bandwidth_mbps\":"@ + c.bandwidth_text + ",\"flood_publish\":"@ + bool_text(c.flood_publish) + ",\"idontwant_on_publish\":"@ + bool_text(c.idontwant_on_publish) + ",\"validation\":\""@ + c.validation.label_spec() + "\",\"heartbeat_ms\":"@ + dec(c.heartbeat_ms as nat) + ",\"history_length\":"@ + dec(c.history_length as nat) + ",\"history_gossip\":"@ + dec(c.history_gossip as nat) + ",\"max_transmit_size\":"@ + dec(max_transmit_spec(c) as nat) + ",\"warmup_secs\":"@ + dec(c.warmup_secs as nat) + ",\"settle_secs\":"@ + dec(c.settle_secs as nat) + ",\"seed\":"@, dec(c.seed as nat), x);
        lemma_prefix_extends(x + dec(c.mesh_n_low as nat) + ",\"mesh_n_high\":"@ + dec(c.mesh_n_high as nat) + ",\"message_bytes\":"@ + dec(c.message_bytes as nat) + ",\"messages\":"@ + dec(c.messages as nat) + ",\"latency_ms\":"@ + dec(c.latency_ms as nat) + ",\"bandwidth_mbps\":"@ + c.bandwidth_text + ",\"flood_publish\":"@ + bool_text(c.flood_publish) + ",\"idontwant_on_publish\":"@ + bool_text(c.idontwant_on_publish) + ",\"validation\":\""@ + c.validation.label_spec() + "\",\"heartbeat_ms\":"@ + dec(c.heartbeat_ms as nat) + ",\"history_length\":"@ + dec(c.history_length as nat) + ",\"history_gossip\":"@ + dec(c.history_gossip as nat) + ",\"max_transmit_size\":"@ + dec(max_transmit_spec(c) as nat) + ",\"warmup_secs\":"@ + dec(c.warmup_secs as nat) + ",\"settle_secs\":"@ + dec(c.settle_secs as nat) + ",\"seed\":"@ + dec(c.seed as nat), ",\"transport\":\"memory+plaintext+yamux-default-windows\",\"signing\":\"signed\",\"libp2p_rev\":\""@, x);
        lemma_prefix_extends(x + dec(c.mesh_n_low as nat) + ",\"mesh_n_high\":"@ + dec(c.mesh_n_high as nat) + ",\"message_bytes\":"@ + dec(c.message_bytes as nat) + ",\"messages\":"@ + dec(c.messages as nat) + ",\"latency_ms\":"@ + dec(c.latency_ms as nat) + ",\"bandwidth_mbps\":"@ + c.bandwidth_text + ",\"flood_publish\":"@ + bool_text(c.flood_publish) + ",\"idontwant_on_publish\":"@ + bool_text(c.idontwant_on_publish) + ",\"validation\":\""@ + c.validation.label_spec() + "\",\"heartbeat_ms\":"@ + dec(c.heartbeat_ms as nat) + ",\"history_length\":"@ + dec(c.history_length as nat) + ",\"history_gossip\":"@ + dec(c.history_gossip as nat) + ",\"max_transmit_size\":"@ + dec(max_transmit_spec(c) as nat) + ",\"warmup_secs\":"@ + dec(c.warmup_secs as nat) + ",\"settle_secs\":"@ + dec(c.settle_secs as nat) + ",\"seed\":"@ + dec(c.seed as nat) + ",\"transport\":\"memory+plaintext+yamux-default-windows\",\"signing\":\"signed\",\"libp2p_rev\":\""@, rev, x);
        lemma_prefix_extends(x + dec(c.mesh_n_low as nat) + ",\"mesh_n_high\":"@ + dec(c.mesh_n_high as nat) + ",\"message_bytes\":"@ + dec(c.message_bytes as nat) + ",\"messages\":"@ + dec(c.messages as nat) + ",\"latency_ms\":"@ + dec(c.latency_ms as nat) + ",\"bandwidth_mbps\":"@ + c.bandwidth_text + ",\"flood_publish\":"@ + bool_text(c.flood_publish) + ",\"idontwant_on_publish\":"@ + bool_text(c.idontwant_on_publish) + ",\"validation\":\""@ + c.validation.label_spec() + "\",\"heartbeat_ms\":"@ + dec(c.heartbeat_ms as nat) + ",\"history_length\":"@ + dec(c.history_length as nat) + ",\"history_gossip\":"@ + dec(c.history_gossip as nat) + ",\"max_transmit_size\":"@ + dec(max_transmit_spec(c) as nat) + ",\"warmup_secs\":"@ + dec(c.warmup_secs as nat) + ",\"settle_secs\":"@ + dec(c.settle_secs as nat) + ",\"seed\":"@ + dec(c.seed as nat) + ",\"transport\":\"memory+plaintext+yamux-default-windows\",\"signing\":\"signed\",\"libp2p_rev\":\""@ + rev, "\"}"@, x);
        let s = t.skip(x.len() as int);
        assert(t =~= x + s);
    }
    {
        let x = "{\"nodes\":"@ + dec(c.nodes as nat) + ",\"edges_per_node\":"@ + dec(c.edges_per_node as nat) + ",\"mesh_n\":"@ + dec(c.mesh_n as nat) + ",\"mesh_n_low\":"@ + dec(c.mesh_n_low as nat) + ",\"mesh_n_high\":"@;
        assert(x.take(x.len() as int) =~= x);
        lemma_prefix_extends(x, dec(c.mesh_n_high as nat), x);
        lemma_prefix_extends(x + dec(c.mesh_n_high as nat), ",\"message_bytes\":"@, x);
        lemma_prefix_extends(x + dec(c.mesh_n_high as nat) + ",\"message_bytes\":"@, dec(c.message_bytes as nat), x);
        lemma_prefix_extends(x + dec(c.mesh_n_high as nat) + ",\"message_bytes\":"@ + dec(c.message_bytes as nat), ",\"messages\":"@, x);
        lemma_prefix_extends(x + dec(c.mesh_n_high as nat) + ",\"message_bytes\":"@ + dec(c.message_bytes as nat) + ",\"messages\":"@, dec(c.messages as nat), x);
        lemma_prefix_extends(x + dec(c.mesh_n_high as nat) + ",\"message_bytes\":"@ + dec(c.message_bytes as nat) + ",\"messages\":"@ + dec(c.messages as nat), ",\"latency_ms\":"@, x);
        lemma_prefix_extends(x + dec(c.mesh_n_high as nat) + ",\"message_bytes\":"@ + dec(c.message_bytes as nat) + ",\"messages\":"@ + dec(c.messages as nat) + ",\"latency_ms\":"@, dec(c.latency_ms as nat), x);
        lemma_prefix_extends(x + dec(c.mesh_n_high as nat) + ",\"message_bytes\":"@ + dec(c.message_bytes as nat) + ",\"messages\":"@ + dec(c.messages as nat) + ",\"latency_ms\":"@ + dec(c.latency_ms as nat), ",\"bandwidth_mbps\":"@, x);
        lemma_prefix_extends(x + dec(c.mesh_n_high as nat) + ",\"message_bytes\":"@ + dec(c.message_bytes as nat) + ",\"messages\":"@ + dec(c.messages as nat) + ",\"latency_ms\":"@ + dec(c.latency_ms as nat) + ",\"bandwidth_mbps\":"@, c.bandwidth_text, x);
        lemma_prefix_extends(x + dec(c.mesh_n_high as nat) + ",\"message_bytes\":"@ + dec(c.message_bytes as nat) + ",\"messages\":"@ + dec(c.messages as nat) + ",\"latency_ms\":"@ + dec(c.latency_ms as nat) + ",\"bandwidth_mbps\":"@ + c.bandwidth_text, ",\"flood_publish\":"@, x);
        lemma_prefix_extends(x + dec(c.mesh_n_high as nat) + ",\"message_bytes\":"@ + dec(c.message_bytes as nat) + ",\"messages\":"@ + dec(c.messages as nat) + ",\"latency_ms\":"@ + dec(c.latency_ms as nat) + ",\"bandwidth_mbps\":"@ + c.bandwidth_text + ",\"flood_publish\":"@, bool_text(c.flood_publish), x);
        lemma_prefix_extends(x + dec(c.mesh_n_high as nat) + ",\"message_bytes\":"@ + dec(c.message_bytes as nat) + ",\"messages\":"@ + dec(c.messages as nat) + ",\"latency_ms\":"@ + dec(c.latency_ms as nat) + ",\"bandwidth_mbps\":"@ + c.bandwidth_text + ",\"flood_publish\":"@ + bool_text(c.flood_publish), ",\"idontwant_on_publish\":"@, x);
        lemma_prefix_extends(x + dec(c.mesh_n_high as nat) + ",\"message_bytes\":"@ + dec(c.message_bytes as nat) + ",\"messages\":"@ + dec(c.messages as nat) + ",\"latency_ms\":"@ + dec(c.latency_ms as nat) + ",\"bandwidth_mbps\":"@ + c.bandwidth_text + ",\"flood_publish\":"@ + bool_text(c.flood_publish) + ",\"idontwant_on_publish\":"@, bool_text(c.idontwant_on_publish), x);
        lemma_prefix_extends(x + dec(c.mesh_n_high as nat) + ",\"message_bytes\":"@ + dec(c.message_bytes as nat) + ",\"messages\":"@ + dec(c.messages as nat) + ",\"latency_ms\":"@ + dec(c.latency_ms as nat) + ",\"bandwidth_mbps\":"@ + c.bandwidth_text + ",\"flood_publish\":"@ + bool_text(c.flood_publish) + ",\"idontwant_on_publish\":"@ + bool_text(c.idontwant_on_publish), ",\"validation\":\""@, x);
        lemma_prefix_extends(x + dec(c.mesh_n_high as nat) + ",\"message_bytes\":"@ + dec(c.message_bytes as nat) + ",\"messages\":"@ + dec(c.messages as nat) + ",\"latency_ms\":"@ + dec(c.latency_ms as nat) + ",\"bandwidth_mbps\":"@ + c.bandwidth_text + ",\"flood_publish\":"@ + bool_text(c.flood_publish) + ",\"idontwant_on_publish\":"@ + bool_text(c.idontwant_on_publish) + ",\"validation\":\""@, c.validation.label_spec(), x);
        lemma_prefix_extends(x + dec(c.mesh_n_high as nat) + ",\"message_bytes\":"@ + dec(c.message_bytes as nat) + ",\"messages\":"@ + dec(c.messages as nat) + ",\"latency_ms\":"@ + dec(c.latency_ms as nat) + ",\"bandwidth_mbps\":"@ + c.bandwidth_text + ",\"flood_publish\":"@ + bool_text(c.flood_publish) + ",\"idontwant_on_publish\":"@ + bool_text(c.idontwant_on_publish) + ",\"validation\":\""@ + c.validation.label_spec(), "\",\"heartbeat_ms\":"@, x);
        lemma_prefix_extends(x + dec(c.mesh_n_high as nat) + ",\"message_bytes\":"@ + dec(c.message_bytes as nat) + ",\"messages\":"@ + dec(c.messages as nat) + ",\"latency_ms\":"@ + dec(c.latency_ms as nat) + ",\"bandwidth_mbps\":"@ + c.bandwidth_text + ",\"flood_publish\":"@ + bool_text(c.flood_publish) + ",\"idontwant_on_publish\":"@ + bool_text(c.idontwant_on_publish) + ",\"validation\":\""@ + c.validation.label_spec() + "\",\"heartbeat_ms\":"@, dec(c.heartbeat_ms as nat), x);
        lemma_prefix_extends(x + dec(c.mesh_n_high as nat) + ",\"message_bytes\":"@ + dec(c.message_bytes as nat) + ",\"messages\":"@ + dec(c.messages as nat) + ",\"latency_ms\":"@ + dec(c.latency_ms as nat) + ",\"bandwidth_mbps\":"@ + c.bandwidth_text + ",\"flood_publish\":"@ + bool_text(c.flood_publish) + ",\"idontwant_on_publish\":"@ + bool_text(c.idontwant_on_publish) + ",\"validation\":\""@ + c.validation.label_spec() + "\",\"heartbeat_ms\":"@ + dec(c.heartbeat_ms as nat), ",\"history_length\":"@, x);
        lemma_prefix_extends(x + dec(c.mesh_n_high as nat) + ",\"message_bytes\":"@ + dec(c.message_bytes as nat) + ",\"messages\":"@ + dec(c.messages as nat) + ",\"latency_ms\":"@ + dec(c.latency_ms as nat) + ",\"bandwidth_mbps\":"@ + c.bandwidth_text + ",\"flood_publish\":"@ + bool_text(c.flood_publish) + ",\"idontwant_on_publish\":"@ + bool_text(c.idontwant_on_publish) + ",\"validation\":\""@ + c.validation.label_spec() + "\",\"heartbeat_ms\":"@ + dec(c.heartbeat_ms as nat) + ",\"history_length\":"@, dec(c.history_length as nat), x);
        lemma_prefix_extends(x + dec(c.mesh_n_high as nat) + ",\"message_bytes\":"@ + dec(c.message_bytes as nat) + ",\"messages\":"@ + dec(c.messages as nat) + ",\"latency_ms\":"@ + dec(c.latency_ms as nat) + ",\"bandwidth_mbps\":"@ + c.bandwidth_text + ",\"flood_publish\":"@ + bool_text(c.flood_publish) + ",\"idontwant_on_publish\":"@ + bool_text(c.idontwant_on_publish) + ",\"validation\":\""@ + c.validation.label_spec() + "\",\"heartbeat_ms\":"@ + dec(c.heartbeat_ms as nat) + ",\"history_length\":"@ + dec(c.history_length as nat), ",\"history_gossip\":"@, x);
        lemma_prefix_extends(x + dec(c.mesh_n_high as nat) + ",\"message_bytes\":"@ + dec(c.message_bytes as nat) + ",\"messages\":"@ + dec(c.messages as nat) + ",\"latency_ms\":"@ + dec(c.latency_ms as nat) + ",\"bandwidth_mbps\":"@ + c.bandwidth_text + ",\"flood_publish\":"@ + bool_text(c.flood_publish) + ",\"idontwant_on_publish\":"@ + bool_text(c.idontwant_on_publish) + ",\"validation\":\""@ + c.validation.label_spec() + "\",\"heartbeat_ms\":"@ + dec(c.heartbeat_ms as nat) + ",\"history_length\":"@ + dec(c.history_length as nat) + ",\"history_gossip\":"@, dec(c.history_gossip as nat), x);
        lemma_prefix_extends(x + dec(c.mesh_n_high as nat) + ",\"message_bytes\":"@ + dec(c.message_bytes as nat) + ",\"messages\":"@ + dec(c.messages as nat) + ",\"latency_ms\":"@ + dec(c.latency_ms as nat) + ",\"bandwidth_mbps\":"@ + c.bandwidth_text + ",\"flood_publish\":"@ + bool_text(c.flood_publish) + ",\"idontwant_on_publish\":"@ + bool_text(c.idontwant_on_publish) + ",\"validation\":\""@ + c.validation.label_spec() + "\",\"heartbeat_ms\":"@ + dec(c.heartbeat_ms as nat) + ",\"history_length\":"@ + dec(c.history_length as nat) + ",\"history_gossip\":"@ + dec(c.history_gossip as nat), ",\"max_transmit_size\":"@, x);
        lemma_prefix_extends(x + dec(c.mesh_n_high as nat) + ",\"message_bytes\":"@ + dec(c.message_bytes as nat) + ",\"messages\":"@ + dec(c.messages as nat) + ",\"latency_ms\":"@ + dec(c.latency_ms as nat) + ",\"bandwidth_mbps\":"@ + c.bandwidth_text + ",\"flood_publish\":"@ + bool_text(c.flood_publish) + ",\"idontwant_on_publish\":"@ + bool_text(c.idontwant_on_publish) + ",\"validation\":\""@ + c.validation.label_spec() + "\",\"heartbeat_ms\":"@ + dec(c.heartbeat_ms as nat) + ",\"history_length\":"@ + dec(c.history_length as nat) + ",\"history_gossip\":"@ + dec(c.history_gossip as nat) + ",\"max_transmit_size\":"@, dec(max_transmit_spec(c) as nat), x);
        lemma_prefix_extends(x + dec(c.mesh_n_high as nat) + ",\"message_bytes\":"@ + dec(c.message_bytes as nat) + ",\"messages\":"@ + dec(c.messages as nat) + ",\"latency_ms\":"@ + dec(c.latency_ms as nat) + ",\"bandwidth_mbps\":"@ + c.bandwidth_text + ",\"flood_publish\":"@ + bool_text(c.flood_publish) + ",\"idontwant_on_publish\":"@ + bool_text(c.idontwant_on_publish) + ",\"validation\":\""@ + c.validation.label_spec() + "\",\"heartbeat_ms\":"@ + dec(c.heartbeat_ms as nat) + ",\"history_length\":"@ + dec(c.history_length as nat) + ",\"history_gossip\":"@ + dec(c.history_gossip as nat) + ",\"max_transmit_size\":"@ + dec(max_transmit_spec(c) as nat), ",\"warmup_secs\":"@, x);
        lemma_prefix_extends(x + dec(c.mesh_n_high as nat) + ",\"message_bytes\":"@ + dec(c.message_bytes as nat) + ",\"messages\":"@ + dec(c.messages as nat) + ",\"latency_ms\":"@ + dec(c.latency_ms as nat) + ",\"bandwidth_mbps\":"@ + c.bandwidth_text + ",\"flood_publish\":"@ + bool_text(c.flood_publish) + ",\"idontwant_on_publish\":"@ + bool_text(c.idontwant_on_publish) + ",\"validation\":\""@ + c.validation.label_spec() + "\",\"heartbeat_ms\":"@ + dec(c.heartbeat_ms as nat) + ",\"history_length\":"@ + dec(c.history_length as nat) + ",\"history_gossip\":"@ + dec(c.history_gossip as nat) + ",\"max_transmit_size\":"@ + dec(max_transmit_spec(c) as nat) + ",\"warmup_secs\":"@, dec(c.warmup_secs as nat), x);
        lemma_prefix_extends(x + dec(c.mesh_n_high as nat) + ",\"message_bytes\":"@ + dec(c.message_bytes as nat) + ",\"messages\":"@ + dec(c.messages as nat) + ",\"latency_ms\":"@ + dec(c.latency_ms as nat) + ",\"bandwidth_mbps\":"@ + c.bandwidth_text + ",\"flood_publish\":"@ + bool_text(c.flood_publish) + ",\"idontwant_on_publish\":"@ + bool_text(c.idontwant_on_publish) + ",\"validation\":\""@ + c.validation.label_spec() + "\",\"heartbeat_ms\":"@ + dec(c.heartbeat_ms as nat) + ",\"history_length\":"@ + dec(c.history_length as nat) + ",\"history_gossip\":"@ + dec(c.history_gossip as nat) + ",\"max_transmit_size\":"@ + dec(max_transmit_spec(c) as nat) + ",\"warmup_secs\":"@ + dec(c.warmup_secs as nat), ",\"settle_secs\":"@, x);
        lemma_prefix_extends(x + dec(c.mesh_n_high as nat) + ",\"message_bytes\":"@ + dec(c.message_bytes as nat) + ",\"messages\":"@ + dec(c.messages as nat) + ",\"latency_ms\":"@ + dec(c.latency_ms as nat) + ",\"bandwidth_mbps\":"@ + c.bandwidth_text + ",\"flood_publish\":"@ + bool_text(c.flood_publish) + ",\"idontwant_on_publish\":"@ + bool_text(c.idontwant_on_publish) + ",\"validation\":\""@ + c.validation.label_spec() + "\",\"heartbeat_ms\":"@ + dec(c.heartbeat_ms as nat) + ",\"history_length\":"@ + dec(c.history_length as nat) + ",\"history_gossip\":"@ + dec(c.history_gossip as nat) + ",\"max_transmit_size\":"@ + dec(max_transmit_spec(c) as nat) + ",\"warmup_secs\":"@ + dec(c.warmup_secs as nat) + ",\"settle_secs\":"@, dec(c.settle_secs as nat), x);
        lemma_prefix_extends(x + dec(c.mesh_n_high as nat) + ",\"message_bytes\":"@ + dec(c.message_bytes as nat) + ",\"messages\":"@ + dec(c.messages as nat) + ",\"latency_ms\":"@ + dec(c.latency_ms as nat) + ",\"bandwidth_mbps\":"@ + c.bandwidth_text + ",\"flood_publish\":"@ + bool_text(c.flood_publish) + ",\"idontwant_on_publish\":"@ + bool_text(c.idontwant_on_publish) + ",\"validation\":\""@ + c.validation.label_spec() + "\",\"heartbeat_ms\":"@ + dec(c.heartbeat_ms as nat) + ",\"history_length\":"@ + dec(c.history_length as nat) + ",\"history_gossip\":"@ + dec(c.history_gossip as nat) + ",\"max_transmit_size\":"@ + dec(max_transmit_spec(c) as nat) + ",\"warmup_secs\":"@ + dec(c.warmup_secs as nat) + ",\"settle_secs\":"@ + dec(c.settle_secs as nat), ",\"seed\":"@, x);
        lemma_prefix_extends(x + dec(c.mesh_n_high as nat) + ",\"message_bytes\":"@ + dec(c.message_bytes as nat) + ",\"messages\":"@ + dec(c.messages as nat) + ",\"latency_ms\":"@ + dec(c.latency_ms as nat) + ",\"bandwidth_mbps\":"@ + c.bandwidth_text + ",\"flood_publish\":"@ + bool_text(c.flood_publish) + ",\"idontwant_on_publish\":"@ + bool_text(c.idontwant_on_publish) + ",\"validation\":\""@ + c.validation.label_spec() + "\",\"heartbeat_ms\":"@ + dec(c.heartbeat_ms as nat) + ",\"history_length\":"@ + dec(c.history_length as nat) + ",\"history_gossip\":"@ + dec(c.history_gossip as nat) + ",\"max_transmit_size\":"@ + dec(max_transmit_spec(c) as nat) + ",\"warmup_secs\":"@ + dec(c.warmup_secs as nat) + ",\"settle_secs\":"@ + dec(c.settle_secs as nat) + ",\"seed\":"@, dec(c.seed as nat), x);
        lemma_prefix_extends(x + dec(c.mesh_n_high as nat) + ",\"message_bytes\":"@ + dec(c.message_bytes as nat) + ",\"messages\":"@ + dec(c.messages as nat) + ",\"latency_ms\":"@ + dec(c.latency_ms as nat) + ",\"bandwidth_mbps\":"@ + c.bandwidth_text + ",\"flood_publish\":"@ + bool_text(c.flood_publish) + ",\"idontwant_on_publish\":"@ + bool_text(c.idontwant_on_publish) + ",\"validation\":\""@ + c.validation.label_spec() + "\",\"heartbeat_ms\":"@ + dec(c.heartbeat_ms as nat) + ",\"history_length\":"@ + dec(c.history_length as nat) + ",\"history_gossip\":"@ + dec(c.history_gossip as nat) + ",\"max_transmit_size\":"@ + dec(max_transmit_spec(c) as nat) + ",\"warmup_secs\":"@ + dec(c.warmup_secs as nat) + ",\"settle_secs\":"@ + dec(c.settle_secs as nat) + ",\"seed\":"@ + dec(c.seed as nat), ",\"transport\":\"memory+plaintext+yamux-default-windows\",\"signing\":\"signed\",\"libp2p_rev\":\""@, x);
        lemma_prefix_extends(x + dec(c.mesh_n_high as nat) + ",\"message_bytes\":"@ + dec(c.message_bytes as nat) + ",\"messages\":"@ + dec(c.messages as nat) + ",\"latency_ms\":"@ + dec(c.latency_ms as nat) + ",\"bandwidth_mbps\":"@ + c.bandwidth_text + ",\"flood_publish\":"@ + bool_text(c.flood_publish) + ",\"idontwant_on_publish\":"@ + bool_text(c.idontwant_on_publish) + ",\"validation\":\""@ + c.validation.label_spec() + "\",\"heartbeat_ms\":"@ + dec(c.heartbeat_ms as nat) + ",\"history_length\":"@ + dec(c.history_length as nat) + ",\"history_gossip\":"@ + dec(c.history_gossip as nat) + ",\"max_transmit_size\":"@ + dec(max_transmit_spec(c) as nat) + ",\"warmup_secs\":"@ + dec(c.warmup_secs as nat) + ",\"settle_secs\":"@ + dec(c.settle_secs as nat) + ",\"seed\":"@ + dec(c.seed as nat) + ",\"transport\":\"memory+plaintext+yamux-default-windows\",\"signing\":\"signed\",\"libp2p_rev\":\""@, rev, x);
        lemma_prefix_extends(x + dec(c.mesh_n_high as nat) + ",\"message_bytes\":"@ + dec(c.message_bytes as nat) + ",\"messages\":"@ + dec(c.messages as nat) + ",\"latency_ms\":"@ + dec(c.latency_ms as nat) + ",\"bandwidth_mbps\":"@ + c.bandwidth_text + ",\"flood_publish\":"@ + bool_text(c.flood_publish) + ",\"idontwant_on_publish\":"@ + bool_text(c.idontwant_on_publish) + ",\"validation\":\""@ + c.validation.label_spec() + "\",\"heartbeat_ms\":"@ + dec(c.heartbeat_ms as nat) + ",\"history_length\":"@ + dec(c.history_length as nat) + ",\"history_gossip\":"@ + dec(c.history_gossip as nat) + ",\"max_transmit_size\":"@ + dec(max_transmit_spec(c) as nat) + ",\"warmup_secs\":"@ + dec(c.warmup_secs as nat) + ",\"settle_secs\":"@ + dec(c.settle_secs as nat) + ",\"seed\":"@ + dec(c.seed as nat) + ",\"transport\":\"memory+plaintext+yamux-default-windows\",\"signing\":\"signed\",\"libp2p_rev\":\""@ + rev, "\"}"@, x);
        let s = t.skip(x.len() as int);
        assert(t =~= x + s);
    }
    {
        let x = "{\"nodes\":"@ + dec(c.nodes as nat) + ",\"edges_per_node\":"@ + dec(c.edges_per_node as nat) + ",\"mesh_n\":"@ + dec(c.mesh_n as nat) + ",\"mesh_n_low\":"@ + dec(c.mesh_n_low as nat) + ",\"mesh_n_high\":"@ + dec(c.mesh_n_high as nat) + ",\"message_bytes\":"@;
        assert(x.take(x.len() as int) =~= x);
        lemma_prefix_extends(x, dec(c.message_bytes as nat), x);
        lemma_prefix_extends(x + dec(c.message_bytes as nat), ",\"messages\":"@, x);
        lemma_prefix_extends(x + dec(c.message_bytes as nat) + ",\"messages\":"@, dec(c.messages as nat), x);
        lemma_prefix_extends(x + dec(c.message_bytes as nat) + ",\"messages\":"@ + dec(c.messages as nat), ",\"latency_ms\":"@, x);
        lemma_prefix_extends(x + dec(c.message_bytes as nat) + ",\"messages\":"@ + dec(c.messages as nat) + ",\"latency_ms\":"@, dec(c.latency_ms as nat), x);
        lemma_prefix_extends(x + dec(c.message_bytes as nat) + ",\"messages\":"@ + dec(c.messages as nat) + ",\"latency_ms\":"@ + dec(c.latency_ms as nat), ",\"bandwidth_mbps\":"@, x);
        lemma_prefix_extends(x + dec(c.message_bytes as nat) + ",\"messages\":"@ + dec(c.messages as nat) + ",\"latency_ms\":"@ + dec(c.latency_ms as nat) + ",\"bandwidth_mbps\":"@, c.bandwidth_text, x);
        lemma_prefix_extends(x + dec(c.message_bytes as nat) + ",\"messages\":"@ + dec(c.messages as nat) + ",\"latency_ms\":"@ + dec(c.latency_ms as nat) + ",\"bandwidth_mbps\":"@ + c.bandwidth_text, ",\"flood_publish\":"@, x);
        lemma_prefix_extends(x + dec(c.message_bytes as nat) + ",\"messages\":"@ + dec(c.messages as nat) + ",\"latency_ms\":"@ + dec(c.latency_ms as nat) + ",\"bandwidth_mbps\":"@ + c.bandwidth_text + ",\"flood_publish\":"@, bool_text(c.flood_publish), x);
        lemma_prefix_extends(x + dec(c.message_bytes as nat) + ",\"messages\":"@ + dec(c.messages as nat) + ",\"latency_ms\":"@ + dec(c.latency_ms as nat) + ",\"bandwidth_mbps\":"@ + c.bandwidth_text + ",\"flood_publish\":"@ + bool_text(c.flood_publish), ",\"idontwant_on_publish\":"@, x);
        lemma_prefix_extends(x + dec(c.message_bytes as nat) + ",\"messages\":"@ + dec(c.messages as nat) + ",\"latency_ms\":"@ + dec(c.latency_ms as nat) + ",\"bandwidth_mbps\":"@ + c.bandwidth_text + ",\"flood_publish\":"@ + bool_text(c.flood_publish) + ",\"idontwant_on_publish\":"@, bool_text(c.idontwant_on_publish), x);
        lemma_prefix_extends(x + dec(c.message_bytes as nat) + ",\"messages\":"@ + dec(c.messages as nat) + ",\"latency_ms\":"@ + dec(c.latency_ms as nat) + ",\"bandwidth_mbps\":"@ + c.bandwidth_text + ",\"flood_publish\":"@ + bool_text(c.flood_publish) + ",\"idontwant_on_publish\":"@ + bool_text(c.idontwant_on_publish), ",\"validation\":\""@, x);
        lemma_prefix_extends(x + dec(c.message_bytes as nat) + ",\"messages\":"@ + dec(c.messages as nat) + ",\"latency_ms\":"@ + dec(c.latency_ms as nat) + ",\"bandwidth_mbps\":"@ + c.bandwidth_text + ",\"flood_publish\":"@ + bool_text(c.flood_publish) + ",\"idontwant_on_publish\":"@ + bool_text(c.idontwant_on_publish) + ",\"validation\":\""@, c.validation.label_spec(), x);
        lemma_prefix_extends(x + dec(c.message_bytes as nat) + ",\"messages\":"@ + dec(c.messages as nat) + ",\"latency_ms\":"@ + dec(c.latency_ms as nat) + ",\"bandwidth_mbps\":"@ + c.bandwidth_text + ",\"flood_publish\":"@ + bool_text(c.flood_publish) + ",\"idontwant_on_publish\":"@ + bool_text(c.idontwant_on_publish) + ",\"validation\":\""@ + c.validation.label_spec(), "\",\"heartbeat_ms\":"@, x);
        lemma_prefix_extends(x + dec(c.message_bytes as nat) + ",\"messages\":"@ + dec(c.messages as nat) + ",\"latency_ms\":"@ + dec(c.latency_ms as nat) + ",\"bandwidth_mbps\":"@ + c.bandwidth_text + ",\"flood_publish\":"@ + bool_text(c.flood_publish) + ",\"idontwant_on_publish\":"@ + bool_text(c.idontwant_on_publish) + ",\"validation\":\""@ + c.validation.label_spec() + "\",\"heartbeat_ms\":"@, dec(c.heartbeat_ms as nat), x);
        lemma_prefix_extends(x + dec(c.message_bytes as nat) + ",\"messages\":"@ + dec(c.messages as nat) + ",\"latency_ms\":"@ + dec(c.latency_ms as nat) + ",\"bandwidth_mbps\":"@ + c.bandwidth_text + ",\"flood_publish\":"@ + bool_text(c.flood_publish) + ",\"idontwant_on_publish\":"@ + bool_text(c.idontwant_on_publish) + ",\"validation\":\""@ + c.validation.label_spec() + "\",\"heartbeat_ms\":"@ + dec(c.heartbeat_ms as nat), ",\"history_length\":"@, x);
        lemma_prefix_extends(x + dec(c.message_bytes as nat) + ",\"messages\":"@ + dec(c.messages as nat) + ",\"latency_ms\":"@ + dec(c.latency_ms as nat) + ",\"bandwidth_mbps\":"@ + c.bandwidth_text + ",\"flood_publish\":"@ + bool_text(c.flood_publish) + ",\"idontwant_on_publish\":"@ + bool_text(c.idontwant_on_publish) + ",\"validation\":\""@ + c.validation.label_spec() + "\",\"heartbeat_ms\":"@ + dec(c.heartbeat_ms as nat) + ",\"history_length\":"@, dec(c.history_length as nat), x);
        lemma_prefix_extends(x + dec(c.message_bytes as nat) + ",\"messages\":"@ + dec(c.messages as nat) + ",\"latency_ms\":"@ + dec(c.latency_ms as nat) + ",\"bandwidth_mbps\":"@ + c.bandwidth_text + ",\"flood_publish\":"@ + bool_text(c.flood_publish) + ",\"idontwant_on_publish\":"@ + bool_text(c.idontwant_on_publish) + ",\"validation\":\""@ + c.validation.label_spec() + "\",\"heartbeat_ms\":"@ + dec(c.heartbeat_ms as nat) + ",\"history_length\":"@ + dec(c.history_length as nat), ",\"history_gossip\":"@, x);
        lemma_prefix_extends(x + dec(c.message_bytes as nat) + ",\"messages\":"@ + dec(c.messages as nat) + ",\"latency_ms\":"@ + dec(c.latency_ms as nat) + ",\"bandwidth_mbps\":"@ + c.bandwidth_text + ",\"flood_publish\":"@ + bool_text(c.flood_publish) + ",\"idontwant_on_publish\":"@ + bool_text(c.idontwant_on_publish) + ",\"validation\":\""@ + c.validation.label_spec() + "\",\"heartbeat_ms\":"@ + dec(c.heartbeat_ms as nat) + ",\"history_length\":"@ + dec(c.history_length as nat) + ",\"history_gossip\":"@, dec(c.history_gossip as nat), x);
        lemma_prefix_extends(x + dec(c.message_bytes as nat) + ",\"messages\":"@ + dec(c.messages as nat) + ",\"latency_ms\":"@ + dec(c.latency_ms as nat) + ",\"bandwidth_mbps\":"@ + c.bandwidth_text + ",\"flood_publish\":"@ + bool_text(c.flood_publish) + ",\"idontwant_on_publish\":"@ + bool_text(c.idontwant_on_publish) + ",\"validation\":\""@ + c.validation.label_spec() + "\",\"heartbeat_ms\":"@ + dec(c.heartbeat_ms as nat) + ",\"history_length\":"@ + dec(c.history_length as nat) + ",\"history_gossip\":"@ + dec(c.history_gossip as nat), ",\"max_transmit_size\":"@, x);
        lemma_prefix_extends(x + dec(c.message_bytes as nat) + ",\"messages\":"@ + dec(c.messages as nat) + ",\"latency_ms\":"@ + dec(c.latency_ms as nat) + ",\"bandwidth_mbps\":"@ + c.bandwidth_text + ",\"flood_publish\":"@ + bool_text(c.flood_publish) + ",\"idontwant_on_publish\":"@ + bool_text(c.idontwant_on_publish) + ",\"validation\":\""@ + c.validation.label_spec() + "\",\"heartbeat_ms\":"@ + dec(c.heartbeat_ms as nat) + ",\"history_length\":"@ + dec(c.history_length as nat) + ",\"history_gossip\":"@ + dec(c.history_gossip as nat) + ",\"max_transmit_size\":"@, dec(max_transmit_spec(c) as nat), x);
        lemma_prefix_extends(x + dec(c.message_bytes as nat) + ",\"messages\":"@ + dec(c.messages as nat) + ",\"latency_ms\":"@ + dec(c.latency_ms as nat) + ",\"bandwidth_mbps\":"@ + c.bandwidth_text + ",\"flood_publish\":"@ + bool_text(c.flood_publish) + ",\"idontwant_on_publish\":"@ + bool_text(c.idontwant_on_publish) + ",\"validation\":\""@ + c.validation.label_spec() + "\",\"heartbeat_ms\":"@ + dec(c.heartbeat_ms as nat) + ",\"history_length\":"@ + dec(c.history_length as nat) + ",\"history_gossip\":"@ + dec(c.history_gossip as nat) + ",\"max_transmit_size\":"@ + dec(max_transmit_spec(c) as nat), ",\"warmup_secs\":"@, x);
        lemma_prefix_extends(x + dec(c.message_bytes as nat) + ",\"messages\":"@ + dec(c.messages as nat) + ",\"latency_ms\":"@ + dec(c.latency_ms as nat) + ",\"bandwidth_mbps\":"@ + c.bandwidth_text + ",\"flood_publish\":"@ + bool_text(c.flood_publish) + ",\"idontwant_on_publish\":"@ + bool_text(c.idontwant_on_publish) + ",\"validation\":\""@ + c.validation.label_spec() + "\",\"heartbeat_ms\":"@ + dec(c.heartbeat_ms as nat) + ",\"history_length\":"@ + dec(c.history_length as nat) + ",\"history_gossip\":"@ + dec(c.history_gossip as nat) + ",\"max_transmit_size\":"@ + dec(max_transmit_spec(c) as nat) + ",\"warmup_secs\":"@, dec(c.warmup_secs as nat), x);
        lemma_prefix_extends(x + dec(c.message_bytes as nat) + ",\"messages\":"@ + dec(c.messages as nat) + ",\"latency_ms\":"@ + dec(c.latency_ms as nat) + ",\"bandwidth_mbps\":"@ + c.bandwidth_text + ",\"flood_publish\":"@ + bool_text(c.flood_publish) + ",\"idontwant_on_publish\":"@ + bool_text(c.idontwant_on_publish) + ",\"validation\":\""@ + c.validation.label_spec() + "\",\"heartbeat_ms\":"@ + dec(c.heartbeat_ms as nat) + ",\"history_length\":"@ + dec(c.history_length as nat) + ",\"history_gossip\":"@ + dec(c.history_gossip as nat) + ",\"max_transmit_size\":"@ + dec(max_transmit_spec(c) as nat) + ",\"warmup_secs\":"@ + dec(c.warmup_secs as nat), ",\"settle_secs\":"@, x);
        lemma_prefix_extends(x + dec(c.message_bytes as nat) + ",\"messages\":"@ + dec(c.messages as nat) + ",\"latency_ms\":"@ + dec(c.latency_ms as nat) + ",\"bandwidth_mbps\":"@ + c.bandwidth_text + ",\"flood_publish\":"@ + bool_text(c.flood_publish) + ",\"idontwant_on_publish\":"@ + bool_text(c.idontwant_on_publish) + ",\"validation\":\""@ + c.validation.label_spec() + "\",\"heartbeat_ms\":"@ + dec(c.heartbeat_ms as nat) + ",\"history_length\":"@ + dec(c.history_length as nat) + ",\"history_gossip\":"@ + dec(c.history_gossip as nat) + ",\"max_transmit_size\":"@ + dec(max_transmit_spec(c) as nat) + ",\"warmup_secs\":"@ + dec(c.warmup_secs as nat) + ",\"settle_secs\":"@, dec(c.settle_secs as nat), x);
        lemma_prefix_extends(x + dec(c.message_bytes as nat) + ",\"messages\":"@ + dec(c.messages as nat) + ",\"latency_ms\":"@ + dec(c.latency_ms as nat) + ",\"bandwidth_mbps\":"@ + c.bandwidth_text + ",\"flood_publish\":"@ + bool_text(c.flood_publish) + ",\"idontwant_on_publish\":"@ + bool_text(c.idontwant_on_publish) + ",\"validation\":\""@ + c.validation.label_spec() + "\",\"heartbeat_ms\":"@ + dec(c.heartbeat_ms as nat) + ",\"history_length\":"@ + dec(c.history_length as nat) + ",\"history_gossip\":"@ + dec(c.history_gossip as nat) + ",\"max_transmit_size\":"@ + dec(max_transmit_spec(c) as nat) + ",\"warmup_secs\":"@ + dec(c.warmup_secs as nat) + ",\"settle_secs\":"@ + dec(c.settle_secs as nat), ",\"seed\":"@, x);
        lemma_prefix_extends(x + dec(c.message_bytes as nat) + ",\"messages\":"@ + dec(c.messages as nat) + ",\"latency_ms\":"@ + dec(c.latency_ms as nat) + ",\"bandwidth_mbps\":"@ + c.bandwidth_text + ",\"flood_publish\":"@ + bool_text(c.flood_publish) + ",\"idontwant_on_publish\":"@ + bool_text(c.idontwant_on_publish) + ",\"validation\":\""@ + c.validation.label_spec() + "\",\"heartbeat_ms\":"@ + dec(c.heartbeat_ms as nat) + ",\"history_length\":"@ + dec(c.history_length as nat) + ",\"history_gossip\":"@ + dec(c.history_gossip as nat) + ",\"max_transmit_size\":"@ + dec(max_transmit_spec(c) as nat) + ",\"warmup_secs\":"@ + dec(c.warmup_secs as nat) + ",\"settle_secs\":"@ + dec(c.settle_secs as nat) + ",\"seed\":"@, dec(c.seed as nat), x);
        lemma_prefix_extends(x + dec(c.message_bytes as nat) + ",\"messages\":"@ + dec(c.messages as nat) + ",\"latency_ms\":"@ + dec(c.latency_ms as nat) + ",\"bandwidth_mbps\":"@ + c.bandwidth_text + ",\"flood_publish\":"@ + bool_text(c.flood_publish) + ",\"idontwant_on_publish\":"@ + bool_text(c.idontwant_on_publish) + ",\"validation\":\""@ + c.validation.label_spec() + "\",\"heartbeat_ms\":"@ + dec(c.heartbeat_ms as nat) + ",\"history_length\":"@ + dec(c.history_length as nat) + ",\"history_gossip\":"@ + dec(c.history_gossip as nat) + ",\"max_transmit_size\":"@ + dec(max_transmit_spec(c) as nat) + ",\"warmup_secs\":"@ + dec(c.warmup_secs as nat) + ",\"settle_secs\":"@ + dec(c.settle_secs as nat) + ",\"seed\":"@ + dec(c.seed as nat), ",\"transport\":\"memory+plaintext+yamux-default-windows\",\"signing\":\"signed\",\"libp2p_rev\":\""@, x);
        lemma_prefix_extends(x + dec(c.message_bytes as nat) + ",\"messages\":"@ + dec(c.messages as nat) + ",\"latency_ms\":"@ + dec(c.latency_ms as nat) + ",\"bandwidth_mbps\":"@ + c.bandwidth_text + ",\"flood_publish\":"@ + bool_text(c.flood_publish) + ",\"idontwant_on_publish\":"@ + bool_text(c.idontwant_on_publish) + ",\"validation\":\""@ + c.validation.label_spec() + "\",\"heartbeat_ms\":"@ + dec(c.heartbeat_ms as nat) + ",\"history_length\":"@ + dec(c.history_length as nat) + ",\"history_gossip\":"@ + dec(c.history_gossip as nat) + ",\"max_transmit_size\":"@ + dec(max_transmit_spec(c) as nat) + ",\"warmup_secs\":"@ + dec(c.warmup_secs as nat) + ",\"settle_secs\":"@ + dec(c.settle_secs as nat) + ",\"seed\":"@ + dec(c.seed as nat) + ",\"transport\":\"memory+plaintext+yamux-default-windows\",\"signing\":\"signed\",\"libp2p_rev\":\""@, rev, x);
        lemma_prefix_extends(x + dec(c.message_bytes as nat) + ",\"messages\":"@ + dec(c.messages as nat) + ",\"latency_ms\":"@ + dec(c.latency_ms as nat) + ",\"bandwidth_mbps\":"@ + c.bandwidth_text + ",\"flood_publish\":"@ + bool_text(c.flood_publish) + ",\"idontwant_on_publish\":"@ + bool_text(c.idontwant_on_publish) + ",\"validation\":\""@ + c.validation.label_spec() + "\",\"heartbeat_ms\":"@ + dec(c.heartbeat_ms as nat) + ",\"history_length\":"@ + dec(c.history_length as nat) + ",\"history_gossip\":"@ + dec(c.history_gossip as nat) + ",\"max_transmit_size\":"@ + dec(max_transmit_spec(c) as nat) + ",\"warmup_secs\":"@ + dec(c.warmup_secs as nat) + ",\"settle_secs\":"@ + dec(c.settle_secs as nat) + ",\"seed\":"@ + dec(c.seed as nat) + ",\"transport\":\"memory+plaintext+yamux-default-windows\",\"signing\":\"signed\",\"libp2p_rev\":\""@ + rev, "\"}"@, x);
        let s = t.skip(x.len() as int);
        assert(t =~= x + s);
    }

}

#[verifier::rlimit(60)]
proof fn lemma_disclosure_message_knobs(c: ConfigView, rev: Seq<char>)
    ensures
        ({
            let t = disclosure_for(c, rev);
            &&& exists|p: Seq<char>, s: Seq<char>| t == p + ",\"message_bytes\":"@ + dec(c.message_bytes as nat) + ",\"messages\":"@ + s
            &&& exists|p: Seq<char>, s: Seq<char>| t == p + ",\"messages\":"@ + dec(c.messages as nat) + ",\"latency_ms\":"@ + s
            &&& exists|p: Seq<char>, s: Seq<char>| t == p + ",\"latency_ms\":"@ + dec(c.latency_ms as nat) + ",\"bandwidth_mbps\":"@ + s
            &&& exists|p: Seq<char>, s: Seq<char>| t == p + ",\"bandwidth_mbps\":"@ + c.bandwidth_text + ",\"flood_publish\":"@ + s
            &&& exists|p: Seq<char>, s: Seq<char>| t == p + ",\"flood_publish\":"@ + bool_text(c.flood_publish) + ",\"idontwant_on_publish\":"@ + s
        }),
{
    let t = disclosure_for(c, rev);
    {
        let x = "{\"nodes\":"@ + dec(c.nodes as nat) + ",\"edges_per_node\":"@ + dec(c.edges_per_node as nat) + ",\"mesh_n\":"@ + dec(c.mesh_n as nat) + ",\"mesh_n_low\":"@ + dec(c.mesh_n_low as nat) + ",\"mesh_n_high\":"@ + dec(c.mesh_n_high as nat) + ",\"message_bytes\":"@ + dec(c.message_bytes as nat) + ",\"messages\":"@;
        assert(x.take(x.len() as int) =~= x);
        lemma_prefix_extends(x, dec(c.messages as nat), x);
        lemma_prefix_extends(x + dec(c.messages as nat), ",\"latency_ms\":"@, x);
        lemma_prefix_extends(x + dec(c.messages as nat) + ",\"latency_ms\":"@, dec(c.latency_ms as nat), x);
        lemma_prefix_extends(x + dec(c.messages as nat) + ",\"latency_ms\":"@ + dec(c.latency_ms as nat), ",\"bandwidth_mbps\":"@, x);
        lemma_prefix_extends(x + dec(c.messages as nat) + ",\"latency_ms\":"@ + dec(c.latency_ms as nat) + ",\"bandwidth_mbps\":"@, c.bandwidth_text, x);
        lemma_prefix_extends(x + dec(c.messages as nat) + ",\"latency_ms\":"@ + dec(c.latency_ms as nat) + ",\"bandwidth_mbps\":"@ + c.bandwidth_text, ",\"flood_publish\":"@, x);
        lemma_prefix_extends(x + dec(c.messages as nat) + ",\"latency_ms\":"@ + dec(c.latency_ms as nat) + ",\"bandwidth_mbps\":"@ + c.bandwidth_text + ",\"flood_publish\":"@, bool_text(c.flood_publish), x);
        lemma_prefix_extends(x + dec(c.messages as nat) + ",\"latency_ms\":"@ + dec(c.latency_ms as nat) + ",\"bandwidth_mbps\":"@ + c.bandwidth_text + ",\"flood_publish\":"@ + bool_text(c.flood_publish), ",\"idontwant_on_publish\":"@, x);
        lemma_prefix_extends(x + dec(c.messages as nat) + ",\"latency_ms\":"@ + dec(c.latency_ms as nat) + ",\"bandwidth_mbps\":"@ + c.bandwidth_text + ",\"flood_publish\":"@ + bool_text(c.flood_publish) + ",\"idontwant_on_publish\":"@, bool_text(c.idontwant_on_publish), x);
        lemma_prefix_extends(x + dec(c.messages as nat) + ",\"latency_ms\":"@ + dec(c.latency_ms as nat) + ",\"bandwidth_mbps\":"@ + c.bandwidth_text + ",\"flood_publish\":"@ + bool_text(c.flood_publish) + ",\"idontwant_on_publish\":"@ + bool_text(c.idontwant_on_publish), ",\"validation\":\""@, x);
        lemma_prefix_extends(x + dec(c.messages as nat) + ",\"latency_ms\":"@ + dec(c.latency_ms as nat) + ",\"bandwidth_mbps\":"@ + c.bandwidth_text + ",\"flood_publish\":"@ + bool_text(c.flood_publish) + ",\"idontwant_on_publish\":"@ + bool_text(c.idontwant_on_publish) + ",\"validation\":\""@, c.validation.label_spec(), x);
        lemma_prefix_extends(x + dec(c.messages as nat) + ",\"latency_ms\":"@ + dec(c.latency_ms as nat) + ",\"bandwidth_mbps\":"@ + c.bandwidth_text + ",\"flood_publish\":"@ + bool_text(c.flood_publish) + ",\"idontwant_on_publish\":"@ + bool_text(c.idontwant_on_publish) + ",\"validation\":\""@ + c.validation.label_spec(), "\",\"heartbeat_ms\":"@, x);
        lemma_prefix_extends(x + dec(c.messages as nat) + ",\"latency_ms\":"@ + dec(c.latency_ms as nat) + ",\"bandwidth_mbps\":"@ + c.bandwidth_text + ",\"flood_publish\":"@ + bool_text(c.flood_publish) + ",\"idontwant_on_publish\":"@ + bool_text(c.idontwant_on_publish) + ",\"validation\":\""@ + c.validation.label_spec() + "\",\"heartbeat_ms\":"@, dec(c.heartbeat_ms as nat), x);
        lemma_prefix_extends(x + dec(c.messages as nat) + ",\"latency_ms\":"@ + dec(c.latency_ms as nat) + ",\"bandwidth_mbps\":"@ + c.bandwidth_text + ",\"flood_publish\":"@ + bool_text(c.flood_publish) + ",\"idontwant_on_publish\":"@ + bool_text(c.idontwant_on_publish) + ",\"validation\":\""@ + c.validation.label_spec() + "\",\"heartbeat_ms\":"@ + dec(c.heartbeat_ms as nat), ",\"history_length\":"@, x);
        lemma_prefix_extends(x + dec(c.messages as nat) + ",\"latency_ms\":"@ + dec(c.latency_ms as nat) + ",\"bandwidth_mbps\":"@ + c.bandwidth_text + ",\"flood_publish\":"@ + bool_text(c.flood_publish) + ",\"idontwant_on_publish\":"@ + bool_text(c.idontwant_on_publish) + ",\"validation\":\""@ + c.validation.label_spec() + "\",\"heartbeat_ms\":"@ + dec(c.heartbeat_ms as nat) + ",\"history_length\":"@, dec(c.history_length as nat), x);
        lemma_prefix_extends(x + dec(c.messages as nat) + ",\"latency_ms\":"@ + dec(c.latency_ms as nat) + ",\"bandwidth_mbps\":"@ + c.bandwidth_text + ",\"flood_publish\":"@ + bool_text(c.flood_publish) + ",\"idontwant_on_publish\":"@ + bool_text(c.idontwant_on_publish) + ",\"validation\":\""@ + c.validation.label_spec() + "\",\"heartbeat_ms\":"@ + dec(c.heartbeat_ms as nat) + ",\"history_length\":"@ + dec(c.history_length as nat), ",\"history_gossip\":"@, x);
        lemma_prefix_extends(x + dec(c.messages as nat) + ",\"latency_ms\":"@ + dec(c.latency_ms as nat) + ",\"bandwidth_mbps\":"@ + c.bandwidth_text + ",\"flood_publish\":"@ + bool_text(c.flood_publish) + ",\"idontwant_on_publish\":"@ + bool_text(c.idontwant_on_publish) + ",\"validation\":\""@ + c.validation.label_spec() + "\",\"heartbeat_ms\":"@ + dec(c.heartbeat_ms as nat) + ",\"history_length\":"@ + dec(c.history_length as nat) + ",\"history_gossip\":"@, dec(c.history_gossip as nat), x);
        lemma_prefix_extends(x + dec(c.messages as nat) + ",\"latency_ms\":"@ + dec(c.latency_ms as nat) + ",\"bandwidth_mbps\":"@ + c.bandwidth_text + ",\"flood_publish\":"@ + bool_text(c.flood_publish) + ",\"idontwant_on_publish\":"@ + bool_text(c.idontwant_on_publish) + ",\"validation\":\""@ + c.validation.label_spec() + "\",\"heartbeat_ms\":"@ + dec(c.heartbeat_ms as nat) + ",\"history_length\":"@ + dec(c.history_length as nat) + ",\"history_gossip\":"@ + dec(c.history_gossip as nat), ",\"max_transmit_size\":"@, x);
        lemma_prefix_extends(x + dec(c.messages as nat) + ",\"latency_ms\":"@ + dec(c.latency_ms as nat) + ",\"bandwidth_mbps\":"@ + c.bandwidth_text + ",\"flood_publish\":"@ + bool_text(c.flood_publish) + ",\"idontwant_on_publish\":"@ + bool_text(c.idontwant_on_publish) + ",\"validation\":\""@ + c.validation.label_spec() + "\",\"heartbeat_ms\":"@ + dec(c.heartbeat_ms as nat) + ",\"history_length\":"@ + dec(c.history_length as nat) + ",\"history_gossip\":"@ + dec(c.history_gossip as nat) + ",\"max_transmit_size\":"@, dec(max_transmit_spec(c) as nat), x);
        lemma_prefix_extends(x + dec(c.messages as nat) + ",\"latency_ms\":"@ + dec(c.latency_ms as nat) + ",\"bandwidth_mbps\":"@ + c.bandwidth_text + ",\"flood_publish\":"@ + bool_text(c.flood_publish) + ",\"idontwant_on_publish\":"@ + bool_text(c.idontwant_on_publish) + ",\"validation\":\""@ + c.validation.label_spec() + "\",\"heartbeat_ms\":"@ + dec(c.heartbeat_ms as nat) + ",\"history_length\":"@ + dec(c.history_length as nat) + ",\"history_gossip\":"@ + dec(c.history_gossip as nat) + ",\"max_transmit_size\":"@ + dec(max_transmit_spec(c) as nat), ",\"warmup_secs\":"@, x);
        lemma_prefix_extends(x + dec(c.messages as nat) + ",\"latency_ms\":"@ + dec(c.latency_ms as nat) + ",\"bandwidth_mbps\":"@ + c.bandwidth_text + ",\"flood_publish\":"@ + bool_text(c.flood_publish) + ",\"idontwant_on_publish\":"@ + bool_text(c.idontwant_on_publish) + ",\"validation\":\""@ + c.validation.label_spec() + "\",\"heartbeat_ms\":"@ + dec(c.heartbeat_ms as nat) + ",\"history_length\":"@ + dec(c.history_length as nat) + ",\"history_gossip\":"@ + dec(c.history_gossip as nat) + ",\"max_transmit_size\":"@ + dec(max_transmit_spec(c) as nat) + ",\"warmup_secs\":"@, dec(c.warmup_secs as nat), x);
        lemma_prefix_extends(x + dec(c.messages as nat) + ",\"latency_ms\":"@ + dec(c.latency_ms as nat) + ",\"bandwidth_mbps\":"@ + c.bandwidth_text + ",\"flood_publish\":"@ + bool_text(c.flood_publish) + ",\"idontwant_on_publish\":"@ + bool_text(c.idontwant_on_publish) + ",\"validation\":\""@ + c.validation.label_spec() + "\",\"heartbeat_ms\":"@ + dec(c.heartbeat_ms as nat) + ",\"history_length\":"@ + dec(c.history_length as nat) + ",\"history_gossip\":"@ + dec(c.history_gossip as nat) + ",\"max_transmit_size\":"@ + dec(max_transmit_spec(c) as nat) + ",\"warmup_secs\":"@ + dec(c.warmup_secs as nat), ",\"settle_secs\":"@, x);
        lemma_prefix_extends(x + dec(c.messages as nat) + ",\"latency_ms\":"@ + dec(c.latency_ms as nat) + ",\"bandwidth_mbps\":"@ + c.bandwidth_text + ",\"flood_publish\":"@ + bool_text(c.flood_publish) + ",\"idontwant_on_publish\":"@ + bool_text(c.idontwant_on_publish) + ",\"validation\":\""@ + c.validation.label_spec() + "\",\"heartbeat_ms\":"@ + dec(c.heartbeat_ms as nat) + ",\"history_length\":"@ + dec(c.history_length as nat) + ",\"history_gossip\":"@ + dec(c.history_gossip as nat) + ",\"max_transmit_size\":"@ + dec(max_transmit_spec(c) as nat) + ",\"warmup_secs\":"@ + dec(c.warmup_secs as nat) + ",\"settle_secs\":"@, dec(c.settle_secs as nat), x);
        lemma_prefix_extends(x + dec(c.messages as nat) + ",\"latency_ms\":"@ + dec(c.latency_ms as nat) + ",\"bandwidth_mbps\":"@ + c.bandwidth_text + ",\"flood_publish\":"@ + bool_text(c.flood_publish) + ",\"idontwant_on_publish\":"@ + bool_text(c.idontwant_on_publish) + ",\"validation\":\""@ + c.validation.label_spec() + "\",\"heartbeat_ms\":"@ + dec(c.heartbeat_ms as nat) + ",\"history_length\":"@ + dec(c.history_length as nat) + ",\"history_gossip\":"@ + dec(c.history_gossip as nat) + ",\"max_transmit_size\":"@ + dec(max_transmit_spec(c) as nat) + ",\"warmup_secs\":"@ + dec(c.warmup_secs as nat) + ",\"settle_secs\":"@ + dec(c.settle_secs as nat), ",\"seed\":"@, x);
        lemma_prefix_extends(x + dec(c.messages as nat) + ",\"latency_ms\":"@ + dec(c.latency_ms as nat) + ",\"bandwidth_mbps\":"@ + c.bandwidth_text + ",\"flood_publish\":"@ + bool_text(c.flood_publish) + ",\"idontwant_on_publish\":"@ + bool_text(c.idontwant_on_publish) + ",\"validation\":\""@ + c.validation.label_spec() + "\",\"heartbeat_ms\":"@ + dec(c.heartbeat_ms as nat) + ",\"history_length\":"@ + dec(c.history_length as nat) + ",\"history_gossip\":"@ + dec(c.history_gossip as nat) + ",\"max_transmit_size\":"@ + dec(max_transmit_spec(c) as nat) + ",\"warmup_secs\":"@ + dec(c.warmup_secs as nat) + ",\"settle_secs\":"@ + dec(c.settle_secs as nat) + ",\"seed\":"@, dec(c.seed as nat), x);
        lemma_prefix_extends(x + dec(c.messages as nat) + ",\"latency_ms\":"@ + dec(c.latency_ms as nat) + ",\"bandwidth_mbps\":"@ + c.bandwidth_text + ",\"flood_publish\":"@ + bool_text(c.flood_publish) + ",\"idontwant_on_publish\":"@ + bool_text(c.idontwant_on_publish) + ",\"validation\":\""@ + c.validation.label_spec() + "\",\"heartbeat_ms\":"@ + dec(c.heartbeat_ms as nat) + ",\"history_length\":"@ + dec(c.history_length as nat) + ",\"history_gossip\":"@ + dec(c.history_gossip as nat) + ",\"max_transmit_size\":"@ + dec(max_transmit_spec(c) as nat) + ",\"warmup_secs\":"@ + dec(c.warmup_secs as nat) + ",\"settle_secs\":"@ + dec(c.settle_secs as nat) + ",\"seed\":"@ + dec(c.seed as nat), ",\"transport\":\"memory+plaintext+yamux-default-windows\",\"signing\":\"signed\",\"libp2p_rev\":\""@, x);
        lemma_prefix_extends(x + dec(c.messages as nat) + ",\"latency_ms\":"@ + dec(c.latency_ms as nat) + ",\"bandwidth_mbps\":"@ + c.bandwidth_text + ",\"flood_publish\":"@ + bool_text(c.flood_publish) + ",\"idontwant_on_publish\":"@ + bool_text(c.idontwant_on_publish) + ",\"validation\":\""@ + c.validation.label_spec() + "\",\"heartbeat_ms\":"@ + dec(c.heartbeat_ms as nat) + ",\"history_length\":"@ + dec(c.history_length as nat) + ",\"history_gossip\":"@ + dec(c.history_gossip as nat) + ",\"max_transmit_size\":"@ + dec(max_transmit_spec(c) as nat) + ",\"warmup_secs\":"@ + dec(c.warmup_secs as nat) + ",\"settle_secs\":"@ + dec(c.settle_secs as nat) + ",\"seed\":"@ + dec(c.seed as nat) + ",\"transport\":\"memory+plaintext+yamux-default-windows\",\"signing\":\"signed\",\"libp2p_rev\":\""@, rev, x);
        lemma_prefix_extends(x + dec(c.messages as nat) + ",\"latency_ms\":"@ + dec(c.latency_ms as nat) + ",\"bandwidth_mbps\":"@ + c.bandwidth_text + ",\"flood_publish\":"@ + bool_text(c.flood_publish) + ",\"idontwant_on_publish\":"@ + bool_text(c.idontwant_on_publish) + ",\"validation\":\""@ + c.validation.label_spec() + "\",\"heartbeat_ms\":"@ + dec(c.heartbeat_ms as nat) + ",\"history_length\":"@ + dec(c.history_length as nat) + ",\"history_gossip\":"@ + dec(c.history_gossip as nat) + ",\"max_transmit_size\":"@ + dec(max_transmit_spec(c) as nat) + ",\"warmup_secs\":"@ + dec(c.warmup_secs as nat) + ",\"settle_secs\":"@ + dec(c.settle_secs as nat) + ",\"seed\":"@ + dec(c.seed as nat) + ",\"transport\":\"memory+plaintext+yamux-default-windows\",\"signing\":\"signed\",\"libp2p_rev\":\""@ + rev, "\"}"@, x);
        let s = t.skip(x.len() as int);
        assert(t =~= x + s);
    }
    {
        let x = "{\"nodes\":"@ + dec(c.nodes as nat) + ",\"edges_per_node\":"@ + dec(c.edges_per_node as nat) + ",\"mesh_n\":"@ + dec(c.mesh_n as nat) + ",\"mesh_n_low\":"@ + dec(c.mesh_n_low as nat) + ",\"mesh_n_high\":"@ + dec(c.mesh_n_high as nat) + ",\"message_bytes\":"@ + dec(c.message_bytes as nat) + ",\"messages\":"@ + dec(c.messages as nat) + ",\"latency_ms\":"@;
        assert(x.take(x.len() as int) =~= x);
        lemma_prefix_extends(x, dec(c.latency_ms as nat), x);
        lemma_prefix_extends(x + dec(c.latency_ms as nat), ",\"bandwidth_mbps\":"@, x);
        lemma_prefix_extends(x + dec(c.latency_ms as nat) + ",\"bandwidth_mbps\":"@, c.bandwidth_text, x);
        lemma_prefix_extends(x + dec(c.latency_ms as nat) + ",\"bandwidth_mbps\":"@ + c.bandwidth_text, ",\"flood_publish\":"@, x);
        lemma_prefix_extends(x + dec(c.latency_ms as nat) + ",\"bandwidth_mbps\":"@ + c.bandwidth_text + ",\"flood_publish\":"@, bool_text(c.flood_publish), x);
        lemma_prefix_extends(x + dec(c.latency_ms as nat) + ",\"bandwidth_mbps\":"@ + c.bandwidth_text + ",\"flood_publish\":"@ + bool_text(c.flood_publish), ",\"idontwant_on_publish\":"@, x);
        lemma_prefix_extends(x + dec(c.latency_ms as nat) + ",\"bandwidth_mbps\":"@ + c.bandwidth_text + ",\"flood_publish\":"@ + bool_text(c.flood_publish) + ",\"idontwant_on_publish\":"@, bool_text(c.idontwant_on_publish), x);
        lemma_prefix_extends(x + dec(c.latency_ms as nat) + ",\"bandwidth_mbps\":"@ + c.bandwidth_text + ",\"flood_publish\":"@ + bool_text(c.flood_publish) + ",\"idontwant_on_publish\":"@ + bool_text(c.idontwant_on_publish), ",\"validation\":\""@, x);
        lemma_prefix_extends(x + dec(c.latency_ms as nat) + ",\"bandwidth_mbps\":"@ + c.bandwidth_text + ",\"flood_publish\":"@ + bool_text(c.flood_publish) + ",\"idontwant_on_publish\":"@ + bool_text(c.idontwant_on_publish) + ",\"validation\":\""@, c.validation.label_spec(), x);
        lemma_prefix_extends(x + dec(c.latency_ms as nat) + ",\"bandwidth_mbps\":"@ + c.bandwidth_text + ",\"flood_publish\":"@ + bool_text(c.flood_publish) + ",\"idontwant_on_publish\":"@ + bool_text(c.idontwant_on_publish) + ",\"validation\":\""@ + c.validation.label_spec(), "\",\"heartbeat_ms\":"@, x);
        lemma_prefix_extends(x + dec(c.latency_ms as nat) + ",\"bandwidth_mbps\":"@ + c.bandwidth_text + ",\"flood_publish\":"@ + bool_text(c.flood_publish) + ",\"idontwant_on_publish\":"@ + bool_text(c.idontwant_on_publish) + ",\"validation\":\""@ + c.validation.label_spec() + "\",\"heartbeat_ms\":"@, dec(c.heartbeat_ms as nat), x);
        lemma_prefix_extends(x + dec(c.latency_ms as nat) + ",\"bandwidth_mbps\":"@ + c.bandwidth_text + ",\"flood_publish\":"@ + bool_text(c.flood_publish) + ",\"idontwant_on_publish\":"@ + bool_text(c.idontwant_on_publish) + ",\"validation\":\""@ + c.validation.label_spec() + "\",\"heartbeat_ms\":"@ + dec(c.heartbeat_ms as nat), ",\"history_length\":"@, x);
        lemma_prefix_extends(x + dec(c.latency_ms as nat) + ",\"bandwidth_mbps\":"@ + c.bandwidth_text + ",\"flood_publish\":"@ + bool_text(c.flood_publish) + ",\"idontwant_on_publish\":"@ + bool_text(c.idontwant_on_publish) + ",\"validation\":\""@ + c.validation.label_spec() + "\",\"heartbeat_ms\":"@ + dec(c.heartbeat_ms as nat) + ",\"history_length\":"@, dec(c.history_length as nat), x);
        lemma_prefix_extends(x + dec(c.latency_ms as nat) + ",\"bandwidth_mbps\":"@ + c.bandwidth_text + ",\"flood_publish\":"@ + bool_text(c.flood_publish) + ",\"idontwant_on_publish\":"@ + bool_text(c.idontwant_on_publish) + ",\"validation\":\""@ + c.validation.label_spec() + "\",\"heartbeat_ms\":"@ + dec(c.heartbeat_ms as nat) + ",\"history_length\":"@ + dec(c.history_length as nat), ",\"history_gossip\":"@, x);
        lemma_prefix_extends(x + dec(c.latency_ms as nat) + ",\"bandwidth_mbps\":"@ + c.bandwidth_text + ",\"flood_publish\":"@ + bool_text(c.flood_publish) + ",\"idontwant_on_publish\":"@ + bool_text(c.idontwant_on_publish) + ",\"validation\":\""@ + c.validation.label_spec() + "\",\"heartbeat_ms\":"@ + dec(c.heartbeat_ms as nat) + ",\"history_length\":"@ + dec(c.history_length as nat) + ",\"history_gossip\":"@, dec(c.history_gossip as nat), x);
        lemma_prefix_extends(x + dec(c.latency_ms as nat) + ",\"bandwidth_mbps\":"@ + c.bandwidth_text + ",\"flood_publish\":"@ + bool_text(c.flood_publish) + ",\"idontwant_on_publish\":"@ + bool_text(c.idontwant_on_publish) + ",\"validation\":\""@ + c.validation.label_spec() + "\",\"heartbeat_ms\":"@ + dec(c.heartbeat_ms as nat) + ",\"history_length\":"@ + dec(c.history_length as nat) + ",\"history_gossip\":"@ + dec(c.history_gossip as nat), ",\"max_transmit_size\":"@, x);
        lemma_prefix_extends(x + dec(c.latency_ms as nat) + ",\"bandwidth_mbps\":"@ + c.bandwidth_text + ",\"flood_publish\":"@ + bool_text(c.flood_publish) + ",\"idontwant_on_publish\":"@ + bool_text(c.idontwant_on_publish) + ",\"validation\":\""@ + c.validation.label_spec() + "\",\"heartbeat_ms\":"@ + dec(c.heartbeat_ms as nat) + ",\"history_length\":"@ + dec(c.history_length as nat) + ",\"history_gossip\":"@ + dec(c.history_gossip as nat) + ",\"max_transmit_size\":"@, dec(max_transmit_spec(c) as nat), x);
        lemma_prefix_extends(x + dec(c.latency_ms as nat) + ",\"bandwidth_mbps\":"@ + c.bandwidth_text + ",\"flood_publish\":"@ + bool_text(c.flood_publish) + ",\"idontwant_on_publish\":"@ + bool_text(c.idontwant_on_publish) + ",\"validation\":\""@ + c.validation.label_spec() + "\",\"heartbeat_ms\":"@ + dec(c.heartbeat_ms as nat) + ",\"history_length\":"@ + dec(c.history_length as nat) + ",\"history_gossip\":"@ + dec(c.history_gossip as nat) + ",\"max_transmit_size\":"@ + dec(max_transmit_spec(c) as nat), ",\"warmup_secs\":"@, x);
        lemma_prefix_extends(x + dec(c.latency_ms as nat) + ",\"bandwidth_mbps\":"@ + c.bandwidth_text + ",\"flood_publish\":"@ + bool_text(c.flood_publish) + ",\"idontwant_on_publish\":"@ + bool_text(c.idontwant_on_publish) + ",\"validation\":\""@ + c.validation.label_spec() + "\",\"heartbeat_ms\":"@ + dec(c.heartbeat_ms as nat) + ",\"history_length\":"@ + dec(c.history_length as nat) + ",\"history_gossip\":"@ + dec(c.history_gossip as nat) + ",\"max_transmit_size\":"@ + dec(max_transmit_spec(c) as nat) + ",\"warmup_secs\":"@, dec(c.warmup_secs as nat), x);
        lemma_prefix_extends(x + dec(c.latency_ms as nat) + ",\"bandwidth_mbps\":"@ + c.bandwidth_text + ",\"flood_publish\":"@ + bool_text(c.flood_publish) + ",\"idontwant_on_publish\":"@ + bool_text(c.idontwant_on_publish) + ",\"validation\":\""@ + c.validation.label_spec() + "\",\"heartbeat_ms\":"@ + dec(c.heartbeat_ms as nat) + ",\"history_length\":"@ + dec(c.history_length as nat) + ",\"history_gossip\":"@ + dec(c.history_gossip as nat) + ",\"max_transmit_size\":"@ + dec(max_transmit_spec(c) as nat) + ",\"warmup_secs\":"@ + dec(c.warmup_secs as nat), ",\"settle_secs\":"@, x);
        lemma_prefix_extends(x + dec(c.latency_ms as nat) + ",\"bandwidth_mbps\":"@ + c.bandwidth_text + ",\"flood_publish\":"@ + bool_text(c.flood_publish) + ",\"idontwant_on_publish\":"@ + bool_text(c.idontwant_on_publish) + ",\"validation\":\""@ + c.validation.label_spec() + "\",\"heartbeat_ms\":"@ + dec(c.heartbeat_ms as nat) + ",\"history_length\":"@ + dec(c.history_length as nat) + ",\"history_gossip\":"@ + dec(c.history_gossip as nat) + ",\"max_transmit_size\":"@ + dec(max_transmit_spec(c) as nat) + ",\"warmup_secs\":"@ + dec(c.warmup_secs as nat) + ",\"settle_secs\":"@, dec(c.settle_secs as nat), x);
        lemma_prefix_extends(x + dec(c.latency_ms as nat) + ",\"bandwidth_mbps\":"@ + c.bandwidth_text + ",\"flood_publish\":"@ + bool_text(c.flood_publish) + ",\"idontwant_on_publish\":"@ + bool_text(c.idontwant_on_publish) + ",\"validation\":\""@ + c.validation.label_spec() + "\",\"heartbeat_ms\":"@ + dec(c.heartbeat_ms as nat) + ",\"history_length\":"@ + dec(c.history_length as nat) + ",\"history_gossip\":"@ + dec(c.history_gossip as nat) + ",\"max_transmit_size\":"@ + dec(max_transmit_spec(c) as nat) + ",\"warmup_secs\":"@ + dec(c.warmup_secs as nat) + ",\"settle_secs\":"@ + dec(c.settle_secs as nat), ",\"seed\":"@, x);
        lemma_prefix_extends(x + dec(c.latency_ms as nat) + ",\"bandwidth_mbps\":"@ + c.bandwidth_text + ",\"flood_publish\":"@ + bool_text(c.flood_publish) + ",\"idontwant_on_publish\":"@ + bool_text(c.idontwant_on_publish) + ",\"validation\":\""@ + c.validation.label_spec() + "\",\"heartbeat_ms\":"@ + dec(c.heartbeat_ms as nat) + ",\"history_length\":"@ + dec(c.history_length as nat) + ",\"history_gossip\":"@ + dec(c.history_gossip as nat) + ",\"max_transmit_size\":"@ + dec(max_transmit_spec(c) as nat) + ",\"warmup_secs\":"@ + dec(c.warmup_secs as nat) + ",\"settle_secs\":"@ + dec(c.settle_secs as nat) + ",\"seed\":"@, dec(c.seed as nat), x);
        lemma_prefix_extends(x + dec(c.latency_ms as nat) + ",\"bandwidth_mbps\":"@ + c.bandwidth_text + ",\"flood_publish\":"@ + bool_text(c.flood_publish) + ",\"idontwant_on_publish\":"@ + bool_text(c.idontwant_on_publish) + ",\"validation\":\""@ + c.validation.label_spec() + "\",\"heartbeat_ms\":"@ + dec(c.heartbeat_ms as nat) + ",\"history_length\":"@ + dec(c.history_length as nat) + ",\"history_gossip\":"@ + dec(c.history_gossip as nat) + ",\"max_transmit_size\":"@ + dec(max_transmit_spec(c) as nat) + ",\"warmup_secs\":"@ + dec(c.warmup_secs as nat) + ",\"settle_secs\":"@ + dec(c.settle_secs as nat) + ",\"seed\":"@ + dec(c.seed as nat), ",\"transport\":\"memory+plaintext+yamux-default-windows\",\"signing\":\"signed\",\"libp2p_rev\":\""@, x);
        lemma_prefix_extends(x + dec(c.latency_ms as nat) + ",\"bandwidth_mbps\":"@ + c.bandwidth_text + ",\"flood_publish\":"@ + bool_text(c.flood_publish) + ",\"idontwant_on_publish\":"@ + bool_text(c.idontwant_on_publish) + ",\"validation\":\""@ + c.validation.label_spec() + "\",\"heartbeat_ms\":"@ + dec(c.heartbeat_ms as nat) + ",\"history_length\":"@ + dec(c.history_length as nat) + ",\"history_gossip\":"@ + dec(c.history_gossip as nat) + ",\"max_transmit_size\":"@ + dec(max_transmit_spec(c) as nat) + ",\"warmup_secs\":"@ + dec(c.warmup_secs as nat) + ",\"settle_secs\":"@ + dec(c.settle_secs as nat) + ",\"seed\":"@ + dec(c.seed as nat) + ",\"transport\":\"memory+plaintext+yamux-default-windows\",\"signing\":\"signed\",\"libp2p_rev\":\""@, rev, x);
        lemma_prefix_extends(x + dec(c.latency_ms as nat) + ",\"bandwidth_mbps\":"@ + c.bandwidth_text + ",\"flood_publish\":"@ + bool_text(c.flood_publish) + ",\"idontwant_on_publish\":"@ + bool_text(c.idontwant_on_publish) + ",\"validation\":\""@ + c.validation.label_spec() + "\",\"heartbeat_ms\":"@ + dec(c.heartbeat_ms as nat) + ",\"history_length\":"@ + dec(c.history_length as nat) + ",\"history_gossip\":"@ + dec(c.history_gossip as nat) + ",\"max_transmit_size\":"@ + dec(max_transmit_spec(c) as nat) + ",\"warmup_secs\":"@ + dec(c.warmup_secs as nat) + ",\"settle_secs\":"@ + dec(c.settle_secs as nat) + ",\"seed\":"@ + dec(c.seed as nat) + ",\"transport\":\"memory+plaintext+yamux-default-windows\",\"signing\":\"signed\",\"libp2p_rev\":\""@ + rev, "\"}"@, x);
        let s = t.skip(x.len() as int);
        assert(t =~= x + s);
    }
    {
        let x = "{\"nodes\":"@ + dec(c.nodes as nat) + ",\"edges_per_node\":"@ + dec(c.edges_per_node as nat) + ",\"mesh_n\":"@ + dec(c.mesh_n as nat) + ",\"mesh_n_low\":"@ + dec(c.mesh_n_low as nat) + ",\"mesh_n_high\":"@ + dec(c.mesh_n_high as nat) + ",\"message_bytes\":"@ + dec(c.message_bytes as nat) + ",\"messages\":"@ + dec(c.messages as nat) + ",\"latency_ms\":"@ + dec(c.latency_ms as nat) + ",\"bandwidth_mbps\":"@;
        assert(x.take(x.len() as int) =~= x);
        lemma_prefix_extends(x, c.bandwidth_text, x);
        lemma_prefix_extends(x + c.bandwidth_text, ",\"flood_publish\":"@, x);
        lemma_prefix_extends(x + c.bandwidth_text + ",\"flood_publish\":"@, bool_text(c.flood_publish), x);
        lemma_prefix_extends(x + c.bandwidth_text + ",\"flood_publish\":"@ + bool_text(c.flood_publish), ",\"idontwant_on_publish\":"@, x);
        lemma_prefix_extends(x + c.bandwidth_text + ",\"flood_publish\":"@ + bool_text(c.flood_publish) + ",\"idontwant_on_publish\":"@, bool_text(c.idontwant_on_publish), x);
        lemma_prefix_extends(x + c.bandwidth_text + ",\"flood_publish\":"@ + bool_text(c.flood_publish) + ",\"idontwant_on_publish\":"@ + bool_text(c.idontwant_on_publish), ",\"validation\":\""@, x);
        lemma_prefix_extends(x + c.bandwidth_text + ",\"flood_publish\":"@ + bool_text(c.flood_publish) + ",\"idontwant_on_publish\":"@ + bool_text(c.idontwant_on_publish) + ",\"validation\":\""@, c.validation.label_spec(), x);
        lemma_prefix_extends(x + c.bandwidth_text + ",\"flood_publish\":"@ + bool_text(c.flood_publish) + ",\"idontwant_on_publish\":"@ + bool_text(c.idontwant_on_publish) + ",\"validation\":\""@ + c.validation.label_spec(), "\",\"heartbeat_ms\":"@, x);
        lemma_prefix_extends(x + c.bandwidth_text + ",\"flood_publish\":"@ + bool_text(c.flood_publish) + ",\"idontwant_on_publish\":"@ + bool_text(c.idontwant_on_publish) + ",\"validation\":\""@ + c.validation.label_spec() + "\",\"heartbeat_ms\":"@, dec(c.heartbeat_ms as nat), x);
        lemma_prefix_extends(x + c.bandwidth_text + ",\"flood_publish\":"@ + bool_text(c.flood_publish) + ",\"idontwant_on_publish\":"@ + bool_text(c.idontwant_on_publish) + ",\"validation\":\""@ + c.validation.label_spec() + "\",\"heartbeat_ms\":"@ + dec(c.heartbeat_ms as nat), ",\"history_length\":"@, x);
        lemma_prefix_extends(x + c.bandwidth_text + ",\"flood_publish\":"@ + bool_text(c.flood_publish) + ",\"idontwant_on_publish\":"@ + bool_text(c.idontwant_on_publish) + ",\"validation\":\""@ + c.validation.label_spec() + "\",\"heartbeat_ms\":"@ + dec(c.heartbeat_ms as nat) + ",\"history_length\":"@, dec(c.history_length as nat), x);
        lemma_prefix_extends(x + c.bandwidth_text + ",\"flood_publish\":"@ + bool_text(c.flood_publish) + ",\"idontwant_on_publish\":"@ + bool_text(c.idontwant_on_publish) + ",\"validation\":\""@ + c.validation.label_spec() + "\",\"heartbeat_ms\":"@ + dec(c.heartbeat_ms as nat) + ",\"history_length\":"@ + dec(c.history_length as nat), ",\"history_gossip\":"@, x);
        lemma_prefix_extends(x + c.bandwidth_text + ",\"flood_publish\":"@ + bool_text(c.flood_publish) + ",\"idontwant_on_publish\":"@ + bool_text(c.idontwant_on_publish) + ",\"validation\":\""@ + c.validation.label_spec() + "\",\"heartbeat_ms\":"@ + dec(c.heartbeat_ms as nat) + ",\"history_length\":"@ + dec(c.history_length as nat) + ",\"history_gossip\":"@, dec(c.history_gossip as nat), x);
        lemma_prefix_extends(x + c.bandwidth_text + ",\"flood_publish\":"@ + bool_text(c.flood_publish) + ",\"idontwant_on_publish\":"@ + bool_text(c.idontwant_on_publish) + ",\"validation\":\""@ + c.validation.label_spec() + "\",\"heartbeat_ms\":"@ + dec(c.heartbeat_ms as nat) + ",\"history_length\":"@ + dec(c.history_length as nat) + ",\"history_gossip\":"@ + dec(c.history_gossip as nat), ",\"max_transmit_size\":"@, x);
        lemma_prefix_extends(x + c.bandwidth_text + ",\"flood_publish\":"@ + bool_text(c.flood_publish) + ",\"idontwant_on_publish\":"@ + bool_text(c.idontwant_on_publish) + ",\"validation\":\""@ + c.validation.label_spec() + "\",\"heartbeat_ms\":"@ + dec(c.heartbeat_ms as nat) + ",\"history_length\":"@ + dec(c.history_length as nat) + ",\"history_gossip\":"@ + dec(c.history_gossip as nat) + ",\"max_transmit_size\":"@, dec(max_transmit_spec(c) as nat), x);
        lemma_prefix_extends(x + c.bandwidth_text + ",\"flood_publish\":"@ + bool_text(c.flood_publish) + ",\"idontwant_on_publish\":"@ + bool_text(c.idontwant_on_publish) + ",\"validation\":\""@ + c.validation.label_spec() + "\",\"heartbeat_ms\":"@ + dec(c.heartbeat_ms as nat) + ",\"history_length\":"@ + dec(c.history_length as nat) + ",\"history_gossip\":"@ + dec(c.history_gossip as nat) + ",\"max_transmit_size\":"@ + dec(max_transmit_spec(c) as nat), ",\"warmup_secs\":"@, x);
        lemma_prefix_extends(x + c.bandwidth_text + ",\"flood_publish\":"@ + bool_text(c.flood_publish) + ",\"idontwant_on_publish\":"@ + bool_text(c.idontwant_on_publish) + ",\"validation\":\""@ + c.validation.label_spec() + "\",\"heartbeat_ms\":"@ + dec(c.heartbeat_ms as nat) + ",\"history_length\":"@ + dec(c.history_length as nat) + ",\"history_gossip\":"@ + dec(c.history_gossip as nat) + ",\"max_transmit_size\":"@ + dec(max_transmit_spec(c) as nat) + ",\"warmup_secs\":"@, dec(c.warmup_secs as nat), x);
        lemma_prefix_extends(x + c.bandwidth_text + ",\"flood_publish\":"@ + bool_text(c.flood_publish) + ",\"idontwant_on_publish\":"@ + bool_text(c.idontwant_on_publish) + ",\"validation\":\""@ + c.validation.label_spec() + "\",\"heartbeat_ms\":"@ + dec(c.heartbeat_ms as nat) + ",\"history_length\":"@ + dec(c.history_length as nat) + ",\"history_gossip\":"@ + dec(c.history_gossip as nat) + ",\"max_transmit_size\":"@ + dec(max_transmit_spec(c) as nat) + ",\"warmup_secs\":"@ + dec(c.warmup_secs as nat), ",\"settle_secs\":"@, x);
        lemma_prefix_extends(x + c.bandwidth_text + ",\"flood_publish\":"@ + bool_text(c.flood_publish) + ",\"idontwant_on_publish\":"@ + bool_text(c.idontwant_on_publish) + ",\"validation\":\""@ + c.validation.label_spec() + "\",\"heartbeat_ms\":"@ + dec(c.heartbeat_ms as nat) + ",\"history_length\":"@ + dec(c.history_length as nat) + ",\"history_gossip\":"@ + dec(c.history_gossip as nat) + ",\"max_transmit_size\":"@ + dec(max_transmit_spec(c) as nat) + ",\"warmup_secs\":"@ + dec(c.warmup_secs as nat) + ",\"settle_secs\":"@, dec(c.settle_secs as nat), x);
        lemma_prefix_extends(x + c.bandwidth_text + ",\"flood_publish\":"@ + bool_text(c.flood_publish) + ",\"idontwant_on_publish\":"@ + bool_text(c.idontwant_on_publish) + ",\"validation\":\""@ + c.validation.label_spec() + "\",\"heartbeat_ms\":"@ + dec(c.heartbeat_ms as nat) + ",\"history_length\":"@ + dec(c.history_length as nat) + ",\"history_gossip\":"@ + dec(c.history_gossip as nat) + ",\"max_transmit_size\":"@ + dec(max_transmit_spec(c) as nat) + ",\"warmup_secs\":"@ + dec(c.warmup_secs as nat) + ",\"settle_secs\":"@ + dec(c.settle_secs as nat), ",\"seed\":"@, x);
        lemma_prefix_extends(x + c.bandwidth_text + ",\"flood_publish\":"@ + bool_text(c.flood_publish) + ",\"idontwant_on_publish\":"@ + bool_text(c.idontwant_on_publish) + ",\"validation\":\""@ + c.validation.label_spec() + "\",\"heartbeat_ms\":"@ + dec(c.heartbeat_ms as nat) + ",\"history_length\":"@ + dec(c.history_length as nat) + ",\"history_gossip\":"@ + dec(c.history_gossip as nat) + ",\"max_transmit_size\":"@ + dec(max_transmit_spec(c) as nat) + ",\"warmup_secs\":"@ + dec(c.warmup_secs as nat) + ",\"settle_secs\":"@ + dec(c.settle_secs as nat) + ",\"seed\":"@, dec(c.seed as nat), x);
        lemma_prefix_extends(x + c.bandwidth_text + ",\"flood_publish\":"@ + bool_text(c.flood_publish) + ",\"idontwant_on_publish\":"@ + bool_text(c.idontwant_on_publish) + ",\"validation\":\""@ + c.validation.label_spec() + "\",\"heartbeat_ms\":"@ + dec(c.heartbeat_ms as nat) + ",\"history_length\":"@ + dec(c.history_length as nat) + ",\"history_gossip\":"@ + dec(c.history_gossip as nat) + ",\"max_transmit_size\":"@ + dec(max_transmit_spec(c) as nat) + ",\"warmup_secs\":"@ + dec(c.warmup_secs as nat) + ",\"settle_secs\":"@ + dec(c.settle_secs as nat) + ",\"seed\":"@ + dec(c.seed as nat), ",\"transport\":\"memory+plaintext+yamux-default-windows\",\"signing\":\"signed\",\"libp2p_rev\":\""@, x);
        lemma_prefix_extends(x + c.bandwidth_text + ",\"flood_publish\":"@ + bool_text(c.flood_publish) + ",\"idontwant_on_publish\":"@ + bool_text(c.idontwant_on_publish) + ",\"validation\":\""@ + c.validation.label_spec() + "\",\"heartbeat_ms\":"@ + dec(c.heartbeat_ms as nat) + ",\"history_length\":"@ + dec(c.history_length as nat) + ",\"history_gossip\":"@ + dec(c.history_gossip as nat) + ",\"max_transmit_size\":"@ + dec(max_transmit_spec(c) as nat) + ",\"warmup_secs\":"@ + dec(c.warmup_secs as nat) + ",\"settle_secs\":"@ + dec(c.settle_secs as nat) + ",\"seed\":"@ + dec(c.seed as nat) + ",\"transport\":\"memory+plaintext+yamux-default-windows\",\"signing\":\"signed\",\"libp2p_rev\":\""@, rev, x);
        lemma_prefix_extends(x + c.bandwidth_text + ",\"flood_publish\":"@ + bool_text(c.flood_publish) + ",\"idontwant_on_publish\":"@ + bool_text(c.idontwant_on_publish) + ",\"validation\":\""@ + c.validation.label_spec() + "\",\"heartbeat_ms\":"@ + dec(c.heartbeat_ms as nat) + ",\"history_length\":"@ + dec(c.history_length as nat) + ",\"history_gossip\":"@ + dec(c.history_gossip as nat) + ",\"max_transmit_size\":"@ + dec(max_transmit_spec(c) as nat) + ",\"warmup_secs\":"@ + dec(c.warmup_secs as nat) + ",\"settle_secs\":"@ + dec(c.settle_secs as nat) + ",\"seed\":"@ + dec(c.seed as nat) + ",\"transport\":\"memory+plaintext+yamux-default-windows\",\"signing\":\"signed\",\"libp2p_rev\":\""@ + rev, "\"}"@, x);
        let s = t.skip(x.len() as int);
        assert(t =~= x + s);
    }
    {
        let x = "{\"nodes\":"@ + dec(c.nodes as nat) + ",\"edges_per_node\":"@ + dec(c.edges_per_node as nat) + ",\"mesh_n\":"@ + dec(c.mesh_n as nat) + ",\"mesh_n_low\":"@ + dec(c.mesh_n_low as nat) + ",\"mesh_n_high\":"@ + dec(c.mesh_n_high as nat) + ",\"message_bytes\":"@ + dec(c.message_bytes as nat) + ",\"messages\":"@ + dec(c.messages as nat) + ",\"latency_ms\":"@ + dec(c.latency_ms as nat) + ",\"bandwidth_mbps\":"@ + c.bandwidth_text + ",\"flood_publish\":"@;
        assert(x.take(x.len() as int) =~= x);
        lemma_prefix_extends(x, bool_text(c.flood_publish), x);
        lemma_prefix_extends(x + bool_text(c.flood_publish), ",\"idontwant_on_publish\":"@, x);
        lemma_prefix_extends(x + bool_text(c.flood_publish) + ",\"idontwant_on_publish\":"@, bool_text(c.idontwant_on_publish), x);
        lemma_prefix_extends(x + bool_text(c.flood_publish) + ",\"idontwant_on_publish\":"@ + bool_text(c.idontwant_on_publish), ",\"validation\":\""@, x);
        lemma_prefix_extends(x + bool_text(c.flood_publish) + ",\"idontwant_on_publish\":"@ + bool_text(c.idontwant_on_publish) + ",\"validation\":\""@, c.validation.label_spec(), x);
        lemma_prefix_extends(x + bool_text(c.flood_publish) + ",\"idontwant_on_publish\":"@ + bool_text(c.idontwant_on_publish) + ",\"validation\":\""@ + c.validation.label_spec(), "\",\"heartbeat_ms\":"@, x);
        lemma_prefix_extends(x + bool_text(c.flood_publish) + ",\"idontwant_on_publish\":"@ + bool_text(c.idontwant_on_publish) + ",\"validation\":\""@ + c.validation.label_spec() + "\",\"heartbeat_ms\":"@, dec(c.heartbeat_ms as nat), x);
        lemma_prefix_extends(x + bool_text(c.flood_publish) + ",\"idontwant_on_publish\":"@ + bool_text(c.idontwant_on_publish) + ",\"validation\":\""@ + c.validation.label_spec() + "\",\"heartbeat_ms\":"@ + dec(c.heartbeat_ms as nat), ",\"history_length\":"@, x);
        lemma_prefix_extends(x + bool_text(c.flood_publish) + ",\"idontwant_on_publish\":"@ + bool_text(c.idontwant_on_publish) + ",\"validation\":\""@ + c.validation.label_spec() + "\",\"heartbeat_ms\":"@ + dec(c.heartbeat_ms as nat) + ",\"history_length\":"@, dec(c.history_length as nat), x);
        lemma_prefix_extends(x + bool_text(c.flood_publish) + ",\"idontwant_on_publish\":"@ + bool_text(c.idontwant_on_publish) + ",\"validation\":\""@ + c.validation.label_spec() + "\",\"heartbeat_ms\":"@ + dec(c.heartbeat_ms as nat) + ",\"history_length\":"@ + dec(c.history_length as nat), ",\"history_gossip\":"@, x);
        lemma_prefix_extends(x + bool_text(c.flood_publish) + ",\"idontwant_on_publish\":"@ + bool_text(c.idontwant_on_publish) + ",\"validation\":\""@ + c.validation.label_spec() + "\",\"heartbeat_ms\":"@ + dec(c.heartbeat_ms as nat) + ",\"history_length\":"@ + dec(c.history_length as nat) + ",\"history_gossip\":"@, dec(c.history_gossip as nat), x);
        lemma_prefix_extends(x + bool_text(c.flood_publish) + ",\"idontwant_on_publish\":"@ + bool_text(c.idontwant_on_publish) + ",\"validation\":\""@ + c.validation.label_spec() + "\",\"heartbeat_ms\":"@ + dec(c.heartbeat_ms as nat) + ",\"history_length\":"@ + dec(c.history_length as nat) + ",\"history_gossip\":"@ + dec(c.history_gossip as nat), ",\"max_transmit_size\":"@, x);
        lemma_prefix_extends(x + bool_text(c.flood_publish) + ",\"idontwant_on_publish\":"@ + bool_text(c.idontwant_on_publish) + ",\"validation\":\""@ + c.validation.label_spec() + "\",\"heartbeat_ms\":"@ + dec(c.heartbeat_ms as nat) + ",\"history_length\":"@ + dec(c.history_length as nat) + ",\"history_gossip\":"@ + dec(c.history_gossip as nat) + ",\"max_transmit_size\":"@, dec(max_transmit_spec(c) as nat), x);
        lemma_prefix_extends(x + bool_text(c.flood_publish) + ",\"idontwant_on_publish\":"@ + bool_text(c.idontwant_on_publish) + ",\"validation\":\""@ + c.validation.label_spec() + "\",\"heartbeat_ms\":"@ + dec(c.heartbeat_ms as nat) + ",\"history_length\":"@ + dec(c.history_length as nat) + ",\"history_gossip\":"@ + dec(c.history_gossip as nat) + ",\"max_transmit_size\":"@ + dec(max_transmit_spec(c) as nat), ",\"warmup_secs\":"@, x);
        lemma_prefix_extends(x + bool_text(c.flood_publish) + ",\"idontwant_on_publish\":"@ + bool_text(c.idontwant_on_publish) + ",\"validation\":\""@ + c.validation.label_spec() + "\",\"heartbeat_ms\":"@ + dec(c.heartbeat_ms as nat) + ",\"history_length\":"@ + dec(c.history_length as nat) + ",\"history_gossip\":"@ + dec(c.history_gossip as nat) + ",\"max_transmit_size\":"@ + dec(max_transmit_spec(c) as nat) + ",\"warmup_secs\":"@, dec(c.warmup_secs as nat), x);
        lemma_prefix_extends(x + bool_text(c.flood_publish) + ",\"idontwant_on_publish\":"@ + bool_text(c.idontwant_on_publish) + ",\"validation\":\""@ + c.validation.label_spec() + "\",\"heartbeat_ms\":"@ + dec(c.heartbeat_ms as nat) + ",\"history_length\":"@ + dec(c.history_length as nat) + ",\"history_gossip\":"@ + dec(c.history_gossip as nat) + ",\"max_transmit_size\":"@ + dec(max_transmit_spec(c) as nat) + ",\"warmup_secs\":"@ + dec(c.warmup_secs as nat), ",\"settle_secs\":"@, x);
        lemma_prefix_extends(x + bool_text(c.flood_publish) + ",\"idontwant_on_publish\":"@ + bool_text(c.idontwant_on_publish) + ",\"validation\":\""@ + c.validation.label_spec() + "\",\"heartbeat_ms\":"@ + dec(c.heartbeat_ms as nat) + ",\"history_length\":"@ + dec(c.history_length as nat) + ",\"history_gossip\":"@ + dec(c.history_gossip as nat) + ",\"max_transmit_size\":"@ + dec(max_transmit_spec(c) as nat) + ",\"warmup_secs\":"@ + dec(c.warmup_secs as nat) + ",\"settle_secs\":"@, dec(c.settle_secs as nat), x);
        lemma_prefix_extends(x + bool_text(c.flood_publish) + ",\"idontwant_on_publish\":"@ + bool_text(c.idontwant_on_publish) + ",\"validation\":\""@ + c.validation.label_spec() + "\",\"heartbeat_ms\":"@ + dec(c.heartbeat_ms as nat) + ",\"history_length\":"@ + dec(c.history_length as nat) + ",\"history_gossip\":"@ + dec(c.history_gossip as nat) + ",\"max_transmit_size\":"@ + dec(max_transmit_spec(c) as nat) + ",\"warmup_secs\":"@ + dec(c.warmup_secs as nat) + ",\"settle_secs\":"@ + dec(c.settle_secs as nat), ",\"seed\":"@, x);
        lemma_prefix_extends(x + bool_text(c.flood_publish) + ",\"idontwant_on_publish\":"@ + bool_text(c.idontwant_on_publish) + ",\"validation\":\""@ + c.validation.label_spec() + "\",\"heartbeat_ms\":"@ + dec(c.heartbeat_ms as nat) + ",\"history_length\":"@ + dec(c.history_length as nat) + ",\"history_gossip\":"@ + dec(c.history_gossip as nat) + ",\"max_transmit_size\":"@ + dec(max_transmit_spec(c) as nat) + ",\"warmup_secs\":"@ + dec(c.warmup_secs as nat) + ",\"settle_secs\":"@ + dec(c.settle_secs as nat) + ",\"seed\":"@, dec(c.seed as nat), x);
        lemma_prefix_extends(x + bool_text(c.flood_publish) + ",\"idontwant_on_publish\":"@ + bool_text(c.idontwant_on_publish) + ",\"validation\":\""@ + c.validation.label_spec() + "\",\"heartbeat_ms\":"@ + dec(c.heartbeat_ms as nat) + ",\"history_length\":"@ + dec(c.history_length as nat) + ",\"history_gossip\":"@ + dec(c.history_gossip as nat) + ",\"max_transmit_size\":"@ + dec(max_transmit_spec(c) as nat) + ",\"warmup_secs\":"@ + dec(c.warmup_secs as nat) + ",\"settle_secs\":"@ + dec(c.settle_secs as nat) + ",\"seed\":"@ + dec(c.seed as nat), ",\"transport\":\"memory+plaintext+yamux-default-windows\",\"signing\":\"signed\",\"libp2p_rev\":\""@, x);
        lemma_prefix_extends(x + bool_text(c.flood_publish) + ",\"idontwant_on_publish\":"@ + bool_text(c.idontwant_on_publish) + ",\"validation\":\""@ + c.validation.label_spec() + "\",\"heartbeat_ms\":"@ + dec(c.heartbeat_ms as nat) + ",\"history_length\":"@ + dec(c.history_length as nat) + ",\"history_gossip\":"@ + dec(c.history_gossip as nat) + ",\"max_transmit_size\":"@ + dec(max_transmit_spec(c) as nat) + ",\"warmup_secs\":"@ + dec(c.warmup_secs as nat) + ",\"settle_secs\":"@ + dec(c.settle_secs as nat) + ",\"seed\":"@ + dec(c.seed as nat) + ",\"transport\":\"memory+plaintext+yamux-default-windows\",\"signing\":\"signed\",\"libp2p_rev\":\""@, rev, x);
        lemma_prefix_extends(x + bool_text(c.flood_publish) + ",\"idontwant_on_publish\":"@ + bool_text(c.idontwant_on_publish) + ",\"validation\":\""@ + c.validation.label_spec() + "\",\"heartbeat_ms\":"@ + dec(c.heartbeat_ms as nat) + ",\"history_length\":"@ + dec(c.history_length as nat) + ",\"history_gossip\":"@ + dec(c.history_gossip as nat) + ",\"max_transmit_size\":"@ + dec(max_transmit_spec(c) as nat) + ",\"warmup_secs\":"@ + dec(c.warmup_secs as nat) + ",\"settle_secs\":"@ + dec(c.settle_secs as nat) + ",\"seed\":"@ + dec(c.seed as nat) + ",\"transport\":\"memory+plaintext+yamux-default-windows\",\"signing\":\"signed\",\"libp2p_rev\":\""@ + rev, "\"}"@, x);
        let s = t.skip(x.len() as int);
        assert(t =~= x + s);
    }
    {
        let x = "{\"nodes\":"@ + dec(c.nodes as nat) + ",\"edges_per_node\":"@ + dec(c.edges_per_node as nat) + ",\"mesh_n\":"@ + dec(c.mesh_n as nat) + ",\"mesh_n_low\":"@ + dec(c.mesh_n_low as nat) + ",\"mesh_n_high\":"@ + dec(c.mesh_n_high as nat) + ",\"message_bytes\":"@ + dec(c.message_bytes as nat) + ",\"messages\":"@ + dec(c.messages as nat) + ",\"latency_ms\":"@ + dec(c.latency_ms as nat) + ",\"bandwidth_mbps\":"@ + c.bandwidth_text + ",\"flood_publish\":"@ + bool_text(c.flood_publish) + ",\"idontwant_on_publish\":"@;
        assert(x.take(x.len() as int) =~= x);
        lemma_prefix_extends(x, bool_text(c.idontwant_on_publish), x);
        lemma_prefix_extends(x + bool_text(c.idontwant_on_publish), ",\"validation\":\""@, x);
        lemma_prefix_extends(x + bool_text(c.idontwant_on_publish) + ",\"validation\":\""@, c.validation.label_spec(), x);
        lemma_prefix_extends(x + bool_text(c.idontwant_on_publish) + ",\"validation\":\""@ + c.validation.label_spec(), "\",\"heartbeat_ms\":"@, x);
        lemma_prefix_extends(x + bool_text(c.idontwant_on_publish) + ",\"validation\":\""@ + c.validation.label_spec() + "\",\"heartbeat_ms\":"@, dec(c.heartbeat_ms as nat), x);
        lemma_prefix_extends(x + bool_text(c.idontwant_on_publish) + ",\"validation\":\""@ + c.validation.label_spec() + "\",\"heartbeat_ms\":"@ + dec(c.heartbeat_ms as nat), ",\"history_length\":"@, x);
        lemma_prefix_extends(x + bool_text(c.idontwant_on_publish) + ",\"validation\":\""@ + c.validation.label_spec() + "\",\"heartbeat_ms\":"@ + dec(c.heartbeat_ms as nat) + ",\"history_length\":"@, dec(c.history_length as nat), x);
        lemma_prefix_extends(x + bool_text(c.idontwant_on_publish) + ",\"validation\":\""@ + c.validation.label_spec() + "\",\"heartbeat_ms\":"@ + dec(c.heartbeat_ms as nat) + ",\"history_length\":"@ + dec(c.history_length as nat), ",\"history_gossip\":"@, x);
        lemma_prefix_extends(x + bool_text(c.idontwant_on_publish) + ",\"validation\":\""@ + c.validation.label_spec() + "\",\"heartbeat_ms\":"@ + dec(c.heartbeat_ms as nat) + ",\"history_length\":"@ + dec(c.history_length as nat) + ",\"history_gossip\":"@, dec(c.history_gossip as nat), x);
        lemma_prefix_extends(x + bool_text(c.idontwant_on_publish) + ",\"validation\":\""@ + c.validation.label_spec() + "\",\"heartbeat_ms\":"@ + dec(c.heartbeat_ms as nat) + ",\"history_length\":"@ + dec(c.history_length as nat) + ",\"history_gossip\":"@ + dec(c.history_gossip as nat), ",\"max_transmit_size\":"@, x);
        lemma_prefix_extends(x + bool_text(c.idontwant_on_publish) + ",\"validation\":\""@ + c.validation.label_spec() + "\",\"heartbeat_ms\":"@ + dec(c.heartbeat_ms as nat) + ",\"history_length\":"@ + dec(c.history_length as nat) + ",\"history_gossip\":"@ + dec(c.history_gossip as nat) + ",\"max_transmit_size\":"@, dec(max_transmit_spec(c) as nat), x);
        lemma_prefix_extends(x + bool_text(c.idontwant_on_publish) + ",\"validation\":\""@ + c.validation.label_spec() + "\",\"heartbeat_ms\":"@ + dec(c.heartbeat_ms as nat) + ",\"history_length\":"@ + dec(c.history_length as nat) + ",\"history_gossip\":"@ + dec(c.history_gossip as nat) + ",\"max_transmit_size\":"@ + dec(max_transmit_spec(c) as nat), ",\"warmup_secs\":"@, x);
        lemma_prefix_extends(x + bool_text(c.idontwant_on_publish) + ",\"validation\":\""@ + c.validation.label_spec() + "\",\"heartbeat_ms\":"@ + dec(c.heartbeat_ms as nat) + ",\"history_length\":"@ + dec(c.history_length as nat) + ",\"history_gossip\":"@ + dec(c.history_gossip as nat) + ",\"max_transmit_size\":"@ + dec(max_transmit_spec(c) as nat) + ",\"warmup_secs\":"@, dec(c.warmup_secs as nat), x);
        lemma_prefix_extends(x + bool_text(c.idontwant_on_publish) + ",\"validation\":\""@ + c.validation.label_spec() + "\",\"heartbeat_ms\":"@ + dec(c.heartbeat_ms as nat) + ",\"history_length\":"@ + dec(c.history_length as nat) + ",\"history_gossip\":"@ + dec(c.history_gossip as nat) + ",\"max_transmit_size\":"@ + dec(max_transmit_spec(c) as nat) + ",\"warmup_secs\":"@ + dec(c.warmup_secs as nat), ",\"settle_secs\":"@, x);
        lemma_prefix_extends(x + bool_text(c.idontwant_on_publish) + ",\"validation\":\""@ + c.validation.label_spec() + "\",\"heartbeat_ms\":"@ + dec(c.heartbeat_ms as nat) + ",\"history_length\":"@ + dec(c.history_length as nat) + ",\"history_gossip\":"@ + dec(c.history_gossip as nat) + ",\"max_transmit_size\":"@ + dec(max_transmit_spec(c) as nat) + ",\"warmup_secs\":"@ + dec(c.warmup_secs as nat) + ",\"settle_secs\":"@, dec(c.settle_secs as nat), x);
        lemma_prefix_extends(x + bool_text(c.idontwant_on_publish) + ",\"validation\":\""@ + c.validation.label_spec() + "\",\"heartbeat_ms\":"@ + dec(c.heartbeat_ms as nat) + ",\"history_length\":"@ + dec(c.history_length as nat) + ",\"history_gossip\":"@ + dec(c.history_gossip as nat) + ",\"max_transmit_size\":"@ + dec(max_transmit_spec(c) as nat) + ",\"warmup_secs\":"@ + dec(c.warmup_secs as nat) + ",\"settle_secs\":"@ + dec(c.settle_secs as nat), ",\"seed\":"@, x);
        lemma_prefix_extends(x + bool_text(c.idontwant_on_publish) + ",\"validation\":\""@ + c.validation.label_spec() + "\",\"heartbeat_ms\":"@ + dec(c.heartbeat_ms as nat) + ",\"history_length\":"@ + dec(c.history_length as nat) + ",\"history_gossip\":"@ + dec(c.history_gossip as nat) + ",\"max_transmit_size\":"@ + dec(max_transmit_spec(c) as nat) + ",\"warmup_secs\":"@ + dec(c.warmup_secs as nat) + ",\"settle_secs\":"@ + dec(c.settle_secs as nat) + ",\"seed\":"@, dec(c.seed as nat), x);
        lemma_prefix_extends(x + bool_text(c.idontwant_on_publish) + ",\"validation\":\""@ + c.validation.label_spec() + "\",\"heartbeat_ms\":"@ + dec(c.heartbeat_ms as nat) + ",\"history_length\":"@ + dec(c.history_length as nat) + ",\"history_gossip\":"@ + dec(c.history_gossip as nat) + ",\"max_transmit_size\":"@ + dec(max_transmit_spec(c) as nat) + ",\"warmup_secs\":"@ + dec(c.warmup_secs as nat) + ",\"settle_secs\":"@ + dec(c.settle_secs as nat) + ",\"seed\":"@ + dec(c.seed as nat), ",\"transport\":\"memory+plaintext+yamux-default-windows\",\"signing\":\"signed\",\"libp2p_rev\":\""@, x);
        lemma_prefix_extends(x + bool_text(c.idontwant_on_publish) + ",\"validation\":\""@ + c.validation.label_spec() + "\",\"heartbeat_ms\":"@ + dec(c.heartbeat_ms as nat) + ",\"history_length\":"@ + dec(c.history_length as nat) + ",\"history_gossip\":"@ + dec(c.history_gossip as nat) + ",\"max_transmit_size\":"@ + dec(max_transmit_spec(c) as nat) + ",\"warmup_secs\":"@ + dec(c.warmup_secs as nat) + ",\"settle_secs\":"@ + dec(c.settle_secs as nat) + ",\"seed\":"@ + dec(c.seed as nat) + ",\"transport\":\"memory+plaintext+yamux-default-windows\",\"signing\":\"signed\",\"libp2p_rev\":\""@, rev, x);
        lemma_prefix_extends(x + bool_text(c.idontwant_on_publish) + ",\"validation\":\""@ + c.validation.label_spec() + "\",\"heartbeat_ms\":"@ + dec(c.heartbeat_ms as nat) + ",\"history_length\":"@ + dec(c.history_length as nat) + ",\"history_gossip\":"@ + dec(c.history_gossip as nat) + ",\"max_transmit_size\":"@ + dec(max_transmit_spec(c) as nat) + ",\"warmup_secs\":"@ + dec(c.warmup_secs as nat) + ",\"settle_secs\":"@ + dec(c.settle_secs as nat) + ",\"seed\":"@ + dec(c.seed as nat) + ",\"transport\":\"memory+plaintext+yamux-default-windows\",\"signing\":\"signed\",\"libp2p_rev\":\""@ + rev, "\"}"@, x);
        let s = t.skip(x.len() as int);
        assert(t =~= x + s);
    }

}

#[verifier::rlimit(60)]
proof fn lemma_disclosure_gossip_knobs(c: ConfigView, rev: Seq<char>)
    ensures
        ({
            let t = disclosure_for(c, rev);
            &&& exists|p: Seq<char>, s: Seq<char>| t == p + ",\"idontwant_on_publish\":"@ + bool_text(c.idontwant_on_publish) + ",\"validation\":\""@ + s
            &&& exists|p: Seq<char>, s: Seq<char>| t == p + ",\"validation\":\""@ + c.validation.label_spec() + "\",\"heartbeat_ms\":"@ + s
            &&& exists|p: Seq<char>, s: Seq<char>| t == p + "\",\"heartbeat_ms\":"@ + dec(c.heartbeat_ms as nat) + ",\"history_length\":"@ + s
            &&& exists|p: Seq<char>, s: Seq<char>| t == p + ",\"history_length\":"@ + dec(c.history_length as nat) + ",\"history_gossip\":"@ + s
            &&& exists|p: Seq<char>, s: Seq<char>| t == p + ",\"history_gossip\":"@ + dec(c.history_gossip as nat) + ",\"max_transmit_size\":"@ + s
        }),
{
    let t = disclosure_for(c, rev);
    {
        let x = "{\"nodes\":"@ + dec(c.nodes as nat) + ",\"edges_per_node\":"@ + dec(c.edges_per_node as nat) + ",\"mesh_n\":"@ + dec(c.mesh_n as nat) + ",\"mesh_n_low\":"@ + dec(c.mesh_n_low as nat) + ",\"mesh_n_high\":"@ + dec(c.mesh_n_high as nat) + ",\"message_bytes\":"@ + dec(c.message_bytes as nat) + ",\"messages\":"@ + dec(c.messages as nat) + ",\"latency_ms\":"@ + dec(c.latency_ms as nat) + ",\"bandwidth_mbps\":"@ + c.bandwidth_text + ",\"flood_publish\":"@ + bool_text(c.flood_publish) + ",\"idontwant_on_publish\":"@ + bool_text(c.idontwant_on_publish) + ",\"validation\":\""@;
        assert(x.take(x.len() as int) =~= x);
        lemma_prefix_extends(x, c.validation.label_spec(), x);
        lemma_prefix_extends(x + c.validation.label_spec(), "\",\"heartbeat_ms\":"@, x);
        lemma_prefix_extends(x + c.validation.label_spec() + "\",\"heartbeat_ms\":"@, dec(c.heartbeat_ms as nat), x);
        lemma_prefix_extends(x + c.validation.label_spec() + "\",\"heartbeat_ms\":"@ + dec(c.heartbeat_ms as nat), ",\"history_length\":"@, x);
        lemma_prefix_extends(x + c.validation.label_spec() + "\",\"heartbeat_ms\":"@ + dec(c.heartbeat_ms as nat) + ",\"history_length\":"@, dec(c.history_length as nat), x);
        lemma_prefix_extends(x + c.validation.label_spec() + "\",\"heartbeat_ms\":"@ + dec(c.heartbeat_ms as nat) + ",\"history_length\":"@ + dec(c.history_length as nat), ",\"history_gossip\":"@, x);
        lemma_prefix_extends(x + c.validation.label_spec() + "\",\"heartbeat_ms\":"@ + dec(c.heartbeat_ms as nat) + ",\"history_length\":"@ + dec(c.history_length as nat) + ",\"history_gossip\":"@, dec(c.history_gossip as nat), x);
        lemma_prefix_extends(x + c.validation.label_spec() + "\",\"heartbeat_ms\":"@ + dec(c.heartbeat_ms as nat) + ",\"history_length\":"@ + dec(c.history_length as nat) + ",\"history_gossip\":"@ + dec(c.history_gossip as nat), ",\"max_transmit_size\":"@, x);
        lemma_prefix_extends(x + c.validation.label_spec() + "\",\"heartbeat_ms\":"@ + dec(c.heartbeat_ms as nat) + ",\"history_length\":"@ + dec(c.history_length as nat) + ",\"history_gossip\":"@ + dec(c.history_gossip as nat) + ",\"max_transmit_size\":"@, dec(max_transmit_spec(c) as nat), x);
        lemma_prefix_extends(x + c.validation.label_spec() + "\",\"heartbeat_ms\":"@ + dec(c.heartbeat_ms as nat) + ",\"history_length\":"@ + dec(c.history_length as nat) + ",\"history_gossip\":"@ + dec(c.history_gossip as nat) + ",\"max_transmit_size\":"@ + dec(max_transmit_spec(c) as nat), ",\"warmup_secs\":"@, x);
        lemma_prefix_extends(x + c.validation.label_spec() + "\",\"heartbeat_ms\":"@ + dec(c.heartbeat_ms as nat) + ",\"history_length\":"@ + dec(c.history_length as nat) + ",\"history_gossip\":"@ + dec(c.history_gossip as nat) + ",\"max_transmit_size\":"@ + dec(max_transmit_spec(c) as nat) + ",\"warmup_secs\":"@, dec(c.warmup_secs as nat), x);
        lemma_prefix_extends(x + c.validation.label_spec() + "\",\"heartbeat_ms\":"@ + dec(c.heartbeat_ms as nat) + ",\"history_length\":"@ + dec(c.history_length as nat) + ",\"history_gossip\":"@ + dec(c.history_gossip as nat) + ",\"max_transmit_size\":"@ + dec(max_transmit_spec(c) as nat) + ",\"warmup_secs\":"@ + dec(c.warmup_secs as nat), ",\"settle_secs\":"@, x);
        lemma_prefix_extends(x + c.validation.label_spec() + "\",\"heartbeat_ms\":"@ + dec(c.heartbeat_ms as nat) + ",\"history_length\":"@ + dec(c.history_length as nat) + ",\"history_gossip\":"@ + dec(c.history_gossip as nat) + ",\"max_transmit_size\":"@ + dec(max_transmit_spec(c) as nat) + ",\"warmup_secs\":"@ + dec(c.warmup_secs as nat) + ",\"settle_secs\":"@, dec(c.settle_secs as nat), x);
        lemma_prefix_extends(x + c.validation.label_spec() + "\",\"heartbeat_ms\":"@ + dec(c.heartbeat_ms as nat) + ",\"history_length\":"@ + dec(c.history_length as nat) + ",\"history_gossip\":"@ + dec(c.history_gossip as nat) + ",\"max_transmit_size\":"@ + dec(max_transmit_spec(c) as nat) + ",\"warmup_secs\":"@ + dec(c.warmup_secs as nat) + ",\"settle_secs\":"@ + dec(c.settle_secs as nat), ",\"seed\":"@, x);
        lemma_prefix_extends(x + c.validation.label_spec() + "\",\"heartbeat_ms\":"@ + dec(c.heartbeat_ms as nat) + ",\"history_length\":"@ + dec(c.history_length as nat) + ",\"history_gossip\":"@ + dec(c.history_gossip as nat) + ",\"max_transmit_size\":"@ + dec(max_transmit_spec(c) as nat) + ",\"warmup_secs\":"@ + dec(c.warmup_secs as nat) + ",\"settle_secs\":"@ + dec(c.settle_secs as nat) + ",\"seed\":"@, dec(c.seed as nat), x);
        lemma_prefix_extends(x + c.validation.label_spec() + "\",\"heartbeat_ms\":"@ + dec(c.heartbeat_ms as nat) + ",\"history_length\":"@ + dec(c.history_length as nat) + ",\"history_gossip\":"@ + dec(c.history_gossip as nat) + ",\"max_transmit_size\":"@ + dec(max_transmit_spec(c) as nat) + ",\"warmup_secs\":"@ + dec(c.warmup_secs as nat) + ",\"settle_secs\":"@ + dec(c.settle_secs as nat) + ",\"seed\":"@ + dec(c.seed as nat), ",\"transport\":\"memory+plaintext+yamux-default-windows\",\"signing\":\"signed\",\"libp2p_rev\":\""@, x);
        lemma_prefix_extends(x + c.validation.label_spec() + "\",\"heartbeat_ms\":"@ + dec(c.heartbeat_ms as nat) + ",\"history_length\":"@ + dec(c.history_length as nat) + ",\"history_gossip\":"@ + dec(c.history_gossip as nat) + ",\"max_transmit_size\":"@ + dec(max_transmit_spec(c) as nat) + ",\"warmup_secs\":"@ + dec(c.warmup_secs as nat) + ",\"settle_secs\":"@ + dec(c.settle_secs as nat) + ",\"seed\":"@ + dec(c.seed as nat) + ",\"transport\":\"memory+plaintext+yamux-default-windows\",\"signing\":\"signed\",\"libp2p_rev\":\""@, rev, x);
        lemma_prefix_extends(x + c.validation.label_spec() + "\",\"heartbeat_ms\":"@ + dec(c.heartbeat_ms as nat) + ",\"history_length\":"@ + dec(c.history_length as nat) + ",\"history_gossip\":"@ + dec(c.history_gossip as nat) + ",\"max_transmit_size\":"@ + dec(max_transmit_spec(c) as nat) + ",\"warmup_secs\":"@ + dec(c.warmup_secs as nat) + ",\"settle_secs\":"@ + dec(c.settle_secs as nat) + ",\"seed\":"@ + dec(c.seed as nat) + ",\"transport\":\"memory+plaintext+yamux-default-windows\",\"signing\":\"signed\",\"libp2p_rev\":\""@ + rev, "\"}"@, x);
        let s = t.skip(x.len() as int);
        assert(t =~= x + s);
    }
    {
        let x = "{\"nodes\":"@ + dec(c.nodes as nat) + ",\"edges_per_node\":"@ + dec(c.edges_per_node as nat) + ",\"mesh_n\":"@ + dec(c.mesh_n as nat) + ",\"mesh_n_low\":"@ + dec(c.mesh_n_low as nat) + ",\"mesh_n_high\":"@ + dec(c.mesh_n_high as nat) + ",\"message_bytes\":"@ + dec(c.message_bytes as nat) + ",\"messages\":"@ + dec(c.messages as nat) + ",\"latency_ms\":"@ + dec(c.latency_ms as nat) + ",\"bandwidth_mbps\":"@ + c.bandwidth_text + ",\"flood_publish\":"@ + bool_text(c.flood_publish) + ",\"idontwant_on_publish\":"@ + bool_text(c.idontwant_on_publish) + ",\"validation\":\""@ + c.validation.label_spec() + "\",\"heartbeat_ms\":"@;
        assert(x.take(x.len() as int) =~= x);
        lemma_prefix_extends(x, dec(c.heartbeat_ms as nat), x);
        lemma_prefix_extends(x + dec(c.heartbeat_ms as nat), ",\"history_length\":"@, x);
        lemma_prefix_extends(x + dec(c.heartbeat_ms as nat) + ",\"history_length\":"@, dec(c.history_length as nat), x);
        lemma_prefix_extends(x + dec(c.heartbeat_ms as nat) + ",\"history_length\":"@ + dec(c.history_length as nat), ",\"history_gossip\":"@, x);
        lemma_prefix_extends(x + dec(c.heartbeat_ms as nat) + ",\"history_length\":"@ + dec(c.history_length as nat) + ",\"history_gossip\":"@, dec(c.history_gossip as nat), x);
        lemma_prefix_extends(x + dec(c.heartbeat_ms as nat) + ",\"history_length\":"@ + dec(c.history_length as nat) + ",\"history_gossip\":"@ + dec(c.history_gossip as nat), ",\"max_transmit_size\":"@, x);
        lemma_prefix_extends(x + dec(c.heartbeat_ms as nat) + ",\"history_length\":"@ + dec(c.history_length as nat) + ",\"history_gossip\":"@ + dec(c.history_gossip as nat) + ",\"max_transmit_size\":"@, dec(max_transmit_spec(c) as nat), x);
        lemma_prefix_extends(x + dec(c.heartbeat_ms as nat) + ",\"history_length\":"@ + dec(c.history_length as nat) + ",\"history_gossip\":"@ + dec(c.history_gossip as nat) + ",\"max_transmit_size\":"@ + dec(max_transmit_spec(c) as nat), ",\"warmup_secs\":"@, x);
        lemma_prefix_extends(x + dec(c.heartbeat_ms as nat) + ",\"history_length\":"@ + dec(c.history_length as nat) + ",\"history_gossip\":"@ + dec(c.history_gossip as nat) + ",\"max_transmit_size\":"@ + dec(max_transmit_spec(c) as nat) + ",\"warmup_secs\":"@, dec(c.warmup_secs as nat), x);
        lemma_prefix_extends(x + dec(c.heartbeat_ms as nat) + ",\"history_length\":"@ + dec(c.history_length as nat) + ",\"history_gossip\":"@ + dec(c.history_gossip as nat) + ",\"max_transmit_size\":"@ + dec(max_transmit_spec(c) as nat) + ",\"warmup_secs\":"@ + dec(c.warmup_secs as nat), ",\"settle_secs\":"@, x);
        lemma_prefix_extends(x + dec(c.heartbeat_ms as nat) + ",\"history_length\":"@ + dec(c.history_length as nat) + ",\"history_gossip\":"@ + dec(c.history_gossip as nat) + ",\"max_transmit_size\":"@ + dec(max_transmit_spec(c) as nat) + ",\"warmup_secs\":"@ + dec(c.warmup_secs as nat) + ",\"settle_secs\":"@, dec(c.settle_secs as nat), x);
        lemma_prefix_extends(x + dec(c.heartbeat_ms as nat) + ",\"history_length\":"@ + dec(c.history_length as nat) + ",\"history_gossip\":"@ + dec(c.history_gossip as nat) + ",\"max_transmit_size\":"@ + dec(max_transmit_spec(c) as nat) + ",\"warmup_secs\":"@ + dec(c.warmup_secs as nat) + ",\"settle_secs\":"@ + dec(c.settle_secs as nat), ",\"seed\":"@, x);
        lemma_prefix_extends(x + dec(c.heartbeat_ms as nat) + ",\"history_length\":"@ + dec(c.history_length as nat) + ",\"history_gossip\":"@ + dec(c.history_gossip as nat) + ",\"max_transmit_size\":"@ + dec(max_transmit_spec(c) as nat) + ",\"warmup_secs\":"@ + dec(c.warmup_secs as nat) + ",\"settle_secs\":"@ + dec(c.settle_secs as nat) + ",\"seed\":"@, dec(c.seed as nat), x);
        lemma_prefix_extends(x + dec(c.heartbeat_ms as nat) + ",\"history_length\":"@ + dec(c.history_length as nat) + ",\"history_gossip\":"@ + dec(c.history_gossip as nat) + ",\"max_transmit_size\":"@ + dec(max_transmit_spec(c) as nat) + ",\"warmup_secs\":"@ + dec(c.warmup_secs as nat) + ",\"settle_secs\":"@ + dec(c.settle_secs as nat) + ",\"seed\":"@ + dec(c.seed as nat), ",\"transport\":\"memory+plaintext+yamux-default-windows\",\"signing\":\"signed\",\"libp2p_rev\":\""@, x);
        lemma_prefix_extends(x + dec(c.heartbeat_ms as nat) + ",\"history_length\":"@ + dec(c.history_length as nat) + ",\"history_gossip\":"@ + dec(c.history_gossip as nat) + ",\"max_transmit_size\":"@ + dec(max_transmit_spec(c) as nat) + ",\"warmup_secs\":"@ + dec(c.warmup_secs as nat) + ",\"settle_secs\":"@ + dec(c.settle_secs as nat) + ",\"seed\":"@ + dec(c.seed as nat) + ",\"transport\":\"memory+plaintext+yamux-default-windows\",\"signing\":\"signed\",\"libp2p_rev\":\""@, rev, x);
        lemma_prefix_extends(x + dec(c.heartbeat_ms as nat) + ",\"history_length\":"@ + dec(c.history_length as nat) + ",\"history_gossip\":"@ + dec(c.history_gossip as nat) + ",\"max_transmit_size\":"@ + dec(max_transmit_spec(c) as nat) + ",\"warmup_secs\":"@ + dec(c.warmup_secs as nat) + ",\"settle_secs\":"@ + dec(c.settle_secs as nat) + ",\"seed\":"@ + dec(c.seed as nat) + ",\"transport\":\"memory+plaintext+yamux-default-windows\",\"signing\":\"signed\",\"libp2p_rev\":\""@ + rev, "\"}"@, x);
        let s = t.skip(x.len() as int);
        assert(t =~= x + s);
    }
    {
        let x = "{\"nodes\":"@ + dec(c.nodes as nat) + ",\"edges_per_node\":"@ + dec(c.edges_per_node as nat) + ",\"mesh_n\":"@ + dec(c.mesh_n as nat) + ",\"mesh_n_low\":"@ + dec(c.mesh_n_low as nat) + ",\"mesh_n_high\":"@ + dec(c.mesh_n_high as nat) + ",\"message_bytes\":"@ + dec(c.message_bytes as nat) + ",\"messages\":"@ + dec(c.messages as nat) + ",\"latency_ms\":"@ + dec(c.latency_ms as nat) + ",\"bandwidth_mbps\":"@ + c.bandwidth_text + ",\"flood_publish\":"@ + bool_text(c.flood_publish) + ",\"idontwant_on_publish\":"@ + bool_text(c.idontwant_on_publish) + ",\"validation\":\""@ + c.validation.label_spec() + "\",\"heartbeat_ms\":"@ + dec(c.heartbeat_ms as nat) + ",\"history_length\":"@;
        assert(x.take(x.len() as int) =~= x);
        lemma_prefix_extends(x, dec(c.history_length as nat), x);
        lemma_prefix_extends(x + dec(c.history_length as nat), ",\"history_gossip\":"@, x);
        lemma_prefix_extends(x + dec(c.history_length as nat) + ",\"history_gossip\":"@, dec(c.history_gossip as nat), x);
        lemma_prefix_extends(x + dec(c.history_length as nat) + ",\"history_gossip\":"@ + dec(c.history_gossip as nat), ",\"max_transmit_size\":"@, x);
        lemma_prefix_extends(x + dec(c.history_length as nat) + ",\"history_gossip\":"@ + dec(c.history_gossip as nat) + ",\"max_transmit_size\":"@, dec(max_transmit_spec(c) as nat), x);
        lemma_prefix_extends(x + dec(c.history_length as nat) + ",\"history_gossip\":"@ + dec(c.history_gossip as nat) + ",\"max_transmit_size\":"@ + dec(max_transmit_spec(c) as nat), ",\"warmup_secs\":"@, x);
        lemma_prefix_extends(x + dec(c.history_length as nat) + ",\"history_gossip\":"@ + dec(c.history_gossip as nat) + ",\"max_transmit_size\":"@ + dec(max_transmit_spec(c) as nat) + ",\"warmup_secs\":"@, dec(c.warmup_secs as nat), x);
        lemma_prefix_extends(x + dec(c.history_length as nat) + ",\"history_gossip\":"@ + dec(c.history_gossip as nat) + ",\"max_transmit_size\":"@ + dec(max_transmit_spec(c) as nat) + ",\"warmup_secs\":"@ + dec(c.warmup_secs as nat), ",\"settle_secs\":"@, x);
        lemma_prefix_extends(x + dec(c.history_length as nat) + ",\"history_gossip\":"@ + dec(c.history_gossip as nat) + ",\"max_transmit_size\":"@ + dec(max_transmit_spec(c) as nat) + ",\"warmup_secs\":"@ + dec(c.warmup_secs as nat) + ",\"settle_secs\":"@, dec(c.settle_secs as nat), x);
        lemma_prefix_extends(x + dec(c.history_length as nat) + ",\"history_gossip\":"@ + dec(c.history_gossip as nat) + ",\"max_transmit_size\":"@ + dec(max_transmit_spec(c) as nat) + ",\"warmup_secs\":"@ + dec(c.warmup_secs as nat) + ",\"settle_secs\":"@ + dec(c.settle_secs as nat), ",\"seed\":"@, x);
        lemma_prefix_extends(x + dec(c.history_length as nat) + ",\"history_gossip\":"@ + dec(c.history_gossip as nat) + ",\"max_transmit_size\":"@ + dec(max_transmit_spec(c) as nat) + ",\"warmup_secs\":"@ + dec(c.warmup_secs as nat) + ",\"settle_secs\":"@ + dec(c.settle_secs as nat) + ",\"seed\":"@, dec(c.seed as nat), x);
        lemma_prefix_extends(x + dec(c.history_length as nat) + ",\"history_gossip\":"@ + dec(c.history_gossip as nat) + ",\"max_transmit_size\":"@ + dec(max_transmit_spec(c) as nat) + ",\"warmup_secs\":"@ + dec(c.warmup_secs as nat) + ",\"settle_secs\":"@ + dec(c.settle_secs as nat) + ",\"seed\":"@ + dec(c.seed as nat), ",\"transport\":\"memory+plaintext+yamux-default-windows\",\"signing\":\"signed\",\"libp2p_rev\":\""@, x);
        lemma_prefix_extends(x + dec(c.history_length as nat) + ",\"history_gossip\":"@ + dec(c.history_gossip as nat) + ",\"max_transmit_size\":"@ + dec(max_transmit_spec(c) as nat) + ",\"warmup_secs\":"@ + dec(c.warmup_secs as nat) + ",\"settle_secs\":"@ + dec(c.settle_secs as nat) + ",\"seed\":"@ + dec(c.seed as nat) + ",\"transport\":\"memory+plaintext+yamux-default-windows\",\"signing\":\"signed\",\"libp2p_rev\":\""@, rev, x);
        lemma_prefix_extends(x + dec(c.history_length as nat) + ",\"history_gossip\":"@ + dec(c.history_gossip as nat) + ",\"max_transmit_size\":"@ + dec(max_transmit_spec(c) as nat) + ",\"warmup_secs\":"@ + dec(c.warmup_secs as nat) + ",\"settle_secs\":"@ + dec(c.settle_secs as nat) + ",\"seed\":"@ + dec(c.seed as nat) + ",\"transport\":\"memory+plaintext+yamux-default-windows\",\"signing\":\"signed\",\"libp2p_rev\":\""@ + rev, "\"}"@, x);
        let s = t.skip(x.len() as int);
        assert(t =~= x + s);
    }
    {
        let x = "{\"nodes\":"@ + dec(c.nodes as nat) + ",\"edges_per_node\":"@ + dec(c.edges_per_node as nat) + ",\"mesh_n\":"@ + dec(c.mesh_n as nat) + ",\"mesh_n_low\":"@ + dec(c.mesh_n_low as nat) + ",\"mesh_n_high\":"@ + dec(c.mesh_n_high as nat) + ",\"message_bytes\":"@ + dec(c.message_bytes as nat) + ",\"messages\":"@ + dec(c.messages as nat) + ",\"latency_ms\":"@ + dec(c.latency_ms as nat) + ",\"bandwidth_mbps\":"@ + c.bandwidth_text + ",\"flood_publish\":"@ + bool_text(c.flood_publish) + ",\"idontwant_on_publish\":"@ + bool_text(c.idontwant_on_publish) + ",\"validation\":\""@ + c.validation.label_spec() + "\",\"heartbeat_ms\":"@ + dec(c.heartbeat_ms as nat) + ",\"history_length\":"@ + dec(c.history_length as nat) + ",\"history_gossip\":"@;
        assert(x.take(x.len() as int) =~= x);
        lemma_prefix_extends(x, dec(c.history_gossip as nat), x);
        lemma_prefix_extends(x + dec(c.history_gossip as nat), ",\"max_transmit_size\":"@, x);
        lemma_prefix_extends(x + dec(c.history_gossip as nat) + ",\"max_transmit_size\":"@, dec(max_transmit_spec(c) as nat), x);
        lemma_prefix_extends(x + dec(c.history_gossip as nat) + ",\"max_transmit_size\":"@ + dec(max_transmit_spec(c) as nat), ",\"warmup_secs\":"@, x);
        lemma_prefix_extends(x + dec(c.history_gossip as nat) + ",\"max_transmit_size\":"@ + dec(max_transmit_spec(c) as nat) + ",\"warmup_secs\":"@, dec(c.warmup_secs as nat), x);
        lemma_prefix_extends(x + dec(c.history_gossip as nat) + ",\"max_transmit_size\":"@ + dec(max_transmit_spec(c) as nat) + ",\"warmup_secs\":"@ + dec(c.warmup_secs as nat), ",\"settle_secs\":"@, x);
        lemma_prefix_extends(x + dec(c.history_gossip as nat) + ",\"max_transmit_size\":"@ + dec(max_transmit_spec(c) as nat) + ",\"warmup_secs\":"@ + dec(c.warmup_secs as nat) + ",\"settle_secs\":"@, dec(c.settle_secs as nat), x);
        lemma_prefix_extends(x + dec(c.history_gossip as nat) + ",\"max_transmit_size\":"@ + dec(max_transmit_spec(c) as nat) + ",\"warmup_secs\":"@ + dec(c.warmup_secs as nat) + ",\"settle_secs\":"@ + dec(c.settle_secs as nat), ",\"seed\":"@, x);
        lemma_prefix_extends(x + dec(c.history_gossip as nat) + ",\"max_transmit_size\":"@ + dec(max_transmit_spec(c) as nat) + ",\"warmup_secs\":"@ + dec(c.warmup_secs as nat) + ",\"settle_secs\":"@ + dec(c.settle_secs as nat) + ",\"seed\":"@, dec(c.seed as nat), x);
        lemma_prefix_extends(x + dec(c.history_gossip as nat) + ",\"max_transmit_size\":"@ + dec(max_transmit_spec(c) as nat) + ",\"warmup_secs\":"@ + dec(c.warmup_secs as nat) + ",\"settle_secs\":"@ + dec(c.settle_secs as nat) + ",\"seed\":"@ + dec(c.seed as nat), ",\"transport\":\"memory+plaintext+yamux-default-windows\",\"signing\":\"signed\",\"libp2p_rev\":\""@, x);
        lemma_prefix_extends(x + dec(c.history_gossip as nat) + ",\"max_transmit_size\":"@ + dec(max_transmit_spec(c) as nat) + ",\"warmup_secs\":"@ + dec(c.warmup_secs as nat) + ",\"settle_secs\":"@ + dec(c.settle_secs as nat) + ",\"seed\":"@ + dec(c.seed as nat) + ",\"transport\":\"memory+plaintext+yamux-default-windows\",\"signing\":\"signed\",\"libp2p_rev\":\""@, rev, x);
        lemma_prefix_extends(x + dec(c.history_gossip as nat) + ",\"max_transmit_size\":"@ + dec(max_transmit_spec(c) as nat) + ",\"warmup_secs\":"@ + dec(c.warmup_secs as nat) + ",\"settle_secs\":"@ + dec(c.settle_secs as nat) + ",\"seed\":"@ + dec(c.seed as nat) + ",\"transport\":\"memory+plaintext+yamux-default-windows\",\"signing\":\"signed\",\"libp2p_rev\":\""@ + rev, "\"}"@, x);
        let s = t.skip(x.len() as int);
        assert(t =~= x + s);
    }
    {
        let x = "{\"nodes\":"@ + dec(c.nodes as nat) + ",\"edges_per_node\":"@ + dec(c.edges_per_node as nat) + ",\"mesh_n\":"@ + dec(c.mesh_n as nat) + ",\"mesh_n_low\":"@ + dec(c.mesh_n_low as nat) + ",\"mesh_n_high\":"@ + dec(c.mesh_n_high as nat) + ",\"message_bytes\":"@ + dec(c.message_bytes as nat) + ",\"messages\":"@ + dec(c.messages as nat) + ",\"latency_ms\":"@ + dec(c.latency_ms as nat) + ",\"bandwidth_mbps\":"@ + c.bandwidth_text + ",\"flood_publish\":"@ + bool_text(c.flood_publish) + ",\"idontwant_on_publish\":"@ + bool_text(c.idontwant_on_publish) + ",\"validation\":\""@ + c.validation.label_spec() + "\",\"heartbeat_ms\":"@ + dec(c.heartbeat_ms as nat) + ",\"history_length\":"@ + dec(c.history_length as nat) + ",\"history_gossip\":"@ + dec(c.history_gossip as nat) + ",\"max_transmit_size\":"@;
        assert(x.take(x.len() as int) =~= x);
        lemma_prefix_extends(x, dec(max_transmit_spec(c) as nat), x);
        lemma_prefix_extends(x + dec(max_transmit_spec(c) as nat), ",\"warmup_secs\":"@, x);
        lemma_prefix_extends(x + dec(max_transmit_spec(c) as nat) + ",\"warmup_secs\":"@, dec(c.warmup_secs as nat), x);
        lemma_prefix_extends(x + dec(max_transmit_spec(c) as nat) + ",\"warmup_secs\":"@ + dec(c.warmup_secs as nat), ",\"settle_secs\":"@, x);
        lemma_prefix_extends(x + dec(max_transmit_spec(c) as nat) + ",\"warmup_secs\":"@ + dec(c.warmup_secs as nat) + ",\"settle_secs\":"@, dec(c.settle_secs as nat), x);
        lemma_prefix_extends(x + dec(max_transmit_spec(c) as nat) + ",\"warmup_secs\":"@ + dec(c.warmup_secs as nat) + ",\"settle_secs\":"@ + dec(c.settle_secs as nat), ",\"seed\":"@, x);
        lemma_prefix_extends(x + dec(max_transmit_spec(c) as nat) + ",\"warmup_secs\":"@ + dec(c.warmup_secs as nat) + ",\"settle_secs\":"@ + dec(c.settle_secs as nat) + ",\"seed\":"@, dec(c.seed as nat), x);
        lemma_prefix_extends(x + dec(max_transmit_spec(c) as nat) + ",\"warmup_secs\":"@ + dec(c.warmup_secs as nat) + ",\"settle_secs\":"@ + dec(c.settle_secs as nat) + ",\"seed\":"@ + dec(c.seed as nat), ",\"transport\":\"memory+plaintext+yamux-default-windows\",\"signing\":\"signed\",\"libp2p_rev\":\""@, x);
        lemma_prefix_extends(x + dec(max_transmit_spec(c) as nat) + ",\"warmup_secs\":"@ + dec(c.warmup_secs as nat) + ",\"settle_secs\":"@ + dec(c.settle_secs as nat) + ",\"seed\":"@ + dec(c.seed as nat) + ",\"transport\":\"memory+plaintext+yamux-default-windows\",\"signing\":\"signed\",\"libp2p_rev\":\""@, rev, x);
        lemma_prefix_extends(x + dec(max_transmit_spec(c) as nat) + ",\"warmup_secs\":"@ + dec(c.warmup_secs as nat) + ",\"settle_secs\":"@ + dec(c.settle_secs as nat) + ",\"seed\":"@ + dec(c.seed as nat) + ",\"transport\":\"memory+plaintext+yamux-default-windows\",\"signing\":\"signed\",\"libp2p_rev\":\""@ + rev, "\"}"@, x);
        let s = t.skip(x.len() as int);
        assert(t =~= x + s);
    }

}

#[verifier::rlimit(60)]
proof fn lemma_disclosure_last_knobs(c: ConfigView, rev: Seq<char>)
    ensures
        ({
            let t = disclosure_for(c, rev);
            &&& exists|p: Seq<char>, s: Seq<char>| t == p + ",\"max_transmit_size\":"@ + dec(max_transmit_spec(c) as nat) + ",\"warmup_secs\":"@ + s
            &&& exists|p: Seq<char>, s: Seq<char>| t == p + ",\"warmup_secs\":"@ + dec(c.warmup_secs as nat) + ",\"settle_secs\":"@ + s
            &&& exists|p: Seq<char>, s: Seq<char>| t == p + ",\"settle_secs\":"@ + dec(c.settle_secs as nat) + ",\"seed\":"@ + s
            &&& exists|p: Seq<char>, s: Seq<char>| t == p + ",\"seed\":"@ + dec(c.seed as nat) + ",\"transport\":\"memory+plaintext+yamux-default-windows\",\"signing\":\"signed\",\"libp2p_rev\":\""@ + s
            &&& exists|p: Seq<char>, s: Seq<char>| t == p + ",\"transport\":\"memory+plaintext+yamux-default-windows\",\"signing\":\"signed\",\"libp2p_rev\":\""@ + rev + "\"}"@ + s
        }),
{
    let t = disclosure_for(c, rev);
    {
        let x = "{\"nodes\":"@ + dec(c.nodes as nat) + ",\"edges_per_node\":"@ + dec(c.edges_per_node as nat) + ",\"mesh_n\":"@ + dec(c.mesh_n as nat) + ",\"mesh_n_low\":"@ + dec(c.mesh_n_low as nat) + ",\"mesh_n_high\":"@ + dec(c.mesh_n_high as nat) + ",\"message_bytes\":"@ + dec(c.message_bytes as nat) + ",\"messages\":"@ + dec(c.messages as nat) + ",\"latency_ms\":"@ + dec(c.latency_ms as nat) + ",\"bandwidth_mbps\":"@ + c.bandwidth_text + ",\"flood_publish\":"@ + bool_text(c.flood_publish) + ",\"idontwant_on_publish\":"@ + bool_text(c.idontwant_on_publish) + ",\"validation\":\""@ + c.validation.label_spec() + "\",\"heartbeat_ms\":"@ + dec(c.heartbeat_ms as nat) + ",\"history_length\":"@ + dec(c.history_length as nat) + ",\"history_gossip\":"@ + dec(c.history_gossip as nat) + ",\"max_transmit_size\":"@ + dec(max_transmit_spec(c) as nat) + ",\"warmup_secs\":"@;
        assert(x.take(x.len() as int) =~= x);
        lemma_prefix_extends(x, dec(c.warmup_secs as nat), x);
        lemma_prefix_extends(x + dec(c.warmup_secs as nat), ",\"settle_secs\":"@, x);
        lemma_prefix_extends(x + dec(c.warmup_secs as nat) + ",\"settle_secs\":"@, dec(c.settle_secs as nat), x);
        lemma_prefix_extends(x + dec(c.warmup_secs as nat) + ",\"settle_secs\":"@ + dec(c.settle_secs as nat), ",\"seed\":"@, x);
        lemma_prefix_extends(x + dec(c.warmup_secs as nat) + ",\"settle_secs\":"@ + dec(c.settle_secs as nat) + ",\"seed\":"@, dec(c.seed as nat), x);
        lemma_prefix_extends(x + dec(c.warmup_secs as nat) + ",\"settle_secs\":"@ + dec(c.settle_secs as nat) + ",\"seed\":"@ + dec(c.seed as nat), ",\"transport\":\"memory+plaintext+yamux-default-windows\",\"signing\":\"signed\",\"libp2p_rev\":\""@, x);
        lemma_prefix_extends(x + dec(c.warmup_secs as nat) + ",\"settle_secs\":"@ + dec(c.settle_secs as nat) + ",\"seed\":"@ + dec(c.seed as nat) + ",\"transport\":\"memory+plaintext+yamux-default-windows\",\"signing\":\"signed\",\"libp2p_rev\":\""@, rev, x);
        lemma_prefix_extends(x + dec(c.warmup_secs as nat) + ",\"settle_secs\":"@ + dec(c.settle_secs as nat) + ",\"seed\":"@ + dec(c.seed as nat) + ",\"transport\":\"memory+plaintext+yamux-default-windows\",\"signing\":\"signed\",\"libp2p_rev\":\""@ + rev, "\"}"@, x);
        let s = t.skip(x.len() as int);
        assert(t =~= x + s);
    }
    {
        let x = "{\"nodes\":"@ + dec(c.nodes as nat) + ",\"edges_per_node\":"@ + dec(c.edges_per_node as nat) + ",\"mesh_n\":"@ + dec(c.mesh_n as nat) + ",\"mesh_n_low\":"@ + dec(c.mesh_n_low as nat) + ",\"mesh_n_high\":"@ + dec(c.mesh_n_high as nat) + ",\"message_bytes\":"@ + dec(c.message_bytes as nat) + ",\"messages\":"@ + dec(c.messages as nat) + ",\"latency_ms\":"@ + dec(c.latency_ms as nat) + ",\"bandwidth_mbps\":"@ + c.bandwidth_text + ",\"flood_publish\":"@ + bool_text(c.flood_publish) + ",\"idontwant_on_publish\":"@ + bool_text(c.idontwant_on_publish) + ",\"validation\":\""@ + c.validation.label_spec() + "\",\"heartbeat_ms\":"@ + dec(c.heartbeat_ms as nat) + ",\"history_length\":"@ + dec(c.history_length as nat) + ",\"history_gossip\":"@ + dec(c.history_gossip as nat) + ",\"max_transmit_size\":"@ + dec(max_transmit_spec(c) as nat) + ",\"warmup_secs\":"@ + dec(c.warmup_secs as nat) + ",\"settle_secs\":"@;
        assert(x.take(x.len() as int) =~= x);
        lemma_prefix_extends(x, dec(c.settle_secs as nat), x);
        lemma_prefix_extends(x + dec(c.settle_secs as nat), ",\"seed\":"@, x);
        lemma_prefix_extends(x + dec(c.settle_secs as nat) + ",\"seed\":"@, dec(c.seed as nat), x);
        lemma_prefix_extends(x + dec(c.settle_secs as nat) + ",\"seed\":"@ + dec(c.seed as nat), ",\"transport\":\"memory+plaintext+yamux-default-windows\",\"signing\":\"signed\",\"libp2p_rev\":\""@, x);
        lemma_prefix_extends(x + dec(c.settle_secs as nat) + ",\"seed\":"@ + dec(c.seed as nat) + ",\"transport\":\"memory+plaintext+yamux-default-windows\",\"signing\":\"signed\",\"libp2p_rev\":\""@, rev, x);
        lemma_prefix_extends(x + dec(c.settle_secs as nat) + ",\"seed\":"@ + dec(c.seed as nat) + ",\"transport\":\"memory+plaintext+yamux-default-windows\",\"signing\":\"signed\",\"libp2p_rev\":\""@ + rev, "\"}"@, x);
        let s = t.skip(x.len() as int);
        assert(t =~= x + s);
    }
    {
        let x = "{\"nodes\":"@ + dec(c.nodes as nat) + ",\"edges_per_node\":"@ + dec(c.edges_per_node as nat) + ",\"mesh_n\":"@ + dec(c.mesh_n as nat) + ",\"mesh_n_low\":"@ + dec(c.mesh_n_low as nat) + ",\"mesh_n_high\":"@ + dec(c.mesh_n_high as nat) + ",\"message_bytes\":"@ + dec(c.message_bytes as nat) + ",\"messages\":"@ + dec(c.messages as nat) + ",\"latency_ms\":"@ + dec(c.latency_ms as nat) + ",\"bandwidth_mbps\":"@ + c.bandwidth_text + ",\"flood_publish\":"@ + bool_text(c.flood_publish) + ",\"idontwant_on_publish\":"@ + bool_text(c.idontwant_on_publish) + ",\"validation\":\""@ + c.validation.label_spec() + "\",\"heartbeat_ms\":"@ + dec(c.heartbeat_ms as nat) + ",\"history_length\":"@ + dec(c.history_length as nat) + ",\"history_gossip\":"@ + dec(c.history_gossip as nat) + ",\"max_transmit_size\":"@ + dec(max_transmit_spec(c) as nat) + ",\"warmup_secs\":"@ + dec(c.warmup_secs as nat) + ",\"settle_secs\":"@ + dec(c.settle_secs as nat) + ",\"seed\":"@;
        assert(x.take(x.len() as int) =~= x);
        lemma_prefix_extends(x, dec(c.seed as nat), x);
        lemma_prefix_extends(x + dec(c.seed as nat), ",\"transport\":\"memory+plaintext+yamux-default-windows\",\"signing\":\"signed\",\"libp2p_rev\":\""@, x);
        lemma_prefix_extends(x + dec(c.seed as nat) + ",\"transport\":\"memory+plaintext+yamux-default-windows\",\"signing\":\"signed\",\"libp2p_rev\":\""@, rev, x);
        lemma_prefix_extends(x + dec(c.seed as nat) + ",\"transport\":\"memory+plaintext+yamux-default-windows\",\"signing\":\"signed\",\"libp2p_rev\":\""@ + rev, "\"}"@, x);
        let s = t.skip(x.len() as int);
        assert(t =~= x + s);
    }
    {
        let x = "{\"nodes\":"@ + dec(c.nodes as nat) + ",\"edges_per_node\":"@ + dec(c.edges_per_node as nat) + ",\"mesh_n\":"@ + dec(c.mesh_n as nat) + ",\"mesh_n_low\":"@ + dec(c.mesh_n_low as nat) + ",\"mesh_n_high\":"@ + dec(c.mesh_n_high as nat) + ",\"message_bytes\":"@ + dec(c.message_bytes as nat) + ",\"messages\":"@ + dec(c.messages as nat) + ",\"latency_ms\":"@ + dec(c.latency_ms as nat) + ",\"bandwidth_mbps\":"@ + c.bandwidth_text + ",\"flood_publish\":"@ + bool_text(c.flood_publish) + ",\"idontwant_on_publish\":"@ + bool_text(c.idontwant_on_publish) + ",\"validation\":\""@ + c.validation.label_spec() + "\",\"heartbeat_ms\":"@ + dec(c.heartbeat_ms as nat) + ",\"history_length\":"@ + dec(c.history_length as nat) + ",\"history_gossip\":"@ + dec(c.history_gossip as nat) + ",\"max_transmit_size\":"@ + dec(max_transmit_spec(c) as nat) + ",\"warmup_secs\":"@ + dec(c.warmup_secs as nat) + ",\"settle_secs\":"@ + dec(c.settle_secs as nat) + ",\"seed\":"@ + dec(c.seed as nat) + ",\"transport\":\"memory+plaintext+yamux-default-windows\",\"signing\":\"signed\",\"libp2p_rev\":\""@;
        assert(x.take(x.len() as int) =~= x);
        lemma_prefix_extends(x, rev, x);
        lemma_prefix_extends(x + rev, "\"}"@, x);
        let s = t.skip(x.len() as int);
        assert(t =~= x + s);
    }
    {
        let x = "{\"nodes\":"@ + dec(c.nodes as nat) + ",\"edges_per_node\":"@ + dec(c.edges_per_node as nat) + ",\"mesh_n\":"@ + dec(c.mesh_n as nat) + ",\"mesh_n_low\":"@ + dec(c.mesh_n_low as nat) + ",\"mesh_n_high\":"@ + dec(c.mesh_n_high as nat) + ",\"message_bytes\":"@ + dec(c.message_bytes as nat) + ",\"messages\":"@ + dec(c.messages as nat) + ",\"latency_ms\":"@ + dec(c.latency_ms as nat) + ",\"bandwidth_mbps\":"@ + c.bandwidth_text + ",\"flood_publish\":"@ + bool_text(c.flood_publish) + ",\"idontwant_on_publish\":"@ + bool_text(c.idontwant_on_publish) + ",\"validation\":\""@ + c.validation.label_spec() + "\",\"heartbeat_ms\":"@ + dec(c.heartbeat_ms as nat) + ",\"history_length\":"@ + dec(c.history_length as nat) + ",\"history_gossip\":"@ + dec(c.history_gossip as nat) + ",\"max_transmit_size\":"@ + dec(max_transmit_spec(c) as nat) + ",\"warmup_secs\":"@ + dec(c.warmup_secs as nat) + ",\"settle_secs\":"@ + dec(c.settle_secs as nat) + ",\"seed\":"@ + dec(c.seed as nat) + ",\"transport\":\"memory+plaintext+yamux-default-windows\",\"signing\":\"signed\",\"libp2p_rev\":\""@ + rev + "\"}"@;
        assert(x.take(x.len() as int) =~= x);
        let s = t.skip(x.len() as int);
        assert(t =~= x + s);
    }

}

/// Each knob is disclosed under its own key: in the disclosure, every key is
/// followed by the value of the knob of that name (and the revision after
/// its key), and then by the next key.
pub proof fn lemma_disclosure_keys_carry_their_knobs(c: ConfigView, rev: Seq<char>)
    ensures
        ({
            let t = disclosure_for(c, rev);
            &&& exists|p: Seq<char>, s: Seq<char>| t == p + "{\"nodes\":"@ + dec(c.nodes as nat) + ",\"edges_per_node\":"@ + s
            &&& exists|p: Seq<char>, s: Seq<char>| t == p + ",\"edges_per_node\":"@ + dec(c.edges_per_node as nat) + ",\"mesh_n\":"@ + s
            &&& exists|p: Seq<char>, s: Seq<char>| t == p + ",\"mesh_n\":"@ + dec(c.mesh_n as nat) + ",\"mesh_n_low\":"@ + s
            &&& exists|p: Seq<char>, s: Seq<char>| t == p + ",\"mesh_n_low\":"@ + dec(c.mesh_n_low as nat) + ",\"mesh_n_high\":"@ + s
            &&& exists|p: Seq<char>, s: Seq<char>| t == p + ",\"mesh_n_high\":"@ + dec(c.mesh_n_high as nat) + ",\"message_bytes\":"@ + s
            &&& exists|p: Seq<char>, s: Seq<char>| t == p + ",\"message_bytes\":"@ + dec(c.message_bytes as nat) + ",\"messages\":"@ + s
            &&& exists|p: Seq<char>, s: Seq<char>| t == p + ",\"messages\":"@ + dec(c.messages as nat) + ",\"latency_ms\":"@ + s
            &&& exists|p: Seq<char>, s: Seq<char>| t == p + ",\"latency_ms\":"@ + dec(c.latency_ms as nat) + ",\"bandwidth_mbps\":"@ + s
            &&& exists|p: Seq<char>, s: Seq<char>| t == p + ",\"bandwidth_mbps\":"@ + c.bandwidth_text + ",\"flood_publish\":"@ + s
            &&& exists|p: Seq<char>, s: Seq<char>| t == p + ",\"flood_publish\":"@ + bool_text(c.flood_publish) + ",\"idontwant_on_publish\":"@ + s
            &&& exists|p: Seq<char>, s: Seq<char>| t == p + ",\"idontwant_on_publish\":"@ + bool_text(c.idontwant_on_publish) + ",\"validation\":\""@ + s
            &&& exists|p: Seq<char>, s: Seq<char>| t == p + ",\"validation\":\""@ + c.validation.label_spec() + "\",\"heartbeat_ms\":"@ + s
            &&& exists|p: Seq<char>, s: Seq<char>| t == p + "\",\"heartbeat_ms\":"@ + dec(c.heartbeat_ms as nat) + ",\"history_length\":"@ + s
            &&& exists|p: Seq<char>, s: Seq<char>| t == p + ",\"history_length\":"@ + dec(c.history_length as nat) + ",\"history_gossip\":"@ + s
            &&& exists|p: Seq<char>, s: Seq<char>| t == p + ",\"history_gossip\":"@ + dec(c.history_gossip as nat) + ",\"max_transmit_size\":"@ + s
            &&& exists|p: Seq<char>, s: Seq<char>| t == p + ",\"max_transmit_size\":"@ + dec(max_transmit_spec(c) as nat) + ",\"warmup_secs\":"@ + s
            &&& exists|p: Seq<char>, s: Seq<char>| t == p + ",\"warmup_secs\":"@ + dec(c.warmup_secs as nat) + ",\"settle_secs\":"@ + s
            &&& exists|p: Seq<char>, s: Seq<char>| t == p + ",\"settle_secs\":"@ + dec(c.settle_secs as nat) + ",\"seed\":"@ + s
            &&& exists|p: Seq<char>, s: Seq<char>| t == p + ",\"seed\":"@ + dec(c.seed as nat) + ",\"transport\":\"memory+plaintext+yamux-default-windows\",\"signing\":\"signed\",\"libp2p_rev\":\""@ + s
            &&& exists|p: Seq<char>, s: Seq<char>| t == p + ",\"transport\":\"memory+plaintext+yamux-default-windows\",\"signing\":\"signed\",\"libp2p_rev\":\""@ + rev + "\"}"@ + s
        }),
{
    lemma_disclosure_first_knobs(c, rev);
    lemma_disclosure_message_knobs(c, rev);
    lemma_disclosure_gossip_knobs(c, rev);
    lemma_disclosure_last_knobs(c, rev);
}

/// The disclosure document of a build against the pinned revision.
pub open spec fn disclosure_spec(c: ConfigView) -> Seq<char> {
    disclosure_for(c, pinned_rev())
}

impl BenchConfig {
    /// Node count.
    pub fn nodes(&self) -> (r: usize)
        ensures
            r == self@.nodes,
    {
        self.nodes
    }

    /// Connection budget per node (>= mesh_n_high to leave room for the mesh).
    pub fn edges_per_node(&self) -> (r: usize)
        ensures
            r == self@.edges_per_node,
    {
        self.edges_per_node
    }

    /// Gossipsub D.
    pub fn mesh_n(&self) -> (r: usize)
        ensures
            r == self@.mesh_n,
    {
        self.mesh_n
    }

    /// Gossipsub D_lo.
    pub fn mesh_n_low(&self) -> (r: usize)
        ensures
            r == self@.mesh_n_low,
    {
        self.mesh_n_low
    }

    /// Gossipsub D_hi.
    pub fn mesh_n_high(&self) -> (r: usize)
        ensures
            r == self@.mesh_n_high,
    {
        self.mesh_n_high
    }

    /// Benchmark payload size in bytes.
    pub fn message_bytes(&self) -> (r: usize)
        ensures
            r == self@.message_bytes,
    {
        self.message_bytes
    }

    /// Number of measured messages.
    pub fn messages(&self) -> (r: u64)
        ensures
            r == self@.messages,
    {
        self.messages
    }

    /// One-way link propagation delay, in nanoseconds.
    pub fn latency(&self) -> (r: Nanos)
        ensures
            r == self@.latency_ms * 1_000_000,
    {
        self.latency_ms as u128 * 1_000_000
    }

    /// Per-link bandwidth in megabits per second, as `{}` prints it.
    pub fn bandwidth_mbps(&self) -> (r: &str)
        ensures
            r@ == self@.bandwidth_text,
    {
        self.bandwidth.text.as_str()
    }

    /// Gossipsub flood_publish.
    pub fn flood_publish(&self) -> (r: bool)
        ensures
            r == self@.flood_publish,
    {
        self.flood_publish
    }

    /// Gossipsub idontwant_on_publish (ships default false upstream).
    pub fn idontwant_on_publish(&self) -> (r: bool)
        ensures
            r == self@.idontwant_on_publish,
    {
        self.idontwant_on_publish
    }

    /// Validation mode.
    pub fn validation(&self) -> (r: Validation)
        ensures
            r == self@.validation,
    {
        self.validation
    }

    /// Gossipsub heartbeat interval, in nanoseconds.
    pub fn heartbeat(&self) -> (r: Nanos)
        ensures
            r == self@.heartbeat_ms * 1_000_000,
    {
        self.heartbeat_ms as u128 * 1_000_000
    }

    /// Gossipsub history_length.
    pub fn history_length(&self) -> (r: usize)
        ensures
            r == self@.history_length,
    {
        self.history_length
    }

    /// Gossipsub history_gossip.
    pub fn history_gossip(&self) -> (r: usize)
        ensures
            r == self@.history_gossip,
    {
        self.history_gossip
    }

    /// Mesh warm-up wait before measuring, in nanoseconds.
    pub fn warmup(&self) -> (r: Nanos)
        ensures
            r == self@.warmup_secs * 1_000_000_000,
    {
        self.warmup_secs as u128 * 1_000_000_000
    }

    /// Per-message completion deadline, in nanoseconds.
    pub fn settle(&self) -> (r: Nanos)
        ensures
            r == self@.settle_secs * 1_000_000_000,
    {
        self.settle_secs as u128 * 1_000_000_000
    }

    /// RNG seed (topology, keypairs, payloads).
    pub fn seed(&self) -> (r: u64)
        ensures
            r == self@.seed,
    {
        self.seed
    }

    /// Report output directory.
    pub fn out_dir(&self) -> (r: &str)
        ensures
            r@ == self@.out_dir,
    {
        self.out_dir.as_str()
    }

    /// Gossipsub max_transmit_size actually configured (2x payload;
    /// the upstream default of 65536 would reject these payloads).
    pub fn max_transmit_size(&self) -> (r: usize)
        ensures
            r == max_transmit_spec(self@),
    {
        if self.message_bytes <= usize::MAX / 2 {
            self.message_bytes * 2
        } else {
            usize::MAX
        }
    }

    /// Full disclosure of every knob, as a JSON object string.
    pub fn disclosure_json(&self) -> (r: String)
        ensures
            r@ == disclosure_spec(self@),
    {
        self.disclosure_json_for("ee8bf12e6d94d48518ea67773abb11625b2c4f41")
    }

    /// The disclosure naming `rev` as the libp2p revision, for a build
    /// against another tree.
    pub fn disclosure_json_for(&self, rev: &str) -> (r: String)
        ensures
            r@ == disclosure_for(self@, rev@),
    {
        let mut s = "{\"nodes\":".to_owned();
        push_decimal(&mut s, self.nodes as u128);
        s.append(",\"edges_per_node\":");
        push_decimal(&mut s, self.edges_per_node as u128);
        s.append(",\"mesh_n\":");
        push_decimal(&mut s, self.mesh_n as u128);
        s.append(",\"mesh_n_low\":");
        push_decimal(&mut s, self.mesh_n_low as u128);
        s.append(",\"mesh_n_high\":");
        push_decimal(&mut s, self.mesh_n_high as u128);
        s.append(",\"message_bytes\":");
        push_decimal(&mut s, self.message_bytes as u128);
        s.append(",\"messages\":");
        push_decimal(&mut s, self.messages as u128);
        s.append(",\"latency_ms\":");
        push_decimal(&mut s, self.latency_ms as u128);
        s.append(",\"bandwidth_mbps\":");
        s.append(self.bandwidth.text.as_str());
        s.append(",\"flood_publish\":");
        push_bool(&mut s, self.flood_publish);
        s.append(",\"idontwant_on_publish\":");
        push_bool(&mut s, self.idontwant_on_publish);
        s.append(",\"validation\":\"");
        s.append(self.validation.label());
        s.append("\",\"heartbeat_ms\":");
        push_decimal(&mut s, self.heartbeat_ms as u128);
        s.append(",\"history_length\":");
        push_decimal(&mut s, self.history_length as u128);
        s.append(",\"history_gossip\":");
        push_decimal(&mut s, self.history_gossip as u128);
        s.append(",\"max_transmit_size\":");
        push_decimal(&mut s, self.max_transmit_size() as u128);
        s.append(",\"warmup_secs\":");
        push_decimal(&mut s, self.warmup_secs as u128);
        s.append(",\"settle_secs\":");
        push_decimal(&mut s, self.settle_secs as u128);
        s.append(",\"seed\":");
        push_decimal(&mut s, self.seed as u128);
        s.append(",\"transport\":\"memory+plaintext+yamux-default-windows\",\"signing\":\"signed\",\"libp2p_rev\":\"");
        s.append(rev);
        s.append("\"}");
        s
    }
}

} // verus!
