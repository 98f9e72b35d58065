//! Settings resolution. Priority, highest first: command-line flags,
//! `FIGEX_*` environment variables, `figex.toml`, built-in defaults.

use vstd::prelude::*;

use crate::text::{parse_unsigned, parse_unsigned_up_to, str_eq, string_of};

verus! {

/// The `[runtime]` table of `figex.toml`.
#[derive(Debug, Default, Clone)]
pub struct RuntimeFileConfig {
    pub transport: Option<String>,
    pub host: Option<String>,
    pub port: Option<u16>,
    pub timeout_ms: Option<u64>,
    pub snapshot_max_depth: Option<u32>,
}

/// The `[output]` table of `figex.toml`.
#[derive(Debug, Default, Clone)]
pub struct OutputFileConfig {
    pub pretty: Option<bool>,
    pub include_diagnostics: Option<bool>,
}

/// The `[classifier]` table of `figex.toml`.
#[derive(Debug, Default, Clone)]
pub struct ClassifierFileConfig {
    pub enabled: Option<bool>,
    pub max_component_candidates: Option<u32>,
    pub max_atomic_candidates: Option<u32>,
}

/// The `[normalizer]` table of `figex.toml`. The threshold is held as the
/// IEEE-754 bit pattern of the `f64` that the file gives.
#[derive(Debug, Default, Clone)]
pub struct NormalizerFileConfig {
    pub collapse_wrappers: Option<bool>,
    pub boundary_threshold: Option<u64>,
    pub preserve_repetition_candidates: Option<bool>,
}

/// The whole of `figex.toml`.
#[derive(Debug, Default, Clone)]
pub struct FileConfig {
    pub runtime: Option<RuntimeFileConfig>,
    pub output: Option<OutputFileConfig>,
    pub classifier: Option<ClassifierFileConfig>,
    pub normalizer: Option<NormalizerFileConfig>,
}

/// The command-line flags that take part in settings resolution.
#[derive(Debug, Default, Clone)]
pub struct CliOverrides {
    pub json: bool,
    pub pretty: bool,
    pub timeout_ms: Option<u64>,
    pub transport: Option<String>,
    pub host: Option<String>,
    pub port: Option<u16>,
    pub log_level: Option<String>,
}

/// Fully resolved settings. `host_explicit` and `port_explicit` record
/// whether the value came from a flag, the environment or the file rather
/// than from the built-in default. `boundary_threshold` is the IEEE-754 bit
/// pattern of an `f64`.
#[derive(Debug, Clone)]
pub struct Settings {
    pub json: bool,
    pub pretty: bool,
    pub log_level: String,
    pub transport: String,
    pub host: String,
    pub host_explicit: bool,
    pub port: u16,
    pub port_explicit: bool,
    pub timeout_ms: u64,
    pub snapshot_max_depth: u32,
    pub include_diagnostics: bool,
    pub collapse_wrappers: bool,
    pub boundary_threshold: u64,
    pub preserve_repetition_candidates: bool,
    pub classifier_enabled: bool,
    pub max_component_candidates: u32,
    pub max_atomic_candidates: u32,
}

/// Bit pattern of the default boundary threshold, the `f64` 0.62.
pub const DEFAULT_BOUNDARY_THRESHOLD_BITS: u64 = 0x3fe3d70a3d70a3d7u64;

/// Whether `s` holds the built-in default of every setting.
pub open spec fn is_default_settings(s: Settings) -> bool {
    &&& !s.json
    &&& s.pretty
    &&& s.log_level@ == "warn"@
    &&& s.transport@ == "auto"@
    &&& s.host@ == "127.0.0.1"@
    &&& !s.host_explicit
    &&& s.port == 9222
    &&& !s.port_explicit
    &&& s.timeout_ms == 5000
    &&& s.snapshot_max_depth == 128
    &&& s.include_diagnostics
    &&& s.collapse_wrappers
    &&& s.boundary_threshold == DEFAULT_BOUNDARY_THRESHOLD_BITS
    &&& s.preserve_repetition_candidates
    &&& s.classifier_enabled
    &&& s.max_component_candidates == 3
    &&& s.max_atomic_candidates == 3
}

impl Default for Settings {
    fn default() -> (s: Settings)
        ensures
            is_default_settings(s),
    {
        Settings {
            json: false,
            pretty: true,
            log_level: string_of("warn"),
            transport: string_of("auto"),
            host: string_of("127.0.0.1"),
            host_explicit: false,
            port: 9222,
            port_explicit: false,
            timeout_ms: 5000,
            snapshot_max_depth: 128,
            include_diagnostics: true,
            collapse_wrappers: true,
            boundary_threshold: DEFAULT_BOUNDARY_THRESHOLD_BITS,
            preserve_repetition_candidates: true,
            classifier_enabled: true,
            max_component_candidates: 3,
            max_atomic_candidates: 3,
        }
    }
}

/// The values that the environment gave for the variables that settings
/// resolution reads.
#[derive(Debug, Default, Clone)]
pub struct EnvReads {
    pub json: Option<String>,
    pub pretty: Option<String>,
    pub log_level: Option<String>,
    pub transport: Option<String>,
    pub host: Option<String>,
    pub port: Option<String>,
    pub timeout_ms: Option<String>,
}

/// Whether each field of `r` is a value that `env_fn` may return for the
/// variable of that name.
pub open spec fn env_gave<F: Fn(&str) -> Option<String>>(env_fn: F, r: EnvReads) -> bool {
    &&& call_ensures(env_fn, ("FIGEX_JSON",), r.json)
    &&& call_ensures(env_fn, ("FIGEX_PRETTY",), r.pretty)
    &&& call_ensures(env_fn, ("FIGEX_LOG_LEVEL",), r.log_level)
    &&& call_ensures(env_fn, ("FIGEX_TRANSPORT",), r.transport)
    &&& call_ensures(env_fn, ("FIGEX_HOST",), r.host)
    &&& call_ensures(env_fn, ("FIGEX_PORT",), r.port)
    &&& call_ensures(env_fn, ("FIGEX_TIMEOUT_MS",), r.timeout_ms)
}

/// The text of an optional string.
pub open spec fn text_of(o: Option<String>) -> Option<Seq<char>> {
    match o {
        Some(s) => Some(s@),
        None => None,
    }
}

/// The first present value, in order.
pub open spec fn first_of<T>(a: Option<T>, b: Option<T>, c: Option<T>, d: T) -> T {
    match a {
        Some(x) => x,
        None => match b {
            Some(x) => x,
            None => match c {
                Some(x) => x,
                None => d,
            },
        },
    }
}

/// A boolean flag value: `"1"` and `"true"` are true, everything else false.
pub open spec fn bool_text(s: Seq<char>) -> bool {
    s == "1"@ || s == "true"@
}

/// What an environment variable gives as a number no greater than `max`:
/// nothing when it is unset or does not parse.
pub open spec fn env_number(v: Option<String>, max: nat) -> Option<nat> {
    match v {
        Some(s) => parse_unsigned(s@, max),
        None => None,
    }
}

/// The `[runtime]` table, if the file has one.
pub open spec fn runtime_of(file: Option<FileConfig>) -> Option<RuntimeFileConfig> {
    match file {
        Some(f) => f.runtime,
        None => None,
    }
}

/// The `[output]` table, if the file has one.
pub open spec fn output_of(file: Option<FileConfig>) -> Option<OutputFileConfig> {
    match file {
        Some(f) => f.output,
        None => None,
    }
}

/// The `[classifier]` table, if the file has one.
pub open spec fn classifier_of(file: Option<FileConfig>) -> Option<ClassifierFileConfig> {
    match file {
        Some(f) => f.classifier,
        None => None,
    }
}

/// The `[normalizer]` table, if the file has one.
pub open spec fn normalizer_of(file: Option<FileConfig>) -> Option<NormalizerFileConfig> {
    match file {
        Some(f) => f.normalizer,
        None => None,
    }
}

/// A field of the `[runtime]` table, absent when the table is.
pub open spec fn rt_transport(file: Option<FileConfig>) -> Option<Seq<char>> {
    match runtime_of(file) {
        Some(r) => text_of(r.transport),
        None => None,
    }
}

pub open spec fn rt_host(file: Option<FileConfig>) -> Option<Seq<char>> {
    match runtime_of(file) {
        Some(r) => text_of(r.host),
        None => None,
    }
}

pub open spec fn rt_port(file: Option<FileConfig>) -> Option<nat> {
    match runtime_of(file) {
        Some(r) => match r.port {
            Some(p) => Some(p as nat),
            None => None,
        },
        None => None,
    }
}

pub open spec fn rt_timeout(file: Option<FileConfig>) -> Option<nat> {
    match runtime_of(file) {
        Some(r) => match r.timeout_ms {
            Some(t) => Some(t as nat),
            None => None,
        },
        None => None,
    }
}

/// An optional number widened to `nat`.
pub open spec fn nat_of_u16(o: Option<u16>) -> Option<nat> {
    match o {
        Some(v) => Some(v as nat),
        None => None,
    }
}

pub open spec fn nat_of_u64(o: Option<u64>) -> Option<nat> {
    match o {
        Some(v) => Some(v as nat),
        None => None,
    }
}

/// A file value if present, else the default.
pub open spec fn or_default<T>(o: Option<T>, d: T) -> T {
    match o {
        Some(x) => x,
        None => d,
    }
}

/// Whether `s` is what resolution gives for flags `cli`, environment
/// values `env` and file `file`: each setting from the first source that
/// sets it, in the order flags, environment, file, default.
pub open spec fn resolved(cli: CliOverrides, env: EnvReads, file: Option<FileConfig>, s: Settings) -> bool {
    &&& s.json == (cli.json || match env.json {
        Some(v) => bool_text(v@),
        None => false,
    })
    &&& s.pretty == (if cli.pretty {
        true
    } else {
        match env.pretty {
            Some(v) => bool_text(v@),
            None => or_default(
                match output_of(file) {
                    Some(o) => o.pretty,
                    None => None,
                },
                true,
            ),
        }
    })
    &&& s.log_level@ == first_of(text_of(cli.log_level), text_of(env.log_level), None, "warn"@)
    &&& s.transport@ == first_of(
        text_of(cli.transport),
        text_of(env.transport),
        rt_transport(file),
        "auto"@,
    )
    &&& s.host@ == first_of(text_of(cli.host), text_of(env.host), rt_host(file), "127.0.0.1"@)
    &&& s.host_explicit == (cli.host is Some || env.host is Some || rt_host(file) is Some)
    &&& s.port as nat == first_of(
        nat_of_u16(cli.port),
        env_number(env.port, 65535),
        rt_port(file),
        9222,
    )
    &&& s.port_explicit == (cli.port is Some || env_number(env.port, 65535) is Some || rt_port(
        file,
    ) is Some)
    &&& s.timeout_ms as nat == first_of(
        nat_of_u64(cli.timeout_ms),
        env_number(env.timeout_ms, u64::MAX as nat),
        rt_timeout(file),
        5000,
    )
    &&& s.snapshot_max_depth == or_default(
        match runtime_of(file) {
            Some(r) => r.snapshot_max_depth,
            None => None,
        },
        128u32,
    )
    &&& s.include_diagnostics == or_default(
        match output_of(file) {
            Some(o) => o.include_diagnostics,
            None => None,
        },
        true,
    )
    &&& s.collapse_wrappers == or_default(
        match normalizer_of(file) {
            Some(n) => n.collapse_wrappers,
            None => None,
        },
        true,
    )
    &&& s.boundary_threshold == or_default(
        match normalizer_of(file) {
            Some(n) => n.boundary_threshold,
            None => None,
        },
        DEFAULT_BOUNDARY_THRESHOLD_BITS,
    )
    &&& s.preserve_repetition_candidates == or_default(
        match normalizer_of(file) {
            Some(n) => n.preserve_repetition_candidates,
            None => None,
        },
        true,
    )
    &&& s.classifier_enabled == or_default(
        match classifier_of(file) {
            Some(c) => c.enabled,
            None => None,
        },
        true,
    )
    &&& s.max_component_candidates == or_default(
        match classifier_of(file) {
            Some(c) => c.max_component_candidates,
            None => None,
        },
        3u32,
    )
    &&& s.max_atomic_candidates == or_default(
        match classifier_of(file) {
            Some(c) => c.max_atomic_candidates,
            None => None,
        },
        3u32,
    )
}

/// Whether a flag value is true: `"1"` and `"true"` are, anything else is not.
fn parse_bool_str(s: &str) -> (res: bool)
    ensures
        res == bool_text(s@),
{
    str_eq(s, "1") || str_eq(s, "true")
}

/// Whether an environment flag is set to a true value.
fn parse_bool_env(v: &Option<String>) -> (res: bool)
    ensures
        res == match v {
            Some(s) => bool_text(s@),
            None => false,
        },
{
    match v {
        Some(s) => parse_bool_str(s.as_str()),
        None => false,
    }
}

/// The first present text among three, else `default`.
fn first_text(a: &Option<String>, b: &Option<String>, c: &Option<String>, default: &str) -> (res: String)
    ensures
        res@ == first_of(text_of(*a), text_of(*b), text_of(*c), default@),
{
    match a {
        Some(x) => x.clone(),
        None => match b {
            Some(x) => x.clone(),
            None => match c {
                Some(x) => x.clone(),
                None => string_of(default),
            },
        },
    }
}

/// An environment value read as a number no greater than `max`.
fn env_num(v: &Option<String>, max: u64) -> (res: Option<u64>)
    ensures
        nat_of_u64(res) == env_number(*v, max as nat),
{
    match v {
        Some(s) => parse_unsigned_up_to(s.as_str(), max),
        None => None,
    }
}

/// Resolves settings from flags, environment values already read, and the
/// file, in the priority order flags, environment, file, defaults.
pub fn resolve_settings_from(cli: &CliOverrides, env: &EnvReads, file: Option<&FileConfig>) -> (s: Settings)
    ensures
        resolved(*cli, *env, match file {
            Some(f) => Some(*f),
            None => None,
        }, s),
{
    let rt: Option<&RuntimeFileConfig> = match file {
        Some(f) => match &f.runtime {
            Some(r) => Some(r),
            None => None,
        },
        None => None,
    };
    let out: Option<&OutputFileConfig> = match file {
        Some(f) => match &f.output {
            Some(o) => Some(o),
            None => None,
        },
        None => None,
    };
    let clf: Option<&ClassifierFileConfig> = match file {
        Some(f) => match &f.classifier {
            Some(c) => Some(c),
            None => None,
        },
        None => None,
    };
    let nrm: Option<&NormalizerFileConfig> = match file {
        Some(f) => match &f.normalizer {
            Some(n) => Some(n),
            None => None,
        },
        None => None,
    };
    let none: Option<String> = None;
    let file_transport: Option<String> = match rt {
        Some(r) => r.transport.clone(),
        None => None,
    };
    let file_host: Option<String> = match rt {
        Some(r) => r.host.clone(),
        None => None,
    };
    let file_port: Option<u16> = match rt {
        Some(r) => r.port,
        None => None,
    };
    let file_timeout: Option<u64> = match rt {
        Some(r) => r.timeout_ms,
        None => None,
    };

    let json = cli.json || parse_bool_env(&env.json);
    let pretty = if cli.pretty {
        true
    } else {
        match &env.pretty {
            Some(v) => parse_bool_str(v.as_str()),
            None => match out {
                Some(o) => match o.pretty {
                    Some(p) => p,
                    None => true,
                },
                None => true,
            },
        }
    };
    let log_level = first_text(&cli.log_level, &env.log_level, &none, "warn");
    let transport = first_text(&cli.transport, &env.transport, &file_transport, "auto");
    let host = first_text(&cli.host, &env.host, &file_host, "127.0.0.1");
    let host_explicit = cli.host.is_some() || env.host.is_some() || file_host.is_some();

    let env_port = env_num(&env.port, 65535);
    let port: u16 = match cli.port {
        Some(p) => p,
        None => match env_port {
            Some(p) => p as u16,
            None => match file_port {
                Some(p) => p,
                None => 9222,
            },
        },
    };
    let port_explicit = cli.port.is_some() || env_port.is_some() || file_port.is_some();

    let env_timeout = env_num(&env.timeout_ms, u64::MAX);
    let timeout_ms: u64 = match cli.timeout_ms {
        Some(t) => t,
        None => match env_timeout {
            Some(t) => t,
            None => match file_timeout {
                Some(t) => t,
                None => 5000,
            },
        },
    };

    let snapshot_max_depth: u32 = match rt {
        Some(r) => match r.snapshot_max_depth {
            Some(d) => d,
            None => 128,
        },
        None => 128,
    };
    let include_diagnostics = match out {
        Some(o) => match o.include_diagnostics {
            Some(v) => v,
            None => true,
        },
        None => true,
    };
    let collapse_wrappers = match nrm {
        Some(n) => match n.collapse_wrappers {
            Some(v) => v,
            None => true,
        },
        None => true,
    };
    let boundary_threshold: u64 = match nrm {
        Some(n) => match n.boundary_threshold {
            Some(v) => v,
            None => DEFAULT_BOUNDARY_THRESHOLD_BITS,
        },
        None => DEFAULT_BOUNDARY_THRESHOLD_BITS,
    };
    let preserve_repetition_candidates = match nrm {
        Some(n) => match n.preserve_repetition_candidates {
            Some(v) => v,
            None => true,
        },
        None => true,
    };
    let classifier_enabled = match clf {
        Some(c) => match c.enabled {
            Some(v) => v,
            None => true,
        },
        None => true,
    };
    let max_component_candidates: u32 = match clf {
        Some(c) => match c.max_component_candidates {
            Some(v) => v,
            None => 3,
        },
        None => 3,
    };
    let max_atomic_candidates: u32 = match clf {
        Some(c) => match c.max_atomic_candidates {
            Some(v) => v,
            None => 3,
        },
        None => 3,
    };

    Settings {
        json,
        pretty,
        log_level,
        transport,
        host,
        host_explicit,
        port,
        port_explicit,
        timeout_ms,
        snapshot_max_depth,
        include_diagnostics,
        collapse_wrappers,
        boundary_threshold,
        preserve_repetition_candidates,
        classifier_enabled,
        max_component_candidates,
        max_atomic_candidates,
    }
}


/// Resolve settings from all sources using the defined priority order.
/// `env_fn` looks up an environment variable by name; each `FIGEX_*`
/// variable is read once.
pub fn resolve_settings<F: Fn(&str) -> Option<String>>(
    cli: &CliOverrides,
    env_fn: F,
    file: Option<&FileConfig>,
) -> (s: Settings)
    requires
        forall|k: &str| #[trigger] call_requires(env_fn, (k,)),
    ensures
        exists|env: EnvReads|
            #[trigger] env_gave(env_fn, env) && resolved(*cli, env, match file {
                Some(f) => Some(*f),
                None => None,
            }, s),
{
    let json = env_fn("FIGEX_JSON");
    let pretty = env_fn("FIGEX_PRETTY");
    let log_level = env_fn("FIGEX_LOG_LEVEL");
    let transport = env_fn("FIGEX_TRANSPORT");
    let host = env_fn("FIGEX_HOST");
    let port = env_fn("FIGEX_PORT");
    let timeout_ms = env_fn("FIGEX_TIMEOUT_MS");
    let env = EnvReads { json, pretty, log_level, transport, host, port, timeout_ms };
    assert(env_gave(env_fn, env));
    resolve_settings_from(cli, &env, file)
}


/// A command-line flag wins over the environment and the file: every
/// setting that a flag gives takes the flag's value.
pub proof fn law_flags_win(cli: CliOverrides, env: EnvReads, file: Option<FileConfig>, s: Settings)
    requires
        resolved(cli, env, file, s),
    ensures
        cli.json ==> s.json,
        cli.pretty ==> s.pretty,
        cli.log_level matches Some(v) ==> s.log_level@ == v@,
        cli.transport matches Some(v) ==> s.transport@ == v@,
        cli.host matches Some(v) ==> s.host@ == v@ && s.host_explicit,
        cli.port matches Some(v) ==> s.port == v && s.port_explicit,
        cli.timeout_ms matches Some(v) ==> s.timeout_ms == v,
{
}

/// Where no flag is given, a usable environment value wins over the file.
pub proof fn law_environment_beats_file(
    cli: CliOverrides,
    env: EnvReads,
    file: Option<FileConfig>,
    s: Settings,
)
    requires
        resolved(cli, env, file, s),
    ensures
        cli.transport is None && env.transport is Some ==> s.transport@ == env.transport->0@,
        cli.host is None && env.host is Some ==> s.host@ == env.host->0@,
        cli.log_level is None && env.log_level is Some ==> s.log_level@ == env.log_level->0@,
        cli.port is None && env_number(env.port, 65535) is Some ==> s.port as nat
            == env_number(env.port, 65535)->0,
        cli.timeout_ms is None && env_number(env.timeout_ms, u64::MAX as nat) is Some
            ==> s.timeout_ms as nat == env_number(env.timeout_ms, u64::MAX as nat)->0,
        !cli.pretty && env.pretty is Some ==> s.pretty == bool_text(env.pretty->0@),
{
}

/// Where neither a flag nor a usable environment value is given, the file's
/// value wins over the default; an environment number that does not parse
/// counts as not given.
pub proof fn law_file_beats_default(
    cli: CliOverrides,
    env: EnvReads,
    file: Option<FileConfig>,
    s: Settings,
)
    requires
        resolved(cli, env, file, s),
    ensures
        cli.transport is None && env.transport is None && rt_transport(file) is Some
            ==> s.transport@ == rt_transport(file)->0,
        cli.host is None && env.host is None && rt_host(file) is Some ==> s.host@ == rt_host(
            file,
        )->0,
        cli.port is None && env_number(env.port, 65535) is None && rt_port(file) is Some
            ==> s.port as nat == rt_port(file)->0,
        cli.timeout_ms is None && env_number(env.timeout_ms, u64::MAX as nat) is None && rt_timeout(
            file,
        ) is Some ==> s.timeout_ms as nat == rt_timeout(file)->0,
{
}

/// With no flags, no environment values and no file, every setting is its
/// built-in default.
pub proof fn law_defaults_when_nothing_is_set(cli: CliOverrides, env: EnvReads, s: Settings)
    requires
        !cli.json,
        !cli.pretty,
        cli.log_level is None,
        cli.transport is None,
        cli.host is None,
        cli.port is None,
        cli.timeout_ms is None,
        env.json is None,
        env.pretty is None,
        env.log_level is None,
        env.transport is None,
        env.host is None,
        env.port is None,
        env.timeout_ms is None,
        resolved(cli, env, None, s),
    ensures
        is_default_settings(s),
{
}

/// Picks the config file of the nearest directory that holds one, given
/// for each directory from the start toward the root whether it does.
pub fn nearest_config(found: &Vec<bool>) -> (res: Option<usize>)
    ensures
        match res {
            Some(i) => i < found@.len() && found@[i as int] && forall|j: int|
                0 <= j < i ==> !found@[j],
            None => forall|j: int| 0 <= j < found@.len() ==> !found@[j],
        },
{
    let mut i: usize = 0;
    while i < found.len()
        invariant
            i <= found@.len(),
            forall|j: int| 0 <= j < i ==> !found@[j],
        decreases found.len() - i,
    {
        if found[i] {
            return Some(i);
        }
        i = i + 1;
    }
    None
}

/// A host or port that a flag, a usable environment value or the file's
/// `[runtime]` table gives is explicit, and the client then probes only it;
/// one that is not explicit is the built-in default. In particular, with no
/// flag and no usable environment value, the file's port is used and is
/// explicit.
pub proof fn law_configured_endpoint_is_explicit(
    cli: CliOverrides,
    env: EnvReads,
    file: Option<FileConfig>,
    s: Settings,
)
    requires
        resolved(cli, env, file, s),
    ensures
        (cli.port is None && env_number(env.port, 65535) is None && (file matches Some(f)
            && f.runtime matches Some(r) && r.port matches Some(p))) ==> (s.port_explicit
            && s.port == file->0.runtime->0.port->0),
        (cli.host is None && env.host is None && (file matches Some(f) && f.runtime matches Some(
            r,
        ) && r.host matches Some(h))) ==> (s.host_explicit && s.host@
            == file->0.runtime->0.host->0@),
        s.port_explicit <==> (cli.port is Some || env_number(env.port, 65535) is Some || (
        file matches Some(f) && f.runtime matches Some(r) && r.port is Some)),
        s.host_explicit <==> (cli.host is Some || env.host is Some || (file matches Some(f)
            && f.runtime matches Some(r) && r.host is Some)),
        !s.port_explicit ==> s.port == 9222,
        !s.host_explicit ==> s.host@ == "127.0.0.1"@,
{
}

} // verus!
