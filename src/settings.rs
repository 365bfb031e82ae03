//! The tool's settings: command-line values over configuration-file values over defaults, and
//! the filters compiled from their patterns.

use vstd::prelude::*;

use crate::filter::{opt_pattern_view, regex_compiles, InvalidPattern, NodeFilter, NodeFilterView, Pattern, SinkFilter};
use crate::object::opt_view;

verus! {

/// Default minimum audio duration, in seconds.
pub const DEFAULT_MEDIA_MINIMUM_DURATION: i64 = 5;

/// The default minimum audio duration: five seconds.
pub fn default_media_minimum_duration() -> (r: i64)
    ensures
        r == DEFAULT_MEDIA_MINIMUM_DURATION,
{
    DEFAULT_MEDIA_MINIMUM_DURATION
}

/// Log verbosity.
#[derive(Clone, Copy, Debug, PartialEq, Eq, Structural)]
pub enum LogLevel {
    Off,
    Error,
    Warn,
    Info,
    Debug,
    Trace,
}

/// The level that a verbosity name stands for.
pub open spec fn level_of(s: Seq<char>) -> Option<LogLevel> {
    if s == "off"@ {
        Some(LogLevel::Off)
    } else if s == "error"@ {
        Some(LogLevel::Error)
    } else if s == "warn"@ {
        Some(LogLevel::Warn)
    } else if s == "info"@ {
        Some(LogLevel::Info)
    } else if s == "debug"@ {
        Some(LogLevel::Debug)
    } else if s == "trace"@ {
        Some(LogLevel::Trace)
    } else {
        None
    }
}

fn str_is(s: &String, lit: &str) -> (r: bool)
    ensures
        r == (s@ == lit@),
{
    String::eq(s, &lit.to_owned())
}

impl LogLevel {
    /// Decodes a verbosity name: `off`, `error`, `warn`, `info`, `debug` or `trace`.
    pub fn from_name(s: &str) -> (r: Option<LogLevel>)
        ensures
            r == level_of(s@),
    {
        let v = s.to_owned();
        if str_is(&v, "off") {
            Some(LogLevel::Off)
        } else if str_is(&v, "error") {
            Some(LogLevel::Error)
        } else if str_is(&v, "warn") {
            Some(LogLevel::Warn)
        } else if str_is(&v, "info") {
            Some(LogLevel::Info)
        } else if str_is(&v, "debug") {
            Some(LogLevel::Debug)
        } else if str_is(&v, "trace") {
            Some(LogLevel::Trace)
        } else {
            None
        }
    }
}

/// The default verbosity: warnings and errors.
pub fn default_verbosity() -> (r: LogLevel)
    ensures
        r == LogLevel::Warn,
{
    LogLevel::Warn
}

/// The idle-inhibitor backend to drive.
#[derive(Clone, Copy, Debug, PartialEq, Eq, Structural)]
pub enum IdleInhibitor {
    DBus,
    DryRun,
    Wayland,
}

/// The default backend: the compositor's idle-inhibit protocol.
pub fn default_idle_inhibitor() -> (r: IdleInhibitor)
    ensures
        r == IdleInhibitor::Wayland,
{
    IdleInhibitor::Wayland
}

/// Error for a backend name that names no backend; holds the name.
#[derive(Clone, Debug, PartialEq, Eq)]
pub struct ParseIdleInhibitorError(pub String);

/// The backend that a name stands for.
pub open spec fn inhibitor_of(s: Seq<char>) -> Option<IdleInhibitor> {
    if s == "d-bus"@ || s == "dbus"@ {
        Some(IdleInhibitor::DBus)
    } else if s == "dry-run"@ {
        Some(IdleInhibitor::DryRun)
    } else if s == "wayland"@ {
        Some(IdleInhibitor::Wayland)
    } else {
        None
    }
}

/// The name of a backend.
pub open spec fn inhibitor_name(i: IdleInhibitor) -> Seq<char> {
    match i {
        IdleInhibitor::DBus => "d-bus"@,
        IdleInhibitor::DryRun => "dry-run"@,
        IdleInhibitor::Wayland => "wayland"@,
    }
}

impl IdleInhibitor {
    /// Decodes a backend name: `d-bus` (or `dbus`), `dry-run` or `wayland`.
    pub fn from_name(s: &str) -> (r: Result<IdleInhibitor, ParseIdleInhibitorError>)
        ensures
            match r {
                Ok(i) => inhibitor_of(s@) == Some(i),
                Err(e) => inhibitor_of(s@) is None && e.0@ == s@,
            },
    {
        let v = s.to_owned();
        if str_is(&v, "d-bus") || str_is(&v, "dbus") {
            Ok(IdleInhibitor::DBus)
        } else if str_is(&v, "dry-run") {
            Ok(IdleInhibitor::DryRun)
        } else if str_is(&v, "wayland") {
            Ok(IdleInhibitor::Wayland)
        } else {
            Err(ParseIdleInhibitorError(v))
        }
    }

    /// The name of the backend, as [IdleInhibitor::from_name] reads it.
    pub fn name(&self) -> (r: &'static str)
        ensures
            r@ == inhibitor_name(*self),
    {
        match self {
            IdleInhibitor::DBus => "d-bus",
            IdleInhibitor::DryRun => "dry-run",
            IdleInhibitor::Wayland => "wayland",
        }
    }
}

impl std::str::FromStr for IdleInhibitor {
    type Err = ParseIdleInhibitorError;

    fn from_str(s: &str) -> (r: Result<IdleInhibitor, ParseIdleInhibitorError>)
        ensures
            match r {
                Ok(i) => inhibitor_of(s@) == Some(i),
                Err(e) => inhibitor_of(s@) is None && e.0@ == s@,
            },
    {
        IdleInhibitor::from_name(s)
    }
}

/// Command-line values; `None` and `false` mean not given.
#[derive(Clone, Debug)]
pub struct Args {
    pub media_minimum_duration: Option<i64>,
    pub verbosity: Option<LogLevel>,
    pub quiet: bool,
    pub idle_inhibitor: Option<IdleInhibitor>,
    pub dbus: bool,
    pub wayland: bool,
    pub dry_run: bool,
    pub config: Option<String>,
}

/// The verbosity that the command line asks for: `quiet` means off.
pub open spec fn args_log_level(a: Args) -> Option<LogLevel> {
    if a.quiet {
        Some(LogLevel::Off)
    } else {
        a.verbosity
    }
}

/// The backend that the command line asks for: a backend flag, else `--idle-inhibitor`.
pub open spec fn args_idle_inhibitor(a: Args) -> Option<IdleInhibitor> {
    if a.dbus {
        Some(IdleInhibitor::DBus)
    } else if a.wayland {
        Some(IdleInhibitor::Wayland)
    } else if a.dry_run {
        Some(IdleInhibitor::DryRun)
    } else {
        a.idle_inhibitor
    }
}

impl Args {
    /// The verbosity given on the command line, if any.
    pub fn get_log_level(&self) -> (r: Option<LogLevel>)
        ensures
            r == args_log_level(*self),
    {
        if self.quiet {
            Some(LogLevel::Off)
        } else {
            self.verbosity
        }
    }

    /// The backend given on the command line, if any.
    pub fn get_idle_inhibitor(&self) -> (r: Option<IdleInhibitor>)
        ensures
            r == args_idle_inhibitor(*self),
    {
        if self.dbus {
            Some(IdleInhibitor::DBus)
        } else if self.wayland {
            Some(IdleInhibitor::Wayland)
        } else if self.dry_run {
            Some(IdleInhibitor::DryRun)
        } else {
            self.idle_inhibitor
        }
    }
}

/// Patterns of one node-blacklist entry of the configuration file.
#[derive(Clone, Debug)]
pub struct NodeFilterSource {
    pub name: Option<String>,
    pub app_name: Option<String>,
    pub media_class: Option<String>,
    pub media_role: Option<String>,
    pub media_software: Option<String>,
}

/// Values of the configuration file; `None` means not given.
#[derive(Clone, Debug)]
pub struct FileConfig {
    pub media_minimum_duration: Option<i64>,
    pub idle_inhibitor: Option<String>,
    pub verbosity: Option<String>,
    /// One optional name pattern per sink-whitelist entry.
    pub sink_whitelist: Vec<Option<String>>,
    pub node_blacklist: Vec<NodeFilterSource>,
}

/// Why the settings could not be formed.
#[derive(Clone, Debug, PartialEq, Eq)]
pub enum ConfigError {
    Verbosity(String),
    IdleInhibitor(ParseIdleInhibitorError),
    Pattern(InvalidPattern),
}

/// Whether an optional pattern compiles (an absent one does).
pub open spec fn opt_compiles(p: Option<String>) -> bool {
    match p {
        Some(s) => regex_compiles(s@),
        None => true,
    }
}

/// Whether every pattern of a blacklist entry compiles.
pub open spec fn source_compiles(f: NodeFilterSource) -> bool {
    &&& opt_compiles(f.name)
    &&& opt_compiles(f.app_name)
    &&& opt_compiles(f.media_class)
    &&& opt_compiles(f.media_role)
    &&& opt_compiles(f.media_software)
}

/// The filter that a blacklist entry compiles to.
pub open spec fn source_view(f: NodeFilterSource) -> NodeFilterView {
    NodeFilterView {
        name: opt_view(f.name),
        app_name: opt_view(f.app_name),
        media_class: opt_view(f.media_class),
        media_role: opt_view(f.media_role),
        media_software: opt_view(f.media_software),
    }
}

/// Whether every pattern of the file compiles.
pub open spec fn file_patterns_compile(f: FileConfig) -> bool {
    &&& forall|i: int| 0 <= i < f.sink_whitelist@.len() ==> opt_compiles(#[trigger] f.sink_whitelist@[i])
    &&& forall|i: int| 0 <= i < f.node_blacklist@.len() ==> source_compiles(#[trigger] f.node_blacklist@[i])
}

fn compile_opt(p: &Option<String>) -> (r: Result<Option<Pattern>, InvalidPattern>)
    ensures
        r is Ok <==> opt_compiles(*p),
        match r {
            Ok(q) => opt_pattern_view(q) == opt_view(*p),
            Err(e) => p is Some && e.pattern@ == p->0@,
        },
{
    match p {
        None => Ok(None),
        Some(s) => match Pattern::new(s.as_str()) {
            Ok(q) => Ok(Some(q)),
            Err(e) => Err(e),
        },
    }
}

/// Compiles the sink whitelist of the file.
pub fn compile_sink_whitelist(sources: &Vec<Option<String>>) -> (r: Result<Vec<SinkFilter>, InvalidPattern>)
    ensures
        r is Ok <==> forall|i: int| 0 <= i < sources@.len() ==> opt_compiles(#[trigger] sources@[i]),
        match r {
            Ok(v) => v@.len() == sources@.len() && forall|i: int|
                0 <= i < v@.len() ==> (#[trigger] v@[i])@ == opt_view(sources@[i]),
            Err(e) => exists|i: int|
                0 <= i < sources@.len() && !opt_compiles(#[trigger] sources@[i]) && e.pattern@ == sources@[i]->0@,
        },
{
    let mut out: Vec<SinkFilter> = Vec::new();
    let mut i: usize = 0;
    while i < sources.len()
        invariant
            i <= sources@.len(),
            out@.len() == i,
            forall|j: int| 0 <= j < i ==> opt_compiles(#[trigger] sources@[j]),
            forall|j: int| 0 <= j < i ==> (#[trigger] out@[j])@ == opt_view(sources@[j]),
        decreases sources@.len() - i,
    {
        match compile_opt(&sources[i]) {
            Ok(p) => {
                out.push(SinkFilter::new(p));
            },
            Err(e) => {
                return Err(e);
            },
        }
        i = i + 1;
    }
    Ok(out)
}

fn compile_node_filter(f: &NodeFilterSource) -> (r: Result<NodeFilter, InvalidPattern>)
    ensures
        r is Ok <==> source_compiles(*f),
        match r {
            Ok(v) => v@ == source_view(*f),
            Err(e) => !source_compiles(*f),
        },
{
    let name = compile_opt(&f.name)?;
    let app_name = compile_opt(&f.app_name)?;
    let media_class = compile_opt(&f.media_class)?;
    let media_role = compile_opt(&f.media_role)?;
    let media_software = compile_opt(&f.media_software)?;
    Ok(NodeFilter::new(name, app_name, media_class, media_role, media_software))
}

/// Compiles the node blacklist of the file.
pub fn compile_node_blacklist(sources: &Vec<NodeFilterSource>) -> (r: Result<Vec<NodeFilter>, InvalidPattern>)
    ensures
        r is Ok <==> forall|i: int| 0 <= i < sources@.len() ==> source_compiles(#[trigger] sources@[i]),
        match r {
            Ok(v) => v@.len() == sources@.len() && forall|i: int|
                0 <= i < v@.len() ==> (#[trigger] v@[i])@ == source_view(sources@[i]),
            Err(_) => exists|i: int| 0 <= i < sources@.len() && !source_compiles(#[trigger] sources@[i]),
        },
{
    let mut out: Vec<NodeFilter> = Vec::new();
    let mut i: usize = 0;
    while i < sources.len()
        invariant
            i <= sources@.len(),
            out@.len() == i,
            forall|j: int| 0 <= j < i ==> source_compiles(#[trigger] sources@[j]),
            forall|j: int| 0 <= j < i ==> (#[trigger] out@[j])@ == source_view(sources@[j]),
        decreases sources@.len() - i,
    {
        match compile_node_filter(&sources[i]) {
            Ok(p) => {
                out.push(p);
            },
            Err(e) => {
                assert(!source_compiles(sources@[i as int]));
                return Err(e);
            },
        }
        i = i + 1;
    }
    Ok(out)
}

/// The settings that the tool runs with.
#[derive(Debug)]
pub struct Settings {
    media_minimum_duration: i64,
    idle_inhibitor: IdleInhibitor,
    verbosity: LogLevel,
    sink_whitelist: Vec<SinkFilter>,
    node_blacklist: Vec<NodeFilter>,
}

/// The minimum audio duration that a configured number of seconds gives: none for zero or less.
pub open spec fn duration_of(seconds: i64) -> Option<u64> {
    if seconds > 0 {
        Some(seconds as u64)
    } else {
        None
    }
}

/// Whether the verbosity resolves: from the command line, else a valid file value, else the default.
pub open spec fn verbosity_resolves(a: Args, f: FileConfig) -> bool {
    args_log_level(a) is Some || f.verbosity is None || level_of(f.verbosity->0@) is Some
}

/// Whether the backend resolves: from the command line, else a valid file value, else the default.
pub open spec fn inhibitor_resolves(a: Args, f: FileConfig) -> bool {
    args_idle_inhibitor(a) is Some || f.idle_inhibitor is None || inhibitor_of(f.idle_inhibitor->0@) is Some
}

impl Settings {
    /// Forms the settings: each command-line value overrides the file's, and what neither gives
    /// takes its default (a minimum duration of five seconds, `warn`, the compositor backend).
    /// A file value that is used and does not decode, or a pattern that does not compile, is an
    /// error; they are checked in that order.
    pub fn resolve(args: &Args, file: &FileConfig) -> (r: Result<Settings, ConfigError>)
        ensures
            r is Ok <==> verbosity_resolves(*args, *file) && inhibitor_resolves(*args, *file)
                && file_patterns_compile(*file),
            !verbosity_resolves(*args, *file) ==> (r matches Err(ConfigError::Verbosity(v))
                && v@ == file.verbosity->0@),
            verbosity_resolves(*args, *file) && !inhibitor_resolves(*args, *file) ==> (r matches Err(
                ConfigError::IdleInhibitor(e),
            ) && e.0@ == file.idle_inhibitor->0@),
            verbosity_resolves(*args, *file) && inhibitor_resolves(*args, *file)
                && !file_patterns_compile(*file) ==> r matches Err(ConfigError::Pattern(_)),
            r matches Ok(s) ==> {
                &&& s.media_minimum_duration() == match args.media_minimum_duration {
                    Some(d) => d,
                    None => match file.media_minimum_duration {
                        Some(d) => d,
                        None => DEFAULT_MEDIA_MINIMUM_DURATION,
                    },
                }
                &&& s.verbosity() == match args_log_level(*args) {
                    Some(l) => l,
                    None => match file.verbosity {
                        Some(v) => level_of(v@)->0,
                        None => LogLevel::Warn,
                    },
                }
                &&& s.idle_inhibitor() == match args_idle_inhibitor(*args) {
                    Some(i) => i,
                    None => match file.idle_inhibitor {
                        Some(v) => inhibitor_of(v@)->0,
                        None => IdleInhibitor::Wayland,
                    },
                }
                &&& s.whitelist().len() == file.sink_whitelist@.len()
                &&& forall|i: int| 0 <= i < s.whitelist().len() ==> #[trigger] s.whitelist()[i]
                    == opt_view(file.sink_whitelist@[i])
                &&& s.blacklist().len() == file.node_blacklist@.len()
                &&& forall|i: int| 0 <= i < s.blacklist().len() ==> #[trigger] s.blacklist()[i]
                    == source_view(file.node_blacklist@[i])
            },
    {
        let verbosity = match args.get_log_level() {
            Some(l) => l,
            None => match &file.verbosity {
                None => default_verbosity(),
                Some(v) => match LogLevel::from_name(v.as_str()) {
                    Some(l) => l,
                    None => {
                        return Err(ConfigError::Verbosity(v.clone()));
                    },
                },
            },
        };
        let idle_inhibitor = match args.get_idle_inhibitor() {
            Some(i) => i,
            None => match &file.idle_inhibitor {
                None => default_idle_inhibitor(),
                Some(v) => match IdleInhibitor::from_name(v.as_str()) {
                    Ok(i) => i,
                    Err(e) => {
                        return Err(ConfigError::IdleInhibitor(e));
                    },
                },
            },
        };
        let media_minimum_duration = match args.media_minimum_duration {
            Some(d) => d,
            None => match file.media_minimum_duration {
                Some(d) => d,
                None => default_media_minimum_duration(),
            },
        };
        let sink_whitelist = match compile_sink_whitelist(&file.sink_whitelist) {
            Ok(v) => v,
            Err(e) => {
                return Err(ConfigError::Pattern(e));
            },
        };
        let node_blacklist = match compile_node_blacklist(&file.node_blacklist) {
            Ok(v) => v,
            Err(e) => {
                return Err(ConfigError::Pattern(e));
            },
        };
        let s = Settings { media_minimum_duration, idle_inhibitor, verbosity, sink_whitelist, node_blacklist };
        proof {
            assert forall|i: int| 0 <= i < s.whitelist().len() implies #[trigger] s.whitelist()[i]
                == opt_view(file.sink_whitelist@[i]) by {
                assert(s.sink_whitelist@[i]@ == opt_view(file.sink_whitelist@[i]));
            }
            assert forall|i: int| 0 <= i < s.blacklist().len() implies #[trigger] s.blacklist()[i]
                == source_view(file.node_blacklist@[i]) by {
                assert(s.node_blacklist@[i]@ == source_view(file.node_blacklist@[i]));
            }
        }
        Ok(s)
    }

    /// The configured minimum audio duration in seconds.
    pub closed spec fn media_minimum_duration(&self) -> i64 {
        self.media_minimum_duration
    }

    /// The configured verbosity.
    pub closed spec fn verbosity(&self) -> LogLevel {
        self.verbosity
    }

    /// The configured backend.
    pub closed spec fn idle_inhibitor(&self) -> IdleInhibitor {
        self.idle_inhibitor
    }

    /// The sink whitelist, one optional name pattern per filter.
    pub closed spec fn whitelist(&self) -> Seq<Option<Seq<char>>> {
        self.sink_whitelist@.map_values(|f: SinkFilter| f@)
    }

    /// The node blacklist.
    pub closed spec fn blacklist(&self) -> Seq<NodeFilterView> {
        self.node_blacklist@.map_values(|f: NodeFilter| f@)
    }

    /// The minimum audio duration: `None` when it is zero or negative, which disables the delay.
    pub fn get_media_minimum_duration(&self) -> (r: Option<u64>)
        ensures
            r == duration_of(self.media_minimum_duration()),
    {
        if self.media_minimum_duration > 0 {
            Some(self.media_minimum_duration as u64)
        } else {
            None
        }
    }

    /// The log verbosity.
    pub fn get_verbosity(&self) -> (r: LogLevel)
        ensures
            r == self.verbosity(),
    {
        self.verbosity
    }

    /// The backend to drive.
    pub fn get_idle_inhibitor(&self) -> (r: IdleInhibitor)
        ensures
            r == self.idle_inhibitor(),
    {
        self.idle_inhibitor
    }

    /// The sink whitelist.
    pub fn get_sink_whitelist(&self) -> (r: &Vec<SinkFilter>)
        ensures
            r@.map_values(|f: SinkFilter| f@) == self.whitelist(),
    {
        &self.sink_whitelist
    }

    /// The node blacklist.
    pub fn get_node_blacklist(&self) -> (r: &Vec<NodeFilter>)
        ensures
            r@.map_values(|f: NodeFilter| f@) == self.blacklist(),
    {
        &self.node_blacklist
    }

    /// Hands the filters over, for the graph to own.
    pub fn into_filters(self) -> (r: (Vec<SinkFilter>, Vec<NodeFilter>))
        ensures
            r.0@.map_values(|f: SinkFilter| f@) == self.whitelist(),
            r.1@.map_values(|f: NodeFilter| f@) == self.blacklist(),
    {
        (self.sink_whitelist, self.node_blacklist)
    }
}

} // verus!

verus! {

/// Reading a backend's name gives the backend back.
pub proof fn lemma_inhibitor_name_round_trip(i: IdleInhibitor)
    ensures
        inhibitor_of(inhibitor_name(i)) == Some(i),
{
    reveal_strlit("d-bus");
    reveal_strlit("dbus");
    reveal_strlit("dry-run");
    reveal_strlit("wayland");
    assert("dbus"@.len() != "dry-run"@.len());
    assert("d-bus"@.len() != "dry-run"@.len());
    assert("d-bus"@.len() != "wayland"@.len());
    assert("dbus"@.len() != "wayland"@.len());
    assert("dry-run"@[0] != "wayland"@[0]);
}

} // verus!
