//! The configuration builder and the immutable configuration it produces.
//!
//! Defaults are established first; overrides taken from the command line
//! are applied on top, overwriting only the fields actually present
//! there; the accumulated state is then finalized into a read-only
//! [`GridConfig`], failing if any field ended up absent.

use vstd::prelude::*;

use crate::error::ConfigurationError;

verus! {

/// Logging verbosity, from least to most detailed output.
#[derive(Clone, Copy, PartialEq, Eq, Structural, Debug)]
pub enum LogLevel {
    Error,
    Warn,
    Info,
    Debug,
    Trace,
}

/// The option values taken from an already-parsed command line: a
/// `connect` address, a `bind` address, and the number of times the
/// `verbose` flag occurred.
pub struct CliArgs {
    pub connect: Option<String>,
    pub bind: Option<String>,
    pub verbose: u64,
}

/// Mathematical image of [`CliArgs`]: the same three options over
/// character sequences.
pub ghost struct ArgsView {
    pub connect: Option<Seq<char>>,
    pub bind: Option<Seq<char>>,
    pub verbose: u64,
}

/// The view of an optional string: present strings become their
/// character sequences, absence stays absence.
pub open spec fn opt_str_view(o: Option<String>) -> Option<Seq<char>> {
    match o {
        Some(s) => Some(s@),
        None => None,
    }
}

impl View for CliArgs {
    type V = ArgsView;

    open spec fn view(&self) -> ArgsView {
        ArgsView {
            connect: opt_str_view(self.connect),
            bind: opt_str_view(self.bind),
            verbose: self.verbose,
        }
    }
}

/// The immutable configuration a successful build produces. No mutation
/// after construction; accessors only.
#[derive(Debug)]
pub struct GridConfig {
    validator_endpoint: String,
    log_level: LogLevel,
    rest_api_endpoint: String,
}

/// Mathematical image of [`GridConfig`]: all three fields present.
pub ghost struct ConfigView {
    pub validator_endpoint: Seq<char>,
    pub log_level: LogLevel,
    pub rest_api_endpoint: Seq<char>,
}

impl View for GridConfig {
    type V = ConfigView;

    closed spec fn view(&self) -> ConfigView {
        ConfigView {
            validator_endpoint: self.validator_endpoint@,
            log_level: self.log_level,
            rest_api_endpoint: self.rest_api_endpoint@,
        }
    }
}

impl GridConfig {
    /// The network address of the validator to connect to.
    pub fn validator_endpoint(&self) -> (r: &str)
        ensures
            r@ == self@.validator_endpoint,
    {
        self.validator_endpoint.as_str()
    }

    /// The logging verbosity the process should run at.
    pub fn log_level(&self) -> (r: LogLevel)
        ensures
            r == self@.log_level,
    {
        self.log_level
    }

    /// The address the REST API should bind to.
    pub fn rest_api_endpoint(&self) -> (r: &str)
        ensures
            r@ == self@.rest_api_endpoint,
    {
        self.rest_api_endpoint.as_str()
    }
}

/// Accumulates configuration fields during startup. Each field is
/// optional; default construction seeds all of them, and finalization
/// demands all of them.
pub struct GridConfigBuilder {
    pub validator_endpoint: Option<String>,
    pub log_level: Option<LogLevel>,
    pub rest_api_endpoint: Option<String>,
}

/// Mathematical image of [`GridConfigBuilder`].
pub ghost struct BuilderView {
    pub validator_endpoint: Option<Seq<char>>,
    pub log_level: Option<LogLevel>,
    pub rest_api_endpoint: Option<Seq<char>>,
}

impl View for GridConfigBuilder {
    type V = BuilderView;

    open spec fn view(&self) -> BuilderView {
        BuilderView {
            validator_endpoint: opt_str_view(self.validator_endpoint),
            log_level: self.log_level,
            rest_api_endpoint: opt_str_view(self.rest_api_endpoint),
        }
    }
}

/// The builder state default construction yields: every field present,
/// holding its documented baseline value.
pub open spec fn default_builder() -> BuilderView {
    BuilderView {
        validator_endpoint: Some("tcp://127.0.0.1:4004"@),
        log_level: Some(LogLevel::Warn),
        rest_api_endpoint: Some("127.0.0.1:8080"@),
    }
}

/// The log level derived from how often `verbose` occurred: zero
/// occurrences keep the baseline `Warn`, exactly one asks for `Info`,
/// two or more for `Debug`.
pub open spec fn level_for_verbosity(count: u64) -> LogLevel {
    if count == 0 {
        LogLevel::Warn
    } else if count == 1 {
        LogLevel::Info
    } else {
        LogLevel::Debug
    }
}

/// One override step. The two endpoint fields follow last-write-wins: a
/// present option replaces the prior value, an absent one is a no-op.
/// The log level is always recomputed from the occurrence count, never
/// carried over from the prior builder.
pub open spec fn apply_overrides(b: BuilderView, args: ArgsView) -> BuilderView {
    BuilderView {
        validator_endpoint: if args.connect is Some {
            args.connect
        } else {
            b.validator_endpoint
        },
        log_level: Some(level_for_verbosity(args.verbose)),
        rest_api_endpoint: if args.bind is Some {
            args.bind
        } else {
            b.rest_api_endpoint
        },
    }
}

/// Finalization: all three fields present yields the configuration made
/// of them; otherwise the name of the first absent field, in the order
/// validator endpoint, log level, REST API endpoint.
pub open spec fn finalized(b: BuilderView) -> Result<ConfigView, Seq<char>> {
    if b.validator_endpoint is None {
        Err("validator_endpoint"@)
    } else if b.log_level is None {
        Err("log_level"@)
    } else if b.rest_api_endpoint is None {
        Err("rest_api_endpoint"@)
    } else {
        Ok(ConfigView {
            validator_endpoint: b.validator_endpoint->0,
            log_level: b.log_level->0,
            rest_api_endpoint: b.rest_api_endpoint->0,
        })
    }
}

impl Default for GridConfigBuilder {
    /// Seeds every field with its baseline value, so that a build
    /// without further overrides succeeds.
    fn default() -> (r: Self)
        ensures
            r@ == default_builder(),
    {
        GridConfigBuilder {
            validator_endpoint: Some("tcp://127.0.0.1:4004".to_string()),
            log_level: Some(LogLevel::Warn),
            rest_api_endpoint: Some("127.0.0.1:8080".to_string()),
        }
    }
}

impl GridConfigBuilder {
    /// Applies one set of command-line overrides, returning the new
    /// builder state described by [`apply_overrides`].
    pub fn with_cli_args(self, args: &CliArgs) -> (r: Self)
        ensures
            r@ == apply_overrides(self@, args@),
    {
        GridConfigBuilder {
            validator_endpoint: match &args.connect {
                Some(s) => Some(s.clone()),
                None => self.validator_endpoint,
            },
            log_level: Some(
                if args.verbose == 0 {
                    LogLevel::Warn
                } else if args.verbose == 1 {
                    LogLevel::Info
                } else {
                    LogLevel::Debug
                },
            ),
            rest_api_endpoint: match &args.bind {
                Some(s) => Some(s.clone()),
                None => self.rest_api_endpoint,
            },
        }
    }

    /// Consumes the builder. Succeeds exactly when every field is
    /// present, moving the field values into the configuration;
    /// otherwise reports the first absent field, as [`finalized`] says.
    pub fn build(self) -> (r: Result<GridConfig, ConfigurationError>)
        ensures
            finalized(self@) matches Ok(c) ==> r matches Ok(cfg) && cfg@ == c,
            finalized(self@) matches Err(name) ==> (r matches Err(
                ConfigurationError::MissingValue(f),
            ) && f@ == name),
    {
        let validator_endpoint = match self.validator_endpoint {
            Some(v) => v,
            None => {
                return Err(ConfigurationError::MissingValue("validator_endpoint".to_string()));
            },
        };
        let log_level = match self.log_level {
            Some(v) => v,
            None => {
                return Err(ConfigurationError::MissingValue("log_level".to_string()));
            },
        };
        let rest_api_endpoint = match self.rest_api_endpoint {
            Some(v) => v,
            None => {
                return Err(ConfigurationError::MissingValue("rest_api_endpoint".to_string()));
            },
        };
        Ok(GridConfig { validator_endpoint, log_level, rest_api_endpoint })
    }
}

/// A builder made by default construction finalizes successfully and
/// yields exactly the documented baseline values.
pub proof fn lemma_default_builder_builds()
    ensures
        finalized(default_builder()) matches Ok(c) && c == (ConfigView {
            validator_endpoint: "tcp://127.0.0.1:4004"@,
            log_level: LogLevel::Warn,
            rest_api_endpoint: "127.0.0.1:8080"@,
        }),
{
}

/// An override step with an empty command line leaves a default builder
/// unchanged: no option is present, and the log level recomputed from
/// zero occurrences equals the baseline `Warn`.
pub proof fn lemma_empty_overrides_keep_defaults()
    ensures
        apply_overrides(
            default_builder(),
            (ArgsView { connect: None, bind: None, verbose: 0 }),
        ) == default_builder(),
{
}

/// Overrides applied to a default-constructed builder never make the
/// build fail, whichever options are present: every field stays present.
pub proof fn lemma_overridden_default_builds(args: ArgsView)
    ensures
        finalized(apply_overrides(default_builder(), args)) is Ok,
{
}

/// Last write wins for the endpoint fields. After two override steps, a
/// field whose option is present in the second set has the value the
/// second set alone would have given it; one whose option is absent
/// keeps the result of the first application.
pub proof fn lemma_override_last_write_wins(b: BuilderView, first: ArgsView, second: ArgsView)
    ensures
        second.connect is Some ==> apply_overrides(
            apply_overrides(b, first),
            second,
        ).validator_endpoint == apply_overrides(b, second).validator_endpoint,
        second.connect is None ==> apply_overrides(
            apply_overrides(b, first),
            second,
        ).validator_endpoint == apply_overrides(b, first).validator_endpoint,
        second.bind is Some ==> apply_overrides(
            apply_overrides(b, first),
            second,
        ).rest_api_endpoint == apply_overrides(b, second).rest_api_endpoint,
        second.bind is None ==> apply_overrides(
            apply_overrides(b, first),
            second,
        ).rest_api_endpoint == apply_overrides(b, first).rest_api_endpoint,
{
}

} // verus!
