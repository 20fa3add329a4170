//! Command-line options and the run states derived from them.
//!
//! The shell parses the process arguments into [`NeedleArgs`]; deriving the
//! ordered list of application states from them is verified here.

use vstd::prelude::*;

verus! {

/// The recognised command-line options, as plain values.
#[derive(Debug)]
pub struct NeedleArgs {
    /// Display the help message.
    pub help: bool,
    /// Display version information.
    pub version: bool,
    /// Generate a default config at this path.
    pub gen_config: String,
    /// Print the default config to standard output.
    pub print: bool,
    /// Path of the config file to load.
    pub config: String,
}

impl Default for NeedleArgs {
    /// All options off, both paths empty.
    fn default() -> (r: Self)
        ensures
            !r.help,
            !r.version,
            r.gen_config@.len() == 0,
            !r.print,
            r.config@.len() == 0,
    {
        proof {
            reveal_strlit("");
        }
        NeedleArgs {
            help: false,
            version: false,
            gen_config: String::from_str(""),
            print: false,
            config: String::from_str(""),
        }
    }
}

/// One pending piece of work the application performs before (or instead
/// of) running.
#[derive(Debug, PartialEq)]
pub enum AppState {
    Run,
    Help,
    Version,
    /// Write the default config to the named destination (`stdout` for
    /// standard output).
    GenerateConfig(String),
    /// Load the config from this path.
    ConfigFilePath(String),
}

/// Whether the options select config generation: printing to standard
/// output, or writing to a named path, but not both at once.
pub open spec fn generate_config_selected(args: &NeedleArgs) -> bool {
    args.print != (args.gen_config@.len() != 0)
}

/// What `AppState::new` returns for the given options: the optional states
/// in their fixed order, closed by `Run`.
pub open spec fn app_states_ok(args: &NeedleArgs, states: Seq<AppState>) -> bool {
    let n1: int = if args.help {
        1
    } else {
        0
    };
    let n2: int = if args.version {
        1
    } else {
        0
    };
    let n3: int = if generate_config_selected(args) {
        1
    } else {
        0
    };
    let n4: int = if args.config@.len() != 0 {
        1
    } else {
        0
    };
    &&& states.len() == n1 + n2 + n3 + n4 + 1
    &&& (args.help ==> states[0] == AppState::Help)
    &&& (args.version ==> states[n1] == AppState::Version)
    &&& (generate_config_selected(args) ==> (states[n1 + n2] matches AppState::GenerateConfig(dest)
        && dest@ == if args.print {
            "stdout"@
        } else {
            args.gen_config@
        }))
    &&& (args.config@.len() != 0 ==> (states[n1 + n2 + n3] matches AppState::ConfigFilePath(path)
        && path@ == args.config@))
    &&& states[states.len() - 1] == AppState::Run
}

impl AppState {
    /// Derive the ordered list of states the application will work through:
    /// help, then version, then config generation (to standard output when
    /// `print` is set, to the named path when only `gen_config` is), then
    /// the config path to load, and always `Run` last.
    pub fn new(args: &NeedleArgs) -> (r: Vec<AppState>)
        ensures
            app_states_ok(args, r@),
    {
        let mut app_states: Vec<AppState> = Vec::new();
        if args.help {
            app_states.push(AppState::Help);
        }
        if args.version {
            app_states.push(AppState::Version);
        }
        let gen_config_empty = args.gen_config.as_str().unicode_len() == 0;
        if args.print != !gen_config_empty {
            let destination = if args.print {
                String::from_str("stdout")
            } else {
                args.gen_config.clone()
            };
            app_states.push(AppState::GenerateConfig(destination));
        }
        if args.config.as_str().unicode_len() != 0 {
            app_states.push(AppState::ConfigFilePath(args.config.clone()));
        }
        app_states.push(AppState::Run);
        app_states
    }
}

impl Default for AppState {
    /// The plain run state.
    fn default() -> (r: Self)
        ensures
            r == AppState::Run,
    {
        AppState::Run
    }
}

} // verus!
