//! Command-line arguments of the daemon.
use vstd::prelude::*;
use crate::text::{has_prefix, starts_with, str_eq};

verus! {

/// What the command line asks for.
#[derive(Clone, Debug)]
pub enum CliCommand {
    /// Run with the configuration file at this path.
    Run(String),
    /// Print the help text and exit successfully.
    Help,
}

/// Why a command line is refused.
#[derive(Clone, Debug)]
pub enum ArgsError {
    MissingConfig,
    UnknownOption(String),
    UnexpectedArgument(String),
    MissingPath,
    InvalidPath(String),
    ExtraArguments,
}

/// Meaning of the arguments that follow the program name.
pub open spec fn parse_args_spec(args: Seq<String>) -> Result<CliCommand, ArgsError> {
    if args.len() == 0 {
        Err(ArgsError::MissingConfig)
    } else if args[0]@ == "-h"@ || args[0]@ == "--help"@ {
        Ok(CliCommand::Help)
    } else if args[0]@ != "--config"@ {
        if has_prefix(args[0]@, "-"@) {
            Err(ArgsError::UnknownOption(args[0]))
        } else {
            Err(ArgsError::UnexpectedArgument(args[0]))
        }
    } else if args.len() < 2 {
        Err(ArgsError::MissingPath)
    } else if has_prefix(args[1]@, "-"@) {
        Err(ArgsError::InvalidPath(args[1]))
    } else if args.len() > 2 {
        Err(ArgsError::ExtraArguments)
    } else {
        Ok(CliCommand::Run(args[1]))
    }
}

/// Reads `--config <path>` or `-h`/`--help` from the arguments that follow
/// the program name.
pub fn parse_args(args: &Vec<String>) -> (r: Result<CliCommand, ArgsError>)
    ensures
        r == parse_args_spec(args@),
{
    if args.len() == 0 {
        return Err(ArgsError::MissingConfig);
    }
    let arg = args[0].as_str();
    if str_eq(arg, "-h") || str_eq(arg, "--help") {
        return Ok(CliCommand::Help);
    }
    if !str_eq(arg, "--config") {
        if starts_with(arg, "-") {
            return Err(ArgsError::UnknownOption(args[0].clone()));
        }
        return Err(ArgsError::UnexpectedArgument(args[0].clone()));
    }
    if args.len() < 2 {
        return Err(ArgsError::MissingPath);
    }
    if starts_with(args[1].as_str(), "-") {
        return Err(ArgsError::InvalidPath(args[1].clone()));
    }
    if args.len() > 2 {
        return Err(ArgsError::ExtraArguments);
    }
    Ok(CliCommand::Run(args[1].clone()))
}

/// The text that describes a refused command line.
pub open spec fn args_error_text(e: ArgsError) -> Seq<char> {
    match e {
        ArgsError::MissingConfig => "missing --config <config.json>"@,
        ArgsError::UnknownOption(a) => "unknown option '"@ + a@ + "'"@,
        ArgsError::UnexpectedArgument(a) => "unexpected argument '"@ + a@
            + "'; use --config <path>"@,
        ArgsError::MissingPath => "--config requires a path argument"@,
        ArgsError::InvalidPath(p) => "invalid config path '"@ + p@ + "'"@,
        ArgsError::ExtraArguments => "unexpected extra arguments"@,
    }
}

impl ArgsError {
    /// The text that describes the error.
    pub fn message(&self) -> (r: String)
        ensures
            r@ == args_error_text(*self),
    {
        match self {
            ArgsError::MissingConfig => String::from_str("missing --config <config.json>"),
            ArgsError::UnknownOption(a) => {
                let mut m = String::from_str("unknown option '");
                m.append(a.as_str());
                m.append("'");
                m
            },
            ArgsError::UnexpectedArgument(a) => {
                let mut m = String::from_str("unexpected argument '");
                m.append(a.as_str());
                m.append("'; use --config <path>");
                m
            },
            ArgsError::MissingPath => String::from_str("--config requires a path argument"),
            ArgsError::InvalidPath(p) => {
                let mut m = String::from_str("invalid config path '");
                m.append(p.as_str());
                m.append("'");
                m
            },
            ArgsError::ExtraArguments => String::from_str("unexpected extra arguments"),
        }
    }
}

} // verus!
