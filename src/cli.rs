//! The resolved command-line settings.

use vstd::prelude::*;

verus! {

/// The two settings the soundboard starts from.
#[derive(Clone, Debug, PartialEq, Eq)]
pub struct Args {
    /// The configuration file (e.g. `config.toml`).
    pub config_filename: String,
    /// The input device (e.g. `/dev/input/event23`).
    pub input_device: String,
}

/// A required setting that was not given.
#[derive(Clone, Copy, Debug, PartialEq, Eq, Structural)]
pub enum ArgsError {
    MissingConfig,
    MissingInputDevice,
}

impl ArgsError {
    /// The long flag of the setting that is missing.
    pub fn flag(&self) -> (r: &'static str)
        ensures
            *self is MissingConfig ==> r@ == "--config"@,
            *self is MissingInputDevice ==> r@ == "--input-device"@,
    {
        match self {
            ArgsError::MissingConfig => "--config",
            ArgsError::MissingInputDevice => "--input-device",
        }
    }
}

/// Settles the settings from the values given on the command line, each
/// of which is required; a missing configuration file is reported before a
/// missing device.
pub fn parse_args(config_filename: Option<String>, input_device: Option<String>) -> (r: Result<
    Args,
    ArgsError,
>)
    ensures
        config_filename is None ==> r == Err::<Args, ArgsError>(ArgsError::MissingConfig),
        config_filename is Some && input_device is None ==> r == Err::<Args, ArgsError>(
            ArgsError::MissingInputDevice,
        ),
        config_filename is Some && input_device is Some ==> r == Ok::<Args, ArgsError>(
            (Args {
                config_filename: config_filename.unwrap(),
                input_device: input_device.unwrap(),
            }),
        ),
{
    match config_filename {
        None => Err(ArgsError::MissingConfig),
        Some(config_filename) => match input_device {
            None => Err(ArgsError::MissingInputDevice),
            Some(input_device) => Ok(Args { config_filename, input_device }),
        },
    }
}

} // verus!
