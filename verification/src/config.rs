//! What the command line asks of the tool, as plain values.

use vstd::prelude::*;

verus! {

/// The subcommands.
#[derive(Clone, Debug)]
pub enum Command {
    /// Plot one dataset of a container.
    Plot(PlotArgs),
    /// Print what a container holds.
    Inspect(InspectArgs),
    /// Run a polling reader against a container that a writer is appending to.
    TestSwMr,
}

/// The arguments of the plot subcommand.
#[derive(Clone, Debug)]
pub struct PlotArgs {
    /// The path of the container.
    pub src_hdf5: String,
    /// The name of the dataset to plot.
    pub dataset_name: String,
    /// The axis to fold a two-dimensional dataset along.
    pub axis: usize,
    /// Every how many samples one is taken into the plot.
    pub subsample: usize,
}

/// The arguments of the inspect subcommand.
#[derive(Clone, Debug)]
pub struct InspectArgs {
    /// The path of the container.
    pub src_hdf5: String,
    /// How many samples to print from each dimension and axis.
    pub preview_samples: usize,
}

/// How much the tool logs.
#[derive(Clone, Copy, Debug, PartialEq, Eq, Structural)]
pub enum LogLevel {
    Off,
    Info,
    Debug,
    Trace,
}

/// The log level for a count of `-v` flags: informational without any,
/// debugging with one, nothing at all with 255, and tracing with any other.
pub open spec fn level_for(verbose: u8) -> LogLevel {
    if verbose == 0 {
        LogLevel::Info
    } else if verbose == 1 {
        LogLevel::Debug
    } else if verbose == 255 {
        LogLevel::Off
    } else {
        LogLevel::Trace
    }
}

/// The log level for a count of `-v` flags.
pub fn log_level(verbose: u8) -> (level: LogLevel)
    ensures
        level == level_for(verbose),
{
    match verbose {
        0 => LogLevel::Info,
        1 => LogLevel::Debug,
        255 => LogLevel::Off,
        _ => LogLevel::Trace,
    }
}

impl PlotArgs {
    /// Whether the arguments can be plotted with: a subsampling step of 0
    /// would take no sample at all.
    pub fn is_plottable(&self) -> (ok: bool)
        ensures
            ok == (self.subsample > 0),
    {
        self.subsample > 0
    }
}

} // verus!
