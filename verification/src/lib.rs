//! Configuration and sequencing for turning a raster dataset into a
//! Cloud-Optimized GeoTIFF.
//!
//! The crate validates the options of a conversion and decides, step by step,
//! what a raster engine has to do next. It opens no file and moves no pixel:
//! every decision is a function of plain values, proved against its contract.

pub mod config;
pub mod errors;
pub mod options;
pub mod pipeline;
pub mod plan;
mod text;

pub use config::{Args, NoDataValue, PathProbes, Probe};
pub use errors::{CoggeratorError, ErrorKind};
pub use options::{
    BigTiffOption, CompressionOption, CreationOption, OverviewsOption, ResamplingOption,
};
pub use pipeline::{Conversion, Driver, Reply, Request, RequestView, Stage, Step, StepView};
