//! Validation of the raw inputs of a conversion.
//!
//! Validation looks at nothing but its arguments. What the filesystem has to
//! say about the two paths is gathered by the caller beforehand and handed in
//! as [`PathProbes`].

use crate::errors::{CoggeratorError, ErrorKind};
use crate::options::{BigTiffOption, CompressionOption, OverviewsOption, ResamplingOption};
use vstd::prelude::*;
use vstd::string::*;

verus! {

/// A no-data sentinel: the pixel value that stands for "no measurement".
///
/// The value is a 64-bit IEEE 754 number, kept as its bit pattern so that it
/// reaches the engine exactly as it was given.
#[derive(Debug, Clone, Copy, PartialEq, Eq, Structural)]
pub struct NoDataValue {
    pub bits: u64,
}

/// What an existence query on a path came back with.
#[derive(Debug)]
pub enum Probe {
    /// The path exists.
    Found,
    /// The path does not exist.
    Missing,
    /// The query itself failed; the string says how.
    Failed(String),
}

/// The existence queries that validation depends on.
#[derive(Debug)]
pub struct PathProbes {
    /// The query on the input path.
    pub input: Probe,
    /// The query on the parent directory of the output path, or `None` where
    /// the output path has no parent directory. It is read only where the
    /// input was found.
    pub output_parent: Option<Probe>,
}

/// The validated configuration of one conversion.
#[derive(Debug)]
pub struct Args {
    pub input_path: String,
    pub output_path: String,
    pub no_data_value: Option<NoDataValue>,
    pub compression: CompressionOption,
    pub big_tiff: BigTiffOption,
    pub resampling: ResamplingOption,
    pub overviews: OverviewsOption,
}

/// The failure that the paths give rise to, if any: first the input, then the
/// parent directory of the output.
pub open spec fn path_fault(input_path: Seq<char>, probes: PathProbes) -> Option<
    (ErrorKind, Seq<char>),
> {
    match probes.input {
        Probe::Failed(why) => Some((ErrorKind::Io, why@)),
        Probe::Missing => Some((ErrorKind::Path, "Input path does not exist: "@ + input_path)),
        Probe::Found => match probes.output_parent {
            None => Some((ErrorKind::Path, "Output path has no parent directory"@)),
            Some(Probe::Failed(why)) => Some((ErrorKind::Io, why@)),
            Some(Probe::Missing) => Some((ErrorKind::Path, "Output path parent does not exist"@)),
            Some(Probe::Found) => None,
        },
    }
}

/// The failure that the option tokens give rise to, if any: that of the first
/// token, in the order compression, big TIFF, resampling, overviews, that its
/// catalog does not hold.
pub open spec fn option_fault(
    compression: Option<&str>,
    big_tiff: Option<&str>,
    resampling: Option<&str>,
    overviews: Option<&str>,
) -> Option<(ErrorKind, Seq<char>)> {
    if compression is Some && !CompressionOption::is_token(compression.unwrap()@) {
        Some((ErrorKind::Compression, compression.unwrap()@))
    } else if big_tiff is Some && !BigTiffOption::is_token(big_tiff.unwrap()@) {
        Some((ErrorKind::BigTiff, big_tiff.unwrap()@))
    } else if resampling is Some && !ResamplingOption::is_token(resampling.unwrap()@) {
        Some((ErrorKind::Resampling, resampling.unwrap()@))
    } else if overviews is Some && !OverviewsOption::is_token(overviews.unwrap()@) {
        Some((ErrorKind::Overviews, overviews.unwrap()@))
    } else {
        None
    }
}

/// The compression that a token selects; LZW where there is none.
pub open spec fn chosen_compression(token: Option<&str>) -> CompressionOption {
    match token {
        Some(t) => CompressionOption::parse(t@).unwrap(),
        None => CompressionOption::LZW,
    }
}

/// The big-TIFF policy that a token selects; "if safer" where there is none.
pub open spec fn chosen_big_tiff(token: Option<&str>) -> BigTiffOption {
    match token {
        Some(t) => BigTiffOption::parse(t@).unwrap(),
        None => BigTiffOption::IfSafer,
    }
}

/// The resampling that a token selects; cubic where there is none.
pub open spec fn chosen_resampling(token: Option<&str>) -> ResamplingOption {
    match token {
        Some(t) => ResamplingOption::parse(t@).unwrap(),
        None => ResamplingOption::Cubic,
    }
}

/// The treatment of overviews that a token selects; existing overviews are
/// ignored where there is none.
pub open spec fn chosen_overviews(token: Option<&str>) -> OverviewsOption {
    match token {
        Some(t) => OverviewsOption::parse(t@).unwrap(),
        None => OverviewsOption::IgnoreExisting,
    }
}

impl Args {
    /// Validates the raw inputs of a conversion.
    ///
    /// The checks run in a fixed order and the first that fails decides the
    /// error: the input must exist; the output must have a parent directory;
    /// that directory must exist; then each token that is given must belong
    /// to its catalog, compression first, then big TIFF, resampling and
    /// overviews. A query that itself failed is reported as an I/O error in
    /// the place of the check that needed it. Where every check passes, the
    /// configuration holds the paths and the no-data value as given, and for
    /// each catalog the variant that the token selects or the default.
    pub fn new(
        input_path: String,
        output_path: String,
        no_data_value: Option<NoDataValue>,
        compression: Option<&str>,
        big_tiff: Option<&str>,
        resampling: Option<&str>,
        overviews: Option<&str>,
        probes: PathProbes,
    ) -> (r: Result<Self, CoggeratorError>)
        ensures
            match path_fault(input_path@, probes) {
                Some(fault) => r matches Err(e) && e@ == fault,
                None => match option_fault(compression, big_tiff, resampling, overviews) {
                    Some(fault) => r matches Err(e) && e@ == fault,
                    None => r == Ok::<Self, CoggeratorError>(
                        (Args {
                            input_path,
                            output_path,
                            no_data_value,
                            compression: chosen_compression(compression),
                            big_tiff: chosen_big_tiff(big_tiff),
                            resampling: chosen_resampling(resampling),
                            overviews: chosen_overviews(overviews),
                        }),
                    ),
                },
            },
            probes.input is Missing ==> (r matches Err(e) && e@.0 == ErrorKind::Path),
            !(probes.input is Failed) && probes.output_parent == Some(Probe::Missing) ==> (
            r matches Err(e) && e@.0 == ErrorKind::Path),
            r matches Ok(args) ==> {
                &&& compression is None ==> args.compression == CompressionOption::LZW
                &&& big_tiff is None ==> args.big_tiff == BigTiffOption::IfSafer
                &&& resampling is None ==> args.resampling == ResamplingOption::Cubic
                &&& overviews is None ==> args.overviews == OverviewsOption::IgnoreExisting
                &&& compression is Some ==> args.compression.token() == compression.unwrap()@
                &&& big_tiff is Some ==> args.big_tiff.token() == big_tiff.unwrap()@
                &&& resampling is Some ==> args.resampling.token() == resampling.unwrap()@
                &&& overviews is Some ==> args.overviews.token() == overviews.unwrap()@
            },
    {
        match probes.input {
            Probe::Failed(why) => {
                return Err(CoggeratorError::IoError(why));
            },
            Probe::Missing => {
                return Err(
                    CoggeratorError::PathError(
                        String::from_str("Input path does not exist: ").concat(input_path.as_str()),
                    ),
                );
            },
            Probe::Found => {},
        }
        match probes.output_parent {
            None => {
                return Err(
                    CoggeratorError::PathError(
                        String::from_str("Output path has no parent directory"),
                    ),
                );
            },
            Some(Probe::Failed(why)) => {
                return Err(CoggeratorError::IoError(why));
            },
            Some(Probe::Missing) => {
                return Err(
                    CoggeratorError::PathError(
                        String::from_str("Output path parent does not exist"),
                    ),
                );
            },
            Some(Probe::Found) => {},
        }
        let compression = match compression {
            Some(c) => match CompressionOption::new(c) {
                Ok(v) => v,
                Err(e) => {
                    return Err(e);
                },
            },
            None => CompressionOption::LZW,
        };
        let big_tiff = match big_tiff {
            Some(b) => match BigTiffOption::new(b) {
                Ok(v) => v,
                Err(e) => {
                    return Err(e);
                },
            },
            None => BigTiffOption::IfSafer,
        };
        let resampling = match resampling {
            Some(r) => match ResamplingOption::new(r) {
                Ok(v) => v,
                Err(e) => {
                    return Err(e);
                },
            },
            None => ResamplingOption::Cubic,
        };
        let overviews = match overviews {
            Some(o) => match OverviewsOption::new(o) {
                Ok(v) => v,
                Err(e) => {
                    return Err(e);
                },
            },
            None => OverviewsOption::IgnoreExisting,
        };
        Ok(Args { input_path, output_path, no_data_value, compression, big_tiff, resampling, overviews })
    }
}

} // verus!
