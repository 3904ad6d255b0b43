//! The two-phase conversion as a state machine.
//!
//! A conversion copies the source into an intermediate virtual dataset, marks
//! the no-data value on every band of that intermediate, and only then copies
//! the intermediate into the final output, so that overviews are computed
//! with the marker in place. The machine decides; the caller performs each
//! [`Request`] with the raster engine and hands back the [`Reply`].

use crate::config::{Args, NoDataValue};
use crate::errors::{CoggeratorError, ErrorKind};
use crate::options::{
    BigTiffOption, CompressionOption, CreationOption, OverviewsOption, ResamplingOption,
};
use vstd::prelude::*;
use vstd::string::*;

verus! {

/// A format driver of the raster engine.
#[derive(Debug, Clone, Copy, PartialEq, Eq, Structural)]
pub enum Driver {
    /// Cloud-Optimized GeoTIFF, the format of the output.
    Cog,
    /// Virtual dataset, the format of the intermediate.
    Vrt,
}

impl Driver {
    /// The name under which the engine knows the driver.
    pub open spec fn token(self) -> Seq<char> {
        match self {
            Driver::Cog => "COG"@,
            Driver::Vrt => "VRT"@,
        }
    }

    /// The name under which the engine knows the driver.
    pub fn name(&self) -> (name: &'static str)
        ensures
            name@ == self.token(),
    {
        match self {
            Driver::Cog => "COG",
            Driver::Vrt => "VRT",
        }
    }
}

/// The creation options of a configuration, as key/value texts: all
/// processing cores, a block size of 512 pixels, then the resampling, the
/// big-TIFF policy, the compression and the treatment of overviews.
pub open spec fn creation_options(args: Args) -> Seq<(Seq<char>, Seq<char>)> {
    seq![
        ("NUM_THREADS"@, "ALL_CPUS"@),
        ("BLOCKSIZE"@, "512"@),
        (ResamplingOption::key(), args.resampling.token()),
        (BigTiffOption::key(), args.big_tiff.token()),
        (CompressionOption::key(), args.compression.token()),
        (OverviewsOption::key(), args.overviews.token()),
    ]
}

/// The key/value texts of a list of creation options.
pub open spec fn option_texts(options: Seq<CreationOption>) -> Seq<(Seq<char>, Seq<char>)> {
    options.map_values(|o: CreationOption| o@)
}

impl Args {
    /// The creation options that every copy of this conversion is made with.
    pub fn creation_options(&self) -> (options: Vec<CreationOption>)
        ensures
            option_texts(options@) == creation_options(*self),
    {
        let mut options: Vec<CreationOption> = Vec::new();
        options.push(CreationOption { key: "NUM_THREADS", value: "ALL_CPUS" });
        options.push(CreationOption { key: "BLOCKSIZE", value: "512" });
        options.push(self.resampling.to_creation_option());
        options.push(self.big_tiff.to_creation_option());
        options.push(self.compression.to_creation_option());
        options.push(self.overviews.to_creation_option());
        assert(option_texts(options@) =~= creation_options(*self));
        options
    }
}

/// One thing for the caller to do with the raster engine.
#[derive(Debug)]
pub enum Request<'a> {
    /// Open the source dataset at `path`, read-only.
    OpenSource { path: &'a str },
    /// Look the driver up by its name.
    FindDriver { driver: Driver },
    /// Reserve a temporary file under a name of its own. The file lives until
    /// the conversion ends, however it ends.
    CreateTempFile,
    /// Copy the source to the temporary file with `driver` and `options`.
    CopyToIntermediate { driver: Driver, options: Vec<CreationOption> },
    /// Report how many bands the intermediate has.
    CountBands,
    /// Set the no-data value of band `band` of the intermediate to `value`,
    /// or clear it where `value` is `None`.
    SetNoData { band: isize, value: Option<NoDataValue> },
    /// Copy the intermediate to `path` with `driver` and `options`.
    CopyToOutput { driver: Driver, path: &'a str, options: Vec<CreationOption> },
}

/// A request with its texts as sequences of characters.
pub enum RequestView {
    OpenSource { path: Seq<char> },
    FindDriver { driver: Driver },
    CreateTempFile,
    CopyToIntermediate { driver: Driver, options: Seq<(Seq<char>, Seq<char>)> },
    CountBands,
    SetNoData { band: isize, value: Option<NoDataValue> },
    CopyToOutput { driver: Driver, path: Seq<char>, options: Seq<(Seq<char>, Seq<char>)> },
}

impl<'a> View for Request<'a> {
    type V = RequestView;

    open spec fn view(&self) -> RequestView {
        match *self {
            Request::OpenSource { path } => RequestView::OpenSource { path: path@ },
            Request::FindDriver { driver } => RequestView::FindDriver { driver },
            Request::CreateTempFile => RequestView::CreateTempFile,
            Request::CopyToIntermediate { driver, options } => RequestView::CopyToIntermediate {
                driver,
                options: option_texts(options@),
            },
            Request::CountBands => RequestView::CountBands,
            Request::SetNoData { band, value } => RequestView::SetNoData { band, value },
            Request::CopyToOutput { driver, path, options } => RequestView::CopyToOutput {
                driver,
                path: path@,
                options: option_texts(options@),
            },
        }
    }
}

/// What came of a request.
#[derive(Debug)]
pub enum Reply {
    /// The request succeeded; there is nothing to report.
    Done,
    /// The band count that was asked for.
    Bands(isize),
    /// The raster engine failed; the string says how.
    EngineFailed(String),
    /// The filesystem failed outside the engine; the string says how.
    IoFailed(String),
}

/// Where a conversion stands: which request is pending.
#[derive(Debug, Clone, Copy, PartialEq, Eq, Structural)]
pub enum Stage {
    /// The source is being opened.
    Opening,
    /// The output driver is being looked up.
    FindingCog,
    /// The intermediate driver is being looked up.
    FindingVrt,
    /// The temporary file is being reserved.
    ReservingTemp,
    /// The source is being copied to the intermediate.
    Preparing,
    /// The bands of the intermediate are being counted.
    Counting,
    /// Band `band` of `count` is being marked.
    Marking { band: isize, count: isize },
    /// The intermediate is being copied to the output.
    Finalizing,
}

impl Stage {
    /// Whether the band that is being marked, if any, is one of the bands:
    /// bands count from 1 through the band count.
    pub open spec fn in_range(self) -> bool {
        self matches Stage::Marking { band, count } ==> 1 <= band <= count
    }
}

/// A conversion under way.
#[derive(Debug)]
pub struct Conversion {
    pub args: Args,
    pub stage: Stage,
}

/// A conversion after a reply: under way, finished with the path of the
/// output, or failed.
#[derive(Debug)]
pub enum Step {
    Continue(Conversion),
    Finished(String),
    Failed(CoggeratorError),
}

/// A step with its texts as sequences of characters.
pub enum StepView {
    Continue(Conversion),
    Finished(Seq<char>),
    Failed((ErrorKind, Seq<char>)),
}

impl View for Step {
    type V = StepView;

    open spec fn view(&self) -> StepView {
        match *self {
            Step::Continue(conversion) => StepView::Continue(conversion),
            Step::Finished(path) => StepView::Finished(path@),
            Step::Failed(error) => StepView::Failed(error@),
        }
    }
}

/// The failure that a reply of the wrong shape ends a conversion with: a
/// band count where none was asked for, or none where one was.
pub open spec fn unexpected_reply() -> (ErrorKind, Seq<char>) {
    (ErrorKind::Engine, "Unexpected reply from the raster engine"@)
}

impl Conversion {
    /// The request that is pending at this stage.
    pub open spec fn pending(self) -> RequestView {
        match self.stage {
            Stage::Opening => RequestView::OpenSource { path: self.args.input_path@ },
            Stage::FindingCog => RequestView::FindDriver { driver: Driver::Cog },
            Stage::FindingVrt => RequestView::FindDriver { driver: Driver::Vrt },
            Stage::ReservingTemp => RequestView::CreateTempFile,
            Stage::Preparing => RequestView::CopyToIntermediate {
                driver: Driver::Vrt,
                options: creation_options(self.args),
            },
            Stage::Counting => RequestView::CountBands,
            Stage::Marking { band, count } => RequestView::SetNoData {
                band,
                value: self.args.no_data_value,
            },
            Stage::Finalizing => RequestView::CopyToOutput {
                driver: Driver::Cog,
                path: self.args.output_path@,
                options: creation_options(self.args),
            },
        }
    }

    /// The same conversion at another stage.
    pub open spec fn at(self, stage: Stage) -> StepView {
        StepView::Continue(Conversion { args: self.args, stage })
    }

    /// The stage that follows the marking of band `band` of `count`: the next
    /// band while there is one, then the final copy. Bands count from 1.
    pub open spec fn after_band(band: isize, count: isize) -> Stage {
        if band < count {
            Stage::Marking { band: (band + 1) as isize, count }
        } else {
            Stage::Finalizing
        }
    }

    /// What a reply to the pending request leads to.
    ///
    /// A failure ends the conversion with its error, at every stage. A
    /// success moves to the next stage; the band count opens the marking of
    /// band 1, or the final copy where there is no band; the success of the
    /// final copy finishes the conversion with the output path. A reply of
    /// the wrong shape ends the conversion with [`unexpected_reply`].
    pub open spec fn next(self, reply: Reply) -> StepView {
        match reply {
            Reply::EngineFailed(why) => StepView::Failed((ErrorKind::Engine, why@)),
            Reply::IoFailed(why) => StepView::Failed((ErrorKind::Io, why@)),
            Reply::Done => match self.stage {
                Stage::Opening => self.at(Stage::FindingCog),
                Stage::FindingCog => self.at(Stage::FindingVrt),
                Stage::FindingVrt => self.at(Stage::ReservingTemp),
                Stage::ReservingTemp => self.at(Stage::Preparing),
                Stage::Preparing => self.at(Stage::Counting),
                Stage::Counting => StepView::Failed(unexpected_reply()),
                Stage::Marking { band, count } => self.at(Self::after_band(band, count)),
                Stage::Finalizing => StepView::Finished(self.args.output_path@),
            },
            Reply::Bands(count) => match self.stage {
                Stage::Counting => self.at(Self::after_band(0, count)),
                _ => StepView::Failed(unexpected_reply()),
            },
        }
    }

    /// Starts the conversion that a configuration describes: the source is
    /// to be opened.
    pub fn new(args: Args) -> (conversion: Conversion)
        ensures
            conversion == (Conversion { args, stage: Stage::Opening }),
            conversion.stage.in_range(),
    {
        Conversion { args, stage: Stage::Opening }
    }

    /// The request that is pending: what the caller is to do next.
    pub fn request(&self) -> (request: Request<'_>)
        ensures
            request@ == self.pending(),
    {
        match self.stage {
            Stage::Opening => Request::OpenSource { path: self.args.input_path.as_str() },
            Stage::FindingCog => Request::FindDriver { driver: Driver::Cog },
            Stage::FindingVrt => Request::FindDriver { driver: Driver::Vrt },
            Stage::ReservingTemp => Request::CreateTempFile,
            Stage::Preparing => Request::CopyToIntermediate {
                driver: Driver::Vrt,
                options: self.args.creation_options(),
            },
            Stage::Counting => Request::CountBands,
            Stage::Marking { band, count } => Request::SetNoData {
                band,
                value: self.args.no_data_value,
            },
            Stage::Finalizing => Request::CopyToOutput {
                driver: Driver::Cog,
                path: self.args.output_path.as_str(),
                options: self.args.creation_options(),
            },
        }
    }

    /// Takes the reply to the pending request and decides how the conversion
    /// goes on. A conversion that marks a band in range goes on to mark bands
    /// in range only.
    pub fn step(self, reply: Reply) -> (step: Step)
        ensures
            step@ == self.next(reply),
            self.stage.in_range() ==> (step matches Step::Continue(onward)
                ==> onward.stage.in_range()),
    {
        let Conversion { args, stage } = self;
        match reply {
            Reply::EngineFailed(why) => Step::Failed(CoggeratorError::GdalError(why)),
            Reply::IoFailed(why) => Step::Failed(CoggeratorError::IoError(why)),
            Reply::Done => match stage {
                Stage::Opening => Step::Continue(Conversion { args, stage: Stage::FindingCog }),
                Stage::FindingCog => Step::Continue(Conversion { args, stage: Stage::FindingVrt }),
                Stage::FindingVrt => Step::Continue(
                    Conversion { args, stage: Stage::ReservingTemp },
                ),
                Stage::ReservingTemp => Step::Continue(Conversion { args, stage: Stage::Preparing }),
                Stage::Preparing => Step::Continue(Conversion { args, stage: Stage::Counting }),
                Stage::Counting => Step::Failed(unexpected()),
                Stage::Marking { band, count } => Step::Continue(
                    Conversion { args, stage: stage_after_band(band, count) },
                ),
                Stage::Finalizing => Step::Finished(args.output_path),
            },
            Reply::Bands(count) => match stage {
                Stage::Counting => Step::Continue(
                    Conversion { args, stage: stage_after_band(0, count) },
                ),
                _ => Step::Failed(unexpected()),
            },
        }
    }
}

/// The stage that follows the marking of band `band` of `count`.
fn stage_after_band(band: isize, count: isize) -> (stage: Stage)
    ensures
        stage == Conversion::after_band(band, count),
{
    if band < count {
        Stage::Marking { band: band + 1, count }
    } else {
        Stage::Finalizing
    }
}

/// The error that a reply of the wrong shape ends a conversion with.
fn unexpected() -> (error: CoggeratorError)
    ensures
        error@ == unexpected_reply(),
{
    CoggeratorError::GdalError(String::from_str("Unexpected reply from the raster engine"))
}

} // verus!
