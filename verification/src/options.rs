//! The four option catalogs and the key/value pair that each variant is
//! handed to the raster engine as.

use vstd::prelude::*;

pub mod big_tiff;
pub mod compression;
pub mod overviews;
pub mod resampling;

pub use big_tiff::BigTiffOption;
pub use compression::CompressionOption;
pub use overviews::OverviewsOption;
pub use resampling::ResamplingOption;

verus! {

/// One creation option of the raster engine: a key and its value.
#[derive(Debug, Clone, Copy)]
pub struct CreationOption {
    pub key: &'static str,
    pub value: &'static str,
}

impl View for CreationOption {
    type V = (Seq<char>, Seq<char>);

    /// A creation option is the text of its key and the text of its value.
    open spec fn view(&self) -> (Seq<char>, Seq<char>) {
        (self.key@, self.value@)
    }
}

} // verus!
