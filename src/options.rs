//! The options chosen for a batch, and the reduction settings that the
//! optimiser is run with for every file of it.
use vstd::prelude::*;

verus! {

/// The named switches of a batch. Each `skip_*` flag turns one reduction
/// step off; `force_all_reductions` sets every skip flag and leaves the
/// files' interlacing as it is.
#[derive(Clone, Copy, Debug, PartialEq, Eq, Structural)]
pub struct BatchOptions {
    pub skip_bit_depth_reduction: bool,
    pub skip_color_type_reduction: bool,
    pub skip_palette_reduction: bool,
    pub skip_grayscale_reduction: bool,
    pub force_all_reductions: bool,
}

/// The settings handed to the optimiser for each file.
#[derive(Clone, Copy, Debug, PartialEq, Eq, Structural)]
pub struct ReductionSettings {
    /// Repair decoding errors rather than give up on the file.
    pub fix_errors: bool,
    pub bit_depth_reduction: bool,
    pub color_type_reduction: bool,
    pub palette_reduction: bool,
    pub grayscale_reduction: bool,
    /// Keep each file's interlacing; otherwise interlacing is removed.
    pub keep_interlacing: bool,
}

/// The settings that a batch's options call for.
pub open spec fn settings_for(o: BatchOptions) -> ReductionSettings {
    let forced = o.force_all_reductions;
    ReductionSettings {
        fix_errors: true,
        bit_depth_reduction: !(o.skip_bit_depth_reduction || forced),
        color_type_reduction: !(o.skip_color_type_reduction || forced),
        palette_reduction: !(o.skip_palette_reduction || forced),
        grayscale_reduction: !(o.skip_grayscale_reduction || forced),
        keep_interlacing: forced,
    }
}

impl BatchOptions {
    /// Options with no step skipped.
    pub fn new() -> (r: BatchOptions)
        ensures
            !r.skip_bit_depth_reduction,
            !r.skip_color_type_reduction,
            !r.skip_palette_reduction,
            !r.skip_grayscale_reduction,
            !r.force_all_reductions,
    {
        BatchOptions {
            skip_bit_depth_reduction: false,
            skip_color_type_reduction: false,
            skip_palette_reduction: false,
            skip_grayscale_reduction: false,
            force_all_reductions: false,
        }
    }

    /// The optimiser settings for these options.
    pub fn reduction_settings(&self) -> (r: ReductionSettings)
        ensures
            r == settings_for(*self),
    {
        let mut skip_bit_depth = self.skip_bit_depth_reduction;
        let mut skip_color_type = self.skip_color_type_reduction;
        let mut skip_palette = self.skip_palette_reduction;
        let mut skip_grayscale = self.skip_grayscale_reduction;
        if self.force_all_reductions {
            skip_bit_depth = true;
            skip_color_type = true;
            skip_palette = true;
            skip_grayscale = true;
        }
        ReductionSettings {
            fix_errors: true,
            bit_depth_reduction: !skip_bit_depth,
            color_type_reduction: !skip_color_type,
            palette_reduction: !skip_palette,
            grayscale_reduction: !skip_grayscale,
            keep_interlacing: self.force_all_reductions,
        }
    }
}

} // verus!
