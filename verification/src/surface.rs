//! What a surface reports about itself, and the configuration chosen from it.

use vstd::prelude::*;
use crate::extent::Extent;

verus! {

/// Why an image chain could not be planned.
#[derive(Clone, Copy, Debug, PartialEq, Eq, Structural)]
pub enum ChainError {
    /// The surface offers no usable format or composite mode, or the
    /// requested extent lies outside its bounds. Fatal, start-up only.
    UnsupportedSurfaceConfiguration,
    /// The extent cannot be used right now (a minimised window, a resize in
    /// progress). Transient: the caller keeps its chain and tries again.
    UnsupportedExtent,
}

/// How the compositor blends the chain's images with what lies behind them.
#[derive(Clone, Copy, Debug, PartialEq, Eq, Structural)]
pub enum CompositeMode {
    Opaque,
    PreMultiplied,
    PostMultiplied,
    Inherit,
}

/// What the chain's images are used for. Rendering a frame writes colour
/// into them and nothing else.
#[derive(Clone, Copy, Debug, PartialEq, Eq, Structural)]
pub enum ImageUsage {
    ColorAttachment,
}

/// The capabilities a surface reports, as plain values.
#[derive(Clone, Debug)]
pub struct SurfaceCaps {
    /// Fewest images the surface accepts in a chain.
    pub min_image_count: u32,
    pub min_extent: Extent,
    pub max_extent: Extent,
    /// Identifiers of the supported image formats, in the surface's order.
    pub formats: Vec<u32>,
    /// Supported composite modes, in the surface's order.
    pub composite_modes: Vec<CompositeMode>,
}

/// Every option an image chain is built with. Nothing is left to defaults.
#[derive(Clone, Copy, Debug, PartialEq, Eq, Structural)]
pub struct ChainConfig {
    /// Number of images asked for: at least two.
    pub image_count: u32,
    /// Format identifier shared by all images.
    pub format: u32,
    /// Extent shared by all images.
    pub extent: Extent,
    pub composite: CompositeMode,
    pub usage: ImageUsage,
}

/// The number of images to ask for: the surface's minimum, but never fewer
/// than two.
pub open spec fn chosen_image_count(min_image_count: u32) -> u32 {
    if min_image_count < 2 {
        2u32
    } else {
        min_image_count
    }
}

impl SurfaceCaps {
    /// The surface can show images of this extent.
    pub open spec fn admits(&self, extent: Extent) -> bool {
        !extent.empty() && extent.within(self.min_extent, self.max_extent)
    }

    /// A configuration can be chosen at all for this extent.
    pub open spec fn configurable(&self, extent: Extent) -> bool {
        &&& self.formats@.len() > 0
        &&& self.composite_modes@.len() > 0
        &&& self.admits(extent)
    }

    /// The configuration chosen for `extent`: the first format and the first
    /// composite mode the surface lists, its minimum image count raised to
    /// two, colour-attachment usage.
    pub open spec fn chosen(&self, extent: Extent) -> ChainConfig
        recommends
            self.configurable(extent),
    {
        ChainConfig {
            image_count: chosen_image_count(self.min_image_count),
            format: self.formats@[0],
            extent,
            composite: self.composite_modes@[0],
            usage: ImageUsage::ColorAttachment,
        }
    }

    pub fn supports_extent(&self, extent: Extent) -> (r: bool)
        ensures
            r == self.admits(extent),
    {
        !extent.is_empty() && extent.is_within(&self.min_extent, &self.max_extent)
    }

    /// Chooses the configuration of a new chain of the given extent.
    pub fn choose_config(&self, extent: Extent) -> (r: Result<ChainConfig, ChainError>)
        ensures
            self.configurable(extent) ==> r == Ok::<ChainConfig, ChainError>(self.chosen(extent)),
            !self.configurable(extent) ==> r == Err::<ChainConfig, ChainError>(
                ChainError::UnsupportedSurfaceConfiguration,
            ),
    {
        if self.formats.len() == 0 || self.composite_modes.len() == 0 || !self.supports_extent(
            extent,
        ) {
            return Err(ChainError::UnsupportedSurfaceConfiguration);
        }
        let image_count: u32 = if self.min_image_count < 2 {
            2
        } else {
            self.min_image_count
        };
        Ok(
            ChainConfig {
                image_count,
                format: self.formats[0],
                extent,
                composite: self.composite_modes[0],
                usage: ImageUsage::ColorAttachment,
            },
        )
    }
}

} // verus!
