//! The image chain: the images a surface cycles through, and the
//! framebuffers and viewport derived from them.

use vstd::prelude::*;
use crate::extent::Extent;
use crate::surface::{ChainConfig, ChainError, SurfaceCaps};

verus! {

/// The render target bound to one image of the chain.
#[derive(Clone, Copy, Debug, PartialEq, Eq, Structural)]
pub struct Framebuffer {
    /// Position of the image in the chain.
    pub image_index: u32,
    /// Extent of the image.
    pub extent: Extent,
}

/// The rectangle a frame is drawn into, anchored at the origin.
#[derive(Clone, Copy, Debug, PartialEq, Eq, Structural)]
pub struct Viewport {
    pub width: u32,
    pub height: u32,
}

/// An image chain. All its images share the configuration's format, usage
/// and extent, so the configuration describes every one of them. A chain is
/// never changed after it is built: a rebuild makes a new one.
#[derive(Clone, Copy, Debug, PartialEq, Eq, Structural)]
pub struct ImageChain {
    pub config: ChainConfig,
}

/// The framebuffers for a list of images given by their extents: one per
/// image, in the images' order.
pub open spec fn framebuffers_of(images: Seq<Extent>) -> Seq<Framebuffer> {
    Seq::new(
        images.len(),
        |i: int| (Framebuffer { image_index: i as u32, extent: images[i] }),
    )
}

/// Derives everything that depends on the window's size from the images of
/// a freshly built chain: sets the viewport to the extent of the first image
/// and returns one framebuffer per image.
pub fn window_size_dependent_setup(images: &Vec<Extent>, viewport: &mut Viewport) -> (framebuffers:
    Vec<Framebuffer>)
    requires
        0 < images@.len() <= u32::MAX,
    ensures
        framebuffers@ == framebuffers_of(images@),
        *final(viewport) == (Viewport { width: images@[0].width, height: images@[0].height }),
{
    viewport.width = images[0].width;
    viewport.height = images[0].height;
    let mut framebuffers: Vec<Framebuffer> = Vec::new();
    let mut index: u32 = 0;
    while (index as usize) < images.len()
        invariant
            images@.len() <= u32::MAX,
            index as int <= images@.len(),
            framebuffers@.len() == index as int,
            forall|k: int|
                0 <= k < index as int ==> framebuffers@[k] == (Framebuffer {
                    image_index: k as u32,
                    extent: images@[k],
                }),
        decreases images@.len() - index as int,
    {
        framebuffers.push(Framebuffer { image_index: index, extent: images[index as usize] });
        index = index + 1;
    }
    proof {
        assert(framebuffers@ =~= framebuffers_of(images@));
    }
    framebuffers
}

impl ImageChain {
    /// A chain has at least two images, none of them empty.
    pub open spec fn wf(&self) -> bool {
        self.config.image_count >= 2 && !self.config.extent.empty()
    }

    pub open spec fn extent(&self) -> Extent {
        self.config.extent
    }

    /// The extents that the chain's images report, in order.
    pub open spec fn images(&self) -> Seq<Extent> {
        Seq::new(self.config.image_count as nat, |i: int| self.config.extent)
    }

    /// The chain's framebuffers, in the images' order.
    pub open spec fn framebuffers(&self) -> Seq<Framebuffer> {
        framebuffers_of(self.images())
    }

    /// The chain that `recreate` builds: the same configuration with the
    /// extent replaced.
    pub open spec fn resized(&self, extent: Extent) -> ImageChain {
        ImageChain { config: ChainConfig { extent, ..self.config } }
    }

    /// Builds the first chain for a surface, at the requested extent.
    pub fn create(caps: &SurfaceCaps, requested: Extent) -> (r: Result<ImageChain, ChainError>)
        ensures
            caps.configurable(requested) ==> r == Ok::<ImageChain, ChainError>(
                ImageChain { config: caps.chosen(requested) },
            ),
            !caps.configurable(requested) ==> r == Err::<ImageChain, ChainError>(
                ChainError::UnsupportedSurfaceConfiguration,
            ),
            r matches Ok(chain) ==> chain.wf() && forall|i: int|
                0 <= i < chain.images().len() ==> chain.images()[i] == requested,
    {
        match caps.choose_config(requested) {
            Ok(config) => Ok(ImageChain { config }),
            Err(e) => Err(e),
        }
    }

    /// Builds the replacement of this chain for a new extent, against what
    /// the surface supports now. This chain is left as it is, so that a
    /// caller who gets `UnsupportedExtent` still holds a valid chain.
    pub fn recreate(&self, caps: &SurfaceCaps, new_extent: Extent) -> (r: Result<
        ImageChain,
        ChainError,
    >)
        requires
            self.wf(),
        ensures
            caps.admits(new_extent) ==> r == Ok::<ImageChain, ChainError>(self.resized(new_extent)),
            !caps.admits(new_extent) ==> r == Err::<ImageChain, ChainError>(
                ChainError::UnsupportedExtent,
            ),
            new_extent.empty() ==> r == Err::<ImageChain, ChainError>(ChainError::UnsupportedExtent),
            r matches Ok(chain) ==> chain.wf() && forall|i: int|
                0 <= i < chain.images().len() ==> chain.images()[i] == new_extent,
    {
        if !caps.supports_extent(new_extent) {
            return Err(ChainError::UnsupportedExtent);
        }
        Ok(
            ImageChain {
                config: ChainConfig {
                    image_count: self.config.image_count,
                    format: self.config.format,
                    extent: new_extent,
                    composite: self.config.composite,
                    usage: self.config.usage,
                },
            },
        )
    }

    pub fn image_count(&self) -> (n: u32)
        ensures
            n == self.config.image_count,
    {
        self.config.image_count
    }

    pub fn image_extent(&self) -> (e: Extent)
        ensures
            e == self.extent(),
    {
        self.config.extent
    }

    pub fn is_well_formed(&self) -> (r: bool)
        ensures
            r == self.wf(),
    {
        self.config.image_count >= 2 && !self.config.extent.is_empty()
    }

    /// The extent of every image of the chain, in order.
    pub fn image_extents(&self) -> (images: Vec<Extent>)
        ensures
            images@ == self.images(),
    {
        let mut images: Vec<Extent> = Vec::new();
        let mut index: u32 = 0;
        while index < self.config.image_count
            invariant
                index <= self.config.image_count,
                images@.len() == index as int,
                forall|k: int| 0 <= k < index as int ==> images@[k] == self.config.extent,
            decreases self.config.image_count - index,
        {
            images.push(self.config.extent);
            index = index + 1;
        }
        proof {
            assert(images@ =~= self.images());
        }
        images
    }

    /// The framebuffer bound to the image at `index`, if the chain has one.
    pub fn framebuffer(&self, index: u32) -> (r: Option<Framebuffer>)
        ensures
            index < self.config.image_count ==> r == Some(self.framebuffers()[index as int]),
            index < self.config.image_count ==> r == Some(
                Framebuffer { image_index: index, extent: self.extent() },
            ),
            index >= self.config.image_count ==> r.is_none(),
    {
        if index < self.config.image_count {
            Some(Framebuffer { image_index: index, extent: self.config.extent })
        } else {
            None
        }
    }

    /// All framebuffers of the chain and the viewport that goes with them.
    pub fn build_targets(&self) -> (r: (Vec<Framebuffer>, Viewport))
        requires
            self.wf(),
        ensures
            r.0@ == self.framebuffers(),
            r.1 == (Viewport { width: self.extent().width, height: self.extent().height }),
    {
        let images = self.image_extents();
        let mut viewport = Viewport { width: 0, height: 0 };
        let framebuffers = window_size_dependent_setup(&images, &mut viewport);
        (framebuffers, viewport)
    }
}

} // verus!
