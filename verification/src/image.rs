//! Images, image views and samplers, typed by usage and format.

use core::marker::PhantomData;
use vstd::prelude::*;
use crate::raw::{
    Extent2D, Extent3D, ImageCreateInfo, ImageLayoutTransition, ACCESS_MEMORY_READ,
    ACCESS_SHADER_READ, IMAGE_LAYOUT_SHADER_READ_ONLY_OPTIMAL, IMAGE_LAYOUT_TRANSFER_DST_OPTIMAL,
    IMAGE_LAYOUT_UNDEFINED, IMAGE_USAGE_TRANSFER_DST, MEMORY_PROPERTY_DEVICE_LOCAL,
    PIPELINE_STAGE_ALL_COMMANDS, PIPELINE_STAGE_ALL_GRAPHICS, PIPELINE_STAGE_TOP_OF_PIPE,
};

pub mod format;
pub mod samples;
pub mod usage;

pub use self::format::FormatType;
pub use self::samples::{MultiSampleCountType, SampleCount1, SampleCountType};
pub use self::usage::{DynImageUsage, ImageUsageType};

verus! {

/// An image on the device.
///
/// The type parameter `U` names usages that the image is known to support. The
/// field `usage` holds all the usages that the image was created with, which
/// may be more; `cast_usage` moves between the two. The format `F` and the
/// sample count `S` are fixed when the image is created.
pub struct Image<U: ImageUsageType, F: FormatType, S: SampleCountType = SampleCount1> {
    /// Handle of the device image.
    pub image: u64,
    /// The layout that the image is in.
    pub layout: i32,
    /// Width and height of the image.
    pub extent: Extent2D,
    /// All the usages that the image supports.
    pub usage: DynImageUsage,
    /// Ties the image to its usage, format and sample count.
    pub marker: PhantomData<(U, F, S)>,
}

impl<U, F, S> Image<U, F, S> where U: ImageUsageType, F: FormatType, S: SampleCountType {
    /// What to ask the device for to get an image of this format and sample
    /// count with the given usages and extent: a single layer in device-local
    /// memory, in no particular layout.
    pub fn create_info(usage: DynImageUsage, extent: Extent2D) -> (info: ImageCreateInfo)
        ensures
            info == (ImageCreateInfo {
                format: F::spec_as_raw(),
                extent: Extent3D { width: extent.width, height: extent.height, depth: 1 },
                samples: S::spec_as_raw(),
                usage: usage.bits,
                initial_layout: IMAGE_LAYOUT_UNDEFINED,
                memory_properties: MEMORY_PROPERTY_DEVICE_LOCAL,
            }),
    {
        ImageCreateInfo {
            format: F::as_raw(),
            extent: Extent3D { width: extent.width, height: extent.height, depth: 1 },
            samples: S::as_raw(),
            usage: usage.as_raw(),
            initial_layout: IMAGE_LAYOUT_UNDEFINED,
            memory_properties: MEMORY_PROPERTY_DEVICE_LOCAL,
        }
    }

    /// Describes the image `image` that the device has just created with the
    /// usages `usage`.
    pub fn create_raw(image: u64, usage: DynImageUsage, extent: Extent2D) -> (made: Self)
        ensures
            made.image == image,
            made.layout == IMAGE_LAYOUT_UNDEFINED,
            made.extent == extent,
            made.usage == usage,
    {
        Self { image, layout: IMAGE_LAYOUT_UNDEFINED, extent, usage, marker: PhantomData }
    }

    /// Describes the image `image` that the device has just created with
    /// exactly the usages that `usage` stands for.
    pub fn create(image: u64, usage: U, extent: Extent2D) -> (made: Self)
        ensures
            made.image == image,
            made.layout == IMAGE_LAYOUT_UNDEFINED,
            made.extent == extent,
            made.usage == usage.spec_as_dyn(),
    {
        Self::create_raw(image, usage.as_dyn(), extent)
    }

    /// The usages to create an image with that is to be filled from host data:
    /// those that `usage` stands for, and being the destination of a copy.
    pub fn upload_usage(usage: U) -> (all: DynImageUsage)
        ensures
            all == usage.spec_as_dyn().spec_union(DynImageUsage { bits: IMAGE_USAGE_TRANSFER_DST }),
    {
        usage.as_dyn() | DynImageUsage::transfer_dst()
    }

    /// The transition that readies a new image for being filled by a copy.
    pub fn upload_transition() -> (transition: ImageLayoutTransition)
        ensures
            transition == (ImageLayoutTransition {
                aspect: F::spec_aspect(),
                src_stage_mask: PIPELINE_STAGE_TOP_OF_PIPE,
                dst_stage_mask: PIPELINE_STAGE_ALL_COMMANDS,
                src_access_mask: 0,
                dst_access_mask: ACCESS_MEMORY_READ,
                old_layout: IMAGE_LAYOUT_UNDEFINED,
                new_layout: IMAGE_LAYOUT_TRANSFER_DST_OPTIMAL,
            }),
    {
        ImageLayoutTransition {
            aspect: F::aspect(),
            src_stage_mask: PIPELINE_STAGE_TOP_OF_PIPE,
            dst_stage_mask: PIPELINE_STAGE_ALL_COMMANDS,
            src_access_mask: 0,
            dst_access_mask: ACCESS_MEMORY_READ,
            old_layout: IMAGE_LAYOUT_UNDEFINED,
            new_layout: IMAGE_LAYOUT_TRANSFER_DST_OPTIMAL,
        }
    }

    /// Describes the image `image` that was created with `upload_usage(usage)`,
    /// taken through `upload_transition()` and filled by a copy.
    pub fn make_image(image: u64, usage: U, extent: Extent2D) -> (made: Self)
        ensures
            made.image == image,
            made.layout == IMAGE_LAYOUT_TRANSFER_DST_OPTIMAL,
            made.extent == extent,
            made.usage == usage.spec_as_dyn().spec_union(
                DynImageUsage { bits: IMAGE_USAGE_TRANSFER_DST },
            ),
            made.usage.spec_contains(usage.spec_as_dyn()),
    {
        let mut made = Self::create_raw(image, Self::upload_usage(usage), extent);
        let transition = Self::upload_transition();
        made.transition(&transition);
        proof {
            crate::image::usage::lemma_union_is_least_upper_bound(
                usage.spec_as_dyn(),
                DynImageUsage { bits: IMAGE_USAGE_TRANSFER_DST },
                made.usage,
            );
        }
        made
    }

    /// All the usages that the image supports, which may be more than its
    /// type says.
    pub fn usage(&self) -> (usage: DynImageUsage)
        ensures
            usage == self.usage,
    {
        self.usage
    }

    /// Width and height of the image.
    pub fn extent(&self) -> (extent: Extent2D)
        ensures
            extent == self.extent,
    {
        self.extent
    }

    /// The same image under another usage type, without a test.
    fn cast_unchecked<U2: ImageUsageType>(self) -> (cast: Image<U2, F, S>)
        ensures
            cast.image == self.image,
            cast.layout == self.layout,
            cast.extent == self.extent,
            cast.usage == self.usage,
    {
        Image {
            image: self.image,
            layout: self.layout,
            extent: self.extent,
            usage: self.usage,
            marker: PhantomData,
        }
    }

    /// The image under the usage type of `usage`, if the image supports every
    /// usage that `usage` stands for; else the image as it was.
    pub fn cast_usage<U2: ImageUsageType>(self, usage: U2) -> (cast: Result<Image<U2, F, S>, Self>)
        ensures
            cast is Ok <==> self.usage.spec_contains(usage.spec_as_dyn()),
            cast matches Ok(image) ==> image.image == self.image && image.layout == self.layout
                && image.extent == self.extent && image.usage == self.usage,
            cast matches Err(image) ==> image == self,
    {
        if self.usage.as_dyn().contains(usage.as_dyn()) {
            Ok(self.cast_unchecked())
        } else {
            Err(self)
        }
    }

    /// A description of the same image under the usage type of `usage`, if the
    /// image supports every usage that `usage` stands for.
    pub fn cast_usage_ref<U2: ImageUsageType>(&self, usage: U2) -> (cast: Option<Image<U2, F, S>>)
        ensures
            cast is Some <==> self.usage.spec_contains(usage.spec_as_dyn()),
            cast matches Some(image) ==> image.image == self.image && image.layout == self.layout
                && image.extent == self.extent && image.usage == self.usage,
    {
        if self.usage.as_dyn().contains(usage.as_dyn()) {
            Some(
                Image {
                    image: self.image,
                    layout: self.layout,
                    extent: self.extent,
                    usage: self.usage,
                    marker: PhantomData,
                },
            )
        } else {
            None
        }
    }

    /// Records that the device has taken the image through `transition`.
    pub fn transition(&mut self, transition: &ImageLayoutTransition)
        ensures
            final(self).layout == transition.new_layout,
            final(self).image == old(self).image,
            final(self).extent == old(self).extent,
            final(self).usage == old(self).usage,
    {
        self.layout = transition.new_layout;
    }
}

impl<U, F, S> Clone for Image<U, F, S> where U: ImageUsageType, F: FormatType, S: SampleCountType {
    /// Another description of the same device image.
    fn clone(&self) -> (copy: Self)
        ensures
            copy == *self,
    {
        Self {
            image: self.image,
            layout: self.layout,
            extent: self.extent,
            usage: self.usage,
            marker: PhantomData,
        }
    }
}

/// A view of an image on the device, with the usages of the image.
pub struct ImageView<U: ImageUsageType, F: FormatType, S: SampleCountType = SampleCount1> {
    /// Handle of the device image view.
    pub image_view: u64,
    /// All the usages that the viewed image supports.
    pub usage: DynImageUsage,
    /// Ties the view to its usage, format and sample count.
    pub marker: PhantomData<(U, F, S)>,
}

impl<U, F, S> ImageView<U, F, S> where U: ImageUsageType, F: FormatType, S: SampleCountType {
    /// Describes the view `image_view` that the device has made of `image`.
    pub fn create(image_view: u64, image: &Image<U, F, S>) -> (made: Self)
        ensures
            made.image_view == image_view,
            made.usage == image.usage,
    {
        Self { image_view, usage: image.usage, marker: PhantomData }
    }

    /// All the usages that the viewed image supports, which may be more than
    /// the view's type says.
    pub fn usage(&self) -> (usage: DynImageUsage)
        ensures
            usage == self.usage,
    {
        self.usage
    }

    /// The same view under another usage type, without a test.
    fn cast_unchecked<U2: ImageUsageType>(self) -> (cast: ImageView<U2, F, S>)
        ensures
            cast.image_view == self.image_view,
            cast.usage == self.usage,
    {
        ImageView { image_view: self.image_view, usage: self.usage, marker: PhantomData }
    }

    /// The view under the usage type of `usage`, if the viewed image supports
    /// every usage that `usage` stands for; else the view as it was.
    pub fn cast_usage<U2: ImageUsageType>(self, usage: U2) -> (cast: Result<
        ImageView<U2, F, S>,
        Self,
    >)
        ensures
            cast is Ok <==> self.usage.spec_contains(usage.spec_as_dyn()),
            cast matches Ok(view) ==> view.image_view == self.image_view && view.usage
                == self.usage,
            cast matches Err(view) ==> view == self,
    {
        if self.usage.as_dyn().contains(usage.as_dyn()) {
            Ok(self.cast_unchecked())
        } else {
            Err(self)
        }
    }

    /// A description of the same view under the usage type of `usage`, if the
    /// viewed image supports every usage that `usage` stands for.
    pub fn cast_usage_ref<U2: ImageUsageType>(&self, usage: U2) -> (cast: Option<
        ImageView<U2, F, S>,
    >)
        ensures
            cast is Some <==> self.usage.spec_contains(usage.spec_as_dyn()),
            cast matches Some(view) ==> view.image_view == self.image_view && view.usage
                == self.usage,
    {
        if self.usage.as_dyn().contains(usage.as_dyn()) {
            Some(ImageView { image_view: self.image_view, usage: self.usage, marker: PhantomData })
        } else {
            None
        }
    }
}

impl<U, F, S> Clone for ImageView<U, F, S> where
    U: ImageUsageType,
    F: FormatType,
    S: SampleCountType,
 {
    /// Another description of the same device image view.
    fn clone(&self) -> (copy: Self)
        ensures
            copy == *self,
    {
        Self { image_view: self.image_view, usage: self.usage, marker: PhantomData }
    }
}

/// A sampler on the device.
#[derive(Debug, Copy, Clone, PartialEq, Eq, Structural)]
pub struct Sampler {
    /// Handle of the device sampler.
    pub sampler: u64,
}

impl Sampler {
    /// Describes the sampler `sampler` that the device has created.
    pub fn create(sampler: u64) -> (made: Self)
        ensures
            made.sampler == sampler,
    {
        Self { sampler }
    }
}

/// An image together with the view and the sampler through which shaders
/// read it.
pub struct SampledImage<F: FormatType> {
    pub image: Image<usage::SampledImage, F>,
    pub image_view: ImageView<usage::SampledImage, F>,
    pub sampler: Sampler,
}

impl<F> SampledImage<F> where F: FormatType {
    /// The three parts as given.
    pub fn new(
        image: Image<usage::SampledImage, F>,
        image_view: ImageView<usage::SampledImage, F>,
        sampler: Sampler,
    ) -> (made: Self)
        ensures
            made.image == image,
            made.image_view == image_view,
            made.sampler == sampler,
    {
        Self { image, image_view, sampler }
    }

    /// The transition that an image in the layout `layout` needs before shaders
    /// can read it: none if it is in the layout for shader reads already.
    pub fn read_transition(layout: i32) -> (transition: Option<ImageLayoutTransition>)
        ensures
            transition == if layout != IMAGE_LAYOUT_SHADER_READ_ONLY_OPTIMAL {
                Some(
                    ImageLayoutTransition {
                        aspect: F::spec_aspect(),
                        src_stage_mask: PIPELINE_STAGE_TOP_OF_PIPE,
                        dst_stage_mask: PIPELINE_STAGE_ALL_GRAPHICS,
                        src_access_mask: 0,
                        dst_access_mask: ACCESS_SHADER_READ,
                        old_layout: layout,
                        new_layout: IMAGE_LAYOUT_SHADER_READ_ONLY_OPTIMAL,
                    },
                )
            } else {
                None
            },
    {
        if layout != IMAGE_LAYOUT_SHADER_READ_ONLY_OPTIMAL {
            Some(
                ImageLayoutTransition {
                    aspect: F::aspect(),
                    src_stage_mask: PIPELINE_STAGE_TOP_OF_PIPE,
                    dst_stage_mask: PIPELINE_STAGE_ALL_GRAPHICS,
                    src_access_mask: 0,
                    dst_access_mask: ACCESS_SHADER_READ,
                    old_layout: layout,
                    new_layout: IMAGE_LAYOUT_SHADER_READ_ONLY_OPTIMAL,
                },
            )
        } else {
            None
        }
    }

    /// Describes `image` once the device has taken it through
    /// `read_transition(image.layout)`, made the view `image_view` of it and
    /// created the sampler `sampler`.
    pub fn create(image: Image<usage::SampledImage, F>, image_view: u64, sampler: u64) -> (made: Self)
        ensures
            made.image.image == image.image,
            made.image.extent == image.extent,
            made.image.usage == image.usage,
            made.image.layout == IMAGE_LAYOUT_SHADER_READ_ONLY_OPTIMAL,
            made.image_view.image_view == image_view,
            made.image_view.usage == image.usage,
            made.sampler.sampler == sampler,
    {
        let mut image = image;
        match Self::read_transition(image.layout) {
            Some(transition) => {
                image.transition(&transition);
            },
            None => {},
        }
        let image_view = ImageView::create(image_view, &image);
        let sampler = Sampler::create(sampler);
        Self::new(image, image_view, sampler)
    }
}

impl<F> Clone for SampledImage<F> where F: FormatType {
    /// Another description of the same image, view and sampler.
    fn clone(&self) -> (copy: Self)
        ensures
            copy == *self,
    {
        Self {
            image: self.image.clone(),
            image_view: self.image_view.clone(),
            sampler: Sampler { sampler: self.sampler.sampler },
        }
    }
}

} // verus!
