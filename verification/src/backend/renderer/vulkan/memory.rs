//! Import of images from memory.

use vstd::prelude::*;

use super::image::ImageCreateInfo;
use super::renderer::Error;
use super::{VulkanImage, VulkanRenderer};
use crate::utils::{Rectangle, Size};

verus! {

/// How many bytes of `data` are imported for an image of the given size, in a format of four bytes
/// per pixel.
///
/// There must be at least as many, and more are not read.
pub fn memory_import_size(data_len: usize, size: &Size<i32>) -> (r: Result<usize, Error>)
    ensures
        ({
            let needed = size.w * size.h * 4;
            if size.w >= 0 && size.h >= 0 && needed <= data_len {
                r == Ok::<usize, Error>(needed as usize)
            } else {
                r == Err::<usize, Error>(Error::UnsupportedFormat)
            }
        }),
{
    // Negative size means the data size is wrong.
    if size.w < 0 || size.h < 0 {
        return Err(Error::UnsupportedFormat);
    }
    let width: usize = size.w as usize;
    let height: usize = size.h as usize;
    let ghost pixels = width * height;
    assert(pixels * 4 == size.w * size.h * 4);
    assert(0 <= pixels) by (nonlinear_arith)
        requires
            pixels == width * height,
    ;
    // Guard against overflows for size calculation.
    match width.checked_mul(height) {
        Some(area) => match area.checked_mul(4) {
            Some(needed) => {
                // Test the data is large enough
                if data_len < needed {
                    Err(Error::UnsupportedFormat)
                } else {
                    Ok(needed)
                }
            },
            None => Err(Error::UnsupportedFormat),
        },
        None => Err(Error::UnsupportedFormat),
    }
}

impl VulkanRenderer {
    /// Data of `data_len` bytes can be imported as an image: its size is one that a client can ask
    /// for, and there is data for the whole image.
    pub open spec fn import_fits(info: ImageCreateInfo, data_len: usize, bits_per_pixel: usize) -> bool {
        &&& info.width <= i32::MAX
        &&& info.height <= i32::MAX
        &&& (bits_per_pixel as int / 8) * info.width * info.height <= data_len
    }

    /// Whether data can be imported as an image: see `import_fits`.
    pub fn can_import_memory(info: &ImageCreateInfo, data_len: usize, bits_per_pixel: usize) -> (r:
        bool)
        ensures
            r == Self::import_fits(*info, data_len, bits_per_pixel),
    {
        if info.width > i32::MAX as u32 || info.height > i32::MAX as u32 {
            return false;
        }
        let image = VulkanImage {
            id: 0,
            width: info.width,
            height: info.height,
            vk_format: info.format,
            drm_format: None,
        };
        let size = Size { w: info.width as i32, h: info.height as i32 };
        let region = Rectangle::from_loc_and_size((0, 0), size);
        Self::can_update_memory(&image, data_len, &region, bits_per_pixel)
    }

    /// Adds an image that was created and records the upload of its initial content.
    ///
    /// Returns the first handle to the image, and the command buffer whose recording is to be
    /// begun, if none was being recorded.
    pub fn import_memory(
        &mut self,
        format: u32,
        info: &ImageCreateInfo,
        image: u64,
        memory: u64,
        data_len: usize,
        bits_per_pixel: usize,
    ) -> (r: (VulkanImage, Option<u64>))
        requires
            old(self).wf(),
            old(self).next_image_id < u64::MAX,
            Self::import_fits(*info, data_len, bits_per_pixel),
            old(self).staging is None ==> old(self).command_buffers@.len() > 0 && old(
                self,
            ).staging_buffers@.len() > 0,
        ensures
            final(self).wf(),
            final(self).all_command_buffers() == old(self).all_command_buffers(),
            r.0 == (VulkanImage {
                id: old(self).next_image_id,
                width: info.width,
                height: info.height,
                vk_format: info.format,
                drm_format: Some(format),
            }),
            r.1 == match old(self).staging {
                Some(_) => None::<u64>,
                None => Some(old(self).command_buffers@[0]),
            },
            !old(self).images@.contains_key(r.0.id),
            final(self).images@ == old(self).images@.insert(
                r.0.id,
                super::ImageInfo {
                    id: r.0.id,
                    refcount: 2,
                    image,
                    underlying_memory: Some(memory),
                    handles: Ghost(1),
                },
            ),
            final(self).next_image_id == old(self).next_image_id + 1,
            final(self).staging is Some,
            match old(self).staging {
                Some(staging) => {
                    &&& final(self).staging->0.uploads@ == staging.uploads@.push(
                        super::Upload { image_id: r.0.id },
                    )
                    &&& final(self).staging->0 == (super::Staging {
                        uploads: final(self).staging->0.uploads,
                        ..staging
                    })
                    &&& final(self).command_buffers == old(self).command_buffers
                    &&& final(self).staging_buffers == old(self).staging_buffers
                },
                None => {
                    &&& final(self).staging->0.command_buffer == old(self).command_buffers@[0]
                    &&& final(self).staging->0.uploads@ == seq![super::Upload { image_id: r.0.id }]
                    &&& final(self).staging->0.upload_buffer == old(self).staging_buffers@[0]
                    &&& final(self).staging->0.upload_overflow@.len() == 0
                    &&& final(self).command_buffers@ == old(self).command_buffers@.drop_first()
                    &&& final(self).staging_buffers@ == old(self).staging_buffers@.drop_first()
                },
            },
            *final(self) == (VulkanRenderer {
                images: final(self).images,
                next_image_id: final(self).next_image_id,
                staging: final(self).staging,
                command_buffers: final(self).command_buffers,
                staging_buffers: final(self).staging_buffers,
                ..*old(self)
            }),
    {
        let created: VulkanImage = self.create_mem_image(format, info, image, memory);
        assert(self.all_command_buffers() == old(self).all_command_buffers());
        // The image contents are empty, so initialize the image content.
        let size = Size { w: info.width as i32, h: info.height as i32 };
        let region = Rectangle::from_loc_and_size((0, 0), size);
        let begun: Option<u64> = self.update_memory(&created, data_len, &region, bits_per_pixel);
        assert(self.images@ =~= old(self).images@.insert(created.id, self.images@[created.id]));
        (created, begun)
    }
}

} // verus!
