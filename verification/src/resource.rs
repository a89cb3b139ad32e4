use vstd::prelude::*;

use crate::error::RenderError;

verus! {

/// Pixel channel layout of an image buffer handed to the resource builder.
#[derive(Clone, Copy, Debug, PartialEq, Eq, Structural)]
pub enum ChannelFormat {
    /// Four bytes per pixel: red, green, blue, alpha.
    Rgba8,
    /// One byte per pixel, coverage only; the layout of the GUI
    /// toolkit's font atlas bitmap.
    Alpha8,
}

impl ChannelFormat {
    /// How many bytes one pixel occupies in this format.
    pub open spec fn spec_bytes_per_pixel(self) -> nat {
        match self {
            ChannelFormat::Rgba8 => 4,
            ChannelFormat::Alpha8 => 1,
        }
    }

    pub fn bytes_per_pixel(self) -> (n: usize)
        ensures
            n == self.spec_bytes_per_pixel(),
    {
        match self {
            ChannelFormat::Rgba8 => 4,
            ChannelFormat::Alpha8 => 1,
        }
    }
}

/// A buffer is a valid image exactly when its dimensions are positive and
/// its length is `width * height * bytes_per_pixel(format)`.
pub open spec fn valid_image(len: nat, width: u32, height: u32, format: ChannelFormat) -> bool {
    &&& width > 0
    &&& height > 0
    &&& len == width * height * format.spec_bytes_per_pixel()
}

/// A shader-backed paint wrapping a decoded image: an owned copy of the
/// pixel buffer plus its dimensions and channel format.
///
/// The sampling configuration is fixed by this layer and so carries no
/// state: nearest-neighbor filtering, no mip levels, repeat tiling, a
/// local transform scaling the unit UV square by `(1/width, 1/height)`
/// per axis, and a full-white color multiplier so per-vertex colors
/// modulate the sampled texel unchanged.
#[derive(Debug)]
pub struct DrawableResource {
    pixels: Vec<u8>,
    width: u32,
    height: u32,
    format: ChannelFormat,
}

impl DrawableResource {
    /// The owned pixel bytes.
    pub closed spec fn pixels(self) -> Seq<u8> {
        self.pixels@
    }

    /// Width in pixels.
    pub closed spec fn width(self) -> u32 {
        self.width
    }

    /// Height in pixels.
    pub closed spec fn height(self) -> u32 {
        self.height
    }

    /// Channel layout of the pixel bytes.
    pub closed spec fn format(self) -> ChannelFormat {
        self.format
    }

    /// A well-formed resource holds exactly the bytes its dimensions
    /// and format declare.
    pub open spec fn wf(self) -> bool {
        valid_image(self.pixels().len(), self.width(), self.height(), self.format())
    }

    /// The resource wraps exactly this buffer under these dimensions
    /// and this format.
    pub open spec fn is_built_from(
        self,
        pixels: Seq<u8>,
        width: u32,
        height: u32,
        format: ChannelFormat,
    ) -> bool {
        &&& self.pixels() == pixels
        &&& self.width() == width
        &&& self.height() == height
        &&& self.format() == format
    }

    /// The image resource builder: takes ownership of a raw pixel
    /// buffer and wraps it as a drawable resource.
    ///
    /// Succeeds exactly when the buffer length matches the declared
    /// dimensions and format and the dimensions are positive; any
    /// mismatch is rejected with `InvalidImageData`.
    pub fn build(
        pixels: Vec<u8>,
        width: u32,
        height: u32,
        format: ChannelFormat,
    ) -> (r: Result<DrawableResource, RenderError>)
        ensures
            r is Ok <==> valid_image(pixels@.len(), width, height, format),
            r matches Ok(res) ==> res.is_built_from(pixels@, width, height, format) && res.wf(),
            r matches Err(e) ==> e == RenderError::InvalidImageData,
    {
        let bpp = format.bytes_per_pixel();
        proof {
            assert((width as int) * (height as int) * (bpp as int) < 0x1000000000000000000
                && (width as int) * (height as int) * (bpp as int) >= 0) by (nonlinear_arith)
                requires
                    0 <= width <= u32::MAX,
                    0 <= height <= u32::MAX,
                    0 <= bpp <= 4,
            ;
        }
        let need: u128 = (width as u128) * (height as u128) * (bpp as u128);
        if width > 0 && height > 0 && (pixels.len() as u128) == need {
            Ok(DrawableResource { pixels, width, height, format })
        } else {
            Err(RenderError::InvalidImageData)
        }
    }

    /// Read access to the owned pixel bytes, for handing the buffer to
    /// the rendering backend.
    pub fn pixel_bytes(&self) -> (r: &Vec<u8>)
        ensures
            r@ == self.pixels(),
    {
        &self.pixels
    }

    /// Width in pixels.
    pub fn width_px(&self) -> (r: u32)
        ensures
            r == self.width(),
    {
        self.width
    }

    /// Height in pixels.
    pub fn height_px(&self) -> (r: u32)
        ensures
            r == self.height(),
    {
        self.height
    }

    /// Channel layout of the pixel bytes.
    pub fn channel_format(&self) -> (r: ChannelFormat)
        ensures
            r == self.format(),
    {
        self.format
    }
}

} // verus!
