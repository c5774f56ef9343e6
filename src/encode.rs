use vstd::prelude::*;

use crate::extract::{lemma_mul_bounded, PixelBuffer};
use crate::format::{spec_bytes_per_pixel, ContainerFormat, PixelFormat};

verus! {

/// `GUID_ContainerFormatPng`.
pub const GUID_CONTAINER_FORMAT_PNG: u128 = 0x1b7cfaf4_713f_473c_bbcd_6137425faeaf;

/// `GUID_ContainerFormatWmp`, the JPEG XR container.
pub const GUID_CONTAINER_FORMAT_WMP: u128 = 0x57a37caa_367a_4540_916b_f183c5093a4b;

/// `GUID_WICPixelFormat32bppBGRA`.
pub const GUID_WIC_PIXEL_FORMAT_32BPP_BGRA: u128 = 0x6fddc324_4e03_4bfe_b185_3d77768dc90f;

/// `GUID_WICPixelFormat64bppRGBAHalf`.
pub const GUID_WIC_PIXEL_FORMAT_64BPP_RGBA_HALF: u128 = 0x6fddc324_4e03_4bfe_b185_3d77768dc93a;

pub open spec fn spec_container_guid(c: ContainerFormat) -> u128 {
    match c {
        ContainerFormat::Png => GUID_CONTAINER_FORMAT_PNG,
        ContainerFormat::JpegXr => GUID_CONTAINER_FORMAT_WMP,
    }
}

pub open spec fn spec_wic_pixel_format(f: PixelFormat) -> u128 {
    match f {
        PixelFormat::Bgra8 => GUID_WIC_PIXEL_FORMAT_32BPP_BGRA,
        PixelFormat::Rgba16Float => GUID_WIC_PIXEL_FORMAT_64BPP_RGBA_HALF,
    }
}

impl ContainerFormat {
    /// The imaging codec's identifier of this container.
    pub fn guid(&self) -> (r: u128)
        ensures
            r == spec_container_guid(*self),
    {
        match self {
            ContainerFormat::Png => GUID_CONTAINER_FORMAT_PNG,
            ContainerFormat::JpegXr => GUID_CONTAINER_FORMAT_WMP,
        }
    }
}

impl PixelFormat {
    /// The imaging codec's identifier of the pixel format written for this
    /// layout.
    pub fn wic_pixel_format(&self) -> (r: u128)
        ensures
            r == spec_wic_pixel_format(*self),
    {
        match self {
            PixelFormat::Bgra8 => GUID_WIC_PIXEL_FORMAT_32BPP_BGRA,
            PixelFormat::Rgba16Float => GUID_WIC_PIXEL_FORMAT_64BPP_RGBA_HALF,
        }
    }
}

/// Everything the image encoder is told about one frame.
#[derive(Clone, Copy, Debug, PartialEq, Eq, Structural)]
pub struct EncoderSettings {
    /// Container identifier.
    pub container: u128,
    /// Pixel format identifier requested from the frame encoder.
    pub pixel_format: u128,
    pub width: u32,
    pub height: u32,
    /// Bytes from the start of one row to the next: a packed row.
    pub stride: u32,
    /// Bytes of pixel data handed over.
    pub buffer_size: u32,
}

/// Why a pixel buffer could not be encoded.
#[derive(Clone, Copy, Debug, PartialEq, Eq, Structural)]
pub enum EncodeError {
    /// A row or the whole image is longer than the encoder can be told.
    TooLarge,
    /// The buffer's length disagrees with its dimensions.
    LengthMismatch,
    /// The encoder would write a pixel format other than the one requested.
    PixelFormatMismatch { requested: u128, granted: u128 },
}

/// What the encoder is told for `buffer`, or why it cannot be.
pub open spec fn encoder_settings_outcome(
    res: Result<EncoderSettings, EncodeError>,
    buffer: PixelBuffer,
) -> bool {
    let stride = buffer.width * spec_bytes_per_pixel(buffer.format);
    if stride > u32::MAX || stride * buffer.height > u32::MAX {
        res == Err::<EncoderSettings, EncodeError>(EncodeError::TooLarge)
    } else if buffer.bytes@.len() != stride * buffer.height {
        res == Err::<EncoderSettings, EncodeError>(EncodeError::LengthMismatch)
    } else {
        res == Ok::<EncoderSettings, EncodeError>(
            EncoderSettings {
                container: spec_container_guid(crate::format::spec_container(buffer.format)),
                pixel_format: spec_wic_pixel_format(buffer.format),
                width: buffer.width,
                height: buffer.height,
                stride: stride as u32,
                buffer_size: (stride * buffer.height) as u32,
            },
        )
    }
}

/// The container, pixel format, size and stride that a packed buffer is
/// encoded with: PNG with 32-bit BGRA for 8-bit frames, JPEG XR with 64-bit
/// half-float RGBA for floating point frames.
pub fn encoder_settings(buffer: &PixelBuffer) -> (res: Result<EncoderSettings, EncodeError>)
    ensures
        encoder_settings_outcome(res, *buffer),
{
    let stride: u64 = buffer.width as u64 * buffer.format.bytes_per_pixel() as u64;
    if stride > u32::MAX as u64 {
        return Err(EncodeError::TooLarge);
    }
    proof {
        lemma_mul_bounded(stride as int, buffer.height as int, u32::MAX as int, u32::MAX as int);
    }
    let size: u64 = stride * buffer.height as u64;
    if size > u32::MAX as u64 {
        return Err(EncodeError::TooLarge);
    }
    if buffer.bytes.len() as u64 != size {
        return Err(EncodeError::LengthMismatch);
    }
    Ok(
        EncoderSettings {
            container: buffer.format.container().guid(),
            pixel_format: buffer.format.wic_pixel_format(),
            width: buffer.width,
            height: buffer.height,
            stride: stride as u32,
            buffer_size: size as u32,
        },
    )
}

/// A well-formed buffer whose rows and whole size fit the encoder's counts is
/// always accepted, and the encoder is told the buffer's own width and
/// height and the pixel format that its layout stands for.
pub proof fn lemma_settings_keep_size_and_format(buffer: PixelBuffer)
    requires
        buffer.wf(),
        buffer.width * spec_bytes_per_pixel(buffer.format) <= u32::MAX,
        buffer.width * spec_bytes_per_pixel(buffer.format) * buffer.height <= u32::MAX,
    ensures
        forall|res: Result<EncoderSettings, EncodeError>|
            #[trigger] encoder_settings_outcome(res, buffer) ==> (res matches Ok(s) && s.width
                == buffer.width && s.height == buffer.height && s.pixel_format
                == spec_wic_pixel_format(buffer.format) && s.container == spec_container_guid(
                crate::format::spec_container(buffer.format),
            )),
{
}

/// Accepts the pixel format that the frame encoder reports it will write only
/// when it is the one that was requested.
pub fn check_granted_pixel_format(requested: u128, granted: u128) -> (res: Result<(), EncodeError>)
    ensures
        requested == granted ==> res is Ok,
        requested != granted ==> res == Err::<(), EncodeError>(
            EncodeError::PixelFormatMismatch { requested, granted },
        ),
{
    if requested == granted {
        Ok(())
    } else {
        Err(EncodeError::PixelFormatMismatch { requested, granted })
    }
}

} // verus!
