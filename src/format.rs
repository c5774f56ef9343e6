use vstd::prelude::*;

use crate::text::str_equal;

verus! {

/// Pixel layout of a captured frame and of the image written from it.
#[derive(Clone, Copy, Debug, PartialEq, Eq, Structural)]
pub enum PixelFormat {
    /// 8 bits per channel, blue-green-red-alpha, normalized.
    Bgra8,
    /// 16-bit floating point per channel, red-green-blue-alpha.
    Rgba16Float,
}

/// Image container that an output file is written in.
#[derive(Clone, Copy, Debug, PartialEq, Eq, Structural)]
pub enum ContainerFormat {
    Png,
    JpegXr,
}

/// What an output file extension selects: container, pixel layout and the
/// number of bytes that one pixel occupies.
#[derive(Clone, Copy, Debug, PartialEq, Eq, Structural)]
pub struct OutputFormat {
    pub container: ContainerFormat,
    pub pixel_format: PixelFormat,
    pub bytes_per_pixel: u32,
}

/// `DXGI_FORMAT_B8G8R8A8_UNORM`.
pub const DXGI_FORMAT_B8G8R8A8_UNORM: u32 = 87;

/// `DXGI_FORMAT_R16G16B16A16_FLOAT`.
pub const DXGI_FORMAT_R16G16B16A16_FLOAT: u32 = 10;

pub open spec fn spec_bytes_per_pixel(f: PixelFormat) -> nat {
    match f {
        PixelFormat::Bgra8 => 4,
        PixelFormat::Rgba16Float => 8,
    }
}

pub open spec fn spec_container(f: PixelFormat) -> ContainerFormat {
    match f {
        PixelFormat::Bgra8 => ContainerFormat::Png,
        PixelFormat::Rgba16Float => ContainerFormat::JpegXr,
    }
}

pub open spec fn spec_output_format(f: PixelFormat) -> OutputFormat {
    OutputFormat {
        container: spec_container(f),
        pixel_format: f,
        bytes_per_pixel: spec_bytes_per_pixel(f) as u32,
    }
}

pub open spec fn spec_dxgi_code(f: PixelFormat) -> u32 {
    match f {
        PixelFormat::Bgra8 => DXGI_FORMAT_B8G8R8A8_UNORM,
        PixelFormat::Rgba16Float => DXGI_FORMAT_R16G16B16A16_FLOAT,
    }
}

/// The pixel format that a file extension selects: `png` for 8-bit BGRA,
/// `jxr` for 16-bit floating RGBA, nothing for any other extension.
pub open spec fn format_for_extension(ext: Seq<char>) -> Option<PixelFormat> {
    if ext == "png"@ {
        Some(PixelFormat::Bgra8)
    } else if ext == "jxr"@ {
        Some(PixelFormat::Rgba16Float)
    } else {
        None
    }
}

/// The extension of a path, as `std::path::Path::extension` reads it.
pub uninterp spec fn path_extension(path: Seq<char>) -> Option<Seq<char>>;

/// The pixel format that the extension of `path` selects.
pub open spec fn format_for_path(path: Seq<char>) -> Option<PixelFormat> {
    match path_extension(path) {
        Some(ext) => format_for_extension(ext),
        None => None,
    }
}

impl PixelFormat {
    pub fn bytes_per_pixel(&self) -> (r: u32)
        ensures
            r == spec_bytes_per_pixel(*self),
    {
        match self {
            PixelFormat::Bgra8 => 4,
            PixelFormat::Rgba16Float => 8,
        }
    }

    pub fn container(&self) -> (r: ContainerFormat)
        ensures
            r == spec_container(*self),
    {
        match self {
            PixelFormat::Bgra8 => ContainerFormat::Png,
            PixelFormat::Rgba16Float => ContainerFormat::JpegXr,
        }
    }

    /// The full triple that this pixel format writes an image with.
    pub fn output_format(&self) -> (r: OutputFormat)
        ensures
            r == spec_output_format(*self),
    {
        OutputFormat {
            container: self.container(),
            pixel_format: *self,
            bytes_per_pixel: self.bytes_per_pixel(),
        }
    }

    /// The DXGI format code of this layout.
    pub fn dxgi_code(&self) -> (r: u32)
        ensures
            r == spec_dxgi_code(*self),
    {
        match self {
            PixelFormat::Bgra8 => DXGI_FORMAT_B8G8R8A8_UNORM,
            PixelFormat::Rgba16Float => DXGI_FORMAT_R16G16B16A16_FLOAT,
        }
    }

    /// The layout that a DXGI format code stands for; `None` for every code
    /// that this tool cannot extract.
    pub fn from_dxgi_code(code: u32) -> (r: Option<PixelFormat>)
        ensures
            r matches Some(f) ==> spec_dxgi_code(f) == code,
            r is None <==> (code != DXGI_FORMAT_B8G8R8A8_UNORM
                && code != DXGI_FORMAT_R16G16B16A16_FLOAT),
    {
        if code == DXGI_FORMAT_B8G8R8A8_UNORM {
            Some(PixelFormat::Bgra8)
        } else if code == DXGI_FORMAT_R16G16B16A16_FLOAT {
            Some(PixelFormat::Rgba16Float)
        } else {
            None
        }
    }
}

/// Each supported extension selects one fixed triple, PNG with 4-byte BGRA
/// pixels for `png` and JPEG XR with 8-byte floating RGBA pixels for `jxr`;
/// every other extension selects none.
pub proof fn lemma_extension_selects_one_triple(ext: Seq<char>)
    ensures
        ext == "png"@ ==> format_for_extension(ext) == Some(PixelFormat::Bgra8),
        ext == "jxr"@ ==> format_for_extension(ext) == Some(PixelFormat::Rgba16Float),
        ext != "png"@ && ext != "jxr"@ ==> format_for_extension(ext) is None,
        spec_output_format(PixelFormat::Bgra8) == (OutputFormat {
            container: ContainerFormat::Png,
            pixel_format: PixelFormat::Bgra8,
            bytes_per_pixel: 4,
        }),
        spec_output_format(PixelFormat::Rgba16Float) == (OutputFormat {
            container: ContainerFormat::JpegXr,
            pixel_format: PixelFormat::Rgba16Float,
            bytes_per_pixel: 8,
        }),
{
    reveal_strlit("png");
    reveal_strlit("jxr");
    assert("png"@ != "jxr"@) by {
        assert("png"@[0] != "jxr"@[0]);
    }
}

/// The pixel format that an extension (without its dot) selects.
pub fn output_format_for_extension(ext: &str) -> (r: Option<PixelFormat>)
    ensures
        r == format_for_extension(ext@),
{
    if str_equal(ext, "png") {
        Some(PixelFormat::Bgra8)
    } else if str_equal(ext, "jxr") {
        Some(PixelFormat::Rgba16Float)
    } else {
        None
    }
}

/// Relies on `std::path::Path::extension`: the text after the last dot of
/// the final path component, if that component has one that does not lead it.
#[verifier::external_body]
fn extension_of(path: &str) -> (r: Option<String>)
    ensures
        r matches Some(e) ==> path_extension(path@) == Some(e@),
        r is None ==> path_extension(path@) is None,
{
    std::path::Path::new(path).extension().and_then(|e| e.to_str()).map(|e| e.to_string())
}

/// The pixel format that the extension of an output path selects; `None`
/// when the path has no extension or one that is not supported.
pub fn validate_path(path: &str) -> (r: Option<PixelFormat>)
    ensures
        r == format_for_path(path@),
{
    match extension_of(path) {
        Some(ext) => output_format_for_extension(ext.as_str()),
        None => None,
    }
}

} // verus!
