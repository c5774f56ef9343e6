use vstd::prelude::*;

use crate::format::{spec_bytes_per_pixel, spec_dxgi_code, PixelFormat};

verus! {

/// `D3D11_USAGE_STAGING`.
pub const D3D11_USAGE_STAGING: i32 = 3;

/// `D3D11_CPU_ACCESS_READ`.
pub const D3D11_CPU_ACCESS_READ: u32 = 0x20000;

/// The fields of a 2D texture description that the copy-out step reads and
/// writes, as plain values.
#[derive(Clone, Copy, Debug, PartialEq, Eq, Structural)]
pub struct TextureDescription {
    pub width: u32,
    pub height: u32,
    pub mip_levels: u32,
    pub array_size: u32,
    pub format: u32,
    pub sample_count: u32,
    pub sample_quality: u32,
    pub usage: i32,
    pub bind_flags: u32,
    pub cpu_access_flags: u32,
    pub misc_flags: u32,
}

impl TextureDescription {
    /// The description of a CPU-readable copy of a texture: same size,
    /// format and sampling, staging usage, read access, never bound to a
    /// pipeline stage.
    pub fn staging_description(&self) -> (r: TextureDescription)
        ensures
            r == (TextureDescription {
                usage: D3D11_USAGE_STAGING,
                bind_flags: 0,
                cpu_access_flags: D3D11_CPU_ACCESS_READ,
                misc_flags: 0,
                ..*self
            }),
    {
        TextureDescription {
            usage: D3D11_USAGE_STAGING,
            bind_flags: 0,
            cpu_access_flags: D3D11_CPU_ACCESS_READ,
            misc_flags: 0,
            ..*self
        }
    }
}

/// Why a mapped frame could not be turned into a packed pixel buffer.
#[derive(Clone, Copy, Debug, PartialEq, Eq, Structural)]
pub enum ExtractError {
    /// The texture holds a pixel format other than 8-bit BGRA or 16-bit
    /// floating RGBA; carries its DXGI code.
    UnsupportedPixelFormat(u32),
    /// The packed image would not fit in memory.
    TooLarge,
    /// The row pitch is shorter than one row of pixels.
    RowPitchTooSmall,
    /// The mapped memory ends before the last row does.
    MappedTooShort,
}

/// Row `r` of a buffer whose rows start `stride` bytes apart: its first
/// `row_bytes` bytes.
pub open spec fn packed_row(s: Seq<u8>, r: int, stride: int, row_bytes: int) -> Seq<u8> {
    s.subrange(r * stride, r * stride + row_bytes)
}

/// Which error repacking reports for a mapped region of `len` bytes, if any.
pub open spec fn repack_error(
    len: int,
    width: int,
    height: int,
    row_pitch: int,
    bytes_per_pixel: int,
) -> Option<ExtractError> {
    let row_bytes = width * bytes_per_pixel;
    if row_bytes * height > usize::MAX {
        Some(ExtractError::TooLarge)
    } else if row_pitch < row_bytes {
        Some(ExtractError::RowPitchTooSmall)
    } else if height > 0 && (height - 1) * row_pitch + row_bytes > len {
        Some(ExtractError::MappedTooShort)
    } else {
        None
    }
}

/// `out` holds the rows of `mapped` with the padding after each row dropped:
/// exactly `width * height * bytes_per_pixel` bytes, row `r` of `out` being
/// the first `width * bytes_per_pixel` bytes of row `r` of `mapped`.
pub open spec fn is_repacked(
    out: Seq<u8>,
    mapped: Seq<u8>,
    width: int,
    height: int,
    row_pitch: int,
    bytes_per_pixel: int,
) -> bool {
    let row_bytes = width * bytes_per_pixel;
    &&& out.len() == row_bytes * height
    &&& forall|r: int|
        0 <= r < height ==> #[trigger] packed_row(out, r, row_bytes, row_bytes) == packed_row(
            mapped,
            r,
            row_pitch,
            row_bytes,
        )
}

pub(crate) proof fn lemma_mul_bounded(a: int, b: int, max_a: int, max_b: int)
    requires
        0 <= a <= max_a,
        0 <= b <= max_b,
    ensures
        0 <= a * b <= max_a * max_b,
{
    assert(0 <= a * b <= max_a * max_b) by (nonlinear_arith)
        requires
            0 <= a <= max_a,
            0 <= b <= max_b,
    ;
}

proof fn lemma_row_bounds(r: int, height: int, stride: int, row_bytes: int)
    requires
        0 <= r < height,
        0 <= row_bytes <= stride,
    ensures
        r * stride <= (height - 1) * stride,
        r * stride + row_bytes <= (height - 1) * stride + row_bytes,
        (r + 1) * stride == r * stride + stride,
        (height - 1) * stride + stride == height * stride,
        0 <= r * stride,
        stride * r == r * stride,
{
    assert((height - 1) * stride + stride == height * stride) by (nonlinear_arith);
    assert(stride * r == r * stride) by (nonlinear_arith);
    assert(r * stride <= (height - 1) * stride) by (nonlinear_arith)
        requires
            0 <= r <= height - 1,
            0 <= stride,
    ;
    assert((r + 1) * stride == r * stride + stride) by (nonlinear_arith);
    assert(0 <= r * stride) by (nonlinear_arith)
        requires
            0 <= r,
            0 <= stride,
    ;
}

/// Copies the rows of a mapped texture, whose rows start `row_pitch` bytes
/// apart, into a tightly packed buffer of `width * bytes_per_pixel` bytes per
/// row.
pub fn repack_rows(
    mapped: &[u8],
    width: u32,
    height: u32,
    row_pitch: u32,
    bytes_per_pixel: u32,
) -> (res: Result<Vec<u8>, ExtractError>)
    ensures
        match repack_error(
            mapped@.len() as int,
            width as int,
            height as int,
            row_pitch as int,
            bytes_per_pixel as int,
        ) {
            Some(e) => res == Err::<Vec<u8>, ExtractError>(e),
            None => res matches Ok(out) && is_repacked(
                out@,
                mapped@,
                width as int,
                height as int,
                row_pitch as int,
                bytes_per_pixel as int,
            ),
        },
{
    let len = mapped.len();
    proof {
        lemma_mul_bounded(width as int, bytes_per_pixel as int, u32::MAX as int, u32::MAX as int);
        lemma_mul_bounded(
            width as int * bytes_per_pixel as int,
            height as int,
            u64::MAX as int,
            u32::MAX as int,
        );
    }
    let row_bytes: u64 = width as u64 * bytes_per_pixel as u64;
    let total: u128 = row_bytes as u128 * height as u128;
    if total > usize::MAX as u128 {
        return Err(ExtractError::TooLarge);
    }
    if (row_pitch as u64) < row_bytes {
        return Err(ExtractError::RowPitchTooSmall);
    }
    if height > 0 {
        proof {
            lemma_mul_bounded(height as int - 1, row_pitch as int, u32::MAX as int, u32::MAX as int);
        }
        let last_start: u128 = (height - 1) as u128 * row_pitch as u128;
        if last_start + row_bytes as u128 > len as u128 {
            return Err(ExtractError::MappedTooShort);
        }
    }
    let row: usize = row_bytes as usize;
    let ghost pitch = row_pitch as int;
    let mut out: Vec<u8> = Vec::new();
    let mut r: u32 = 0;
    while r < height
        invariant
            r <= height,
            row == width * bytes_per_pixel,
            row <= row_pitch,
            pitch == row_pitch,
            len == mapped@.len(),
            height > 0 ==> (height - 1) * pitch + row <= mapped@.len(),
            out@.len() == row * r,
            forall|k: int|
                0 <= k < r ==> #[trigger] packed_row(out@, k, row as int, row as int) == packed_row(
                    mapped@,
                    k,
                    pitch,
                    row as int,
                ),
        decreases height - r,
    {
        proof {
            lemma_row_bounds(r as int, height as int, pitch, row as int);
            lemma_mul_bounded(r as int, pitch, u32::MAX as int, u32::MAX as int);
        }
        assert(r as int * pitch + row <= len);
        let src: usize = (r as u128 * row_pitch as u128) as usize;
        let ghost before = out@;
        let piece = &mapped[src..src + row];
        out.extend_from_slice(piece);
        proof {
            lemma_row_bounds(r as int, height as int + 1, row as int, row as int);
            assert(row * (r + 1) == row * r + row) by (nonlinear_arith);
            assert(packed_row(out@, r as int, row as int, row as int) =~= packed_row(
                mapped@,
                r as int,
                pitch,
                row as int,
            ));
            assert forall|k: int| 0 <= k < r implies #[trigger] packed_row(
                out@,
                k,
                row as int,
                row as int,
            ) == packed_row(mapped@, k, pitch, row as int) by {
                lemma_row_bounds(k, r as int, row as int, row as int);
                assert(packed_row(out@, k, row as int, row as int) =~= packed_row(
                    before,
                    k,
                    row as int,
                    row as int,
                ));
            }
        }
        r = r + 1;
    }
    Ok(out)
}

/// A tightly packed image: `width * height` pixels, row after row, with no
/// padding between rows.
#[derive(Debug)]
pub struct PixelBuffer {
    pub width: u32,
    pub height: u32,
    pub format: PixelFormat,
    pub bytes: Vec<u8>,
}

impl PixelBuffer {
    /// The buffer holds exactly `width * height * bytes_per_pixel` bytes.
    pub open spec fn wf(&self) -> bool {
        self.bytes@.len() == self.width * spec_bytes_per_pixel(self.format) * self.height
    }
}

/// The outcome of extracting the mapped contents of a texture described by
/// `desc`, whose rows start `row_pitch` bytes apart.
pub open spec fn extract_outcome(
    res: Result<PixelBuffer, ExtractError>,
    mapped: Seq<u8>,
    desc: TextureDescription,
    row_pitch: int,
) -> bool {
    if desc.format != spec_dxgi_code(PixelFormat::Bgra8) && desc.format != spec_dxgi_code(
        PixelFormat::Rgba16Float,
    ) {
        res == Err::<PixelBuffer, ExtractError>(ExtractError::UnsupportedPixelFormat(desc.format))
    } else {
        let format = if desc.format == spec_dxgi_code(PixelFormat::Bgra8) {
            PixelFormat::Bgra8
        } else {
            PixelFormat::Rgba16Float
        };
        let bpp = spec_bytes_per_pixel(format) as int;
        match repack_error(mapped.len() as int, desc.width as int, desc.height as int, row_pitch, bpp) {
            Some(e) => res == Err::<PixelBuffer, ExtractError>(e),
            None => res matches Ok(buf) && buf.width == desc.width && buf.height == desc.height
                && buf.format == format && buf.wf() && is_repacked(
                buf.bytes@,
                mapped,
                desc.width as int,
                desc.height as int,
                row_pitch,
                bpp,
            ),
        }
    }
}

/// Turns the mapped contents of a staging texture into a packed pixel
/// buffer; the texture's format decides how many bytes a pixel takes.
pub fn extract_pixel_buffer(mapped: &[u8], desc: &TextureDescription, row_pitch: u32) -> (res:
    Result<PixelBuffer, ExtractError>)
    ensures
        extract_outcome(res, mapped@, *desc, row_pitch as int),
{
    let format = match PixelFormat::from_dxgi_code(desc.format) {
        Some(f) => f,
        None => {
            return Err(ExtractError::UnsupportedPixelFormat(desc.format));
        },
    };
    let bytes = repack_rows(mapped, desc.width, desc.height, row_pitch, format.bytes_per_pixel());
    match bytes {
        Ok(bytes) => Ok(PixelBuffer { width: desc.width, height: desc.height, format, bytes }),
        Err(e) => Err(e),
    }
}

} // verus!
