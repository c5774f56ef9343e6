use screenshot::encode::{
    check_granted_pixel_format, encoder_settings, EncodeError, GUID_CONTAINER_FORMAT_PNG,
    GUID_CONTAINER_FORMAT_WMP, GUID_WIC_PIXEL_FORMAT_32BPP_BGRA,
    GUID_WIC_PIXEL_FORMAT_64BPP_RGBA_HALF,
};
use screenshot::extract::PixelBuffer;
use screenshot::format::{ContainerFormat, PixelFormat};

#[test]
fn bgra_buffer_is_written_as_png() {
    let buf = PixelBuffer { width: 3, height: 2, format: PixelFormat::Bgra8, bytes: vec![0; 24] };
    let s = encoder_settings(&buf).unwrap();
    assert_eq!(s.container, GUID_CONTAINER_FORMAT_PNG);
    assert_eq!(s.pixel_format, GUID_WIC_PIXEL_FORMAT_32BPP_BGRA);
    assert_eq!(s.width, 3);
    assert_eq!(s.height, 2);
    assert_eq!(s.stride, 12);
    assert_eq!(s.buffer_size, 24);
}

#[test]
fn float_buffer_is_written_as_jpeg_xr() {
    let buf =
        PixelBuffer { width: 5, height: 1, format: PixelFormat::Rgba16Float, bytes: vec![0; 40] };
    let s = encoder_settings(&buf).unwrap();
    assert_eq!(s.container, GUID_CONTAINER_FORMAT_WMP);
    assert_eq!(s.pixel_format, GUID_WIC_PIXEL_FORMAT_64BPP_RGBA_HALF);
    assert_eq!(s.stride, 40);
    assert_eq!(s.buffer_size, 40);
}

#[test]
fn full_hd_png_settings() {
    let buf = PixelBuffer {
        width: 1920,
        height: 1080,
        format: PixelFormat::Bgra8,
        bytes: vec![0xFF; 1920 * 1080 * 4],
    };
    let s = encoder_settings(&buf).unwrap();
    assert_eq!(s.width, 1920);
    assert_eq!(s.height, 1080);
    assert_eq!(s.stride, 7680);
    assert_eq!(s.container, ContainerFormat::Png.guid());
}

#[test]
fn guids_are_the_codec_identifiers() {
    assert_eq!(ContainerFormat::Png.guid(), 0x1b7cfaf4_713f_473c_bbcd_6137425faeaf);
    assert_eq!(ContainerFormat::JpegXr.guid(), 0x57a37caa_367a_4540_916b_f183c5093a4b);
    assert_eq!(PixelFormat::Bgra8.wic_pixel_format(), 0x6fddc324_4e03_4bfe_b185_3d77768dc90f);
    assert_eq!(
        PixelFormat::Rgba16Float.wic_pixel_format(),
        0x6fddc324_4e03_4bfe_b185_3d77768dc93a
    );
}

#[test]
fn wrong_length_is_rejected() {
    let buf = PixelBuffer { width: 3, height: 2, format: PixelFormat::Bgra8, bytes: vec![0; 23] };
    assert_eq!(encoder_settings(&buf), Err(EncodeError::LengthMismatch));
}

#[test]
fn overlong_rows_are_rejected() {
    let buf =
        PixelBuffer { width: 0x8000_0000, height: 1, format: PixelFormat::Bgra8, bytes: vec![] };
    assert_eq!(encoder_settings(&buf), Err(EncodeError::TooLarge));
    let buf = PixelBuffer { width: 0x1000, height: 0x10_0000, format: PixelFormat::Bgra8, bytes: vec![] };
    assert_eq!(encoder_settings(&buf), Err(EncodeError::TooLarge));
}

#[test]
fn granted_pixel_format_must_match() {
    assert_eq!(check_granted_pixel_format(7, 7), Ok(()));
    assert_eq!(
        check_granted_pixel_format(GUID_WIC_PIXEL_FORMAT_64BPP_RGBA_HALF, 9),
        Err(EncodeError::PixelFormatMismatch {
            requested: GUID_WIC_PIXEL_FORMAT_64BPP_RGBA_HALF,
            granted: 9
        })
    );
}
