use fits_writer::layout::{fits_layout, FitsLayout, HeaderRecord, HeaderValue, Hdu};
use fits_writer::save::{plan_save, timestamp_millis, SaveError};
use fits_writer::{
    DynamicImage, ExtendedMetadata, FitsCompression, ImageData, ImageMetaData, SampleType,
    Timestamp,
};

const NOW: Timestamp = Timestamp { secs: 1_431_648_000, nanos: 123_456_789 };

fn data<T: Clone>(width: u32, height: u32, channels: usize, fill: T) -> ImageData<T> {
    ImageData {
        width,
        height,
        pixels: vec![fill; width as usize * height as usize * channels],
        metadata: None,
    }
}

fn metadata() -> ImageMetaData {
    ImageMetaData {
        camera_name: "cam1".to_string(),
        timestamp: Timestamp { secs: 1_700_000_000, nanos: 250_000_000 },
        bin_x: 2,
        bin_y: 3,
        pixel_size_x: 4.5f64.to_bits(),
        pixel_size_y: 5.5f64.to_bits(),
        exposure_secs: 1,
        exposure_nanos: 500_000_000,
        temperature: (-10.0f64).to_bits(),
        origin_x: 7,
        origin_y: 8,
        offset: 9,
        gain: 10,
        gain_min: 0,
        gain_max: 100,
        extended_metadata: vec![
            ExtendedMetadata { name: "FILTER".to_string(), value: "Ha".to_string() },
            ExtendedMetadata { name: "OBSERVER".to_string(), value: "me".to_string() },
        ],
    }
}

fn keys(records: &[HeaderRecord]) -> Vec<String> {
    records.iter().map(|r| r.key.clone()).collect()
}

fn text_of(records: &[HeaderRecord], key: &str) -> Option<String> {
    records.iter().find(|r| r.key == key).and_then(|r| match &r.value {
        HeaderValue::Text(s) => Some(s.clone()),
        _ => None,
    })
}

fn integer_of(records: &[HeaderRecord], key: &str) -> Option<i64> {
    records.iter().find(|r| r.key == key).and_then(|r| match r.value {
        HeaderValue::Integer(i) => Some(i),
        _ => None,
    })
}

fn unsigned_of(records: &[HeaderRecord], key: &str) -> Option<u64> {
    records.iter().find(|r| r.key == key).and_then(|r| match r.value {
        HeaderValue::Unsigned(u) => Some(u),
        _ => None,
    })
}

#[test]
fn extension_of_each_mode() {
    assert_eq!(FitsCompression::Uncompressed.extension(), "fits");
    assert_eq!(FitsCompression::Gzip.extension(), "fits[compress G]");
    assert_eq!(FitsCompression::Rice.extension(), "fits[compress R]");
    assert_eq!(FitsCompression::Hcompress.extension(), "fits[compress H]");
    assert_eq!(FitsCompression::Hsmooth.extension(), "fits[compress HS]");
    assert_eq!(FitsCompression::Bzip2.extension(), "fits[compress B]");
    assert_eq!(FitsCompression::Plio.extension(), "fits[compress P]");
}

#[test]
fn name_of_each_mode() {
    assert_eq!(FitsCompression::Uncompressed.to_string(), "uncomp");
    assert_eq!(FitsCompression::Gzip.to_string(), "gzip");
    assert_eq!(FitsCompression::Rice.to_string(), "rice");
    assert_eq!(FitsCompression::Hcompress.to_string(), "hcompress");
    assert_eq!(FitsCompression::Hsmooth.to_string(), "hscompress");
    assert_eq!(FitsCompression::Bzip2.to_string(), "bzip2");
    assert_eq!(FitsCompression::Plio.to_string(), "plio");
}

#[test]
fn selector_is_stable_across_calls() {
    for mode in [FitsCompression::Uncompressed, FitsCompression::Rice, FitsCompression::Plio] {
        assert_eq!(mode.extension(), mode.extension());
        assert_eq!(mode.to_string(), mode.to_string());
    }
}

#[test]
fn absent_mode_means_uncompressed() {
    assert_eq!(FitsCompression::from(None), FitsCompression::Uncompressed);
    assert_eq!(FitsCompression::from(Some(FitsCompression::Bzip2)), FitsCompression::Bzip2);
}

#[test]
fn sample_type_of_each_depth() {
    assert_eq!(DynamicImage::ImageLumaA8(data(2, 3, 2, 0u8)).image_type(), SampleType::UnsignedByte);
    assert_eq!(DynamicImage::ImageRgba16(data(2, 3, 4, 0u16)).image_type(), SampleType::UnsignedShort);
    assert_eq!(DynamicImage::ImageRgb32F(data(2, 3, 3, 0u32)).image_type(), SampleType::Float);
}

#[test]
fn dimensions_put_height_first() {
    assert_eq!(DynamicImage::ImageLuma16(data(100, 50, 1, 0u16)).image_size(), vec![50, 100]);
    assert_eq!(DynamicImage::ImageLumaA16(data(100, 50, 2, 0u16)).image_size(), vec![50, 100, 2]);
    assert_eq!(DynamicImage::ImageRgb8(data(100, 50, 3, 0u8)).image_size(), vec![50, 100, 3]);
    assert_eq!(DynamicImage::ImageRgba32F(data(100, 50, 4, 0u32)).image_size(), vec![50, 100, 4]);
}

#[test]
fn shape_does_not_depend_on_pixel_values() {
    let dark = DynamicImage::ImageRgb16(data(8, 4, 3, 0u16));
    let bright = DynamicImage::ImageRgb16(data(8, 4, 3, 65535u16));
    assert_eq!(dark.image_type(), bright.image_type());
    assert_eq!(dark.image_size(), bright.image_size());
}

#[test]
fn millis_since_epoch() {
    assert_eq!(timestamp_millis(Timestamp { secs: 1_431_648_000, nanos: 123_456_789 }), Some(1_431_648_000_123));
    assert_eq!(timestamp_millis(Timestamp { secs: 0, nanos: 0 }), Some(0));
    assert_eq!(timestamp_millis(Timestamp { secs: -1, nanos: 999_000_000 }), None);
}

#[test]
fn mono_image_without_metadata_single_unit() {
    let image = DynamicImage::ImageLuma8(data(100, 50, 1, 0u8));
    let plan = plan_save(&image, "out", FitsCompression::Uncompressed, false, false, NOW).unwrap();
    assert_eq!(plan.base_path, "out.fits");
    assert_eq!(plan.final_path, "out.fits");
    let layout: FitsLayout = plan.layout;
    let desc = layout.primary_description.unwrap();
    assert_eq!(desc.data_type, SampleType::UnsignedByte);
    assert_eq!(desc.dimensions, vec![50, 100]);
    assert!(layout.primary_records.is_empty());
    assert!(layout.extension.is_none());
    assert_eq!(layout.data_hdu, Hdu::Primary);
    assert_eq!(keys(&layout.data_records), vec!["CAMERA", "DATE-OBS", "TIMESTAMP"]);
    assert_eq!(text_of(&layout.data_records, "CAMERA").unwrap(), "unknown");
    assert_eq!(text_of(&layout.data_records, "DATE-OBS").unwrap(), "2015-05-15T00:00:00.123456");
    assert_eq!(unsigned_of(&layout.data_records, "TIMESTAMP"), Some(1_431_648_000_123));
}

#[test]
fn rgb16_with_metadata_gzip_two_units() {
    let mut d = data(64, 64, 3, 1u16);
    d.metadata = Some(metadata());
    let image = DynamicImage::ImageRgb16(d);
    let plan = plan_save(&image, "out", FitsCompression::Gzip, true, false, NOW).unwrap();
    assert_eq!(plan.base_path, "out.fits");
    assert_eq!(plan.final_path, "out.fits[compress G]");
    assert!(plan.clear_base);
    assert!(plan.overwrite);
    let layout = plan.layout;
    assert!(layout.primary_description.is_none());
    assert_eq!(keys(&layout.primary_records), vec!["COMPRESSED_IMAGE", "COMPRESSION_ALGO"]);
    assert_eq!(text_of(&layout.primary_records, "COMPRESSED_IMAGE").unwrap(), "T");
    assert_eq!(text_of(&layout.primary_records, "COMPRESSION_ALGO").unwrap(), "gzip");
    let (name, desc) = layout.extension.unwrap();
    assert_eq!(name, "IMAGE");
    assert_eq!(desc.data_type, SampleType::UnsignedShort);
    assert_eq!(desc.dimensions, vec![64, 64, 3]);
    assert_eq!(layout.data_hdu, Hdu::Extension);
    let records = &layout.data_records;
    assert_eq!(text_of(records, "CAMERA").unwrap(), "cam1");
    assert_eq!(integer_of(records, "GAIN"), Some(10));
    assert_eq!(integer_of(records, "GAIN_MIN"), Some(0));
    assert_eq!(integer_of(records, "GAIN_MAX"), Some(100));
    assert_eq!(text_of(records, "DATE-OBS").unwrap(), "2023-11-14T22:13:20.250000");
    assert_eq!(unsigned_of(records, "TIMESTAMP"), Some(1_700_000_000_250));
}

#[test]
fn metadata_records_in_order() {
    let mut d = data(2, 2, 4, 0u8);
    d.metadata = Some(metadata());
    let image = DynamicImage::ImageRgba8(d);
    let layout = fits_layout(&image, FitsCompression::Rice, "2020-01-01T00:00:00.000000", 42);
    assert_eq!(
        keys(&layout.data_records),
        vec![
            "CAMERA", "DATE-OBS", "TIMESTAMP", "XBINNING", "YBINNING", "XPIXSZ", "YPIXSZ",
            "EXPTIME", "CCD-TEMP", "XORIGIN", "YORIGIN", "OFFSET", "GAIN", "GAIN_MIN", "GAIN_MAX",
            "FILTER", "OBSERVER",
        ]
    );
    let records = &layout.data_records;
    assert_eq!(unsigned_of(records, "XBINNING"), Some(2));
    assert_eq!(unsigned_of(records, "YORIGIN"), Some(8));
    assert_eq!(integer_of(records, "OFFSET"), Some(9));
    assert_eq!(text_of(records, "FILTER").unwrap(), "Ha");
    assert_eq!(text_of(records, "OBSERVER").unwrap(), "me");
    assert_eq!(text_of(records, "DATE-OBS").unwrap(), "2020-01-01T00:00:00.000000");
    assert_eq!(unsigned_of(records, "TIMESTAMP"), Some(42));
    assert_eq!(text_of(&layout.primary_records, "COMPRESSION_ALGO").unwrap(), "rice");
    match records.iter().find(|r| r.key == "EXPTIME").unwrap().value {
        HeaderValue::Seconds(s, n) => assert_eq!((s, n), (1, 500_000_000)),
        _ => panic!("EXPTIME is not a duration"),
    }
    match records.iter().find(|r| r.key == "CCD-TEMP").unwrap().value {
        HeaderValue::Real(bits) => assert_eq!(f64::from_bits(bits), -10.0),
        _ => panic!("CCD-TEMP is not a real"),
    }
}

#[test]
fn default_metadata_has_no_optional_records() {
    let image = DynamicImage::ImageRgb32F(data(3, 3, 3, 0u32));
    let layout = fits_layout(&image, FitsCompression::Hcompress, "x", 0);
    assert_eq!(keys(&layout.data_records), vec!["CAMERA", "DATE-OBS", "TIMESTAMP"]);
    assert_eq!(text_of(&layout.data_records, "CAMERA").unwrap(), "unknown");
    assert!(text_of(&layout.data_records, "GAIN").is_none());
}

#[test]
fn directory_destination_is_a_conflict() {
    let image = DynamicImage::ImageLuma8(data(1, 1, 1, 0u8));
    let r = plan_save(&image, "somewhere", FitsCompression::Gzip, true, true, NOW);
    assert_eq!(r.unwrap_err(), SaveError::PathConflict);
}

#[test]
fn metadata_before_epoch_is_refused() {
    let mut m = metadata();
    m.timestamp = Timestamp { secs: -5, nanos: 0 };
    let mut d = data(1, 1, 1, 0u8);
    d.metadata = Some(m);
    let r = plan_save(&DynamicImage::ImageLuma8(d), "out", FitsCompression::Uncompressed, false, false, NOW);
    assert_eq!(r.unwrap_err(), SaveError::TimestampBeforeEpoch);
}

#[test]
fn clock_before_epoch_counts_as_zero() {
    let image = DynamicImage::ImageLuma8(data(1, 1, 1, 0u8));
    let before = Timestamp { secs: -86_400, nanos: 0 };
    let plan = plan_save(&image, "out", FitsCompression::Uncompressed, false, false, before).unwrap();
    assert_eq!(unsigned_of(&plan.layout.data_records, "TIMESTAMP"), Some(0));
    assert_eq!(text_of(&plan.layout.data_records, "DATE-OBS").unwrap(), "1969-12-31T00:00:00.000000");
}

#[test]
fn unrepresentable_time_is_refused() {
    let image = DynamicImage::ImageLuma8(data(1, 1, 1, 0u8));
    let far = Timestamp { secs: i64::MAX, nanos: 0 };
    let r = plan_save(&image, "out", FitsCompression::Uncompressed, false, false, far);
    assert_eq!(r.unwrap_err(), SaveError::TimestampOutOfRange);
}

#[test]
fn existing_extension_is_replaced() {
    let image = DynamicImage::ImageLuma8(data(1, 1, 1, 0u8));
    let plan = plan_save(&image, "dir/frame.png", FitsCompression::Bzip2, true, false, NOW).unwrap();
    assert_eq!(plan.base_path, "dir/frame.fits");
    assert_eq!(plan.final_path, "dir/frame.fits[compress B]");
}

#[test]
fn overwrite_twice_plans_the_same_path() {
    let first = DynamicImage::ImageLuma8(data(2, 2, 1, 1u8));
    let second = DynamicImage::ImageLuma8(data(2, 2, 1, 2u8));
    let a = plan_save(&first, "out", FitsCompression::Plio, true, false, NOW).unwrap();
    let b = plan_save(&second, "out", FitsCompression::Plio, true, false, NOW).unwrap();
    assert_eq!(a.final_path, b.final_path);
    assert!(a.clear_base && b.clear_base && a.overwrite && b.overwrite);
}

#[test]
fn buffer_size_matches_axes() {
    let image = DynamicImage::ImageRgba16(data(5, 7, 4, 0u16));
    assert!(image.is_well_formed());
    assert_eq!(image.image_size().iter().product::<usize>(), 5 * 7 * 4);
    let mono = DynamicImage::ImageLuma8(data(100, 50, 1, 0u8));
    assert!(mono.is_well_formed());
    assert_eq!(mono.image_size().iter().product::<usize>(), 5000);
}

#[test]
fn short_buffer_is_not_well_formed() {
    let mut d = data(4, 4, 3, 0u8);
    d.pixels.pop();
    assert!(!DynamicImage::ImageRgb8(d).is_well_formed());
    let wrong_channels = DynamicImage::ImageRgba32F(data(4, 4, 3, 0u32));
    assert!(!wrong_channels.is_well_formed());
}
