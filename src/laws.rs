use vstd::prelude::*;

use crate::compression::FitsCompression;
use crate::image::DynamicImage;
use crate::layout::{
    base_records, data_records_spec, description_of, extension_name, layout_spec, marker_records,
    Hdu, HeaderValueView,
};

verus! {

/// The extension and the algorithm name depend on the compression mode
/// alone: asking twice for the same mode gives the same strings.
pub proof fn selector_is_pure(a: FitsCompression, b: FitsCompression)
    requires
        a == b,
    ensures
        a.extension_spec() == b.extension_spec(),
        a.name_spec() == b.name_spec(),
{
}

/// Different compression modes have different extensions and different names.
pub proof fn selector_is_injective(a: FitsCompression, b: FitsCompression)
    requires
        a != b,
    ensures
        a.extension_spec() != b.extension_spec(),
        a.name_spec() != b.name_spec(),
{
    reveal_strlit("fits");
    reveal_strlit("fits[compress G]");
    reveal_strlit("fits[compress R]");
    reveal_strlit("fits[compress H]");
    reveal_strlit("fits[compress HS]");
    reveal_strlit("fits[compress B]");
    reveal_strlit("fits[compress P]");
    reveal_strlit("uncomp");
    reveal_strlit("gzip");
    reveal_strlit("rice");
    reveal_strlit("hcompress");
    reveal_strlit("hscompress");
    reveal_strlit("bzip2");
    reveal_strlit("plio");
    let (ea, eb) = (a.extension_spec(), b.extension_spec());
    let (na, nb) = (a.name_spec(), b.name_spec());
    assert(ea.len() != eb.len() || ea[14] != eb[14]);
    assert(na.len() != nb.len() || na[0] != nb[0]);
}

/// The sample type and the axis lengths depend on the pixel format, width
/// and height alone: pixel values and metadata do not change them.
pub proof fn shape_ignores_pixels(a: DynamicImage, b: DynamicImage)
    requires
        a.format_code() == b.format_code(),
        a.spec_width() == b.spec_width(),
        a.spec_height() == b.spec_height(),
    ensures
        a.spec_image_type() == b.spec_image_type(),
        a.spec_image_size() == b.spec_image_size(),
{
}

/// One-channel images have the two axes `[height, width]`; the others
/// have three, `[height, width, channels]`.
pub proof fn dimension_vector_law(image: DynamicImage)
    ensures
        image.spec_channels() == 1 ==> image.spec_image_size() == seq![
            image.spec_height() as usize,
            image.spec_width() as usize,
        ],
        image.spec_channels() != 1 ==> image.spec_image_size() == seq![
            image.spec_height() as usize,
            image.spec_width() as usize,
            image.spec_channels(),
        ],
        image.spec_image_size().len() == (if image.spec_channels() == 1 {
            2int
        } else {
            3int
        }),
{
}

/// With compression, the primary unit gets no data description and exactly
/// the two marker records; the unit named `IMAGE` gets the pixels and every
/// metadata record.
pub proof fn compressed_layout_law(
    image: DynamicImage,
    compress: FitsCompression,
    date_obs: Seq<char>,
    timestamp_ms: u64,
)
    requires
        compress != FitsCompression::Uncompressed,
    ensures
        ({
            let l = layout_spec(image, compress, date_obs, timestamp_ms);
            &&& l.primary_description is None
            &&& l.primary_records == seq![
                ("COMPRESSED_IMAGE"@, HeaderValueView::Text("T"@)),
                ("COMPRESSION_ALGO"@, HeaderValueView::Text(compress.name_spec())),
            ]
            &&& l.extension == Some((extension_name(), description_of(image)))
            &&& l.data_hdu == Hdu::Extension
            &&& l.data_records == data_records_spec(image.spec_metadata(), date_obs, timestamp_ms)
        }),
{
}

/// Without compression, the primary unit holds the pixels and every
/// metadata record, there is no second unit, and no marker record is
/// written, provided no caller-defined record uses a marker key.
pub proof fn uncompressed_layout_law(image: DynamicImage, date_obs: Seq<char>, timestamp_ms: u64)
    requires
        image.spec_metadata() matches Some(m) ==> forall|i: int|
            0 <= i < m.extended_metadata@.len() ==> m.extended_metadata@[i].name@
                != "COMPRESSED_IMAGE"@ && m.extended_metadata@[i].name@ != "COMPRESSION_ALGO"@,
    ensures
        ({
            let l = layout_spec(image, FitsCompression::Uncompressed, date_obs, timestamp_ms);
            &&& l.primary_description == Some(description_of(image))
            &&& l.primary_records.len() == 0
            &&& l.extension is None
            &&& l.data_hdu == Hdu::Primary
            &&& l.data_records == data_records_spec(image.spec_metadata(), date_obs, timestamp_ms)
            &&& forall|i: int|
                0 <= i < l.data_records.len() ==> l.data_records[i].0 != "COMPRESSED_IMAGE"@
                    && l.data_records[i].0 != "COMPRESSION_ALGO"@
        }),
{
    let records = data_records_spec(image.spec_metadata(), date_obs, timestamp_ms);
    lemma_fixed_key_lengths();
    assert("COMPRESSED_IMAGE"@.len() == 16) by {
        reveal_strlit("COMPRESSED_IMAGE");
    }
    assert("COMPRESSION_ALGO"@.len() == 16) by {
        reveal_strlit("COMPRESSION_ALGO");
    }
    assert forall|i: int| 0 <= i < records.len() implies records[i].0 != "COMPRESSED_IMAGE"@
        && records[i].0 != "COMPRESSION_ALGO"@ by {
        if i < 3 {
            assert(records[i].0.len() < 16);
        } else {
            let m = image.spec_metadata()->0;
            if i < 15 {
                assert(records[i].0.len() < 16);
            } else {
                assert(records[i].0 == m.extended_metadata@[i - 15].name@);
            }
        }
    }
}

/// Every fixed key is shorter than the marker keys; its length and first
/// letter tell it apart from the other fixed keys.
proof fn lemma_fixed_key_lengths()
    ensures
        "CAMERA"@.len() == 6 && "CAMERA"@[0] == 'C',
        "DATE-OBS"@.len() == 8 && "DATE-OBS"@[0] == 'D',
        "TIMESTAMP"@.len() == 9 && "TIMESTAMP"@[0] == 'T',
        "XBINNING"@.len() == 8 && "XBINNING"@[0] == 'X',
        "YBINNING"@.len() == 8 && "YBINNING"@[0] == 'Y',
        "XPIXSZ"@.len() == 6 && "XPIXSZ"@[0] == 'X',
        "YPIXSZ"@.len() == 6 && "YPIXSZ"@[0] == 'Y',
        "EXPTIME"@.len() == 7 && "EXPTIME"@[0] == 'E',
        "CCD-TEMP"@.len() == 8 && "CCD-TEMP"@[0] == 'C',
        "XORIGIN"@.len() == 7 && "XORIGIN"@[0] == 'X',
        "YORIGIN"@.len() == 7 && "YORIGIN"@[0] == 'Y',
        "OFFSET"@.len() == 6 && "OFFSET"@[0] == 'O',
        "GAIN"@.len() == 4 && "GAIN"@[0] == 'G',
        "GAIN_MIN"@.len() == 8 && "GAIN_MIN"@[0] == 'G',
        "GAIN_MAX"@.len() == 8 && "GAIN_MAX"@[0] == 'G',
{
    reveal_strlit("CAMERA");
    reveal_strlit("DATE-OBS");
    reveal_strlit("TIMESTAMP");
    reveal_strlit("XBINNING");
    reveal_strlit("YBINNING");
    reveal_strlit("XPIXSZ");
    reveal_strlit("YPIXSZ");
    reveal_strlit("EXPTIME");
    reveal_strlit("CCD-TEMP");
    reveal_strlit("XORIGIN");
    reveal_strlit("YORIGIN");
    reveal_strlit("OFFSET");
    reveal_strlit("GAIN");
    reveal_strlit("GAIN_MIN");
    reveal_strlit("GAIN_MAX");
}

/// The keys that only attached metadata supplies.
pub open spec fn optional_keys() -> Seq<Seq<char>> {
    seq![
        "XBINNING"@, "YBINNING"@, "XPIXSZ"@, "YPIXSZ"@, "EXPTIME"@, "CCD-TEMP"@, "XORIGIN"@,
        "YORIGIN"@, "OFFSET"@, "GAIN"@, "GAIN_MIN"@, "GAIN_MAX"@,
    ]
}

/// Without metadata the data unit gets `CAMERA = "unknown"`, `DATE-OBS`
/// and `TIMESTAMP`, and none of the optional records.
pub proof fn default_metadata_law(image: DynamicImage, date_obs: Seq<char>, timestamp_ms: u64)
    requires
        image.spec_metadata() is None,
    ensures
        ({
            let records = data_records_spec(image.spec_metadata(), date_obs, timestamp_ms);
            &&& records == base_records("unknown"@, date_obs, timestamp_ms)
            &&& records[0] == ("CAMERA"@, HeaderValueView::Text("unknown"@))
            &&& forall|i: int, k: int|
                0 <= i < records.len() && 0 <= k < optional_keys().len() ==> records[i].0
                    != optional_keys()[k]
        }),
{
    let records = data_records_spec(image.spec_metadata(), date_obs, timestamp_ms);
    let keys = optional_keys();
    lemma_fixed_key_lengths();
    assert forall|i: int, k: int| 0 <= i < records.len() && 0 <= k < keys.len() implies records[i].0
        != keys[k] by {
        let a = records[i].0;
        let b = keys[k];
        assert(a.len() != b.len() || a[0] != b[0]);
    }
}

} // verus!
