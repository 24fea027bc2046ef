use vstd::prelude::*;

use crate::compression::FitsCompression;
use crate::image::{DynamicImage, ExtendedMetadata, ImageMetaData, SampleType};

verus! {

/// A header value, typed as the FITS writer stores it.
#[derive(Debug, Clone)]
pub enum HeaderValue {
    Text(String),
    Integer(i64),
    Unsigned(u64),
    /// A floating-point value, as its IEEE-754 `f64` bit pattern.
    Real(u64),
    /// A duration stored as floating-point seconds: whole seconds and nanoseconds.
    Seconds(u64, u32),
}

/// What a header value holds, over mathematical strings.
pub enum HeaderValueView {
    Text(Seq<char>),
    Integer(i64),
    Unsigned(u64),
    Real(u64),
    Seconds(u64, u32),
}

impl View for HeaderValue {
    type V = HeaderValueView;

    open spec fn view(&self) -> HeaderValueView {
        match self {
            HeaderValue::Text(s) => HeaderValueView::Text(s@),
            HeaderValue::Integer(i) => HeaderValueView::Integer(*i),
            HeaderValue::Unsigned(u) => HeaderValueView::Unsigned(*u),
            HeaderValue::Real(b) => HeaderValueView::Real(*b),
            HeaderValue::Seconds(s, n) => HeaderValueView::Seconds(*s, *n),
        }
    }
}

/// One header record: key and value.
#[derive(Debug, Clone)]
pub struct HeaderRecord {
    pub key: String,
    pub value: HeaderValue,
}

impl View for HeaderRecord {
    type V = (Seq<char>, HeaderValueView);

    open spec fn view(&self) -> (Seq<char>, HeaderValueView) {
        (self.key@, self.value@)
    }
}

/// Sample type and axis lengths of a data unit.
#[derive(Debug, Clone)]
pub struct ImageDescription {
    pub data_type: SampleType,
    pub dimensions: Vec<usize>,
}

/// What an image description holds, over sequences.
pub struct DescriptionView {
    pub data_type: SampleType,
    pub dimensions: Seq<usize>,
}

impl View for ImageDescription {
    type V = DescriptionView;

    open spec fn view(&self) -> DescriptionView {
        DescriptionView { data_type: self.data_type, dimensions: self.dimensions@ }
    }
}

/// The header-data unit that receives the pixels and the metadata records.
#[derive(Debug, Clone, Copy, PartialEq, Eq, Structural)]
pub enum Hdu {
    /// The primary unit.
    Primary,
    /// The named unit created after the primary one.
    Extension,
}

/// How a FITS file is laid out: what the primary unit is created with, the
/// records it gets, the optional second unit, and where pixels and metadata go.
#[derive(Debug, Clone)]
pub struct FitsLayout {
    /// Description the primary unit is created with; `None` leaves it empty.
    pub primary_description: Option<ImageDescription>,
    /// Records written into the primary unit before the second unit is made.
    pub primary_records: Vec<HeaderRecord>,
    /// Name and description of the second unit, when there is one.
    pub extension: Option<(String, ImageDescription)>,
    /// The unit that receives the pixel buffer and `data_records`.
    pub data_hdu: Hdu,
    /// Records written, in this order, after the pixels.
    pub data_records: Vec<HeaderRecord>,
}

/// What a layout holds, over sequences.
pub struct LayoutView {
    pub primary_description: Option<DescriptionView>,
    pub primary_records: Seq<(Seq<char>, HeaderValueView)>,
    pub extension: Option<(Seq<char>, DescriptionView)>,
    pub data_hdu: Hdu,
    pub data_records: Seq<(Seq<char>, HeaderValueView)>,
}

/// The key and value of each record, in order.
pub open spec fn records_view(v: Seq<HeaderRecord>) -> Seq<(Seq<char>, HeaderValueView)> {
    v.map_values(|r: HeaderRecord| r@)
}

impl View for FitsLayout {
    type V = LayoutView;

    open spec fn view(&self) -> LayoutView {
        LayoutView {
            primary_description: match self.primary_description {
                Some(d) => Some(d@),
                None => None,
            },
            primary_records: records_view(self.primary_records@),
            extension: match self.extension {
                Some(e) => Some((e.0@, e.1@)),
                None => None,
            },
            data_hdu: self.data_hdu,
            data_records: records_view(self.data_records@),
        }
    }
}

/// The sample type and axes that `image` is stored with.
pub open spec fn description_of(image: DynamicImage) -> DescriptionView {
    DescriptionView { data_type: image.spec_image_type(), dimensions: image.spec_image_size() }
}

/// Name of the second unit of a compressed file.
pub open spec fn extension_name() -> Seq<char> {
    "IMAGE"@
}

/// The two records that mark a file whose pixels sit, compressed, in the second unit.
pub open spec fn marker_records(compress: FitsCompression) -> Seq<(Seq<char>, HeaderValueView)> {
    seq![
        ("COMPRESSED_IMAGE"@, HeaderValueView::Text("T"@)),
        ("COMPRESSION_ALGO"@, HeaderValueView::Text(compress.name_spec())),
    ]
}

/// The records written whether or not metadata is attached.
pub open spec fn base_records(camera: Seq<char>, date_obs: Seq<char>, timestamp_ms: u64) -> Seq<
    (Seq<char>, HeaderValueView),
> {
    seq![
        ("CAMERA"@, HeaderValueView::Text(camera)),
        ("DATE-OBS"@, HeaderValueView::Text(date_obs)),
        ("TIMESTAMP"@, HeaderValueView::Unsigned(timestamp_ms)),
    ]
}

/// One text record per caller-defined entry, in the caller's order.
pub open spec fn extended_records(ext: Seq<ExtendedMetadata>) -> Seq<(Seq<char>, HeaderValueView)> {
    ext.map_values(|e: ExtendedMetadata| (e.name@, HeaderValueView::Text(e.value@)))
}

/// The records that only attached metadata supplies, caller-defined ones last.
pub open spec fn metadata_records(m: ImageMetaData) -> Seq<(Seq<char>, HeaderValueView)> {
    seq![
        ("XBINNING"@, HeaderValueView::Unsigned(m.bin_x as u64)),
        ("YBINNING"@, HeaderValueView::Unsigned(m.bin_y as u64)),
        ("XPIXSZ"@, HeaderValueView::Real(m.pixel_size_x)),
        ("YPIXSZ"@, HeaderValueView::Real(m.pixel_size_y)),
        ("EXPTIME"@, HeaderValueView::Seconds(m.exposure_secs, m.exposure_nanos)),
        ("CCD-TEMP"@, HeaderValueView::Real(m.temperature)),
        ("XORIGIN"@, HeaderValueView::Unsigned(m.origin_x as u64)),
        ("YORIGIN"@, HeaderValueView::Unsigned(m.origin_y as u64)),
        ("OFFSET"@, HeaderValueView::Integer(m.offset)),
        ("GAIN"@, HeaderValueView::Integer(m.gain)),
        ("GAIN_MIN"@, HeaderValueView::Integer(m.gain_min)),
        ("GAIN_MAX"@, HeaderValueView::Integer(m.gain_max)),
    ] + extended_records(m.extended_metadata@)
}

/// All records of the unit that holds the pixels.
pub open spec fn data_records_spec(
    meta: Option<ImageMetaData>,
    date_obs: Seq<char>,
    timestamp_ms: u64,
) -> Seq<(Seq<char>, HeaderValueView)> {
    match meta {
        Some(m) => base_records(m.camera_name@, date_obs, timestamp_ms) + metadata_records(m),
        None => base_records("unknown"@, date_obs, timestamp_ms),
    }
}

/// The layout of a file holding `image`: without compression one primary unit
/// carries everything; with compression the primary unit carries only the two
/// marker records and a second unit named `IMAGE` carries pixels and metadata.
pub open spec fn layout_spec(
    image: DynamicImage,
    compress: FitsCompression,
    date_obs: Seq<char>,
    timestamp_ms: u64,
) -> LayoutView {
    let records = data_records_spec(image.spec_metadata(), date_obs, timestamp_ms);
    if compress == FitsCompression::Uncompressed {
        LayoutView {
            primary_description: Some(description_of(image)),
            primary_records: seq![],
            extension: None,
            data_hdu: Hdu::Primary,
            data_records: records,
        }
    } else {
        LayoutView {
            primary_description: None,
            primary_records: marker_records(compress),
            extension: Some((extension_name(), description_of(image))),
            data_hdu: Hdu::Extension,
            data_records: records,
        }
    }
}

fn record(key: &str, value: HeaderValue) -> (r: HeaderRecord)
    ensures
        r@ == (key@, value@),
{
    HeaderRecord { key: key.to_string(), value }
}

fn text(s: &str) -> (r: HeaderValue)
    ensures
        r@ == HeaderValueView::Text(s@),
{
    HeaderValue::Text(s.to_string())
}

/// Appends the records that attached metadata supplies.
fn push_metadata_records(records: &mut Vec<HeaderRecord>, m: &ImageMetaData)
    ensures
        records_view(final(records)@) == records_view(old(records)@) + metadata_records(*m),
{
    let ghost start = records_view(records@);
    records.push(record("XBINNING", HeaderValue::Unsigned(m.bin_x as u64)));
    records.push(record("YBINNING", HeaderValue::Unsigned(m.bin_y as u64)));
    records.push(record("XPIXSZ", HeaderValue::Real(m.pixel_size_x)));
    records.push(record("YPIXSZ", HeaderValue::Real(m.pixel_size_y)));
    records.push(record("EXPTIME", HeaderValue::Seconds(m.exposure_secs, m.exposure_nanos)));
    records.push(record("CCD-TEMP", HeaderValue::Real(m.temperature)));
    records.push(record("XORIGIN", HeaderValue::Unsigned(m.origin_x as u64)));
    records.push(record("YORIGIN", HeaderValue::Unsigned(m.origin_y as u64)));
    records.push(record("OFFSET", HeaderValue::Integer(m.offset)));
    records.push(record("GAIN", HeaderValue::Integer(m.gain)));
    records.push(record("GAIN_MIN", HeaderValue::Integer(m.gain_min)));
    records.push(record("GAIN_MAX", HeaderValue::Integer(m.gain_max)));
    let ghost fixed = records_view(records@);
    assert(fixed =~= start + metadata_records(*m).take(12));
    let ext = &m.extended_metadata;
    let mut i: usize = 0;
    while i < ext.len()
        invariant
            i <= ext@.len(),
            records_view(records@) =~= fixed + extended_records(ext@.take(i as int)),
        decreases ext@.len() - i,
    {
        let e = &ext[i];
        let ghost before = records@;
        let rec = HeaderRecord { key: e.name.clone(), value: HeaderValue::Text(e.value.clone()) };
        assert(rec@ == (e.name@, HeaderValueView::Text(e.value@)));
        records.push(rec);
        assert(records@ =~= before.push(rec));
        assert(records_view(records@) =~= records_view(before).push(rec@));
        assert(ext@.take(i + 1) =~= ext@.take(i as int).push(ext@[i as int]));
        assert(extended_records(ext@.take(i + 1)) =~= extended_records(ext@.take(i as int)).push(
            rec@,
        ));
        i = i + 1;
    }
    assert(ext@.take(i as int) =~= ext@);
    assert(metadata_records(*m) =~= metadata_records(*m).take(12) + extended_records(ext@));
}

/// Decides the layout of the file that holds `image`. `date_obs` is the
/// `DATE-OBS` text and `timestamp_ms` the `TIMESTAMP` value.
pub fn fits_layout(
    image: &DynamicImage,
    compress: FitsCompression,
    date_obs: &str,
    timestamp_ms: u64,
) -> (r: FitsLayout)
    ensures
        r@ == layout_spec(*image, compress, date_obs@, timestamp_ms),
{
    let mut records: Vec<HeaderRecord> = Vec::new();
    let meta = image.metadata();
    match meta {
        Some(m) => records.push(record("CAMERA", HeaderValue::Text(m.camera_name.clone()))),
        None => records.push(record("CAMERA", text("unknown"))),
    }
    records.push(record("DATE-OBS", text(date_obs)));
    records.push(record("TIMESTAMP", HeaderValue::Unsigned(timestamp_ms)));
    if let Some(m) = meta {
        push_metadata_records(&mut records, m);
    }
    assert(records_view(records@) =~= data_records_spec(
        image.spec_metadata(),
        date_obs@,
        timestamp_ms,
    ));
    let desc = ImageDescription { data_type: image.image_type(), dimensions: image.image_size() };
    if compress == FitsCompression::Uncompressed {
        let r = FitsLayout {
            primary_description: Some(desc),
            primary_records: Vec::new(),
            extension: None,
            data_hdu: Hdu::Primary,
            data_records: records,
        };
        assert(r@.primary_records =~= seq![]);
        r
    } else {
        let mut markers: Vec<HeaderRecord> = Vec::new();
        markers.push(record("COMPRESSED_IMAGE", text("T")));
        markers.push(record("COMPRESSION_ALGO", HeaderValue::Text(compress.to_string())));
        let r = FitsLayout {
            primary_description: None,
            primary_records: markers,
            extension: Some(("IMAGE".to_string(), desc)),
            data_hdu: Hdu::Extension,
            data_records: records,
        };
        assert(r@.primary_records =~= marker_records(compress));
        r
    }
}

} // verus!
