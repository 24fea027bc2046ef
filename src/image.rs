use vstd::prelude::*;

verus! {

/// A point in time: whole seconds since 1970-01-01T00:00:00 UTC (negative
/// before it) and the nanoseconds past that second.
#[derive(Debug, Clone, Copy, PartialEq, Eq, Structural)]
pub struct Timestamp {
    pub secs: i64,
    pub nanos: u32,
}

/// A caller-defined header record: key name and text value.
#[derive(Debug, Clone)]
pub struct ExtendedMetadata {
    pub name: String,
    pub value: String,
}

/// Acquisition metadata attached to an image.
///
/// Floating-point quantities are carried as their IEEE-754 `f64` bit patterns;
/// the library only moves them into header records.
#[derive(Debug, Clone)]
pub struct ImageMetaData {
    pub camera_name: String,
    pub timestamp: Timestamp,
    pub bin_x: u32,
    pub bin_y: u32,
    pub pixel_size_x: u64,
    pub pixel_size_y: u64,
    /// Exposure duration: whole seconds and the nanoseconds past them.
    pub exposure_secs: u64,
    pub exposure_nanos: u32,
    pub temperature: u64,
    pub origin_x: u32,
    pub origin_y: u32,
    pub offset: i64,
    pub gain: i64,
    pub gain_min: i64,
    pub gain_max: i64,
    pub extended_metadata: Vec<ExtendedMetadata>,
}

/// A dense pixel buffer, `width * height * channels` samples laid out row by
/// row with the channels of a pixel next to each other.
#[derive(Debug, Clone)]
pub struct ImageData<T> {
    pub width: u32,
    pub height: u32,
    pub pixels: Vec<T>,
    pub metadata: Option<ImageMetaData>,
}

/// An image in one of the supported pixel formats. Samples of the 32-bit
/// float formats are carried as their IEEE-754 bit patterns.
#[derive(Debug, Clone)]
pub enum DynamicImage {
    ImageLuma8(ImageData<u8>),
    ImageLumaA8(ImageData<u8>),
    ImageRgb8(ImageData<u8>),
    ImageRgba8(ImageData<u8>),
    ImageLuma16(ImageData<u16>),
    ImageLumaA16(ImageData<u16>),
    ImageRgb16(ImageData<u16>),
    ImageRgba16(ImageData<u16>),
    ImageRgb32F(ImageData<u32>),
    ImageRgba32F(ImageData<u32>),
}

/// The product of a list of axis lengths.
pub open spec fn axes_product(axes: Seq<usize>) -> int
    decreases axes.len(),
{
    if axes.len() == 0 {
        1
    } else {
        axes_product(axes.drop_last()) * axes.last()
    }
}

/// The numeric type of the samples as stored on disk.
#[derive(Debug, Clone, Copy, PartialEq, Eq, Structural)]
pub enum SampleType {
    UnsignedByte,
    UnsignedShort,
    Float,
}

impl DynamicImage {
    pub open spec fn spec_width(&self) -> u32 {
        match self {
            DynamicImage::ImageLuma8(p) => p.width,
            DynamicImage::ImageLumaA8(p) => p.width,
            DynamicImage::ImageRgb8(p) => p.width,
            DynamicImage::ImageRgba8(p) => p.width,
            DynamicImage::ImageLuma16(p) => p.width,
            DynamicImage::ImageLumaA16(p) => p.width,
            DynamicImage::ImageRgb16(p) => p.width,
            DynamicImage::ImageRgba16(p) => p.width,
            DynamicImage::ImageRgb32F(p) => p.width,
            DynamicImage::ImageRgba32F(p) => p.width,
        }
    }

    pub open spec fn spec_height(&self) -> u32 {
        match self {
            DynamicImage::ImageLuma8(p) => p.height,
            DynamicImage::ImageLumaA8(p) => p.height,
            DynamicImage::ImageRgb8(p) => p.height,
            DynamicImage::ImageRgba8(p) => p.height,
            DynamicImage::ImageLuma16(p) => p.height,
            DynamicImage::ImageLumaA16(p) => p.height,
            DynamicImage::ImageRgb16(p) => p.height,
            DynamicImage::ImageRgba16(p) => p.height,
            DynamicImage::ImageRgb32F(p) => p.height,
            DynamicImage::ImageRgba32F(p) => p.height,
        }
    }

    pub open spec fn spec_metadata(&self) -> Option<ImageMetaData> {
        match self {
            DynamicImage::ImageLuma8(p) => p.metadata,
            DynamicImage::ImageLumaA8(p) => p.metadata,
            DynamicImage::ImageRgb8(p) => p.metadata,
            DynamicImage::ImageRgba8(p) => p.metadata,
            DynamicImage::ImageLuma16(p) => p.metadata,
            DynamicImage::ImageLumaA16(p) => p.metadata,
            DynamicImage::ImageRgb16(p) => p.metadata,
            DynamicImage::ImageRgba16(p) => p.metadata,
            DynamicImage::ImageRgb32F(p) => p.metadata,
            DynamicImage::ImageRgba32F(p) => p.metadata,
        }
    }

    /// Which of the pixel formats the image has, numbered in declaration order.
    pub open spec fn format_code(&self) -> int {
        match self {
            DynamicImage::ImageLuma8(_) => 0,
            DynamicImage::ImageLumaA8(_) => 1,
            DynamicImage::ImageRgb8(_) => 2,
            DynamicImage::ImageRgba8(_) => 3,
            DynamicImage::ImageLuma16(_) => 4,
            DynamicImage::ImageLumaA16(_) => 5,
            DynamicImage::ImageRgb16(_) => 6,
            DynamicImage::ImageRgba16(_) => 7,
            DynamicImage::ImageRgb32F(_) => 8,
            DynamicImage::ImageRgba32F(_) => 9,
        }
    }

    /// Number of samples in the pixel buffer.
    pub open spec fn spec_sample_count(&self) -> nat {
        match self {
            DynamicImage::ImageLuma8(p) => p.pixels@.len(),
            DynamicImage::ImageLumaA8(p) => p.pixels@.len(),
            DynamicImage::ImageRgb8(p) => p.pixels@.len(),
            DynamicImage::ImageRgba8(p) => p.pixels@.len(),
            DynamicImage::ImageLuma16(p) => p.pixels@.len(),
            DynamicImage::ImageLumaA16(p) => p.pixels@.len(),
            DynamicImage::ImageRgb16(p) => p.pixels@.len(),
            DynamicImage::ImageRgba16(p) => p.pixels@.len(),
            DynamicImage::ImageRgb32F(p) => p.pixels@.len(),
            DynamicImage::ImageRgba32F(p) => p.pixels@.len(),
        }
    }

    /// The buffer holds exactly `width * height * channels` samples.
    pub open spec fn wf(&self) -> bool {
        self.spec_sample_count() == self.spec_width() * self.spec_height() * self.spec_channels()
    }

    /// Whether the buffer holds exactly `width * height * channels` samples.
    pub fn is_well_formed(&self) -> (r: bool)
        ensures
            r == self.wf(),
    {
        let count: usize = match self {
            DynamicImage::ImageLuma8(p) => p.pixels.len(),
            DynamicImage::ImageLumaA8(p) => p.pixels.len(),
            DynamicImage::ImageRgb8(p) => p.pixels.len(),
            DynamicImage::ImageRgba8(p) => p.pixels.len(),
            DynamicImage::ImageLuma16(p) => p.pixels.len(),
            DynamicImage::ImageLumaA16(p) => p.pixels.len(),
            DynamicImage::ImageRgb16(p) => p.pixels.len(),
            DynamicImage::ImageRgba16(p) => p.pixels.len(),
            DynamicImage::ImageRgb32F(p) => p.pixels.len(),
            DynamicImage::ImageRgba32F(p) => p.pixels.len(),
        };
        let channels: u64 = match self {
            DynamicImage::ImageLuma8(_) | DynamicImage::ImageLuma16(_) => 1,
            DynamicImage::ImageLumaA8(_) | DynamicImage::ImageLumaA16(_) => 2,
            DynamicImage::ImageRgb8(_) | DynamicImage::ImageRgb16(_) | DynamicImage::ImageRgb32F(
                _,
            ) => 3,
            DynamicImage::ImageRgba8(_) | DynamicImage::ImageRgba16(_) | DynamicImage::ImageRgba32F(
                _,
            ) => 4,
        };
        let w = self.width() as u64;
        let h = self.height() as u64;
        assert(w * h <= 0xffff_ffff_ffff_ffff) by (nonlinear_arith)
            requires
                w <= 0xffff_ffff,
                h <= 0xffff_ffff,
        ;
        let wh: u128 = (w * h) as u128;
        assert(wh * (channels as u128) <= 4 * 0xffff_ffff_ffff_ffff) by (nonlinear_arith)
            requires
                wh <= 0xffff_ffff_ffff_ffff,
                channels <= 4,
        ;
        let expected: u128 = wh * (channels as u128);
        assert(expected == self.spec_width() * self.spec_height() * self.spec_channels());
        count as u128 == expected
    }

    /// The product of the on-disk axis lengths is the number of samples that
    /// a well-formed buffer holds.
    pub proof fn lemma_axes_cover_buffer(&self)
        requires
            self.wf(),
        ensures
            axes_product(self.spec_image_size()) == self.spec_sample_count(),
    {
        let d = self.spec_image_size();
        let h = self.spec_height() as int;
        let w = self.spec_width() as int;
        let c = self.spec_channels() as int;
        reveal_with_fuel(axes_product, 4);
        if self.spec_channels() == 1 {
            assert(d.drop_last() =~= seq![h as usize]);
            assert(d.drop_last().drop_last() =~= Seq::<usize>::empty());
            assert(axes_product(d) == h * w);
            assert(w * h * 1 == h * w) by (nonlinear_arith);
        } else {
            assert(d.drop_last() =~= seq![h as usize, w as usize]);
            assert(d.drop_last().drop_last() =~= seq![h as usize]);
            assert(d.drop_last().drop_last().drop_last() =~= Seq::<usize>::empty());
            assert(axes_product(d) == h * w * c);
            assert(w * h * c == h * w * c) by (nonlinear_arith);
        }
    }

    /// Samples per pixel: 1 for mono, 2 for mono with alpha, 3 for RGB, 4 for RGBA.
    pub open spec fn spec_channels(&self) -> usize {
        match self {
            DynamicImage::ImageLuma8(_) | DynamicImage::ImageLuma16(_) => 1,
            DynamicImage::ImageLumaA8(_) | DynamicImage::ImageLumaA16(_) => 2,
            DynamicImage::ImageRgb8(_) | DynamicImage::ImageRgb16(_) | DynamicImage::ImageRgb32F(
                _,
            ) => 3,
            DynamicImage::ImageRgba8(_) | DynamicImage::ImageRgba16(_) | DynamicImage::ImageRgba32F(
                _,
            ) => 4,
        }
    }

    pub open spec fn spec_image_type(&self) -> SampleType {
        match self {
            DynamicImage::ImageLuma8(_) | DynamicImage::ImageLumaA8(_) | DynamicImage::ImageRgb8(_)
            | DynamicImage::ImageRgba8(_) => SampleType::UnsignedByte,
            DynamicImage::ImageLuma16(_) | DynamicImage::ImageLumaA16(_)
            | DynamicImage::ImageRgb16(_) | DynamicImage::ImageRgba16(_) => SampleType::UnsignedShort,
            DynamicImage::ImageRgb32F(_) | DynamicImage::ImageRgba32F(_) => SampleType::Float,
        }
    }

    /// Axis lengths as written to disk: `[height, width]` for one channel,
    /// `[height, width, channels]` otherwise.
    pub open spec fn spec_image_size(&self) -> Seq<usize> {
        if self.spec_channels() == 1 {
            seq![self.spec_height() as usize, self.spec_width() as usize]
        } else {
            seq![self.spec_height() as usize, self.spec_width() as usize, self.spec_channels()]
        }
    }

    pub fn width(&self) -> (r: u32)
        ensures
            r == self.spec_width(),
    {
        match self {
            DynamicImage::ImageLuma8(p) => p.width,
            DynamicImage::ImageLumaA8(p) => p.width,
            DynamicImage::ImageRgb8(p) => p.width,
            DynamicImage::ImageRgba8(p) => p.width,
            DynamicImage::ImageLuma16(p) => p.width,
            DynamicImage::ImageLumaA16(p) => p.width,
            DynamicImage::ImageRgb16(p) => p.width,
            DynamicImage::ImageRgba16(p) => p.width,
            DynamicImage::ImageRgb32F(p) => p.width,
            DynamicImage::ImageRgba32F(p) => p.width,
        }
    }

    pub fn height(&self) -> (r: u32)
        ensures
            r == self.spec_height(),
    {
        match self {
            DynamicImage::ImageLuma8(p) => p.height,
            DynamicImage::ImageLumaA8(p) => p.height,
            DynamicImage::ImageRgb8(p) => p.height,
            DynamicImage::ImageRgba8(p) => p.height,
            DynamicImage::ImageLuma16(p) => p.height,
            DynamicImage::ImageLumaA16(p) => p.height,
            DynamicImage::ImageRgb16(p) => p.height,
            DynamicImage::ImageRgba16(p) => p.height,
            DynamicImage::ImageRgb32F(p) => p.height,
            DynamicImage::ImageRgba32F(p) => p.height,
        }
    }

    pub fn metadata(&self) -> (r: &Option<ImageMetaData>)
        ensures
            *r == self.spec_metadata(),
    {
        match self {
            DynamicImage::ImageLuma8(p) => &p.metadata,
            DynamicImage::ImageLumaA8(p) => &p.metadata,
            DynamicImage::ImageRgb8(p) => &p.metadata,
            DynamicImage::ImageRgba8(p) => &p.metadata,
            DynamicImage::ImageLuma16(p) => &p.metadata,
            DynamicImage::ImageLumaA16(p) => &p.metadata,
            DynamicImage::ImageRgb16(p) => &p.metadata,
            DynamicImage::ImageRgba16(p) => &p.metadata,
            DynamicImage::ImageRgb32F(p) => &p.metadata,
            DynamicImage::ImageRgba32F(p) => &p.metadata,
        }
    }

    /// The on-disk sample type of this pixel format.
    pub fn image_type(&self) -> (r: SampleType)
        ensures
            r == self.spec_image_type(),
    {
        match self {
            DynamicImage::ImageLuma8(_) | DynamicImage::ImageLumaA8(_) | DynamicImage::ImageRgb8(_)
            | DynamicImage::ImageRgba8(_) => SampleType::UnsignedByte,
            DynamicImage::ImageLuma16(_) | DynamicImage::ImageLumaA16(_)
            | DynamicImage::ImageRgb16(_) | DynamicImage::ImageRgba16(_) => SampleType::UnsignedShort,
            DynamicImage::ImageRgb32F(_) | DynamicImage::ImageRgba32F(_) => SampleType::Float,
        }
    }

    /// The on-disk axis lengths, height first.
    pub fn image_size(&self) -> (r: Vec<usize>)
        ensures
            r@ == self.spec_image_size(),
            self.wf() ==> axes_product(r@) == self.spec_sample_count(),
    {
        let width = self.width();
        let height = self.height();
        let numpix: usize = match self {
            DynamicImage::ImageLuma8(_) | DynamicImage::ImageLuma16(_) => 1,
            DynamicImage::ImageLumaA8(_) | DynamicImage::ImageLumaA16(_) => 2,
            DynamicImage::ImageRgb8(_) | DynamicImage::ImageRgb16(_) => 3,
            DynamicImage::ImageRgba8(_) | DynamicImage::ImageRgba16(_) => 4,
            DynamicImage::ImageRgb32F(_) => 3,
            DynamicImage::ImageRgba32F(_) => 4,
        };
        let r = if numpix == 1 {
            vec![height as usize, width as usize]
        } else {
            vec![height as usize, width as usize, numpix]
        };
        assert(r@ =~= self.spec_image_size());
        proof {
            if self.wf() {
                self.lemma_axes_cover_buffer();
            }
        }
        r
    }
}

} // verus!
