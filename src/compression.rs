use vstd::prelude::*;

verus! {

/// Compression algorithms available when writing a FITS file.
#[derive(Debug, Clone, Copy, PartialEq, Eq, Structural, Hash)]
pub enum FitsCompression {
    /// No compression.
    Uncompressed,
    /// GZIP compression.
    Gzip,
    /// Rice compression.
    Rice,
    /// HCOMPRESS compression.
    Hcompress,
    /// HCOMPRESS with smoothing.
    Hsmooth,
    /// BZIP2 compression.
    Bzip2,
    /// PLIO compression.
    Plio,
}

impl FitsCompression {
    /// The file-name extension, with the bracketed qualifier that asks the
    /// FITS writer for this compression when the file is created.
    pub open spec fn extension_spec(self) -> Seq<char> {
        match self {
            FitsCompression::Uncompressed => "fits"@,
            FitsCompression::Gzip => "fits[compress G]"@,
            FitsCompression::Rice => "fits[compress R]"@,
            FitsCompression::Hcompress => "fits[compress H]"@,
            FitsCompression::Hsmooth => "fits[compress HS]"@,
            FitsCompression::Bzip2 => "fits[compress B]"@,
            FitsCompression::Plio => "fits[compress P]"@,
        }
    }

    /// The algorithm's name as it is stored in the header.
    pub open spec fn name_spec(self) -> Seq<char> {
        match self {
            FitsCompression::Uncompressed => "uncomp"@,
            FitsCompression::Gzip => "gzip"@,
            FitsCompression::Rice => "rice"@,
            FitsCompression::Hcompress => "hcompress"@,
            FitsCompression::Hsmooth => "hscompress"@,
            FitsCompression::Bzip2 => "bzip2"@,
            FitsCompression::Plio => "plio"@,
        }
    }

    /// The mode that an optional choice stands for: no choice means no compression.
    pub open spec fn from_option_spec(opt: Option<FitsCompression>) -> FitsCompression {
        match opt {
            Some(c) => c,
            Option::None => FitsCompression::Uncompressed,
        }
    }

    /// No extension holds a path separator, so it cannot change the directory
    /// of the path it is put on.
    pub proof fn lemma_extension_has_no_separator(self)
        ensures
            forall|i: int|
                0 <= i < self.extension_spec().len() ==> self.extension_spec()[i] != '/'
                    && self.extension_spec()[i] != '\\',
    {
        reveal_strlit("fits");
        reveal_strlit("fits[compress G]");
        reveal_strlit("fits[compress R]");
        reveal_strlit("fits[compress H]");
        reveal_strlit("fits[compress HS]");
        reveal_strlit("fits[compress B]");
        reveal_strlit("fits[compress P]");
    }

    /// The extension (with compression qualifier) to give the output file.
    pub fn extension(&self) -> (r: &'static str)
        ensures
            r@ == self.extension_spec(),
    {
        match self {
            FitsCompression::Uncompressed => "fits",
            FitsCompression::Gzip => "fits[compress G]",
            FitsCompression::Rice => "fits[compress R]",
            FitsCompression::Hcompress => "fits[compress H]",
            FitsCompression::Hsmooth => "fits[compress HS]",
            FitsCompression::Bzip2 => "fits[compress B]",
            FitsCompression::Plio => "fits[compress P]",
        }
    }

    /// The human-readable algorithm name written into the header.
    pub fn to_string(&self) -> (r: String)
        ensures
            r@ == self.name_spec(),
    {
        let name: &str = match self {
            FitsCompression::Uncompressed => "uncomp",
            FitsCompression::Gzip => "gzip",
            FitsCompression::Rice => "rice",
            FitsCompression::Hcompress => "hcompress",
            FitsCompression::Hsmooth => "hscompress",
            FitsCompression::Bzip2 => "bzip2",
            FitsCompression::Plio => "plio",
        };
        name.to_string()
    }
}

impl From<Option<FitsCompression>> for FitsCompression {
    fn from(opt: Option<FitsCompression>) -> (r: FitsCompression)
        ensures
            r == FitsCompression::from_option_spec(opt),
    {
        match opt {
            Some(c) => c,
            Option::None => FitsCompression::Uncompressed,
        }
    }
}

impl vstd::std_specs::convert::FromSpecImpl<Option<FitsCompression>> for FitsCompression {
    open spec fn obeys_from_spec() -> bool {
        true
    }

    open spec fn from_spec(opt: Option<FitsCompression>) -> FitsCompression {
        FitsCompression::from_option_spec(opt)
    }
}

} // verus!
