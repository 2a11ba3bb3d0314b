use vstd::prelude::*;

verus! {

/// The image formats a screenshot can be saved as.
#[derive(Clone, Copy, PartialEq, Eq, Structural, Debug)]
pub enum ImageFormat {
    Jpeg,
    Png,
    Gif,
    WebP,
    Pnm,
    Tiff,
    Tga,
    Dds,
    Bmp,
    Ico,
    Hdr,
    OpenExr,
    Farbfeld,
    Avif,
    Qoi,
}

impl ImageFormat {
    /// The file extension of the format, dot included.
    pub open spec fn extension(self) -> Seq<char> {
        match self {
            ImageFormat::Jpeg => ".jpeg"@,
            ImageFormat::Png => ".png"@,
            ImageFormat::Gif => ".gif"@,
            ImageFormat::WebP => ".webp"@,
            ImageFormat::Pnm => ".pnm"@,
            ImageFormat::Tiff => ".tiff"@,
            ImageFormat::Tga => ".tga"@,
            ImageFormat::Dds => ".dds"@,
            ImageFormat::Bmp => ".bmp"@,
            ImageFormat::Ico => ".ico"@,
            ImageFormat::Hdr => ".hdr"@,
            ImageFormat::OpenExr => ".openexr"@,
            ImageFormat::Farbfeld => ".farbfeld"@,
            ImageFormat::Avif => ".avif"@,
            ImageFormat::Qoi => ".qoi"@,
        }
    }

    /// The file extension of the format, such as `".png"`.
    pub fn to_string(&self) -> (s: String)
        ensures
            s@ == self.extension(),
    {
        match self {
            ImageFormat::Jpeg => String::from_str(".jpeg"),
            ImageFormat::Png => String::from_str(".png"),
            ImageFormat::Gif => String::from_str(".gif"),
            ImageFormat::WebP => String::from_str(".webp"),
            ImageFormat::Pnm => String::from_str(".pnm"),
            ImageFormat::Tiff => String::from_str(".tiff"),
            ImageFormat::Tga => String::from_str(".tga"),
            ImageFormat::Dds => String::from_str(".dds"),
            ImageFormat::Bmp => String::from_str(".bmp"),
            ImageFormat::Ico => String::from_str(".ico"),
            ImageFormat::Hdr => String::from_str(".hdr"),
            ImageFormat::OpenExr => String::from_str(".openexr"),
            ImageFormat::Farbfeld => String::from_str(".farbfeld"),
            ImageFormat::Avif => String::from_str(".avif"),
            ImageFormat::Qoi => String::from_str(".qoi"),
        }
    }
}

/// Every extension is a dot followed by at least one character.
pub proof fn lemma_extension_is_dotted(f: ImageFormat)
    ensures
        f.extension().len() >= 2,
        f.extension()[0] == '.',
{
    reveal_strlit(".jpeg");
    reveal_strlit(".png");
    reveal_strlit(".gif");
    reveal_strlit(".webp");
    reveal_strlit(".pnm");
    reveal_strlit(".tiff");
    reveal_strlit(".tga");
    reveal_strlit(".dds");
    reveal_strlit(".bmp");
    reveal_strlit(".ico");
    reveal_strlit(".hdr");
    reveal_strlit(".openexr");
    reveal_strlit(".farbfeld");
    reveal_strlit(".avif");
    reveal_strlit(".qoi");
}

/// Distinct formats have distinct extensions, so a file name tells its format.
pub proof fn lemma_extension_injective(a: ImageFormat, b: ImageFormat)
    requires
        a != b,
    ensures
        a.extension() != b.extension(),
{
    reveal_strlit(".jpeg");
    reveal_strlit(".png");
    reveal_strlit(".gif");
    reveal_strlit(".webp");
    reveal_strlit(".pnm");
    reveal_strlit(".tiff");
    reveal_strlit(".tga");
    reveal_strlit(".dds");
    reveal_strlit(".bmp");
    reveal_strlit(".ico");
    reveal_strlit(".hdr");
    reveal_strlit(".openexr");
    reveal_strlit(".farbfeld");
    reveal_strlit(".avif");
    reveal_strlit(".qoi");
    if a.extension() == b.extension() {
        assert(a.extension().len() == b.extension().len());
        assert(a.extension()[1] == b.extension()[1]);
        assert(a.extension()[2] == b.extension()[2]);
        assert(a.extension()[3] == b.extension()[3]);
    }
}

} // verus!
