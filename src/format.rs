//! Choice of the output codec from a request or a file extension.
use crate::knobs::Codec;
use vstd::prelude::*;
use vstd::string::StringSliceAdditionalSpecFns;
use vstd::utf8::encode_utf8_decode_utf8;

verus! {

/// A requested output format; `Auto` defers to the output file's extension.
#[derive(Clone, Copy, Debug, PartialEq, Eq, Structural)]
pub enum Format {
    Auto,
    Jpeg,
    Png,
    Webp,
}

/// The codec that an output file extension names; unknown ones mean JPEG.
pub open spec fn codec_for_extension(ext: Seq<char>) -> Codec {
    if ext == "png"@ {
        Codec::Png
    } else if ext == "webp"@ {
        Codec::Webp
    } else {
        Codec::Jpeg
    }
}

/// The codec for a request and an optional output extension.
pub open spec fn selected_codec(requested: Format, ext: Option<Seq<char>>) -> Codec {
    match requested {
        Format::Jpeg => Codec::Jpeg,
        Format::Png => Codec::Png,
        Format::Webp => Codec::Webp,
        Format::Auto => match ext {
            Some(e) => codec_for_extension(e),
            None => Codec::Jpeg,
        },
    }
}

/// Whether two texts hold the same characters.
pub fn same_text(a: &str, b: &str) -> (r: bool)
    ensures
        r == (a@ == b@),
{
    let x = a.as_bytes();
    let y = b.as_bytes();
    proof {
        encode_utf8_decode_utf8(a@);
        encode_utf8_decode_utf8(b@);
    }
    if x.len() != y.len() {
        return false;
    }
    let mut i: usize = 0;
    while i < x.len()
        invariant
            x@ == a.spec_bytes(),
            y@ == b.spec_bytes(),
            x@.len() == y@.len(),
            i <= x@.len(),
            forall|j: int| 0 <= j < i ==> x@[j] == y@[j],
        decreases x@.len() - i,
    {
        if x[i] != y[i] {
            return false;
        }
        i = i + 1;
    }
    assert(x@ =~= y@);
    true
}

/// The codec named by an output file extension ("jpg", "jpeg", "png",
/// "webp"); any other extension gives JPEG.
pub fn codec_from_extension(ext: &str) -> (r: Codec)
    ensures
        r == codec_for_extension(ext@),
{
    if same_text(ext, "png") {
        Codec::Png
    } else if same_text(ext, "webp") {
        Codec::Webp
    } else {
        Codec::Jpeg
    }
}

/// An explicit format wins; `Auto` goes by the extension, JPEG when there
/// is none or it is unknown.
pub fn select_codec(requested: Format, ext: Option<&str>) -> (r: Codec)
    ensures
        r == selected_codec(
            requested,
            match ext {
                Some(e) => Some(e@),
                None => None,
            },
        ),
{
    match requested {
        Format::Jpeg => Codec::Jpeg,
        Format::Png => Codec::Png,
        Format::Webp => Codec::Webp,
        Format::Auto => match ext {
            Some(e) => codec_from_extension(e),
            None => Codec::Jpeg,
        },
    }
}

} // verus!
