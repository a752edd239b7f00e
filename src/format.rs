use vstd::prelude::*;
use crate::text::str_eq;

verus! {

/// The closed set of image encodings that the tool converts between.
#[derive(Clone, Copy, Debug, PartialEq, Eq, Structural)]
pub enum Format {
    Png,
    Jpeg,
    Gif,
    WebP,
    Pnm,
    Tiff,
    Tga,
    Dds,
    Bmp,
    Ico,
    Hdr,
    OpenExr,
    Farbfeld,
    Avif,
    Qoi,
    Pcx,
}

/// Failure to read a format name.
#[derive(Clone, Copy, Debug, PartialEq, Eq, Structural)]
pub enum FormatError {
    UnknownFormat,
}

/// The canonical lowercase name of a format; also the file extension it is
/// written with.
pub open spec fn format_name(f: Format) -> Seq<char> {
    match f {
        Format::Png => "png"@,
        Format::Jpeg => "jpeg"@,
        Format::Gif => "gif"@,
        Format::WebP => "webp"@,
        Format::Pnm => "pnm"@,
        Format::Tiff => "tiff"@,
        Format::Tga => "tga"@,
        Format::Dds => "dds"@,
        Format::Bmp => "bmp"@,
        Format::Ico => "ico"@,
        Format::Hdr => "hdr"@,
        Format::OpenExr => "openexr"@,
        Format::Farbfeld => "farbfeld"@,
        Format::Avif => "avif"@,
        Format::Qoi => "qoi"@,
        Format::Pcx => "pcx"@,
    }
}

/// The format a name denotes: a canonical name, or the alias "jpg" for JPEG.
pub open spec fn format_of(s: Seq<char>) -> Option<Format> {
    if s == "jpg"@ {
        Some(Format::Jpeg)
    } else if exists|f: Format| format_name(f) == s {
        Some(choose|f: Format| format_name(f) == s)
    } else {
        None
    }
}

/// Reads an exact format name.
pub fn string_to_format(format: &str) -> (r: Result<Format, FormatError>)
    ensures
        r == match format_of(format@) {
            Some(f) => Ok::<Format, FormatError>(f),
            None => Err(FormatError::UnknownFormat),
        },
{
    proof {
        lemma_names_distinct();
    }
    let f = if str_eq(format, "png") {
        Format::Png
    } else if str_eq(format, "jpg") || str_eq(format, "jpeg") {
        Format::Jpeg
    } else if str_eq(format, "gif") {
        Format::Gif
    } else if str_eq(format, "webp") {
        Format::WebP
    } else if str_eq(format, "pnm") {
        Format::Pnm
    } else if str_eq(format, "tiff") {
        Format::Tiff
    } else if str_eq(format, "tga") {
        Format::Tga
    } else if str_eq(format, "dds") {
        Format::Dds
    } else if str_eq(format, "bmp") {
        Format::Bmp
    } else if str_eq(format, "ico") {
        Format::Ico
    } else if str_eq(format, "hdr") {
        Format::Hdr
    } else if str_eq(format, "openexr") {
        Format::OpenExr
    } else if str_eq(format, "farbfeld") {
        Format::Farbfeld
    } else if str_eq(format, "avif") {
        Format::Avif
    } else if str_eq(format, "qoi") {
        Format::Qoi
    } else if str_eq(format, "pcx") {
        Format::Pcx
    } else {
        assert(forall|f: Format| format_name(f) != format@);
        return Err(FormatError::UnknownFormat);
    };
    assert(format_name(f) == format@ || format@ == "jpg"@);
    Ok(f)
}

/// The canonical name of a format.
pub fn format_to_string(format: Format) -> (r: String)
    ensures
        r@ == format_name(format),
{
    let name = match format {
        Format::Png => "png",
        Format::Jpeg => "jpeg",
        Format::Gif => "gif",
        Format::WebP => "webp",
        Format::Pnm => "pnm",
        Format::Tiff => "tiff",
        Format::Tga => "tga",
        Format::Dds => "dds",
        Format::Bmp => "bmp",
        Format::Ico => "ico",
        Format::Hdr => "hdr",
        Format::OpenExr => "openexr",
        Format::Farbfeld => "farbfeld",
        Format::Avif => "avif",
        Format::Qoi => "qoi",
        Format::Pcx => "pcx",
    };
    String::from_str(name)
}

/// What `str::to_lowercase` makes of a string.
pub uninterp spec fn lowercase_of(s: Seq<char>) -> Seq<char>;

/// What `str::trim` makes of a string.
pub uninterp spec fn trimmed_of(s: Seq<char>) -> Seq<char>;

/// Whether every character is an ASCII lowercase letter.
pub open spec fn is_ascii_lower_word(s: Seq<char>) -> bool {
    forall|i: int| 0 <= i < s.len() ==> 'a' <= #[trigger] s[i] <= 'z'
}

/// Relies on `str::to_lowercase`: the result depends on the characters alone,
/// and characters that are already lowercase keep their lowercase mapping,
/// so a word of ASCII lowercase letters is unchanged.
#[verifier::external_body]
fn lowercase(s: &str) -> (r: String)
    ensures
        r@ == lowercase_of(s@),
        is_ascii_lower_word(s@) ==> r@ == s@,
{
    s.to_lowercase()
}

/// Relies on `str::trim`: the result depends on the characters alone, and
/// only leading and trailing whitespace is removed, so a word of ASCII
/// lowercase letters is unchanged.
#[verifier::external_body]
fn trim(s: &str) -> (r: &str)
    ensures
        r@ == trimmed_of(s@),
        is_ascii_lower_word(s@) ==> r@ == s@,
{
    s.trim()
}

/// The format named by user input: lowered, then trimmed of surrounding
/// whitespace, then read as by [`string_to_format`].
pub open spec fn dirty_format_of(s: Seq<char>) -> Option<Format> {
    format_of(trimmed_of(lowercase_of(s)))
}

/// Reads a format name as a user typed it, in any case and with surrounding
/// whitespace.
pub fn dirty_string_to_format(format: &str) -> (r: Result<Format, FormatError>)
    ensures
        r == match dirty_format_of(format@) {
            Some(f) => Ok::<Format, FormatError>(f),
            None => Err(FormatError::UnknownFormat),
        },
        is_ascii_lower_word(format@) ==> r == match format_of(format@) {
            Some(f) => Ok::<Format, FormatError>(f),
            None => Err(FormatError::UnknownFormat),
        },
{
    let lowered = lowercase(format);
    let trimmed = trim(lowered.as_str());
    string_to_format(trimmed)
}

/// Every format is read back from its canonical name, JPEG also from "jpg";
/// and every name that is read renders back as its canonical form.
pub proof fn lemma_names_round_trip(f: Format, s: Seq<char>)
    ensures
        format_of(format_name(f)) == Some(f),
        format_of("jpg"@) == Some(Format::Jpeg),
        format_of(s) == Some(f) ==> format_name(f) == s || (s == "jpg"@ && f == Format::Jpeg),
{
    lemma_names_distinct();
    assert(exists|g: Format| format_name(g) == format_name(f));
}

/// Every canonical name, and the alias "jpg", is made of ASCII lowercase
/// letters, so user input that is exactly such a name reads as that name.
pub proof fn lemma_names_lower_words(f: Format)
    ensures
        is_ascii_lower_word(format_name(f)),
        is_ascii_lower_word("jpg"@),
{
    lemma_names_distinct();
}

/// A string that is neither a canonical name nor the alias "jpg" is rejected.
pub proof fn lemma_unknown_names_rejected(s: Seq<char>)
    requires
        s != "jpg"@,
        forall|f: Format| format_name(f) != s,
    ensures
        format_of(s) is None,
{
}

/// No two formats share a name, the alias "jpg" is no canonical name, and
/// all of them are words of ASCII lowercase letters.
proof fn lemma_names_distinct()
    ensures
        forall|f: Format, g: Format| format_name(f) == format_name(g) ==> f == g,
        forall|f: Format| format_name(f) != "jpg"@,
        forall|f: Format| is_ascii_lower_word(#[trigger] format_name(f)),
        is_ascii_lower_word("jpg"@),
{
    reveal_strlit("png");
    reveal_strlit("jpg");
    reveal_strlit("jpeg");
    reveal_strlit("gif");
    reveal_strlit("webp");
    reveal_strlit("pnm");
    reveal_strlit("tiff");
    reveal_strlit("tga");
    reveal_strlit("dds");
    reveal_strlit("bmp");
    reveal_strlit("ico");
    reveal_strlit("hdr");
    reveal_strlit("openexr");
    reveal_strlit("farbfeld");
    reveal_strlit("avif");
    reveal_strlit("qoi");
    reveal_strlit("pcx");
    assert forall|f: Format, g: Format| format_name(f) == format_name(g) implies f == g by {
        if f != g {
            let a = format_name(f);
            let b = format_name(g);
            assert(a.len() != b.len() || a[0] != b[0] || a[1] != b[1] || a[2] != b[2]);
        }
    }
    assert forall|f: Format| format_name(f) != "jpg"@ by {
        let a = format_name(f);
        assert(a.len() != 3 || a[0] != 'j');
    }
}

} // verus!
