use vstd::prelude::*;
use crate::dispatch::Error;
use crate::format::{format_name, format_to_string, lemma_names_lower_words, Format};
use image::ImageFormat;

verus! {

/// What became of one entry of a directory walk, before any conversion.
#[derive(Clone, Copy, Debug, PartialEq, Eq, Structural)]
pub enum EntryProbe {
    /// The walk could not read the entry.
    WalkFailed,
    /// The entry could not be opened as a file.
    OpenFailed,
    /// The entry was opened.
    Opened,
}

/// The format that `image::ImageFormat::from_path` finds for a path, as a
/// value of this library.
pub uninterp spec fn path_format_of(path: Seq<char>) -> Option<Format>;

/// Relies on `image::ImageFormat::from_path`: the format that the path's
/// extension names, a function of the path alone. This is also what an
/// `image::ImageReader` opened on the path reports as its format.
#[verifier::external_body]
fn detect_format(path: &str) -> (r: Option<Format>)
    ensures
        r == path_format_of(path@),
{
    match image::ImageFormat::from_path(path).ok()? {
        ImageFormat::Png => Some(Format::Png), ImageFormat::Jpeg => Some(Format::Jpeg),
        ImageFormat::Gif => Some(Format::Gif), ImageFormat::WebP => Some(Format::WebP),
        ImageFormat::Pnm => Some(Format::Pnm), ImageFormat::Tiff => Some(Format::Tiff),
        ImageFormat::Tga => Some(Format::Tga), ImageFormat::Dds => Some(Format::Dds),
        ImageFormat::Bmp => Some(Format::Bmp), ImageFormat::Ico => Some(Format::Ico),
        ImageFormat::Hdr => Some(Format::Hdr), ImageFormat::OpenExr => Some(Format::OpenExr),
        ImageFormat::Farbfeld => Some(Format::Farbfeld), ImageFormat::Avif => Some(Format::Avif),
        ImageFormat::Qoi => Some(Format::Qoi), ImageFormat::Pcx => Some(Format::Pcx),
        _ => None,
    }
}

/// What `Path::with_extension` makes of a path and an extension.
pub uninterp spec fn with_extension_of(path: Seq<char>, extension: Seq<char>) -> Seq<char>;

/// Whether a string holds no path separator.
pub open spec fn has_no_separator(s: Seq<char>) -> bool {
    forall|i: int| 0 <= i < s.len() ==> #[trigger] s[i] != '/' && s[i] != '\\'
}

/// Relies on `std::path::Path::with_extension`: the result depends on the two
/// strings alone, and a path and extension given as UTF-8 stay UTF-8. It
/// panics on an extension that holds a path separator.
#[verifier::external_body]
fn with_extension(path: &str, extension: &str) -> (r: String)
    requires
        has_no_separator(extension@),
    ensures
        r@ == with_extension_of(path@, extension@),
{
    std::path::Path::new(path).with_extension(extension).to_string_lossy().into_owned()
}

/// The path a converted file is written to: the input's extension replaced by
/// the target format's canonical name.
pub fn target_path(path: &str, target: Format) -> (r: String)
    ensures
        r@ == with_extension_of(path@, format_name(target)),
{
    proof {
        lemma_names_lower_words(target);
    }
    let extension = format_to_string(target);
    with_extension(path, extension.as_str())
}

/// Decides the output of converting one file that was opened (or failed to
/// open): a file whose format is not known is not converted.
pub fn convert_file_target(path: &str, opened: bool, target: Format) -> (r: Result<String, Error>)
    ensures
        !opened || path_format_of(path@) is None ==> r == Err::<String, Error>(Error::OpenError),
        opened && path_format_of(path@) is Some ==> r is Ok && r->Ok_0@ == with_extension_of(
            path@,
            format_name(target),
        ),
{
    if !opened {
        return Err(Error::OpenError);
    }
    match detect_format(path) {
        None => Err(Error::OpenError),
        Some(_) => Ok(target_path(path, target)),
    }
}

/// Whether an opened file is an image of a known format.
pub fn is_image_file(path: &str, opened: bool) -> (r: Result<bool, Error>)
    ensures
        r == if opened {
            Ok::<bool, Error>(path_format_of(path@) is Some)
        } else {
            Err(Error::OpenError)
        },
{
    if !opened {
        return Err(Error::OpenError);
    }
    Ok(detect_format(path).is_some())
}

/// Whether an entry met in a directory walk is converted: only one that opened
/// as an image of a known format. Others are skipped, not failed.
pub fn should_convert_entry(path: &str, probe: EntryProbe) -> (r: bool)
    ensures
        r == (probe == EntryProbe::Opened && path_format_of(path@) is Some),
{
    match is_image_file(path, probe == EntryProbe::Opened) {
        Ok(b) => b,
        Err(_) => false,
    }
}

/// Whether an opened file is of the expected format.
pub fn is_image_with_type(path: &str, opened: bool, format: Format) -> (r: Result<bool, Error>)
    ensures
        r == if opened {
            Ok::<bool, Error>(path_format_of(path@) == Some(format))
        } else {
            Err(Error::OpenError)
        },
{
    if !opened {
        return Err(Error::OpenError);
    }
    Ok(format_matches(detect_format(path), format))
}

/// Whether a detected format is the expected one.
pub fn format_matches(detected: Option<Format>, expected: Format) -> (r: bool)
    ensures
        r == (detected == Some(expected)),
{
    match detected {
        Some(f) => f == expected,
        None => false,
    }
}

/// The outcome of the check command on an opened file: success when its
/// format is the expected one, a mismatch otherwise.
pub fn is(path: &str, opened: bool, format: Format) -> (r: Result<(), Error>)
    ensures
        r == if !opened {
            Err(Error::OpenError)
        } else if path_format_of(path@) == Some(format) {
            Ok(())
        } else {
            Err(Error::FormatMismatch)
        },
{
    match is_image_with_type(path, opened, format) {
        Err(e) => Err(e),
        Ok(true) => Ok(()),
        Ok(false) => Err(Error::FormatMismatch),
    }
}

/// The name a report gives a detected format.
pub open spec fn format_label(detected: Option<Format>) -> Seq<char> {
    match detected {
        Some(f) => format_name(f),
        None => "unknown"@,
    }
}

/// The line the info command writes: the path exactly as given, a space,
/// the detected format's name or "unknown", and a newline.
pub open spec fn info_text(path: Seq<char>, detected: Option<Format>) -> Seq<char> {
    path + " "@ + format_label(detected) + "\n"@
}

/// Builds a report line for a path and the format detected for it.
pub fn info_line(path: &str, detected: Option<Format>) -> (r: String)
    ensures
        r@ == info_text(path@, detected),
{
    let label = match detected {
        Some(f) => format_to_string(f),
        None => String::from_str("unknown"),
    };
    let mut line = String::from_str(path);
    line.append(" ");
    line.append(label.as_str());
    line.append("\n");
    line
}

/// The report of the info command on an opened file: its path and its format.
pub fn info(path: &str, opened: bool) -> (r: Result<String, Error>)
    ensures
        !opened ==> r == Err::<String, Error>(Error::OpenError),
        opened ==> r is Ok && r->Ok_0@ == info_text(path@, path_format_of(path@)),
{
    if !opened {
        return Err(Error::OpenError);
    }
    Ok(info_line(path, detect_format(path)))
}

} // verus!
