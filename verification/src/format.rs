//! From a path's extension to the container format that an image is
//! written in.

use crate::error::{outcome_view, Error, ErrorView};
use crate::pathname::{
    ends_in_name, extension_of, final_name, lemma_extension_of_ascii_path, lemma_final_name_of_single_name,
    lemma_last_position_before_suffix, last_position, name_extension, path_extension, text_of,
};
use crate::text::{ascii_lower, ascii_lower_char, ascii_upper, is_ascii_text, unicode_lower, unicode_upper};
use vstd::prelude::*;
use vstd::string::StringExecFns;

verus! {

/// The container formats that an image can be written in.
#[derive(Clone, Copy, Debug, PartialEq, Eq, Structural)]
pub enum ContainerFormat {
    Jpeg,
    Png,
    Gif,
    WebP,
    Bmp,
    Ico,
    Tiff,
}

impl ContainerFormat {
    /// The name that a format is reported under.
    pub open spec fn label_text(self) -> Seq<char> {
        match self {
            ContainerFormat::Jpeg => "Jpeg"@,
            ContainerFormat::Png => "Png"@,
            ContainerFormat::Gif => "Gif"@,
            ContainerFormat::WebP => "WebP"@,
            ContainerFormat::Bmp => "Bmp"@,
            ContainerFormat::Ico => "Ico"@,
            ContainerFormat::Tiff => "Tiff"@,
        }
    }

    /// The name that this format is reported under.
    pub fn label(&self) -> (text: String)
        ensures
            text@ == self.label_text(),
    {
        match self {
            ContainerFormat::Jpeg => String::from_str("Jpeg"),
            ContainerFormat::Png => String::from_str("Png"),
            ContainerFormat::Gif => String::from_str("Gif"),
            ContainerFormat::WebP => String::from_str("WebP"),
            ContainerFormat::Bmp => String::from_str("Bmp"),
            ContainerFormat::Ico => String::from_str("Ico"),
            ContainerFormat::Tiff => String::from_str("Tiff"),
        }
    }
}

/// The format that an extension in lower case names.
pub open spec fn format_named(lower: Seq<char>) -> Option<ContainerFormat> {
    if lower == "jpg"@ || lower == "jpeg"@ {
        Some(ContainerFormat::Jpeg)
    } else if lower == "png"@ {
        Some(ContainerFormat::Png)
    } else if lower == "gif"@ {
        Some(ContainerFormat::Gif)
    } else if lower == "webp"@ {
        Some(ContainerFormat::WebP)
    } else if lower == "bmp"@ {
        Some(ContainerFormat::Bmp)
    } else if lower == "ico"@ {
        Some(ContainerFormat::Ico)
    } else if lower == "tiff"@ || lower == "tif"@ {
        Some(ContainerFormat::Tiff)
    } else {
        None
    }
}

/// The table of formats, extension by extension.
pub proof fn lemma_format_table()
    ensures
        format_named("jpg"@) == Some(ContainerFormat::Jpeg),
        format_named("jpeg"@) == Some(ContainerFormat::Jpeg),
        format_named("png"@) == Some(ContainerFormat::Png),
        format_named("gif"@) == Some(ContainerFormat::Gif),
        format_named("webp"@) == Some(ContainerFormat::WebP),
        format_named("bmp"@) == Some(ContainerFormat::Bmp),
        format_named("ico"@) == Some(ContainerFormat::Ico),
        format_named("tif"@) == Some(ContainerFormat::Tiff),
        format_named("tiff"@) == Some(ContainerFormat::Tiff),
{
    reveal_strlit("jpg");
    reveal_strlit("jpeg");
    reveal_strlit("png");
    reveal_strlit("gif");
    reveal_strlit("webp");
    reveal_strlit("bmp");
    reveal_strlit("ico");
    reveal_strlit("tiff");
    reveal_strlit("tif");
    assert("jpg"@[0] == 'j' && "png"@[0] == 'p' && "gif"@[0] == 'g');
    assert("bmp"@[0] == 'b' && "ico"@[0] == 'i' && "tif"@[0] == 't');
    assert("jpeg"@[0] == 'j' && "webp"@[0] == 'w' && "tiff"@[0] == 't');
}

/// Looks an extension, given in lower case, up in the table of formats.
pub fn format_for(lower: &str) -> (format: Option<ContainerFormat>)
    ensures
        format == format_named(lower@),
{
    if lower.eq("jpg") || lower.eq("jpeg") {
        Some(ContainerFormat::Jpeg)
    } else if lower.eq("png") {
        Some(ContainerFormat::Png)
    } else if lower.eq("gif") {
        Some(ContainerFormat::Gif)
    } else if lower.eq("webp") {
        Some(ContainerFormat::WebP)
    } else if lower.eq("bmp") {
        Some(ContainerFormat::Bmp)
    } else if lower.eq("ico") {
        Some(ContainerFormat::Ico)
    } else if lower.eq("tiff") || lower.eq("tif") {
        Some(ContainerFormat::Tiff)
    } else {
        None
    }
}

/// The format for an extension whose lower-case form is `lower`, or the
/// failure that reports that form.
pub open spec fn format_or_unsupported(lower: Seq<char>) -> Result<ContainerFormat, ErrorView> {
    match format_named(lower) {
        Some(format) => Ok(format),
        None => Err(ErrorView::UnsupportedFormat(lower)),
    }
}

/// The outcome of resolving an optional extension: a missing one is
/// invalid, any other is matched in lower case.
pub open spec fn resolved_extension(extension: Option<Seq<char>>) -> Result<ContainerFormat, ErrorView> {
    match extension {
        None => Err(ErrorView::InvalidExtension),
        Some(e) => format_or_unsupported(unicode_lower(e)),
    }
}

/// The outcome of resolving an optional extension of ASCII characters.
pub open spec fn resolved_ascii_extension(extension: Option<Seq<char>>) -> Result<ContainerFormat, ErrorView> {
    match extension {
        None => Err(ErrorView::InvalidExtension),
        Some(e) => format_or_unsupported(ascii_lower(e)),
    }
}

/// The outcome of resolving the format of a path.
pub open spec fn resolved(path: Seq<char>) -> Result<ContainerFormat, ErrorView> {
    resolved_extension(path_extension(path))
}

/// Whether `path` is one whose reading is stated in full: portable, ending
/// in the name of its final component, and of ASCII characters.
pub open spec fn is_plain_path(path: Seq<char>) -> bool {
    ends_in_name(path) && is_ascii_text(path)
}

/// The outcome of resolving the format of a plain path: that of the
/// extension of its final name.
pub open spec fn resolved_plainly(path: Seq<char>) -> Result<ContainerFormat, ErrorView> {
    resolved_ascii_extension(name_extension(final_name(path)))
}

/// Resolves an extension to its format without regard to letter case.
pub fn resolve_extension(extension: Option<&str>) -> (outcome: Result<ContainerFormat, Error>)
    ensures
        outcome_view(outcome) == resolved_extension(text_of(extension)),
        extension matches Some(e) && is_ascii_text(e@) ==> outcome_view(outcome)
            == resolved_ascii_extension(text_of(extension)),
{
    match extension {
        None => Err(Error::InvalidExtension),
        Some(e) => {
            let lower = e.to_lowercase();
            match format_for(lower.as_str()) {
                Some(format) => Ok(format),
                None => Err(Error::UnsupportedFormat(lower)),
            }
        },
    }
}

/// Resolves the format that the extension of `path` names. Only the
/// extension decides: no content is looked at.
///
/// For a plain path the outcome is stated in full; for any other it is
/// stated over the platform's reading of the path and Unicode's lower case.
pub fn get_image_format_from_path(path: &str) -> (outcome: Result<ContainerFormat, Error>)
    ensures
        outcome_view(outcome) == resolved(path@),
        is_plain_path(path@) ==> outcome_view(outcome) == resolved_plainly(path@),
{
    let extension = extension_of(path);
    proof {
        if is_ascii_text(path@) {
            lemma_extension_of_ascii_path(path@);
        }
    }
    resolve_extension(extension)
}

/// Whether `extension` is, in some letter case, one of the extensions that
/// name a format.
pub open spec fn is_supported_extension(extension: Seq<char>) -> bool {
    format_named(ascii_lower(extension)) is Some
}

/// Each supported extension, in any letter case, resolves behind `x.` to
/// the format that it names: the path is a portable name of ASCII
/// characters and its extension is the one given.
pub proof fn lemma_supported_extension_resolves(extension: Seq<char>)
    requires
        is_supported_extension(extension),
    ensures
        is_plain_path("x."@ + extension),
        name_extension(final_name("x."@ + extension)) == Some(extension),
        resolved_plainly("x."@ + extension) == Ok::<ContainerFormat, ErrorView>(
            format_named(ascii_lower(extension))->0,
        ),
{
    reveal_strlit("x.");
    reveal_strlit("jpg");
    reveal_strlit("jpeg");
    reveal_strlit("png");
    reveal_strlit("gif");
    reveal_strlit("webp");
    reveal_strlit("bmp");
    reveal_strlit("ico");
    reveal_strlit("tiff");
    reveal_strlit("tif");
    let lower = ascii_lower(extension);
    let path = "x."@ + extension;
    assert(lower.len() == extension.len());
    assert forall|i: int| 0 <= i < extension.len() implies {
        let c = #[trigger] extension[i];
        ('a' <= c <= 'z') || ('A' <= c <= 'Z')
    } by {
        assert(lower[i] == ascii_lower_char(extension[i]));
        assert('a' <= lower[i] <= 'z');
    }
    assert forall|i: int| 0 <= i < path.len() implies {
        let c = #[trigger] path[i];
        c != '/' && c != '\\' && c != ':' && (c as u32) < 128
    } by {
        if i >= 2 {
            assert(path[i] == extension[i - 2]);
        }
    }
    lemma_final_name_of_single_name(path);
    lemma_last_position_before_suffix("x."@, extension, '.');
    assert("x."@.last() == '.');
    assert(last_position("x."@, '.') == 1);
    assert(path[0] == 'x');
    assert(path.subrange(2, path.len() as int) =~= extension);
}

/// Without an extension, or with one that names no format, resolution
/// fails, and says which of the two it was.
pub proof fn lemma_other_extension_fails(extension: Option<Seq<char>>)
    ensures
        extension is None ==> resolved_ascii_extension(extension) == Err::<ContainerFormat, ErrorView>(
            ErrorView::InvalidExtension,
        ),
        extension matches Some(e) ==> (!is_supported_extension(e) ==> resolved_ascii_extension(extension)
            == Err::<ContainerFormat, ErrorView>(ErrorView::UnsupportedFormat(ascii_lower(e)))),
        resolved_ascii_extension(extension) is Ok <==> (extension matches Some(e) && is_supported_extension(e)),
        resolved_extension(extension) is Ok <==> (extension matches Some(e) && format_named(unicode_lower(e))
            is Some),
{
}

/// The label under which an inspected file's format is shown.
pub open spec fn display_label(extension: Option<Seq<char>>) -> Seq<char> {
    match extension {
        Some(e) => unicode_upper(e),
        None => unicode_upper("unknown"@),
    }
}

/// The label under which an inspected file's format is shown, where the
/// extension is of ASCII characters.
pub open spec fn ascii_display_label(extension: Option<Seq<char>>) -> Seq<char> {
    match extension {
        Some(e) => ascii_upper(e),
        None => "UNKNOWN"@,
    }
}

/// The label under which the format of a file at a plain path is shown:
/// the extension of its final name in capital letters.
pub open spec fn plain_display_label(path: Seq<char>) -> Seq<char> {
    ascii_display_label(name_extension(final_name(path)))
}

/// The upper-case extension of `path`, or `UNKNOWN` where it has none. The
/// extension need not name a supported format.
pub fn extension_label(path: &str) -> (label: String)
    ensures
        label@ == display_label(path_extension(path@)),
        is_plain_path(path@) ==> label@ == plain_display_label(path@),
{
    match extension_of(path) {
        Some(e) => {
            proof {
                if is_ascii_text(path@) {
                    lemma_extension_of_ascii_path(path@);
                }
            }
            e.to_uppercase()
        },
        None => {
            proof {
                reveal_strlit("unknown");
                reveal_strlit("UNKNOWN");
                assert(is_ascii_text("unknown"@));
                assert(ascii_upper("unknown"@) =~= "UNKNOWN"@);
            }
            "unknown".to_uppercase()
        },
    }
}

} // verus!
