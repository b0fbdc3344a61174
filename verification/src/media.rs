//! Content types: the table from file extension to media type, and the check
//! that a media type can stand in a response header.

use vstd::prelude::*;
use crate::views::text_of;

verus! {

/// The media type served for a file with the given extension (without its
/// dot). The match is exact and case-sensitive; a file without an extension
/// is served as `application/octet-stream`, like one with an unlisted one.
pub open spec fn content_type_of(extension: Option<Seq<char>>) -> Seq<char> {
    match extension {
        Some(ext) => if ext == "css"@ {
            "text/css"@
        } else if ext == "js"@ {
            "application/javascript"@
        } else {
            "application/octet-stream"@
        },
        None => "application/octet-stream"@,
    }
}

/// A character that may stand in a header value: a tab, or anything from the
/// space upwards but the delete character.
pub open spec fn header_char(c: char) -> bool {
    c == '\t' || (' ' as u32 <= c as u32 && c != '\x7f')
}

/// A text that may stand in a header value.
pub open spec fn header_safe(text: Seq<char>) -> bool {
    forall|i: int| 0 <= i < text.len() ==> header_char(#[trigger] text[i])
}

/// The header value sent for the media type `mime`: `mime` itself where a
/// header can carry it, `application/octet-stream` in its place where not.
pub open spec fn header_text(mime: Seq<char>) -> Seq<char> {
    if header_safe(mime) {
        mime
    } else {
        "application/octet-stream"@
    }
}

/// `mime::TEXT_CSS`, as its `as_ref` gives it: the text `text/css`.
#[verifier::external_body]
fn text_css() -> (text: String)
    ensures
        text@ == "text/css"@,
{
    let text: &str = mime::TEXT_CSS.as_ref();
    text.to_owned()
}

/// `mime::APPLICATION_JAVASCRIPT`, as its `as_ref` gives it: the text
/// `application/javascript`.
#[verifier::external_body]
fn application_javascript() -> (text: String)
    ensures
        text@ == "application/javascript"@,
{
    let text: &str = mime::APPLICATION_JAVASCRIPT.as_ref();
    text.to_owned()
}

/// `mime::APPLICATION_OCTET_STREAM`, as its `as_ref` gives it: the text
/// `application/octet-stream`.
#[verifier::external_body]
fn application_octet_stream() -> (text: String)
    ensures
        text@ == "application/octet-stream"@,
{
    let text: &str = mime::APPLICATION_OCTET_STREAM.as_ref();
    text.to_owned()
}

/// `HeaderValue::from_str` of the `http` crate, asked whether it takes
/// `text`. It looks at each byte and refuses the ASCII control characters but
/// the tab: those below the space, and the delete character. The bytes of a
/// character beyond ASCII all pass.
#[verifier::external_body]
fn header_accepts(text: &str) -> (accepted: bool)
    ensures
        accepted == header_safe(text@),
{
    axum::http::HeaderValue::from_str(text).is_ok()
}

/// Every media type of the table can stand in a header as it is.
pub proof fn lemma_table_is_header_safe(extension: Option<Seq<char>>)
    ensures
        header_safe(content_type_of(extension)),
        header_text(content_type_of(extension)) == content_type_of(extension),
{
    reveal_strlit("text/css");
    reveal_strlit("application/javascript");
    reveal_strlit("application/octet-stream");
}

/// The media type for a file extension, by the table.
pub fn mime_for_extension(extension: &Option<String>) -> (mime: String)
    ensures
        mime@ == content_type_of(text_of(*extension)),
{
    match extension {
        Some(ext) => {
            if *ext == "css".to_owned() {
                text_css()
            } else if *ext == "js".to_owned() {
                application_javascript()
            } else {
                application_octet_stream()
            }
        },
        None => application_octet_stream(),
    }
}

/// The header value for a media type.
pub fn content_type_header(mime: String) -> (header: String)
    ensures
        header@ == header_text(mime@),
        header_safe(header@),
{
    if header_accepts(mime.as_str()) {
        mime
    } else {
        proof {
            lemma_table_is_header_safe(None);
        }
        "application/octet-stream".to_owned()
    }
}

/// The content type sent with a file that has the given extension.
pub fn content_type_for(extension: &Option<String>) -> (content_type: String)
    ensures
        content_type@ == content_type_of(text_of(*extension)),
        header_safe(content_type@),
{
    proof {
        lemma_table_is_header_safe(text_of(*extension));
    }
    content_type_header(mime_for_extension(extension))
}

} // verus!
