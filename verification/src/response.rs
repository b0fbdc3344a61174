//! Statuses, render outcomes and the responses built from them.

use vstd::prelude::*;
use vstd::utf8::{encode_scalar, encode_utf8};
use crate::media::content_type_of;
use crate::paths::extension_of;
use crate::state::{ErrorPages, ErrorPagesView};
use crate::templates::{debug_of, reason_is_missing_template};
use crate::views::text_of;

verus! {

/// The statuses this server answers with.
#[derive(Clone, Copy, Debug, PartialEq, Eq, Structural)]
pub enum Status {
    Success,
    NotFound,
    ServerError,
}

impl Status {
    /// The numeric HTTP status code.
    pub open spec fn spec_code(self) -> u16 {
        match self {
            Status::Success => 200,
            Status::NotFound => 404,
            Status::ServerError => 500,
        }
    }

    /// The numeric HTTP status code.
    #[verifier::when_used_as_spec(spec_code)]
    pub fn code(self) -> (code: u16)
        ensures
            code == self.spec_code(),
    {
        match self {
            Status::Success => 200,
            Status::NotFound => 404,
            Status::ServerError => 500,
        }
    }
}

/// What one attempt to render a page came to.
#[derive(Debug, PartialEq, Eq)]
pub enum RenderOutcome {
    /// The rendered HTML.
    Success(String),
    /// The template asked for is not registered.
    TemplateNotFound,
    /// Any other failure, with a diagnostic meant for the server's log only.
    OtherRenderError(String),
}

/// Whether `outcome` is what the engine's `rendered` comes to. What the
/// engine rendered is a success with that HTML. A failure whose reason is a
/// missing template is not found. Every other failure is a render error, and
/// its diagnostic the debug text of the engine's error.
pub open spec fn is_render_outcome(
    rendered: Result<String, handlebars::RenderError>,
    outcome: RenderOutcome,
) -> bool {
    match rendered {
        Ok(html) => outcome == RenderOutcome::Success(html),
        Err(error) => if reason_is_missing_template(error) {
            outcome == RenderOutcome::TemplateNotFound
        } else {
            outcome matches RenderOutcome::OtherRenderError(text) && text@ == debug_of(error)
        },
    }
}

/// The answer to a request for a page.
#[derive(Debug, PartialEq, Eq)]
pub struct PageResponse {
    pub status: Status,
    /// The HTML to send.
    pub body: String,
    /// What to write to the server's log about a failed rendering. It is not
    /// part of what is sent.
    pub diagnostic: Option<String>,
}

/// What a `PageResponse` holds.
pub struct PageResponseView {
    pub status: Status,
    pub body: Seq<char>,
    pub diagnostic: Option<Seq<char>>,
}

impl View for PageResponse {
    type V = PageResponseView;

    open spec fn view(&self) -> PageResponseView {
        PageResponseView {
            status: self.status,
            body: self.body@,
            diagnostic: text_of(self.diagnostic),
        }
    }
}

/// The answer to a render outcome: the rendered page; the not-found page for
/// a template that is not there; the server-error page for any other failure,
/// whose diagnostic goes to the log and nowhere else.
pub open spec fn page_response(outcome: RenderOutcome, pages: ErrorPagesView) -> PageResponseView {
    match outcome {
        RenderOutcome::Success(html) => PageResponseView {
            status: Status::Success,
            body: html@,
            diagnostic: None,
        },
        RenderOutcome::TemplateNotFound => PageResponseView {
            status: Status::NotFound,
            body: pages.not_found,
            diagnostic: None,
        },
        RenderOutcome::OtherRenderError(diagnostic) => PageResponseView {
            status: Status::ServerError,
            body: pages.server_error,
            diagnostic: Some(diagnostic@),
        },
    }
}

/// What every answer to a page request looks like: a failure carries the
/// error page that belongs to its status, and only a server error has
/// something to log.
pub open spec fn is_page_response(response: PageResponseView, pages: ErrorPagesView) -> bool {
    match response.status {
        Status::Success => response.diagnostic is None,
        Status::NotFound => response.body == pages.not_found && response.diagnostic is None,
        Status::ServerError => response.body == pages.server_error && response.diagnostic is Some,
    }
}

/// Turns a render outcome into the answer to send.
pub fn build_page_response(outcome: RenderOutcome, error_pages: &ErrorPages) -> (response:
    PageResponse)
    ensures
        response@ == page_response(outcome, error_pages@),
        response.status != Status::Success ==> response.body@.len() > 0,
{
    match outcome {
        RenderOutcome::Success(html) => PageResponse {
            status: Status::Success,
            body: html,
            diagnostic: None,
        },
        RenderOutcome::TemplateNotFound => PageResponse {
            status: Status::NotFound,
            body: error_pages.not_found().clone(),
            diagnostic: None,
        },
        RenderOutcome::OtherRenderError(diagnostic) => PageResponse {
            status: Status::ServerError,
            body: error_pages.server_error().clone(),
            diagnostic: Some(diagnostic),
        },
    }
}

/// The answer to a request for a static asset.
#[derive(Debug, PartialEq, Eq)]
pub struct AssetResponse {
    pub status: Status,
    /// The value of the `Content-Type` header.
    pub content_type: String,
    pub body: Vec<u8>,
}

/// What an `AssetResponse` holds.
pub struct AssetResponseView {
    pub status: Status,
    pub content_type: Seq<char>,
    pub body: Seq<u8>,
}

impl View for AssetResponse {
    type V = AssetResponseView;

    open spec fn view(&self) -> AssetResponseView {
        AssetResponseView {
            status: self.status,
            content_type: self.content_type@,
            body: self.body@,
        }
    }
}

/// The answer to a request for the asset at `local_path`, given what reading
/// that file gave. A file that was read is sent as it is, with the content
/// type of its extension. Any failed read is answered with the server-error
/// page, as HTML.
pub open spec fn asset_response(
    local_path: Seq<char>,
    file: Option<Seq<u8>>,
    pages: ErrorPagesView,
) -> AssetResponseView {
    match file {
        Some(bytes) => AssetResponseView {
            status: Status::Success,
            content_type: content_type_of(extension_of(local_path)),
            body: bytes,
        },
        None => AssetResponseView {
            status: Status::ServerError,
            content_type: "text/html"@,
            body: encode_utf8(pages.server_error),
        },
    }
}

/// A text that is not empty has bytes.
pub proof fn lemma_text_has_bytes(text: Seq<char>)
    requires
        text.len() > 0,
    ensures
        encode_utf8(text).len() > 0,
{
    assert(encode_utf8(text) == encode_scalar(text[0] as u32) + encode_utf8(text.drop_first()));
}

/// Every render outcome has its answer, and the answer is of the one shape
/// that page answers have. It is a success for a rendered page and for
/// nothing else.
pub proof fn lemma_page_response_total(outcome: RenderOutcome, pages: ErrorPagesView)
    ensures
        is_page_response(page_response(outcome, pages), pages),
        page_response(outcome, pages).status == Status::Success <==> outcome is Success,
{
}

/// What failed inside the template engine never shows: failures that differ
/// in their diagnostics only are sent the same status and the same body.
pub proof fn lemma_diagnostic_stays_inside(first: String, second: String, pages: ErrorPagesView)
    ensures
        page_response(RenderOutcome::OtherRenderError(first), pages).status == page_response(
            RenderOutcome::OtherRenderError(second),
            pages,
        ).status,
        page_response(RenderOutcome::OtherRenderError(first), pages).body == page_response(
            RenderOutcome::OtherRenderError(second),
            pages,
        ).body,
{
}

/// From the engine's rendering to the answer, in one statement: 200 with
/// the rendered page exactly for what the engine rendered; 404 with the
/// not-found page exactly for a failure whose reason is a missing template;
/// 500 with the server-error page exactly for any other failure, and only
/// then is there something to log: the debug text of the engine's error.
pub proof fn lemma_answer_by_rendering(
    rendered: Result<String, handlebars::RenderError>,
    outcome: RenderOutcome,
    pages: ErrorPagesView,
)
    requires
        is_render_outcome(rendered, outcome),
    ensures
        rendered matches Ok(html) ==> page_response(outcome, pages) == (PageResponseView {
            status: Status::Success,
            body: html@,
            diagnostic: None,
        }),
        rendered matches Err(error) ==> page_response(outcome, pages) == if reason_is_missing_template(
            error,
        ) {
            PageResponseView { status: Status::NotFound, body: pages.not_found, diagnostic: None }
        } else {
            PageResponseView {
                status: Status::ServerError,
                body: pages.server_error,
                diagnostic: Some(debug_of(error)),
            }
        },
{
}

/// Two failures of the engine that are not for a missing template are sent
/// the same status and the same body, whatever the two errors are: the
/// server-error page, and nothing of either error.
pub proof fn lemma_other_failures_are_answered_alike(
    first: handlebars::RenderError,
    second: handlebars::RenderError,
    first_outcome: RenderOutcome,
    second_outcome: RenderOutcome,
    pages: ErrorPagesView,
)
    requires
        !reason_is_missing_template(first),
        !reason_is_missing_template(second),
        is_render_outcome(Err(first), first_outcome),
        is_render_outcome(Err(second), second_outcome),
    ensures
        page_response(first_outcome, pages).status == Status::ServerError,
        page_response(first_outcome, pages).body == pages.server_error,
        page_response(second_outcome, pages).status == page_response(first_outcome, pages).status,
        page_response(second_outcome, pages).body == page_response(first_outcome, pages).body,
{
}

/// Two answers that are both the answer to one render outcome, with the same
/// error pages at hand, are the same answer. This says no more than that the
/// answer is a function of the outcome. It ties the answers to two requests
/// for a page only where the engine came to the same outcome both times;
/// whether it does is the engine's, and is stated nowhere.
pub proof fn lemma_page_response_repeatable(
    outcome: RenderOutcome,
    pages: ErrorPagesView,
    first: PageResponse,
    second: PageResponse,
)
    requires
        first@ == page_response(outcome, pages),
        second@ == page_response(outcome, pages),
    ensures
        first@ == second@,
{
}

/// Two answers that are both the answer to a request for one asset, given
/// the same outcome of the read and the same error pages, are the same
/// answer. This says no more than that the answer is a function of the path,
/// of what the read gave and of the error pages; that two reads of one file
/// give the same is the file system's.
pub proof fn lemma_asset_response_repeatable(
    local_path: Seq<char>,
    file: Option<Seq<u8>>,
    pages: ErrorPagesView,
    first: AssetResponse,
    second: AssetResponse,
)
    requires
        first@ == asset_response(local_path, file, pages),
        second@ == asset_response(local_path, file, pages),
    ensures
        first@ == second@,
{
}

} // verus!
