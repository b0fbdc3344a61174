//! The request handlers: what is sent for a page and for a static asset.

use vstd::prelude::*;
use crate::media::{content_type_for, content_type_of, header_safe};
use crate::paths::{extension_of, path_extension, push_path, pushed_path};
use crate::payload::{envelope, json_of, page_payload, template_data};
use crate::response::{
    asset_response, build_page_response, is_page_response, is_render_outcome,
    lemma_page_response_total, lemma_text_has_bytes, page_response, AssetResponse, PageResponse,
    RenderOutcome, Status,
};
use crate::state::CommonData;
use crate::templates::{
    debug_text, has_template, is_template_not_found, registered_templates, render_template,
};
use crate::views::bytes_of;

verus! {

/// Renders the page `page_name` inside the application layout, over `data`.
/// A page that is not registered is not found, whatever else the registry
/// holds. For a registered page the engine is asked for what `layout_request`
/// says, and the outcome is `render_outcome` of what it gave; what that is,
/// the engine alone decides.
pub fn render_page(
    hb: &handlebars::Handlebars<'static>,
    page_name: &str,
    data: serde_json::Value,
) -> (outcome: RenderOutcome)
    ensures
        !registered_templates(*hb).contains(page_name@) ==> outcome
            == RenderOutcome::TemplateNotFound,
{
    if !has_template(hb, page_name) {
        return RenderOutcome::TemplateNotFound;
    }
    let request = layout_request(page_name, data);
    render_outcome(render_template(hb, request.0.as_str(), &request.1))
}

/// What the engine is asked to render for the page `page_name`: the
/// application layout, over the page's name and its payload.
pub fn layout_request(page_name: &str, data: serde_json::Value) -> (request: (
    String,
    serde_json::Value,
))
    ensures
        request.0@ == "layouts/application.html"@,
        json_of(request.1) == envelope(page_name@, json_of(data)),
{
    ("layouts/application.html".to_owned(), template_data(page_name, data))
}

/// What a rendering by the template engine came to. What the engine rendered
/// is a success, and nothing else is. Of its failures, the one whose reason is
/// a missing template is not found; every other one is a render error that
/// keeps the debug text of the engine's error as its diagnostic.
pub fn render_outcome(rendered: Result<String, handlebars::RenderError>) -> (outcome:
    RenderOutcome)
    ensures
        is_render_outcome(rendered, outcome),
{
    match rendered {
        Ok(html) => RenderOutcome::Success(html),
        Err(error) => {
            if is_template_not_found(&error) {
                RenderOutcome::TemplateNotFound
            } else {
                RenderOutcome::OtherRenderError(debug_text(&error))
            }
        },
    }
}

/// The answer to a request for the page `page_name`, shown with `title`.
/// Whatever the template engine does, the answer is the rendered page or one
/// of the two error pages; a page that is not registered is not found.
pub fn create_html_response(data: &CommonData, page_name: &str, title: &str) -> (response:
    PageResponse)
    ensures
        is_page_response(response@, data@.error_pages),
        !data@.templates.contains(page_name@) ==> response@ == page_response(
            RenderOutcome::TemplateNotFound,
            data@.error_pages,
        ),
        response.status != Status::Success ==> response.body@.len() > 0,
{
    let outcome = render_page(data.hb(), page_name, page_payload(title));
    proof {
        lemma_page_response_total(outcome, data@.error_pages);
    }
    build_page_response(outcome, data.error_pages())
}

/// The file that a request for the asset `requested_path` is served from:
/// `static/assets` below `exe_path`, then the requested path below that. The
/// requested path is taken as it comes.
pub fn get_local_path(requested_path: &str, exe_path: &str) -> (local_path: String)
    ensures
        local_path@ == pushed_path(pushed_path(exe_path@, "static/assets"@), requested_path@),
{
    let assets = push_path(exe_path, "static/assets");
    push_path(assets.as_str(), requested_path)
}

/// The page shown at `/`, and its title.
pub fn home_page() -> (page: (&'static str, &'static str))
    ensures
        page.0@ == "index.html"@,
        page.1@ == "Welcome"@,
{
    ("index.html", "Welcome")
}

/// The answer to `GET /`: the home page, under its title.
pub fn home_handler(data: &CommonData) -> (response: PageResponse)
    ensures
        is_page_response(response@, data@.error_pages),
        !data@.templates.contains("index.html"@) ==> response@ == page_response(
            RenderOutcome::TemplateNotFound,
            data@.error_pages,
        ),
        response.status != Status::Success ==> response.body@.len() > 0,
{
    let page = home_page();
    create_html_response(data, page.0, page.1)
}

/// The answer to `GET /assets/*path`, once the file at `local_path` was read:
/// `file` holds its bytes, or `None` if the read failed for any reason.
pub fn asset_handler(local_path: &str, file: Option<Vec<u8>>, data: &CommonData) -> (response:
    AssetResponse)
    ensures
        response@ == asset_response(local_path@, bytes_of(file), data@.error_pages),
        header_safe(response.content_type@),
        response.status != Status::Success ==> response.body@.len() > 0,
{
    match file {
        Some(bytes) => {
            let extension = path_extension(local_path);
            AssetResponse {
                status: Status::Success,
                content_type: content_type_for(&extension),
                body: bytes,
            }
        },
        None => {
            let page = data.error_pages().server_error();
            proof {
                reveal_strlit("text/html");
                lemma_text_has_bytes(page@);
            }
            AssetResponse {
                status: Status::ServerError,
                content_type: "text/html".to_owned(),
                body: page.as_str().as_bytes_vec(),
            }
        },
    }
}

} // verus!
