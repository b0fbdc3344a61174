//! The template engine: a `handlebars` registry, asked whether it knows a
//! template and asked to render one.

use vstd::prelude::*;

verus! {

/// `handlebars::Handlebars`, the template registry. The verifier does not
/// look inside one; `registered_templates` names the templates it holds.
#[verifier::external_type_specification]
#[verifier::external_body]
pub struct ExRegistry<'reg>(handlebars::Handlebars<'reg>);

/// `handlebars::RenderError`, what a failed rendering leaves behind. The
/// verifier does not look inside one; `reason_is_missing_template` and
/// `debug_of` say what the library reads from it.
#[verifier::external_type_specification]
#[verifier::external_body]
pub struct ExRenderError(handlebars::RenderError);

/// The names of the templates that a registry holds.
pub uninterp spec fn registered_templates(registry: handlebars::Handlebars<'static>) -> Set<
    Seq<char>,
>;

/// Whether the reason that a render error gives is
/// `RenderErrorReason::TemplateNotFound`.
pub uninterp spec fn reason_is_missing_template(error: handlebars::RenderError) -> bool;

/// The text that the derived `Debug` writes for a render error: its fields,
/// the reason among them.
pub uninterp spec fn debug_of(error: handlebars::RenderError) -> Seq<char>;

/// `Handlebars::has_template`: whether a template is registered under `name`.
#[verifier::external_body]
pub(crate) fn has_template(registry: &handlebars::Handlebars<'static>, name: &str) -> (known: bool)
    ensures
        known == registered_templates(*registry).contains(name@),
{
    registry.has_template(name)
}

/// `Handlebars::render`: renders the template `name` over `data`. Nothing is
/// claimed of what comes back: that is for the templates, the helpers and the
/// registry's settings to decide.
#[verifier::external_body]
pub(crate) fn render_template(
    registry: &handlebars::Handlebars<'static>,
    name: &str,
    data: &serde_json::Value,
) -> (rendered: Result<String, handlebars::RenderError>) {
    registry.render(name, data)
}

/// `RenderError::reason`, asked whether the reason is
/// `RenderErrorReason::TemplateNotFound`.
#[verifier::external_body]
pub(crate) fn is_template_not_found(error: &handlebars::RenderError) -> (missing: bool)
    ensures
        missing == reason_is_missing_template(*error),
{
    match error.reason() {
        handlebars::RenderErrorReason::TemplateNotFound(_) => true,
        _ => false,
    }
}

/// `Debug` for `RenderError`, written out with `format!`: the text that it
/// gives for `error`.
#[verifier::external_body]
pub(crate) fn debug_text(error: &handlebars::RenderError) -> (text: String)
    ensures
        text@ == debug_of(*error),
{
    format!("{:?}", error)
}

} // verus!
