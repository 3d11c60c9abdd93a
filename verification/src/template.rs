use vstd::prelude::*;
use crate::errors::Error;

verus! {

#[verifier::external_type_specification]
#[verifier::external_body]
pub struct ExTinyTemplate<'a>(tinytemplate::TinyTemplate<'a>);

#[verifier::external_type_specification]
#[verifier::external_body]
pub struct ExJsonValue(serde_json::Value);

/// Whether tinytemplate's compiler accepts the template text.
/// Acceptance is a function of the text alone.
pub uninterp spec fn template_ok(text: Seq<char>) -> bool;

/// What a registry holds under the one template name this library
/// uses: the text of the registered template, or nothing.
pub uninterp spec fn registered_main(tt: tinytemplate::TinyTemplate) -> Option<Seq<char>>;

/// Whether the registry's formatter set is as `TinyTemplate::new`
/// leaves it.  This library never registers a formatter, so every
/// registry it makes keeps the stock set; rendering is deterministic
/// in the template text and the value tree only under that set.
pub uninterp spec fn stock_formatters(tt: tinytemplate::TinyTemplate) -> bool;

/// What rendering a compiled template yields against a value tree,
/// under the stock formatter set: the rendered text, or nothing where
/// the engine refuses (an unresolved key, a type error).  The engine
/// is deterministic in the template text and the value, so the outcome
/// is a function of the two alone.
pub uninterp spec fn render_of(text: Seq<char>, ctx: serde_json::Value) -> Option<Seq<char>>;

/// Relies on `TinyTemplate::new`: a fresh registry holding no
/// templates, with the stock formatter set.
#[verifier::external_body]
fn template_new<'a>() -> (r: tinytemplate::TinyTemplate<'a>)
    ensures
        registered_main(r) is None,
        stock_formatters(r),
{
    tinytemplate::TinyTemplate::new()
}

/// Relies on `TinyTemplate::add_template`: it compiles the text and,
/// on success, registers it under the name the renderer is later asked
/// for; compilation succeeds or fails on the text alone, a failure
/// registers nothing, and the formatter set is never touched.
#[verifier::external_body]
fn template_add_main<'a>(tt: &mut tinytemplate::TinyTemplate<'a>, text: &'a str) -> (r: Result<
    (),
    String,
>)
    ensures
        r is Ok <==> template_ok(text@),
        r is Ok ==> registered_main(*final(tt)) == Some(text@),
        r is Err ==> registered_main(*final(tt)) == registered_main(*old(tt)),
        stock_formatters(*old(tt)) ==> stock_formatters(*final(tt)),
{
    tt.add_template("main", text).map_err(|e| e.to_string())
}

/// Relies on `TinyTemplate::render`: under the stock formatter set it
/// renders the registered template against the value tree,
/// deterministically in the two, and fails exactly where the engine's
/// outcome is empty; with no registered template it fails.
#[verifier::external_body]
fn template_render_main<'a>(
    tt: &tinytemplate::TinyTemplate<'a>,
    ctx: &serde_json::Value,
) -> (r: Result<String, String>)
    ensures
        registered_main(*tt) matches Some(text) ==> (stock_formatters(*tt) ==> ((r is Ok
            <==> render_of(text, *ctx) is Some) && (r matches Ok(s) ==> Some(s@) == render_of(
            text,
            *ctx,
        )))),
        registered_main(*tt) is None ==> r is Err,
{
    tt.render("main", ctx).map_err(|e| e.to_string())
}

/// Compiles the user's template once, at startup.  A refused template
/// is the fatal startup error; an accepted one is held in the returned
/// registry, under the name the renderer is later asked for, with the
/// stock formatter set.
pub fn compile_template<'a>(text: &'a str) -> (r: Result<
    tinytemplate::TinyTemplate<'a>,
    Error,
>)
    ensures
        r is Ok <==> template_ok(text@),
        r matches Ok(t) ==> registered_main(t) == Some(text@) && stock_formatters(t),
        !template_ok(text@) ==> (r matches Err(e) && e is TemplateCompile),
{
    let mut tt = template_new();
    match template_add_main(&mut tt, text) {
        Ok(_) => Ok(tt),
        Err(msg) => Err(Error::TemplateCompile(msg)),
    }
}

/// Renders the compiled template against one file's context, handed
/// over as the renderer's value tree, and returns the new filename.
/// For a registry that `compile_template` made, the result is exactly
/// the engine's outcome on the template text and the value: the
/// rendered name where the outcome exists, a `Render` error where the
/// engine refuses.
pub fn render_filename<'a>(
    tt: &tinytemplate::TinyTemplate<'a>,
    ctx: &serde_json::Value,
) -> (r: Result<String, Error>)
    ensures
        registered_main(*tt) matches Some(text) ==> (stock_formatters(*tt) ==> ((r is Ok
            <==> render_of(text, *ctx) is Some) && (r matches Ok(s) ==> Some(s@) == render_of(
            text,
            *ctx,
        )))),
        r matches Err(e) ==> e is Render,
{
    match template_render_main(tt, ctx) {
        Ok(s) => Ok(s),
        Err(msg) => Err(Error::Render(msg)),
    }
}

} // verus!
