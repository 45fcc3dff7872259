//! The Handlebars registry, seen through the few operations the text stage
//! needs, and the names used to speak of its state.
use vstd::prelude::*;
use crate::template::calls_partial;

verus! {

#[verifier::external_type_specification]
#[verifier::external_body]
pub struct ExHandlebars<'reg>(handlebars::Handlebars<'reg>);

#[verifier::external_type_specification]
#[verifier::external_body]
pub struct ExJsonValue(handlebars::JsonValue);

/// The names under which helpers were registered since the registry was
/// made; the built-in helpers are not among them unless registered again.
pub uninterp spec fn custom_helpers(reg: handlebars::Handlebars<'static>) -> Set<Seq<char>>;

/// Whether the registry inserts substituted values unchanged.
pub uninterp spec fn escapes_verbatim(reg: handlebars::Handlebars<'static>) -> bool;

/// Whether a value that the data lacks is a rendering error rather than
/// empty text.
pub uninterp spec fn strict_lookup(reg: handlebars::Handlebars<'static>) -> bool;

/// Whether every setting other than the helpers, the escape function and the
/// strict mode is as `Handlebars::new` left it: no templates, only the
/// built-in decorators, no dev mode, no recursive lookup, indentation of
/// partials kept.
pub uninterp spec fn settings_as_new(reg: handlebars::Handlebars<'static>) -> bool;

/// What `Handlebars::render_template` hands back for a template text and data
/// on a registry that has only the built-in helpers, inserts values verbatim,
/// is in strict mode and has all its other settings as `Handlebars::new` left
/// them: the rendered text, or the message of the engine's error.
pub uninterp spec fn rendered(template: Seq<char>, data: handlebars::JsonValue) -> Result<Seq<char>, Seq<char>>;

/// The text or message of what the engine handed back.
pub open spec fn render_view(r: Result<String, String>) -> Result<Seq<char>, Seq<char>> {
    match r {
        Ok(t) => Ok(t@),
        Err(m) => Err(m@),
    }
}

/// Relies on `Handlebars::new`: a registry holding only the built-in helpers,
/// with the default HTML escaping.
#[verifier::external_body]
pub(crate) fn new_registry() -> (r: handlebars::Handlebars<'static>)
    ensures
        custom_helpers(r) == Set::<Seq<char>>::empty(),
        !escapes_verbatim(r),
        !strict_lookup(r),
        settings_as_new(r),
{
    handlebars::Handlebars::new()
}

/// Relies on `Handlebars::register_escape_fn` with `handlebars::no_escape`,
/// which returns its input unchanged; every other setting is left as it was.
#[verifier::external_body]
pub(crate) fn disable_escaping(reg: &mut handlebars::Handlebars<'static>)
    ensures
        escapes_verbatim(*final(reg)),
        custom_helpers(*final(reg)) == custom_helpers(*old(reg)),
        strict_lookup(*final(reg)) == strict_lookup(*old(reg)),
        settings_as_new(*final(reg)) == settings_as_new(*old(reg)),
{
    reg.register_escape_fn(handlebars::no_escape)
}

/// Relies on `Handlebars::register_helper`: inserts the helper under its name
/// in the registry's helper map, replacing any earlier one of that name;
/// every other setting is left as it was.
#[verifier::external_body]
pub(crate) fn register_helper<F>(reg: &mut handlebars::Handlebars<'static>, name: &str, f: &F)
    where F: handlebars::HelperDef + Clone + Send + Sync + 'static,
    ensures
        custom_helpers(*final(reg)) == custom_helpers(*old(reg)).insert(name@),
        escapes_verbatim(*final(reg)) == escapes_verbatim(*old(reg)),
        strict_lookup(*final(reg)) == strict_lookup(*old(reg)),
        settings_as_new(*final(reg)) == settings_as_new(*old(reg)),
{
    reg.register_helper(name, Box::new(f.clone()))
}

/// Relies on `Handlebars::set_strict_mode(true)`: a value that the data lacks
/// becomes a rendering error; every other setting is left as it was.
#[verifier::external_body]
pub(crate) fn enable_strict_mode(reg: &mut handlebars::Handlebars<'static>)
    ensures
        strict_lookup(*final(reg)),
        escapes_verbatim(*final(reg)) == escapes_verbatim(*old(reg)),
        custom_helpers(*final(reg)) == custom_helpers(*old(reg)),
        settings_as_new(*final(reg)) == settings_as_new(*old(reg)),
{
    reg.set_strict_mode(true)
}

/// Relies on `Handlebars::render_template`: compiles the template text and
/// renders it against the data; a failure is handed back as the engine's
/// message. Where custom helpers are registered, what comes out also depends
/// on their code, so nothing is stated of it then. A template that opens a
/// partial is not handed over: an inline partial that includes itself makes
/// the engine recurse without end.
#[verifier::external_body]
pub(crate) fn render_template(
    reg: &handlebars::Handlebars<'static>,
    template: &str,
    data: &handlebars::JsonValue,
) -> (r: Result<String, String>)
    requires
        !calls_partial(template@),
    ensures
        custom_helpers(*reg) == Set::<Seq<char>>::empty() && escapes_verbatim(*reg)
            && strict_lookup(*reg) && settings_as_new(*reg)
            ==> render_view(r) == rendered(template@, *data),
{
    reg.render_template(template, data).map_err(|e| e.to_string())
}

} // verus!
