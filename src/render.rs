//! The text stage: a fresh registry per call, escaping off, the recipe's
//! helpers registered in order, then the substitution itself.
use vstd::prelude::*;
use crate::engine::{
    custom_helpers, disable_escaping, enable_strict_mode, escapes_verbatim, new_registry,
    register_helper, render_template, rendered, settings_as_new, strict_lookup,
};
use crate::template::{calls_partial, scan_partial};
use crate::recipe::{TemplateRecipe, TexError};

verus! {

/// A fresh registry for one call: values are inserted verbatim, a value that
/// the data lacks is an error, no other setting is changed, and the helpers
/// registered beyond the built-in ones are exactly the recipe's, in the
/// recipe's order (a later helper of a name replaces an earlier one). Which
/// function stands under each name is not stated: the registry's model holds
/// names only.
pub fn build_engine<F>(recipe: &TemplateRecipe<F>) -> (reg: handlebars::Handlebars<'static>)
    where F: handlebars::HelperDef + Clone + Send + Sync + 'static,
    ensures
        escapes_verbatim(reg),
        strict_lookup(reg),
        settings_as_new(reg),
        custom_helpers(reg) == recipe.helper_names().to_set(),
{
    let mut reg = new_registry();
    disable_escaping(&mut reg);
    enable_strict_mode(&mut reg);
    match &recipe.helpers {
        Some(hs) => {
            let mut i: usize = 0;
            while i < hs.len()
                invariant
                    i <= hs@.len(),
                    recipe.helpers == Some(*hs),
                    escapes_verbatim(reg),
                    strict_lookup(reg),
                    settings_as_new(reg),
                    custom_helpers(reg) == recipe.helper_names().take(i as int).to_set(),
                decreases hs@.len() - i,
            {
                register_helper(&mut reg, hs[i].name.as_str(), &hs[i].func);
                proof {
                    let names = recipe.helper_names();
                    assert(names.take(i + 1) == names.take(i as int).push(names[i as int]));
                    names.take(i as int).lemma_push_to_set_commute(names[i as int]);
                }
                i = i + 1;
            }
            proof {
                assert(recipe.helper_names().take(i as int) == recipe.helper_names());
            }
        },
        None => {
            proof {
                assert(recipe.helper_names().to_set() =~= Set::<Seq<char>>::empty());
            }
        },
    }
    reg
}

/// What the text stage returns for what the engine handed back: the text as
/// it is, or the engine's message as a rendering failure.
pub fn text_outcome(engine_result: Result<String, String>) -> (r: Result<String, TexError>)
    ensures
        engine_result matches Ok(t) ==> r matches Ok(u) && u@ == t@,
        engine_result matches Err(m) ==> r matches Err(TexError::Render(n)) && n@ == m@,
{
    match engine_result {
        Ok(t) => Ok(t),
        Err(m) => Err(TexError::Render(m)),
    }
}

/// What an outcome of the text stage says once the template was read: its
/// text, or the engine's message; `None` for any other outcome.
pub open spec fn text_view(r: Result<String, TexError>) -> Option<Result<Seq<char>, Seq<char>>> {
    match r {
        Ok(t) => Some(Ok(t@)),
        Err(TexError::Render(m)) => Some(Err(m@)),
        Err(_) => None,
    }
}

/// Renders the recipe's data into the template text read from its template
/// path (`None` where it could not be read). A template that opens a partial
/// is refused. Otherwise, without custom helpers the outcome is the engine's
/// rendering of that text and data; with them it also depends on the
/// helpers' code.
pub fn prepare_tex<F>(recipe: &TemplateRecipe<F>, source: Option<String>) -> (r: Result<String, TexError>)
    where F: handlebars::HelperDef + Clone + Send + Sync + 'static,
    ensures
        source is None <==> r == Err::<String, TexError>(TexError::TemplateUnreadable),
        source is Some && calls_partial(source->Some_0@)
            <==> r == Err::<String, TexError>(TexError::PartialCall),
        source is Some && !calls_partial(source->Some_0@) ==> text_view(r) is Some,
        source is Some && !calls_partial(source->Some_0@) && recipe.helper_names().len() == 0
            ==> text_view(r) == Some(rendered(source->Some_0@, recipe.data)),
{
    match source {
        None => Err(TexError::TemplateUnreadable),
        Some(text) => {
            if scan_partial(text.as_str().as_bytes()) {
                return Err(TexError::PartialCall);
            }
            let reg = build_engine(recipe);
            let outcome = render_template(&reg, text.as_str(), &recipe.data);
            proof {
                if recipe.helper_names().len() == 0 {
                    assert(recipe.helper_names().to_set() =~= Set::<Seq<char>>::empty());
                }
            }
            text_outcome(outcome)
        },
    }
}

/// What the artifact stage returns for what the LaTeX backend handed back:
/// the document's bytes as they are, or the backend's message as a
/// compilation failure.
pub fn artifact_outcome(compiled: Result<Vec<u8>, String>) -> (r: Result<Vec<u8>, TexError>)
    ensures
        compiled matches Ok(b) ==> r matches Ok(c) && c@ == b@,
        compiled matches Err(m) ==> r matches Err(TexError::Compile(n)) && n@ == m@,
{
    match compiled {
        Ok(b) => Ok(b),
        Err(m) => Err(TexError::Compile(m)),
    }
}

/// What a stage that persists a file returns for what the write handed back:
/// success, or the system's message as a write failure.
pub fn write_outcome(written: Result<(), String>) -> (r: Result<(), TexError>)
    ensures
        written is Ok ==> r is Ok,
        written matches Err(m) ==> r matches Err(TexError::Write(n)) && n@ == m@,
{
    match written {
        Ok(()) => Ok(()),
        Err(m) => Err(TexError::Write(m)),
    }
}

} // verus!

verus! {

/// Rendering is repeatable: for a recipe without custom helpers, any two
/// outcomes that the text stage may give on the same template text carry the
/// same text, or the same failure.
pub proof fn lemma_text_stage_repeatable<F>(
    recipe: &TemplateRecipe<F>,
    source: Seq<char>,
    first: Result<String, TexError>,
    second: Result<String, TexError>,
)
    requires
        recipe.helper_names().len() == 0,
        text_view(first) == Some(rendered(source, recipe.data)),
        text_view(second) == Some(rendered(source, recipe.data)),
    ensures
        first is Ok <==> second is Ok,
        first matches Ok(a) ==> second matches Ok(b) && a@ == b@,
        first matches Err(TexError::Render(m))
            ==> second matches Err(TexError::Render(n)) && m@ == n@,
{
}

} // verus!
