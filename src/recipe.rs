//! What one rendering request is made of, and how it can fail.
use vstd::prelude::*;

verus! {

#[derive(Clone)]
/// A custom substitution function, invocable from a template by its name.
pub struct HandlebarsHelper<F> {
    pub name: String,
    pub func: F,
}

/// A rendering request: where the template is read from, where the document
/// goes, the data substituted into the template (in its serialized form), and
/// the custom helpers to register before rendering.
pub struct TemplateRecipe<F> {
    pub template: String,
    pub output: String,
    pub data: handlebars::JsonValue,
    pub helpers: Option<Vec<HandlebarsHelper<F>>>,
}

/// Why a rendering request failed.
pub enum TexError {
    /// The template file could not be read.
    TemplateUnreadable,
    /// The template opens a partial, which is not supported.
    PartialCall,
    /// The engine rejected the template or could not substitute the data; the
    /// engine's message.
    Render(String),
    /// The LaTeX backend could not compile the text; the backend's message.
    Compile(String),
    /// The document could not be written; the system's message.
    Write(String),
}

impl TexError {
    /// The message carried by this error, or a fixed one for an unreadable
    /// template.
    pub fn message(&self) -> (r: String)
        ensures
            self matches TexError::Render(m) ==> r@ == m@,
            self matches TexError::Compile(m) ==> r@ == m@,
            self matches TexError::Write(m) ==> r@ == m@,
    {
        match self {
            TexError::TemplateUnreadable => String::from_str("cannot read template file"),
            TexError::PartialCall => String::from_str("template partials are not supported"),
            TexError::Render(m) => m.clone(),
            TexError::Compile(m) => m.clone(),
            TexError::Write(m) => m.clone(),
        }
    }
}

impl<F> TemplateRecipe<F> {
    /// The names of the recipe's helpers, in order; empty where it has none.
    pub open spec fn helper_names(&self) -> Seq<Seq<char>> {
        match self.helpers {
            Some(hs) => hs@.map_values(|h: HandlebarsHelper<F>| h.name@),
            None => Seq::empty(),
        }
    }
}

} // verus!
