//! Renders structured data into a LaTeX document through a Handlebars
//! template: a text stage that substitutes the data into the template with
//! escaping switched off, and the error policy around it.
pub mod engine;
pub mod recipe;
pub mod render;
pub mod template;

pub use recipe::{HandlebarsHelper, TemplateRecipe, TexError};
pub use render::{artifact_outcome, build_engine, prepare_tex, text_outcome, write_outcome};
