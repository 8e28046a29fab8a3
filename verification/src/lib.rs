//! Turns a structured description of a résumé into LaTeX markup.
//!
//! The crate escapes free text for LaTeX ([`tex::sanitize`]), assembles the
//! escaped fields into a document ([`resume::Resume::to_tex`]), and decides
//! the steps of a build or of a watch session ([`pdf::Session`]). Reading
//! files, parsing the input and running a LaTeX engine are left to the caller.
//!
//! What escaping means is stated in [`escape`], and what holds of every
//! document, whatever its fields hold, in [`structure`].

pub mod cli;
pub mod escape;
pub mod filename;
pub mod pdf;
pub mod resume;
pub mod structure;
pub mod substitution;
pub mod tex;
pub mod texformat;
pub mod text;
