//! The project-metadata types the supervisor's collaborators exchange.
//!
//! These are plain data: what a project's metadata file declares about
//! a model's inputs, outputs and links, and the short form used when
//! projects are listed.  The embedding application fills them from disk
//! and serializes them at its edge; the library holds them as bare
//! values.

use std::collections::HashMap;
use vstd::prelude::*;

verus! {

/// One selectable option of a constrained input.
#[derive(Clone, Debug)]
pub struct ModelInputConstraintOption {
    pub value: String,
    pub label: Option<String>,
    pub description: Option<String>,
}

/// The options of a constrained input: bare strings or full options.
#[derive(Clone, Debug)]
pub enum ModelInputConstraintOptions {
    Strings(Vec<String>),
    Objects(Vec<ModelInputConstraintOption>),
}

/// The kind of one model input.
#[derive(Clone, Copy, Debug, PartialEq, Eq, Structural)]
pub enum ModelInputType {
    Float,
    Int,
    String,
    Category,
    Boolean,
    Textarea,
    File,
}

/// A named grouping of inputs, for presentation.
#[derive(Clone, Debug)]
pub struct ModelInputGrouping {
    pub grouping: String,
    pub description: String,
    pub inputs: Vec<String>,
}

/// One selectable option of a constrained output.
#[derive(Clone, Debug)]
pub struct ModelOutputOption {
    pub value: String,
    pub label: Option<String>,
    pub description: Option<String>,
}

/// The kind of one model output.
#[derive(Clone, Copy, Debug, PartialEq, Eq, Structural)]
pub enum ModelOutputType {
    Float,
    Int,
    String,
    Boolean,
}

/// The options of a constrained output: bare strings or full options.
#[derive(Clone, Debug)]
pub enum ModelOutputOptions {
    Strings(Vec<String>),
    Objects(Vec<ModelOutputOption>),
}

/// A link a model's documentation points at.
#[derive(Clone, Debug)]
pub struct ModelLinks {
    pub name: String,
    pub url: Option<String>,
    pub file_name: Option<String>,
}

/// The short form of a project's metadata, used when projects are
/// listed: the folder name and the identifying fields.
#[derive(Clone, Debug)]
pub struct ModelMetaShort {
    pub project_name: String,
    pub model_id: String,
    pub model_name: String,
    pub description: String,
    pub description_short: String,
    pub tags: Option<HashMap<String, String>>,
}

} // verus!
