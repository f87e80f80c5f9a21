use vstd::prelude::*;
use std::collections::HashMap;

verus! {

/// Naming scheme used to give every declaration of the merged program a unique name.
#[derive(PartialEq, Eq, Structural)]
pub enum ManglerKind {
    /// Encodes the module path into the name; injective by construction.
    Escape,
    /// Appends a hash of the module path to the name.
    Hash,
    /// Keeps the declared names as they are; the caller must rule out collisions.
    Passthrough,
}

/// The mangler used when the caller names none is the escaping one.
impl Default for ManglerKind {
    fn default() -> (r: ManglerKind)
        ensures
            r == ManglerKind::Escape,
    {
        ManglerKind::Escape
    }
}

/// A compilation request for the WESL pipeline.
pub struct WeslOptions {
    /// Module path and source text of each module; a later entry for a path replaces an
    /// earlier one.
    pub files: Vec<(String, String)>,
    /// Path of the root module.
    pub root: String,
    pub mangler: ManglerKind,
    /// Resolve import statements.
    pub imports: bool,
    /// Evaluate `@if` attributes against `features`.
    pub condcomp: bool,
    /// Remove declarations that no entry point reaches.
    pub strip: bool,
    /// Declarations kept by stripping; `None` keeps the entry points.
    pub entrypoints: Option<Vec<String>>,
    /// The feature table: flag name to value. A condition over a flag that the table
    /// lacks is left in the output unevaluated.
    pub features: HashMap<String, bool>,
    /// A const-expression to evaluate against the compiled program.
    pub eval: Option<String>,
}

/// A compilation request for the pass-by-pass pipeline.
pub struct NcthOptions {
    /// Module path and source text of each module; a path is bundled once, at its
    /// first entry.
    pub files: Vec<(String, String)>,
    /// Path of the root module.
    pub root: String,
    pub resolve: bool,
    pub normalize: bool,
    pub specialize: bool,
    pub dealias: bool,
    pub mangle: bool,
    pub flatten: bool,
}

} // verus!
