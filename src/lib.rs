//! A verified front end for the WESL shader compiler: compilation requests, the
//! choice of mangler and options handed to wesl, rendering of its diagnostics, and the
//! plan of the pass-by-pass pipeline (what to bundle, which passes run, in which order).

pub mod options;
pub mod compile;
pub mod ncth;
mod wesl_api;
