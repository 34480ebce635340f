//! A verified model of a localization-driven, bidirectional (LTR/RTL) user
//! interface: a closed set of language codes, a localization table, semantic
//! direction tags on UI nodes, a one-time annotation pass that infers tags
//! from a freshly built scene, a style updater that rewrites concrete node
//! properties whenever the language changes, and the toggle control that
//! drives the language state.

pub mod annotate;
pub mod context;
pub mod control;
pub mod language;
pub mod laws;
pub mod localization;
pub mod node;
pub mod style;
