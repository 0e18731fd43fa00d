//! Pathframe keeps workspaces of application prototypes and design systems,
//! and compiles a design system into a stylesheet.
//!
//! A design system comes in two shapes. The editor holds it as a document
//! whose colour tokens are references ([`design_system_domain`]); a workspace
//! holds it with its references resolved to custom properties
//! ([`workspace_domain::design_system_domain`]). Both compile to the same
//! kind of text: every token gives a pair of fragments, one for light and one
//! for dark mode, the pairs are combined side by side, and the two streams
//! are joined once, the dark one inside the only dark scope.
//!
//! Every function states what it returns over the view of its arguments, and
//! Verus proves it. The modules whose names end in `lemmas` hold what follows
//! for every design system.

pub mod compiler_service;
pub mod design_system_compiler;
pub mod design_system_domain;
pub mod design_system_lemmas;
pub mod design_system_stylesheet;
pub mod infrastructure;
pub mod ordered_entries;
pub mod reference_resolver;
pub mod text;
pub mod workspace_domain;
pub mod workspace_repository;
pub mod workspace_service;
