use vstd::prelude::*;

pub mod application_prototype_domain;
pub mod design_system_domain;
pub mod design_system_to_stylesheet_domain;
pub mod stylesheet_lemmas;

verus! {

/// A workspace: its identifier and the directory that holds it.
#[derive(Debug, Clone)]
pub struct Workspace {
    pub workspace_id: String,
    pub workspace_path: String,
}

} // verus!
