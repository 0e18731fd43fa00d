use vstd::prelude::*;
use vstd::string::*;
use crate::compiler_service::{design_system_to_stylesheet as compile, CompileError, CompileErrorView};
use crate::workspace_domain::design_system_domain::{DesignSystem, DesignSystemView};

verus! {

/// Why a design system of a workspace has no stylesheet.
#[derive(Debug)]
pub enum DesignSystemError {
    /// The workspace holds no design system with this identifier.
    NotFound(String),
    /// The design system has a fault.
    Compile(CompileError),
}

/// The view of [`DesignSystemError`]: its texts as sequences of characters.
pub enum DesignSystemErrorView {
    NotFound(Seq<char>),
    Compile(CompileErrorView),
}

impl View for DesignSystemError {
    type V = DesignSystemErrorView;

    open spec fn view(&self) -> DesignSystemErrorView {
        match self {
            DesignSystemError::NotFound(id) => DesignSystemErrorView::NotFound(id@),
            DesignSystemError::Compile(error) => DesignSystemErrorView::Compile(error@),
        }
    }
}

/// The sentence that reports that no design system has the identifier `id`.
pub open spec fn not_found_message(id: Seq<char>) -> Seq<char> {
    "Design system with ID "@ + id + " not found"@
}

/// Writes the sentence that reports that no design system has the identifier `id`.
pub fn write_not_found_message(id: &str) -> (res: String)
    ensures
        res@ == not_found_message(id@),
{
    let mut out = String::from_str("Design system with ID ");
    out.append(id);
    out.append(" not found");
    out
}

/// Whether `i` is the first place in `design_systems` with the identifier `id`.
pub open spec fn first_with_id(design_systems: Seq<DesignSystemView>, id: Seq<char>, i: int) -> bool {
    &&& 0 <= i < design_systems.len()
    &&& design_systems[i].design_system_id == id
    &&& forall|k: int| 0 <= k < i ==> (#[trigger] design_systems[k]).design_system_id != id
}

/// Whether no design system in `design_systems` has the identifier `id`.
pub open spec fn none_with_id(design_systems: Seq<DesignSystemView>, id: Seq<char>) -> bool {
    forall|k: int|
        0 <= k < design_systems.len() ==> (#[trigger] design_systems[k]).design_system_id != id
}

/// The place of the first design system with the identifier `design_system_id`.
fn position_of(design_systems: &Vec<DesignSystem>, design_system_id: &str) -> (res: Option<usize>)
    ensures
        match res {
            Some(i) => first_with_id(design_systems.deep_view(), design_system_id@, i as int),
            None => none_with_id(design_systems.deep_view(), design_system_id@),
        },
{
    let wanted = String::from_str(design_system_id);
    let n: usize = design_systems.len();
    let mut i: usize = 0;
    while i < n
        invariant
            n == design_systems.len(),
            i <= n,
            wanted@ == design_system_id@,
            forall|k: int|
                0 <= k < i ==> (#[trigger] design_systems.deep_view()[k]).design_system_id
                    != design_system_id@,
        decreases n - i,
    {
        if design_systems[i].design_system_id == wanted {
            return Some(i);
        }
        i = i + 1;
    }
    None
}

/// The first of `design_systems` whose identifier is `design_system_id`.
pub fn find_design_system_by_id(design_systems: Vec<DesignSystem>, design_system_id: &str) -> (res:
    Result<DesignSystem, DesignSystemError>)
    ensures
        res is Ok <==> !none_with_id(design_systems.deep_view(), design_system_id@),
        res matches Ok(found) ==> exists|i: int|
            first_with_id(design_systems.deep_view(), design_system_id@, i) && found
                == design_systems@[i],
        res matches Err(error) ==> error@ == DesignSystemErrorView::NotFound(design_system_id@),
{
    let mut candidates = design_systems;
    match position_of(&candidates, design_system_id) {
        Some(i) => {
            let found = candidates.remove(i);
            proof {
                assert(first_with_id(design_systems.deep_view(), design_system_id@, i as int));
                assert(found == design_systems@[i as int]);
            }
            Ok(found)
        },
        None => Err(DesignSystemError::NotFound(String::from_str(design_system_id))),
    }
}

/// The stylesheet of the first of `design_systems` whose identifier is
/// `design_system_id`, where there is one and it has no fault.
pub fn design_system_to_stylesheet(design_systems: Vec<DesignSystem>, design_system_id: &str) -> (res:
    Result<String, DesignSystemError>)
    ensures
        none_with_id(design_systems.deep_view(), design_system_id@) ==> (res matches Err(error)
            && error@ == DesignSystemErrorView::NotFound(design_system_id@)),
        forall|i: int|
            first_with_id(design_systems.deep_view(), design_system_id@, i) ==> {
                let found = design_systems@[i]@;
                &&& res is Ok <==> found.valid()
                &&& res matches Ok(text) ==> text@ == found.stylesheet()
                &&& res matches Err(error) ==> (error@ matches DesignSystemErrorView::Compile(fault)
                    && found.first_fault(fault))
            },
{
    match find_design_system_by_id(design_systems, design_system_id) {
        Ok(design_system) => {
            match compile(&design_system) {
                Ok(text) => Ok(text),
                Err(error) => Err(DesignSystemError::Compile(error)),
            }
        },
        Err(error) => Err(error),
    }
}

} // verus!
