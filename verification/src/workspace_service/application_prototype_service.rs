use vstd::prelude::*;
use vstd::string::*;
use crate::infrastructure::kebab_case;
use crate::workspace_domain::application_prototype_domain::{
    ApplicationPrototypeMetadata, ApplicationPrototypeMetadataView, FrameMetadata,
    FrameMetadataView, FrameName, FrameNameError, FrameType,
};
use crate::workspace_repository::{find_frames_metadata, frames_of, DirectoryEntry};

verus! {

/// Why no application was found: none has this identifier.
#[derive(Debug)]
pub struct ApplicationNotFound {
    pub application_id: String,
}

impl ApplicationNotFound {
    /// The sentence that reports the fault.
    pub fn message(&self) -> (res: String)
        ensures
            res@ == "Application with ID "@ + self.application_id@ + " not found"@,
    {
        let mut out = String::from_str("Application with ID ");
        out.append(self.application_id.as_str());
        out.append(" not found");
        out
    }
}

/// The metadata of a new application prototype: no design system yet, and
/// no directory before the application is stored.
pub fn create_application_prototype(
    application_id: String,
    application_name: &str,
    description: Option<String>,
) -> (res: ApplicationPrototypeMetadata)
    ensures
        res@ == (ApplicationPrototypeMetadataView {
            application_id: application_id@,
            application_name: application_name@,
            description: description.deep_view(),
            design_system_id: None,
            application_path: Seq::empty(),
        }),
{
    ApplicationPrototypeMetadata {
        application_id,
        application_name: String::from_str(application_name),
        description,
        design_system_id: None,
        application_path: String::new(),
    }
}

/// Whether `i` is the first place in `applications` with the identifier `id`.
pub open spec fn first_with_id(
    applications: Seq<ApplicationPrototypeMetadataView>,
    id: Seq<char>,
    i: int,
) -> bool {
    &&& 0 <= i < applications.len()
    &&& applications[i].application_id == id
    &&& forall|k: int| 0 <= k < i ==> (#[trigger] applications[k]).application_id != id
}

/// Whether no application in `applications` has the identifier `id`.
pub open spec fn none_with_id(applications: Seq<ApplicationPrototypeMetadataView>, id: Seq<char>) -> bool {
    forall|k: int| 0 <= k < applications.len() ==> (#[trigger] applications[k]).application_id != id
}

/// The first of `applications` whose identifier is `application_id`.
pub fn find_application_by_id(
    applications: Vec<ApplicationPrototypeMetadata>,
    application_id: &str,
) -> (res: Result<ApplicationPrototypeMetadata, ApplicationNotFound>)
    ensures
        res is Ok <==> !none_with_id(applications.deep_view(), application_id@),
        res matches Ok(found) ==> exists|i: int|
            first_with_id(applications.deep_view(), application_id@, i) && found
                == applications@[i],
        res matches Err(error) ==> error.application_id@ == application_id@,
{
    let mut candidates = applications;
    let wanted = String::from_str(application_id);
    let n: usize = candidates.len();
    let mut i: usize = 0;
    while i < n
        invariant
            n == candidates.len(),
            i <= n,
            candidates == applications,
            wanted@ == application_id@,
            forall|k: int|
                0 <= k < i ==> (#[trigger] applications.deep_view()[k]).application_id
                    != application_id@,
        decreases n - i,
    {
        if candidates[i].application_id == wanted {
            let found = candidates.remove(i);
            proof {
                assert(first_with_id(applications.deep_view(), application_id@, i as int));
                assert(found == applications@[i as int]);
            }
            return Ok(found);
        }
        i = i + 1;
    }
    Err(ApplicationNotFound { application_id: wanted })
}

/// The components among the entries of the components directory of an
/// application.
pub fn find_components_by_application(entries: &Vec<DirectoryEntry>) -> (res: Vec<FrameMetadata>)
    ensures
        res.deep_view() == frames_of(entries.deep_view(), FrameType::Component),
{
    find_frames_metadata(entries, FrameType::Component)
}

/// The pages among the entries of the pages directory of an application.
pub fn find_pages_by_application(entries: &Vec<DirectoryEntry>) -> (res: Vec<FrameMetadata>)
    ensures
        res.deep_view() == frames_of(entries.deep_view(), FrameType::Page),
{
    find_frames_metadata(entries, FrameType::Page)
}

/// The frame of the given kind called `name`, before it has a file.
fn create_frame_metadata(name: &str, frame_type: FrameType) -> (res: Result<
    FrameMetadata,
    FrameNameError,
>)
    ensures
        res is Ok <==> kebab_case(name@),
        res matches Ok(frame) ==> frame@ == (FrameMetadataView {
            frame_name: name@,
            frame_path: Seq::empty(),
            frame_type,
        }),
        res matches Err(error) ==> error.name@ == name@,
{
    match FrameName::parse(String::from_str(name)) {
        Ok(frame_name) => Ok(FrameMetadata { frame_name, frame_path: String::new(), frame_type }),
        Err(error) => Err(error),
    }
}

/// The component called `component_name`, before it has a file. The name
/// must be in kebab case.
pub fn create_component(component_name: &str) -> (res: Result<FrameMetadata, FrameNameError>)
    ensures
        res is Ok <==> kebab_case(component_name@),
        res matches Ok(frame) ==> frame@ == (FrameMetadataView {
            frame_name: component_name@,
            frame_path: Seq::empty(),
            frame_type: FrameType::Component,
        }),
        res matches Err(error) ==> error.name@ == component_name@,
{
    create_frame_metadata(component_name, FrameType::Component)
}

/// The page called `page_name`, before it has a file. The name must be in
/// kebab case.
pub fn create_page(page_name: &str) -> (res: Result<FrameMetadata, FrameNameError>)
    ensures
        res is Ok <==> kebab_case(page_name@),
        res matches Ok(frame) ==> frame@ == (FrameMetadataView {
            frame_name: page_name@,
            frame_path: Seq::empty(),
            frame_type: FrameType::Page,
        }),
        res matches Err(error) ==> error.name@ == page_name@,
{
    create_frame_metadata(page_name, FrameType::Page)
}

} // verus!
