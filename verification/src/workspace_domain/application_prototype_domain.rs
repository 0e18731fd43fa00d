use vstd::prelude::*;
use vstd::string::*;
use crate::infrastructure::{is_kebab_case, kebab_case};

verus! {

/// Metadata of an application prototype.
#[derive(Debug)]
pub struct ApplicationPrototypeMetadata {
    pub application_id: String,
    pub application_name: String,
    pub description: Option<String>,
    pub design_system_id: Option<String>,
    pub application_path: String,
}

/// The view of [`ApplicationPrototypeMetadata`]: its texts as sequences of characters.
pub struct ApplicationPrototypeMetadataView {
    pub application_id: Seq<char>,
    pub application_name: Seq<char>,
    pub description: Option<Seq<char>>,
    pub design_system_id: Option<Seq<char>>,
    pub application_path: Seq<char>,
}

impl View for ApplicationPrototypeMetadata {
    type V = ApplicationPrototypeMetadataView;

    open spec fn view(&self) -> ApplicationPrototypeMetadataView {
        ApplicationPrototypeMetadataView {
            application_id: self.application_id@,
            application_name: self.application_name@,
            description: self.description.deep_view(),
            design_system_id: self.design_system_id.deep_view(),
            application_path: self.application_path@,
        }
    }
}

impl DeepView for ApplicationPrototypeMetadata {
    type V = ApplicationPrototypeMetadataView;

    open spec fn deep_view(&self) -> ApplicationPrototypeMetadataView {
        self@
    }
}

impl Clone for ApplicationPrototypeMetadata {
    fn clone(&self) -> (res: ApplicationPrototypeMetadata)
        ensures
            res == *self,
    {
        ApplicationPrototypeMetadata {
            application_id: self.application_id.clone(),
            application_name: self.application_name.clone(),
            description: match &self.description {
                Some(text) => Some(text.clone()),
                None => None,
            },
            design_system_id: match &self.design_system_id {
                Some(text) => Some(text.clone()),
                None => None,
            },
            application_path: self.application_path.clone(),
        }
    }
}

/// The name of a frame: a kebab-case name, or no name yet.
#[derive(Debug)]
pub struct FrameName(String);

impl View for FrameName {
    type V = Seq<char>;

    closed spec fn view(&self) -> Seq<char> {
        self.0@
    }
}

impl DeepView for FrameName {
    type V = Seq<char>;

    open spec fn deep_view(&self) -> Seq<char> {
        self@
    }
}

/// Why a text is no frame name: it is not in kebab case.
#[derive(Debug)]
pub struct FrameNameError {
    pub name: String,
}

impl FrameNameError {
    /// The sentence that reports the fault.
    pub fn message(&self) -> (res: String)
        ensures
            res@ == "Fail to parse selector name in snake case: "@ + self.name@,
    {
        let mut out = String::from_str("Fail to parse selector name in snake case: ");
        out.append(self.name.as_str());
        out
    }
}

impl FrameName {
    #[verifier::type_invariant]
    spec fn well_formed(self) -> bool {
        kebab_case(self.0@) || self.0@.len() == 0
    }

    /// The frame name `name`, where `name` is in kebab case.
    pub fn parse(name: String) -> (res: Result<FrameName, FrameNameError>)
        ensures
            res is Ok <==> kebab_case(name@),
            res matches Ok(frame_name) ==> frame_name@ == name@,
            res matches Err(error) ==> error.name == name,
    {
        if is_kebab_case(name.as_str()) {
            return Ok(FrameName(name));
        }
        Err(FrameNameError { name })
    }

    /// The name as a text: in kebab case, or empty for a frame without a name.
    pub fn value(&self) -> (res: &str)
        ensures
            res@ == self@,
            kebab_case(res@) || res@.len() == 0,
    {
        proof {
            use_type_invariant(self);
        }
        self.0.as_str()
    }
}

impl Default for FrameName {
    /// The name of a frame that has no name yet.
    fn default() -> (res: FrameName)
        ensures
            res@.len() == 0,
    {
        FrameName(String::new())
    }
}

impl Clone for FrameName {
    fn clone(&self) -> (res: FrameName)
        ensures
            res@ == self@,
    {
        proof {
            use_type_invariant(self);
        }
        FrameName(self.0.clone())
    }
}

/// What a frame is in an application.
#[derive(Debug, Clone, Copy, PartialEq, Eq, Structural)]
pub enum FrameType {
    Layout,
    Page,
    Component,
}

/// A frame that is listed in an application: its name, its file and its kind.
#[derive(Debug)]
pub struct FrameMetadata {
    pub frame_name: FrameName,
    pub frame_path: String,
    pub frame_type: FrameType,
}

/// The view of [`FrameMetadata`]: its texts as sequences of characters.
pub struct FrameMetadataView {
    pub frame_name: Seq<char>,
    pub frame_path: Seq<char>,
    pub frame_type: FrameType,
}

impl View for FrameMetadata {
    type V = FrameMetadataView;

    open spec fn view(&self) -> FrameMetadataView {
        FrameMetadataView {
            frame_name: self.frame_name@,
            frame_path: self.frame_path@,
            frame_type: self.frame_type,
        }
    }
}

impl DeepView for FrameMetadata {
    type V = FrameMetadataView;

    open spec fn deep_view(&self) -> FrameMetadataView {
        self@
    }
}

impl Clone for FrameMetadata {
    fn clone(&self) -> (res: FrameMetadata)
        ensures
            res@ == self@,
    {
        FrameMetadata {
            frame_name: self.frame_name.clone(),
            frame_path: self.frame_path.clone(),
            frame_type: self.frame_type,
        }
    }
}

/// A frame with its template.
#[derive(Debug)]
pub struct Frame {
    pub template: String,
    pub frame_name: FrameName,
    pub frame_path: String,
    pub frame_type: FrameType,
}

/// The view of [`Frame`]: its texts as sequences of characters.
pub struct FrameView {
    pub template: Seq<char>,
    pub frame_name: Seq<char>,
    pub frame_path: Seq<char>,
    pub frame_type: FrameType,
}

impl View for Frame {
    type V = FrameView;

    open spec fn view(&self) -> FrameView {
        FrameView {
            template: self.template@,
            frame_name: self.frame_name@,
            frame_path: self.frame_path@,
            frame_type: self.frame_type,
        }
    }
}

/// The template that a new frame of the given kind starts with.
pub open spec fn preset_template(frame_type: FrameType) -> Seq<char> {
    match frame_type {
        FrameType::Layout => "<body></body>"@,
        FrameType::Page => "<main></main>"@,
        FrameType::Component => "<div></div>"@,
    }
}

impl Frame {
    /// The new frame that `frame_metadata` describes, with the template of
    /// its kind.
    pub fn from(frame_metadata: FrameMetadata) -> (res: Frame)
        ensures
            res@ == (FrameView {
                template: preset_template(frame_metadata@.frame_type),
                frame_name: frame_metadata@.frame_name,
                frame_path: frame_metadata@.frame_path,
                frame_type: frame_metadata@.frame_type,
            }),
    {
        let template = match frame_metadata.frame_type {
            FrameType::Layout => String::from_str("<body></body>"),
            FrameType::Page => String::from_str("<main></main>"),
            FrameType::Component => String::from_str("<div></div>"),
        };
        Frame {
            template,
            frame_path: frame_metadata.frame_path,
            frame_type: frame_metadata.frame_type,
            frame_name: frame_metadata.frame_name,
        }
    }
}

/// An application prototype with the frames that it holds.
#[derive(Debug)]
pub struct ApplicationPrototype {
    pub application_prototype_metadata: ApplicationPrototypeMetadata,
    pub components: Vec<FrameMetadata>,
    pub pages: Vec<FrameMetadata>,
}

/// The view of [`ApplicationPrototype`]: its texts as sequences of characters.
pub struct ApplicationPrototypeView {
    pub application_prototype_metadata: ApplicationPrototypeMetadataView,
    pub components: Seq<FrameMetadataView>,
    pub pages: Seq<FrameMetadataView>,
}

impl View for ApplicationPrototype {
    type V = ApplicationPrototypeView;

    open spec fn view(&self) -> ApplicationPrototypeView {
        ApplicationPrototypeView {
            application_prototype_metadata: self.application_prototype_metadata@,
            components: self.components.deep_view(),
            pages: self.pages.deep_view(),
        }
    }
}

} // verus!
