use vstd::prelude::*;
use vstd::string::*;
use crate::infrastructure::kebab_case;
use crate::workspace_domain::application_prototype_domain::{
    FrameMetadata, FrameMetadataView, FrameName, FrameType,
};

verus! {

/// What is known of one entry of a directory: its path and, where its file
/// name has them, the stem and the extension of that name.
#[derive(Debug)]
pub struct DirectoryEntry {
    pub path: String,
    pub file_stem: Option<String>,
    pub extension: Option<String>,
}

/// The view of [`DirectoryEntry`]: its texts as sequences of characters.
pub struct DirectoryEntryView {
    pub path: Seq<char>,
    pub file_stem: Option<Seq<char>>,
    pub extension: Option<Seq<char>>,
}

impl View for DirectoryEntry {
    type V = DirectoryEntryView;

    open spec fn view(&self) -> DirectoryEntryView {
        DirectoryEntryView {
            path: self.path@,
            file_stem: self.file_stem.deep_view(),
            extension: self.extension.deep_view(),
        }
    }
}

impl DeepView for DirectoryEntry {
    type V = DirectoryEntryView;

    open spec fn deep_view(&self) -> DirectoryEntryView {
        self@
    }
}

/// The directory of an application that holds the frames of the given kind;
/// the layout lies in the directory of the application itself.
pub open spec fn frame_uri(frame_type: FrameType) -> Seq<char> {
    match frame_type {
        FrameType::Component => "components"@,
        FrameType::Page => "pages"@,
        FrameType::Layout => ""@,
    }
}

/// The directory of an application that holds the frames of the given kind.
pub fn get_frame_uri(frame_type: &FrameType) -> (res: &'static str)
    ensures
        res@ == frame_uri(*frame_type),
{
    match frame_type {
        FrameType::Component => "components",
        FrameType::Page => "pages",
        FrameType::Layout => "",
    }
}

/// The name of the file that holds the frame called `frame_name`.
pub fn frame_file_name(frame_name: &FrameName) -> (res: String)
    ensures
        res@ == frame_name@ + ".html"@,
{
    let mut out = String::from_str(frame_name.value());
    out.append(".html");
    out
}

/// Whether a directory entry is the file of a frame: an `html` file whose
/// stem is a kebab-case name.
pub open spec fn is_frame_file(entry: DirectoryEntryView) -> bool {
    &&& entry.extension == Some("html"@)
    &&& entry.file_stem matches Some(stem) && kebab_case(stem)
}

/// The frame of the given kind that a frame file holds.
pub open spec fn frame_of(entry: DirectoryEntryView, frame_type: FrameType) -> FrameMetadataView {
    FrameMetadataView { frame_name: entry.file_stem->0, frame_path: entry.path, frame_type }
}

/// The frames that the frame files among `entries` hold, in the order of
/// the entries.
pub open spec fn frames_of(entries: Seq<DirectoryEntryView>, frame_type: FrameType) -> Seq<
    FrameMetadataView,
>
    decreases entries.len(),
{
    if entries.len() == 0 {
        Seq::empty()
    } else if is_frame_file(entries.last()) {
        frames_of(entries.drop_last(), frame_type).push(frame_of(entries.last(), frame_type))
    } else {
        frames_of(entries.drop_last(), frame_type)
    }
}

/// The frame that a directory entry holds, if it is a frame file.
fn frame_from_entry(entry: &DirectoryEntry, frame_type: FrameType) -> (res: Option<FrameMetadata>)
    ensures
        res is Some <==> is_frame_file(entry@),
        res matches Some(frame) ==> frame@ == frame_of(entry@, frame_type),
{
    let html = String::from_str("html");
    match &entry.extension {
        Some(extension) => {
            if *extension != html {
                return None;
            }
        },
        None => {
            return None;
        },
    }
    match &entry.file_stem {
        Some(stem) => {
            match FrameName::parse(stem.clone()) {
                Ok(frame_name) => Some(
                    FrameMetadata { frame_name, frame_path: entry.path.clone(), frame_type },
                ),
                Err(_) => None,
            }
        },
        None => None,
    }
}

/// The frames of the given kind among the entries of a directory: one for
/// each `html` file whose stem is a kebab-case name, in the order of the
/// entries.
pub fn find_frames_metadata(entries: &Vec<DirectoryEntry>, frame_type: FrameType) -> (res: Vec<
    FrameMetadata,
>)
    ensures
        res.deep_view() == frames_of(entries.deep_view(), frame_type),
{
    let mut frames: Vec<FrameMetadata> = Vec::new();
    let n: usize = entries.len();
    let mut i: usize = 0;
    proof {
        assert(entries.deep_view().take(0) =~= Seq::empty());
        assert(frames.deep_view() =~= Seq::empty());
    }
    while i < n
        invariant
            n == entries.len(),
            i <= n,
            frames.deep_view() == frames_of(entries.deep_view().take(i as int), frame_type),
        decreases n - i,
    {
        let ghost before = frames.deep_view();
        proof {
            let next = entries.deep_view().take(i + 1);
            assert(next.drop_last() =~= entries.deep_view().take(i as int));
            assert(next.last() == entries@[i as int]@);
        }
        match frame_from_entry(&entries[i], frame_type) {
            Some(frame) => {
                frames.push(frame);
                proof {
                    assert(frames.deep_view() =~= before.push(
                        frame_of(entries@[i as int]@, frame_type),
                    ));
                }
            },
            None => {},
        }
        i = i + 1;
    }
    proof {
        assert(entries.deep_view().take(n as int) =~= entries.deep_view());
    }
    frames
}

} // verus!
