//! What a path gives to name its backup after, and the rules a target has to
//! meet.

use vstd::prelude::*;

use crate::error::BackupError;
use crate::error::InvalidPath;

verus! {

/// What asking a path for one of its parts yields.
#[derive(Debug)]
pub enum Segment {
    /// The path has no such part.
    Absent,
    /// The part is there, but it does not decode as text.
    Undecodable,
    /// The part, as text.
    Text(String),
}

/// A [`Segment`] with its text as a sequence of characters.
pub enum SegmentView {
    Absent,
    Undecodable,
    Text(Seq<char>),
}

impl View for Segment {
    type V = SegmentView;

    open spec fn view(&self) -> SegmentView {
        match self {
            Segment::Absent => SegmentView::Absent,
            Segment::Undecodable => SegmentView::Undecodable,
            Segment::Text(text) => SegmentView::Text(text@),
        }
    }
}

/// The shape of the path that is to be backed up: its parent directory and its
/// final segment.
#[derive(Debug)]
pub struct Target {
    /// The path without its final segment; empty text where the path is a
    /// bare name.
    pub parent: Segment,
    /// The final segment of the path.
    pub file_name: Segment,
}

/// A [`Target`] with its texts as sequences of characters.
pub struct TargetView {
    pub parent: SegmentView,
    pub file_name: SegmentView,
}

impl View for Target {
    type V = TargetView;

    open spec fn view(&self) -> TargetView {
        TargetView { parent: self.parent@, file_name: self.file_name@ }
    }
}

/// Where a backup goes and what it is named after: the outcome of a
/// successful validation.
#[derive(Debug)]
pub struct Place {
    /// The directory that holds the target and will hold the backup; as
    /// validation leaves it, it is never empty.
    pub parent: String,
    /// The name of the target within that directory.
    pub base: String,
}

/// A [`Place`] with its texts as sequences of characters.
pub struct PlaceView {
    pub parent: Seq<char>,
    pub base: Seq<char>,
}

impl View for Place {
    type V = PlaceView;

    open spec fn view(&self) -> PlaceView {
        PlaceView { parent: self.parent@, base: self.base@ }
    }
}

/// The parent directory that `std::path::Path::parent` finds in the path
/// written as `path`, on the platform the library is built for.
pub uninterp spec fn parent_of(path: Seq<char>) -> SegmentView;

/// The final segment that `std::path::Path::file_name` finds in the path
/// written as `path`, on the platform the library is built for.
pub uninterp spec fn file_name_of(path: Seq<char>) -> SegmentView;

/// The parent directory of `path`.
///
/// Calls `std::path::Path::parent` on the path made of `path` and decodes what
/// it finds with `Path::to_str`. Trusted: the result depends on the text of
/// the path alone.
#[verifier::external_body]
fn parent_segment(path: &str) -> (parent: Segment)
    ensures
        parent@ == parent_of(path@),
{
    match std::path::Path::new(path).parent() {
        None => Segment::Absent,
        Some(parent) => match parent.to_str() {
            None => Segment::Undecodable,
            Some(text) => Segment::Text(text.to_string()),
        },
    }
}

/// The final segment of `path`.
///
/// Calls `std::path::Path::file_name` on the path made of `path` and decodes
/// what it finds with `OsStr::to_str`. Trusted: the result depends on the text
/// of the path alone.
#[verifier::external_body]
fn file_name_segment(path: &str) -> (file_name: Segment)
    ensures
        file_name@ == file_name_of(path@),
{
    match std::path::Path::new(path).file_name() {
        None => Segment::Absent,
        Some(name) => match name.to_str() {
            None => Segment::Undecodable,
            Some(text) => Segment::Text(text.to_string()),
        },
    }
}

/// The target that the path written as `path` denotes.
pub open spec fn target_of(path: Seq<char>) -> TargetView {
    TargetView { parent: parent_of(path), file_name: file_name_of(path) }
}

/// The current-directory marker, which stands in for an empty parent.
pub open spec fn here() -> Seq<char> {
    seq!['.']
}

/// The rules a target has to meet, in the order in which they are checked:
/// it exists; it has a parent directory; the parent decodes as text; it has a
/// final segment; the final segment decodes as text. The first rule that is
/// broken decides the error. An empty parent becomes the current directory.
pub open spec fn validated(target: TargetView, exists: bool) -> Result<PlaceView, BackupError> {
    if !exists {
        Err(BackupError::NotFound)
    } else {
        match target.parent {
            SegmentView::Absent => Err(BackupError::InvalidPath(InvalidPath::Root)),
            SegmentView::Undecodable => Err(BackupError::InvalidPath(InvalidPath::NotText)),
            SegmentView::Text(parent) => match target.file_name {
                SegmentView::Absent => Err(BackupError::InvalidPath(InvalidPath::NoFileName)),
                SegmentView::Undecodable => Err(BackupError::InvalidPath(InvalidPath::NotText)),
                SegmentView::Text(base) => Ok(
                    PlaceView { parent: if parent.len() == 0 { here() } else { parent }, base },
                ),
            },
        }
    }
}

/// Whether `made` is the outcome `expected`, text for text.
pub open spec fn place_outcome_is(
    made: Result<Place, BackupError>,
    expected: Result<PlaceView, BackupError>,
) -> bool {
    match made {
        Ok(place) => expected == Ok::<PlaceView, BackupError>(place@),
        Err(error) => expected == Err::<PlaceView, BackupError>(error),
    }
}

/// Nothing but a missing target is reported as not found, and a missing
/// target is reported so whatever its shape.
pub proof fn not_found_means_missing(target: TargetView, exists: bool)
    ensures
        validated(target, exists) == Err::<PlaceView, BackupError>(BackupError::NotFound)
            <==> !exists,
{
}

/// A target that exists is backed up exactly if both its parent directory and
/// its final segment are there as text; the place then holds the two, with
/// the current directory for an empty parent.
pub proof fn valid_means_both_texts(target: TargetView)
    ensures
        validated(target, true) is Ok <==> target.parent is Text && target.file_name is Text,
        validated(target, true) matches Ok(place) ==> {
            &&& place.parent.len() > 0
            &&& place.base == target.file_name->Text_0
            &&& place.parent == target.parent->Text_0 || (target.parent->Text_0.len() == 0
                && place.parent == here())
        },
{
}

impl Target {
    /// Reads the shape of the path written as `path`.
    pub fn inspect(path: &str) -> (target: Target)
        ensures
            target@ == target_of(path@),
    {
        Target { parent: parent_segment(path), file_name: file_name_segment(path) }
    }
}

/// Checks `target` against the rules, given whether anything exists at it.
pub fn validate(target: Target, exists: bool) -> (made: Result<Place, BackupError>)
    ensures
        place_outcome_is(made, validated(target@, exists)),
{
    if !exists {
        return Err(BackupError::NotFound);
    }
    let parent = match target.parent {
        Segment::Absent => {
            return Err(BackupError::InvalidPath(InvalidPath::Root));
        },
        Segment::Undecodable => {
            return Err(BackupError::InvalidPath(InvalidPath::NotText));
        },
        Segment::Text(parent) => parent,
    };
    let base = match target.file_name {
        Segment::Absent => {
            return Err(BackupError::InvalidPath(InvalidPath::NoFileName));
        },
        Segment::Undecodable => {
            return Err(BackupError::InvalidPath(InvalidPath::NotText));
        },
        Segment::Text(base) => base,
    };
    if parent.as_str().is_empty() {
        proof {
            reveal_strlit(".");
        }
        let dot = ".".to_string();
        assert(dot@ =~= here());
        Ok(Place { parent: dot, base })
    } else {
        Ok(Place { parent, base })
    }
}

} // verus!
