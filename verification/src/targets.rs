//! The targets the `list` subcommand can name, and their groups.

use vstd::prelude::*;

verus! {

/// What the command line may ask to list. Several spellings name the same
/// group.
#[derive(Debug, Clone, Copy, PartialEq, Eq, Structural)]
pub enum ListTarget {
    Seat,
    Seats,
    Output,
    Outputs,
    Backend,
    Backends,
    Command,
    Commands,
    Media,
    Static,
    Image,
    Images,
    Animated,
    Video,
    Videos,
}

pub const SEAT: [ListTarget; 2] = [ListTarget::Seat, ListTarget::Seats];

pub const OUTPUT: [ListTarget; 2] = [ListTarget::Output, ListTarget::Outputs];

pub const HELP: [ListTarget; 2] = [ListTarget::Command, ListTarget::Commands];

pub const BACKEND: [ListTarget; 2] = [ListTarget::Backend, ListTarget::Backends];

pub const STATIC_MEDIA: [ListTarget; 3] = [ListTarget::Static, ListTarget::Image, ListTarget::Images];

pub const ANIMATED_MEDIA: [ListTarget; 3] = [
    ListTarget::Animated,
    ListTarget::Video,
    ListTarget::Videos,
];

/// The targets that list files and so need a media path.
pub open spec fn spec_requires_media_path(t: ListTarget) -> bool {
    t is Media || t is Static || t is Image || t is Images || t is Animated || t is Video
        || t is Videos
}

impl ListTarget {
    /// Whether listing this target needs a media path to scan.
    pub fn requires_media_path(&self) -> (r: bool)
        ensures
            r == spec_requires_media_path(*self),
    {
        matches!(
            self,
            ListTarget::Media | ListTarget::Static | ListTarget::Image | ListTarget::Images
                | ListTarget::Animated | ListTarget::Video | ListTarget::Videos
        )
    }

    /// Whether this target belongs to the given group.
    pub fn is_in(&self, group: &[ListTarget]) -> (r: bool)
        ensures
            r == group@.contains(*self),
    {
        let mut i: usize = 0;
        while i < group.len()
            invariant
                i <= group@.len(),
                forall|j: int| 0 <= j < i ==> group@[j] != *self,
            decreases group@.len() - i,
        {
            if group[i] == *self {
                return true;
            }
            i += 1;
        }
        false
    }
}

} // verus!
