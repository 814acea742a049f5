//! UI-side decisions: which pane has focus, the messages the UI loop sends
//! itself, selection and scroll-window arithmetic, and list slicing.
//!
//! Rendering and key reading are outside work; what they decide from is
//! verified here.

use vstd::prelude::*;

use core::ops::Range;
use vstd::slice::slice_subrange;

verus! {

/// Which pane of the interface owns the keyboard.
#[derive(Clone, Copy, PartialEq, Eq, Debug, Structural)]
pub enum Focusable {
    /// The file list.
    FileList,
    /// The change-directory prompt.
    Dir,
    /// The search prompt.
    Search,
}

/// A message the UI loop posts to itself and handles on its next tick.
#[derive(Clone, PartialEq, Eq, Debug)]
pub enum AppMessage {
    /// Select the list entry at this index.
    Select(usize),
    /// Move the selection by this many entries.
    SelectDelta(i64),
    /// Start playing a path, or resume the current track.
    Play(Option<String>),
    /// Pause the current track.
    Pause,
    /// Toggle between paused and playing.
    PlayPause,
    /// Advance to the track after the one playing.
    Next,
    /// Go back to the track before the one playing.
    Prev,
}

/// A transport event arriving from the system's media keys.
#[derive(Clone, Copy, PartialEq, Eq, Debug, Structural)]
pub enum MediaEvent {
    /// Toggle play/pause.
    Toggle,
    /// Start or resume playback.
    Play,
    /// Pause playback.
    Pause,
    /// Stop playback.
    Stop,
    /// Skip to the next track.
    Next,
    /// Skip to the previous track.
    Previous,
    /// Any other media event; the player ignores it.
    Other,
}

/// The message a media-key event turns into, if any: stop is treated as
/// pause, and events the player has no use for are dropped.
pub fn media_event_message(e: &MediaEvent) -> (r: Option<AppMessage>)
    ensures
        r == match *e {
            MediaEvent::Toggle => Some(AppMessage::PlayPause),
            MediaEvent::Play => Some(AppMessage::Play(None)),
            MediaEvent::Pause => Some(AppMessage::Pause),
            MediaEvent::Stop => Some(AppMessage::Pause),
            MediaEvent::Next => Some(AppMessage::Next),
            MediaEvent::Previous => Some(AppMessage::Prev),
            MediaEvent::Other => None::<AppMessage>,
        },
{
    match e {
        MediaEvent::Toggle => Some(AppMessage::PlayPause),
        MediaEvent::Play => Some(AppMessage::Play(None)),
        MediaEvent::Pause => Some(AppMessage::Pause),
        MediaEvent::Stop => Some(AppMessage::Pause),
        MediaEvent::Next => Some(AppMessage::Next),
        MediaEvent::Previous => Some(AppMessage::Prev),
        MediaEvent::Other => None,
    }
}

/// Where a selection lands: the requested index clamped to the list, the
/// scroll window slid just far enough to show it, and the selected row
/// within the window.
///
/// Returns `(selected, window_offset, row)`: `selected` is `index` clamped
/// to `list_len`; the window keeps its offset where the selection is already
/// visible, slides down to `selected - height` when the selection lies below
/// it, and never starts past the selection; `row` is the selection's
/// position inside the window.
pub fn select_position(index: usize, list_len: usize, height: usize, window_offset: usize) -> (r:
    (usize, usize, usize))
    ensures
        r.0 == vstd::math::min(index as int, list_len as int),
        r.1 == vstd::math::min(
            vstd::math::max(window_offset as int, r.0 - height),
            r.0 as int,
        ),
        r.2 == r.0 - r.1,
{
    let selected = if index < list_len {
        index
    } else {
        list_len
    };
    let slid = if selected > height && window_offset < selected - height {
        selected - height
    } else {
        window_offset
    };
    let offset = if slid < selected {
        slid
    } else {
        selected
    };
    (selected, offset, selected - offset)
}

/// The index a relative selection move lands on: the delta applied to the
/// current selection (an empty selection counts as the top), clamped at the
/// top of the list.
pub fn select_delta_index(selected: Option<usize>, delta: i64) -> (r: usize)
    requires
        (match selected {
            Some(s) => s as int,
            None => 0,
        }) + delta <= usize::MAX,
    ensures
        r == vstd::math::max(
            (match selected {
                Some(s) => s as int,
                None => 0,
            }) + delta,
            0,
        ),
{
    let s: usize = match selected {
        Some(s) => s,
        None => 0,
    };
    let moved: i128 = s as i128 + delta as i128;
    if moved < 0 {
        0
    } else {
        moved as usize
    }
}

/// The list rows the window shows: `height` entries starting at the window
/// offset.
pub fn view_range(window_offset: usize, height: usize) -> (r: Range<usize>)
    requires
        window_offset + height <= usize::MAX,
    ensures
        r.start == window_offset,
        r.end == window_offset + height,
{
    window_offset..(window_offset + height)
}

/// List slicing that tolerates a window hanging past the end of the list.
pub trait AquinasVec<T> {
    /// The elements of the collection, for specification.
    spec fn items(&self) -> Seq<T>;

    /// The elements under `range`, with both bounds clamped to the length,
    /// so a scroll window reaching past the end shows what is there.
    fn get_range(&self, range: &Range<usize>) -> (r: &[T])
        requires
            range.start <= range.end,
        ensures
            r@ == self.items().subrange(
                vstd::math::min(range.start as int, self.items().len() as int),
                vstd::math::min(range.end as int, self.items().len() as int),
            ),
    ;
}

impl<T> AquinasVec<T> for Vec<T> {
    open spec fn items(&self) -> Seq<T> {
        self@
    }

    fn get_range(&self, range: &Range<usize>) -> (r: &[T]) {
        let len = self.len();
        let lo = if range.start < len {
            range.start
        } else {
            len
        };
        let hi = if range.end < len {
            range.end
        } else {
            len
        };
        slice_subrange(self.as_slice(), lo, hi)
    }
}

} // verus!
