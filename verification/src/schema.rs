//! Data model of the dynamic wallpaper description file.
//!
//! A description document is a `<background>` element holding first a
//! `<starttime>` block and then alternating `<static>` and `<transition>`
//! entries.  The deserializer that reads the XML text lives outside the
//! library; it hands over this plain representation, with every duration
//! already converted to whole milliseconds.

use vstd::prelude::*;

verus! {

/// The root element of a wallpaper description: the ordered list of its
/// child entries.
pub struct Background {
    pub images: Vec<Image>,
}

/// One child entry of a `<background>` element.
pub enum Image {
    /// The anchor wall-clock time the schedule starts at.
    StartTime { year: u32, month: u32, day: u32, hour: u32, minute: u32, second: u32 },
    /// A still image held for a duration.
    Static { duration_millis: u64, file: String },
    /// A cross-fade from the preceding still image to `to`.
    Transition { kind: String, duration_millis: u64, from: String, to: String },
}

} // verus!
