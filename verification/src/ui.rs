//! The decisions of the windows: frame rates, recording modes, the selected
//! region and the status line.
use vstd::prelude::*;

use crate::recorder::Region;
use crate::text::string_of;

verus! {

/// The frame rates offered, in the order of the drop-down.
pub open spec fn fps_choices() -> Seq<u32> {
    seq![5, 10, 15, 20, 24, 30]
}

/// The frame rate for the drop-down position `index`; 15 when nothing valid is selected.
pub open spec fn fps_at(index: u32) -> u32 {
    if index < 6 {
        fps_choices()[index as int]
    } else {
        15
    }
}

/// The frame rate chosen at drop-down position `index`.
pub fn fps_for_selection(index: u32) -> (fps: u32)
    ensures
        fps == fps_at(index),
{
    let choices: [u32; 6] = [5, 10, 15, 20, 24, 30];
    if index < 6 {
        let i = index as usize;
        assert(choices@ == fps_choices());
        choices[i]
    } else {
        15
    }
}

/// The drop-down position selected at start, 15 fps.
pub fn default_fps_position() -> (p: u32)
    ensures
        p == 2,
        fps_at(p) == 15,
{
    2
}

/// What the user asked to record.
#[derive(Clone, Copy, Debug)]
pub enum RecordMode {
    /// The entire screen.
    Screen,
    /// A single window.
    Window,
    /// A region of the screen, chosen first.
    Region,
}

/// The source types the portal is asked for (1 monitor, 2 window).
pub open spec fn mode_source_types(mode: RecordMode) -> u32 {
    match mode {
        RecordMode::Window => 2,
        _ => 1,
    }
}

/// The source types the portal is asked for in a recording mode.
pub fn source_types_for(mode: RecordMode) -> (t: u32)
    ensures
        t == mode_source_types(mode),
{
    match mode {
        RecordMode::Window => 2,
        _ => 1,
    }
}

/// The region of a finished drag, given in physical pixels with its size
/// already made positive; a selection of ten pixels or less either way is dropped.
pub fn region_from_selection(x: i32, y: i32, width: i32, height: i32) -> (r: Option<Region>)
    ensures
        (width > 10 && height > 10) ==> r == Some(Region { x, y, width, height }),
        !(width > 10 && height > 10) ==> r is None,
        r matches Some(reg) ==> reg.width > 0 && reg.height > 0,
{
    if width > 10 && height > 10 {
        Some(Region { x, y, width, height })
    } else {
        None
    }
}

/// The status line after an error.
pub fn error_status(error: &str) -> (s: String)
    ensures
        s@ == "Error: "@ + error@,
{
    let mut s = string_of("Error: ");
    s.append(error);
    s
}

/// The status line after a stop: where the GIF was saved, or what went wrong.
pub fn stop_status(result: &Result<String, String>) -> (s: String)
    ensures
        match result {
            Ok(path) => s@ == "Saved: "@ + path@,
            Err(e) => s@ == "Error: "@ + e@,
        },
{
    match result {
        Ok(path) => {
            let mut s = string_of("Saved: ");
            s.append(path.as_str());
            s
        },
        Err(e) => error_status(e.as_str()),
    }
}

} // verus!
