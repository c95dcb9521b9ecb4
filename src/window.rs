use vstd::prelude::*;
use crate::text::same_text;

verus! {

/// Who draws a window's frame and title bar.
#[derive(Clone, Copy, Debug, PartialEq, Eq, Structural)]
pub enum WindowDecorations {
    /// The windowing system draws them.
    Server,
    /// The application draws them itself.
    Client,
}

/// The decorations asked for by the value of the decorations environment
/// variable: `"server"` asks the windowing system to draw them; anything
/// else, or no value, leaves them to the application.
pub open spec fn decorations_for(value: Option<Seq<char>>) -> WindowDecorations {
    match value {
        Some(v) => if v == "server"@ {
            WindowDecorations::Server
        } else {
            WindowDecorations::Client
        },
        None => WindowDecorations::Client,
    }
}

/// Chooses window decorations from the value of the decorations environment
/// variable, if it is set.
pub fn window_decorations(value: Option<&str>) -> (r: WindowDecorations)
    ensures
        r == decorations_for(
            match value {
                Some(v) => Some(v@),
                None => None,
            },
        ),
{
    match value {
        Some(v) => {
            if same_text(v, "server") {
                WindowDecorations::Server
            } else {
                WindowDecorations::Client
            }
        },
        None => WindowDecorations::Client,
    }
}

/// Whether `i` is the first position of `ids` that holds `wanted`.
pub open spec fn is_first_match(ids: Seq<Option<u128>>, wanted: u128, i: int) -> bool {
    &&& 0 <= i < ids.len()
    &&& ids[i] == Some(wanted)
    &&& forall|j: int| 0 <= j < i ==> ids[j] != Some(wanted)
}

/// Picks the display a new window should open on: the first of the
/// connected displays (given by their identifiers, `None` where a display
/// could not report one) whose identifier is the requested one. No request,
/// or no display with that identifier, leaves the choice to the system.
pub fn display_for_window(display_ids: &Vec<Option<u128>>, wanted: Option<u128>) -> (r: Option<
    usize,
>)
    ensures
        match wanted {
            None => r is None,
            Some(w) => match r {
                Some(i) => is_first_match(display_ids@, w, i as int),
                None => forall|j: int|
                    0 <= j < display_ids@.len() ==> display_ids@[j] != Some(w),
            },
        },
{
    match wanted {
        None => None,
        Some(w) => {
            let mut i: usize = 0;
            while i < display_ids.len()
                invariant
                    wanted == Some(w),
                    i <= display_ids@.len(),
                    forall|j: int| 0 <= j < i ==> display_ids@[j] != Some(w),
                decreases display_ids@.len() - i,
            {
                if display_ids[i] == Some(w) {
                    return Some(i);
                }
                i = i + 1;
            }
            None
        },
    }
}

} // verus!
