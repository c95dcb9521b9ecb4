use vstd::prelude::*;

verus! {

/// The story that shows text fields; it holds no state.
#[derive(Clone, Copy, Debug, PartialEq, Eq, Structural)]
pub struct UiTextFieldStory;

} // verus!
