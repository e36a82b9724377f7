//! The lines of text that tell an operator what a session is doing.

use crate::geometry::Scalar;
use vstd::prelude::*;
use vstd::string::StringExecFns;

verus! {

/// Number of decimals the frame rate is shown with.
pub const FPS_DECIMALS: usize = 2;

/// Number of decimals the speed is shown with.
pub const SPEED_DECIMALS: usize = 3;

/// The status of a session, one line for each thing shown.
pub struct Status {
    /// The frame rate.
    pub fps: String,
    /// The active parameter set.
    pub params: String,
    /// The key that switches the projection, and what it switches to.
    pub camera: &'static str,
    /// The speed, in units.
    pub speed: String,
}

/// Whether `show` accepts every scalar with every number of decimals.
pub open spec fn can_show<S: Fn(Scalar, usize) -> String>(show: S) -> bool {
    forall|value: Scalar, decimals: usize| call_requires(show, (value, decimals))
}

/// Whether `text` is `label` followed by `value` as `show` returned it for
/// `decimals` decimals.
pub open spec fn is_line<S: Fn(Scalar, usize) -> String>(
    show: S,
    label: Seq<char>,
    value: Scalar,
    decimals: usize,
    text: Seq<char>,
) -> bool {
    exists|shown: String|
        #[trigger] call_ensures(show, (value, decimals), shown) && text == label + shown@
}

/// The line that shows `value` behind `label`.
pub fn labelled<S: Fn(Scalar, usize) -> String>(
    label: &str,
    value: Scalar,
    decimals: usize,
    show: &S,
) -> (text: String)
    requires
        can_show(*show),
    ensures
        is_line(*show, label@, value, decimals, text@),
{
    let shown = show(value, decimals);
    let mut text = label.to_owned();
    text.append(shown.as_str());
    text
}

} // verus!
