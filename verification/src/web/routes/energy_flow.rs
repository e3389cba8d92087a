//! Energy flow diagram: direction classes of its paths.

use vstd::prelude::*;

verus! {

/// Direction of energy flow on a diagram path.
#[derive(Clone, Copy, PartialEq, Eq, Structural, Debug)]
pub enum FlowDirection {
    Forward,
    Reverse,
    Idle,
}

impl FlowDirection {
    pub fn css_class(&self) -> (r: &'static str)
        ensures
            r@ == (match self {
                FlowDirection::Forward => "ef-dir-forward"@,
                FlowDirection::Reverse => "ef-dir-reverse"@,
                FlowDirection::Idle => "ef-dir-idle"@,
            }),
    {
        match self {
            FlowDirection::Forward => "ef-dir-forward",
            FlowDirection::Reverse => "ef-dir-reverse",
            FlowDirection::Idle => "ef-dir-idle",
        }
    }
}

} // verus!
