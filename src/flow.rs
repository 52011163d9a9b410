use core::ops::ControlFlow;
use vstd::prelude::*;
use vstd::std_specs::convert::FromSpecImpl;

verus! {

/// What a handler asks of the operation that calls it: go on to the next record, or
/// stop.
///
/// Over one operation the answers combine so that the operation stops at the first
/// `Break`, and reports `Break` exactly when some handler did.
#[derive(Debug, Clone, Copy, PartialEq, Eq, Hash, Structural)]
pub enum Flow {
    Continue,
    Break,
}

impl Flow {
    /// Whether this is `Flow::Continue`.
    pub fn is_continue(&self) -> (r: bool)
        ensures
            r == (*self == Flow::Continue),
    {
        matches!(self, Flow::Continue)
    }

    /// Whether this is `Flow::Break`.
    pub fn is_break(&self) -> (r: bool)
        ensures
            r == (*self == Flow::Break),
    {
        matches!(self, Flow::Break)
    }

    /// The same answer as a `ControlFlow`, for use with `try_for_each` and the like.
    pub fn into_control_flow(self) -> (r: ControlFlow<()>)
        ensures
            r == control_flow_of(self),
    {
        match self {
            Flow::Continue => ControlFlow::Continue(()),
            Flow::Break => ControlFlow::Break(()),
        }
    }
}

/// The `ControlFlow` that stands for `flow`.
pub open spec fn control_flow_of(flow: Flow) -> ControlFlow<()> {
    match flow {
        Flow::Continue => ControlFlow::Continue(()),
        Flow::Break => ControlFlow::Break(()),
    }
}

/// The `Flow` that stands for `flow`, whatever it carries.
pub open spec fn flow_of<C, B>(flow: ControlFlow<C, B>) -> Flow {
    match flow {
        ControlFlow::Continue(_) => Flow::Continue,
        ControlFlow::Break(_) => Flow::Break,
    }
}

impl<C, B> From<ControlFlow<C, B>> for Flow {
    fn from(flow: ControlFlow<C, B>) -> (r: Self) {
        match flow {
            ControlFlow::Continue(_) => Flow::Continue,
            ControlFlow::Break(_) => Flow::Break,
        }
    }
}

impl<C, B> FromSpecImpl<ControlFlow<C, B>> for Flow {
    open spec fn obeys_from_spec() -> bool {
        true
    }

    open spec fn from_spec(v: ControlFlow<C, B>) -> Flow {
        flow_of(v)
    }
}

impl From<Flow> for ControlFlow<()> {
    fn from(flow: Flow) -> (r: Self) {
        flow.into_control_flow()
    }
}

impl FromSpecImpl<Flow> for ControlFlow<()> {
    open spec fn obeys_from_spec() -> bool {
        true
    }

    open spec fn from_spec(v: Flow) -> ControlFlow<()> {
        control_flow_of(v)
    }
}

} // verus!
