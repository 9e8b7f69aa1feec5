//! The handle through which the event loop is told to stop.

use vstd::prelude::*;
use winit::event_loop::ControlFlow;

verus! {

/// `winit::event_loop::ControlFlow`, the value that the event loop reads
/// after every call of its callback.
#[verifier::external_type_specification]
#[verifier::external_body]
pub struct ExControlFlow(ControlFlow);

/// The exit code that a `ControlFlow` asks the loop to stop with: `Some(code)`
/// for `ControlFlow::ExitWithCode(code)`, `None` for the variants that keep the
/// loop going.
pub uninterp spec fn exit_request(control_flow: ControlFlow) -> Option<i32>;

/// `ControlFlow::set_exit_with_code` overwrites the value with
/// `ControlFlow::ExitWithCode(code)`, whatever it held before.
pub assume_specification[ ControlFlow::set_exit_with_code ](
    control_flow: &mut ControlFlow,
    code: i32,
)
    ensures
        exit_request(*final(control_flow)) == Some(code),
;

} // verus!
