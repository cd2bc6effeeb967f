//! Taking the backend down when the host application is asked to exit.
//!
//! The host holds its own exit back, asks [`begin_shutdown`] what to do,
//! terminates the handle it is given, reports how that went to
//! [`after_termination`], and only then exits.

use crate::supervisor::{stop_model, Supervisor};
use vstd::prelude::*;

verus! {

/// The exit code of the host once the backend is dealt with.
pub const EXIT_CODE: i32 = 0;

/// What the host does next on its way out.
#[derive(Debug, PartialEq, Eq)]
pub enum ShutdownStep<H> {
    /// Terminate this process by force, then report the result.
    Terminate(H),
    /// Exit the host with this code.
    Exit(i32),
}

/// The step that follows from what a stop handed out.
pub open spec fn shutdown_step<H>(handle: Option<H>) -> ShutdownStep<H> {
    match handle {
        Some(handle) => ShutdownStep::Terminate(handle),
        None => ShutdownStep::Exit(0),
    }
}

/// Stops the supervisor. If a process was held it is to be terminated;
/// otherwise the host may exit at once.
pub fn begin_shutdown<H>(supervisor: &mut Supervisor<H>) -> (step: ShutdownStep<H>)
    ensures
        final(supervisor)@ == stop_model(old(supervisor)@).0,
        step == shutdown_step(stop_model(old(supervisor)@).1),
{
    match supervisor.stop() {
        Some(handle) => ShutdownStep::Terminate(handle),
        None => ShutdownStep::Exit(EXIT_CODE),
    }
}

/// The step after the termination was attempted. Whether it worked makes
/// no difference: the process may be gone already, nothing is retried, and
/// the host exits as if all went well.
pub fn after_termination<H>(terminated: bool) -> (step: ShutdownStep<H>)
    ensures
        step == ShutdownStep::<H>::Exit(0),
{
    ShutdownStep::Exit(EXIT_CODE)
}

} // verus!
