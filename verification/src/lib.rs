//! Supervision of one packaged backend process: launching it, waiting until
//! its TCP port accepts connections, and handing its handle back for
//! termination when the host application exits.
//!
//! The library performs no I/O itself. It decides what is to be done next and
//! what each outcome means; the embedding application connects, sleeps,
//! spawns and kills as the library directs.

pub mod launch;
pub mod probe;
pub mod probe_laws;
pub mod shutdown;
pub mod supervisor;
pub mod supervisor_laws;
