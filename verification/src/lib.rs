//! Decisions behind an interactive SSH key setup: which name a key gets,
//! where its files live, how the key generator is invoked, and in which
//! order the steps of a run may happen.
//!
//! Nothing here touches a terminal, a file or a process: a driver performs
//! each requested action and reports back what happened. The one thing that
//! is asked of the system is where the home directory is.

pub mod error;
pub mod expand;
pub mod keygen;
pub mod layout;
pub mod name;
pub mod order;
pub mod pipeline;
