//! Supervision of a long-lived local backend service.
//!
//! The backend is a child process that serves HTTP on a port of its own
//! choosing. This library holds the rules of its supervision: the startup
//! handshake that reveals the port, the shared record that says whether the
//! backend is ready and where, the phases of its lifetime, and its orderly
//! shutdown. Processes, pipes and sockets are the caller's: the library is
//! handed what was read and answered, and says what it means and what to do
//! next.

pub mod command;
pub mod drain;
pub mod endpoint;
pub mod handshake;
pub mod launch;
pub mod lifecycle;
pub mod request;
pub mod shutdown;
pub mod supervisor;
