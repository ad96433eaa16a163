//! The host side of a command-line platform: the decisions, error mappings
//! and bookkeeping behind its files, commands, sockets, HTTP, SQLite and
//! standard streams, with the operating-system calls left to the caller.
pub mod io_error;
pub mod host;
pub mod tcp;
pub mod pool;
pub mod cmd;
pub mod child;
pub mod text;
pub mod locale;
pub mod sqlite;
pub mod http;
pub mod results;
pub mod random;
