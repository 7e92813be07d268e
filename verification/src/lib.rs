//! Conversion of robotics log files ("bags") between two storage backends:
//! an embedded SQLite database and the MCAP binary container. The actual
//! format translation is performed by an external tool; this library holds
//! the logic around that call: selecting a backend, rendering the
//! configuration document the tool consumes, parsing the command line,
//! building the tool's argument list, and translating its exit status.
//! The file and process I/O itself lives outside the library.

pub mod backend;
pub mod cli;
pub mod config;
pub mod outcome;
pub mod text;
