//! A game-session optimizer for Windows: before a game starts it records the
//! state of the system, stops services, closes background programs and
//! sets the game's GPU preference; it starts the game, watches it (through a
//! launcher's hand-over to the real game) and, when the game exits, puts the
//! system back. This crate holds the decisions and the data; the caller does
//! the system calls, the waiting and the files.
pub mod app;
pub mod errors;
pub mod gpu;
pub mod guards;
pub mod launch;
pub mod logger;
pub mod memory;
pub mod model;
pub mod monitor;
pub mod optimizer;
pub mod paths;
pub mod priority;
pub mod processes;
pub mod profiles;
pub mod services;
pub mod session;
pub mod text;
pub mod time;
pub mod wide;
