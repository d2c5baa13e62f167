//! The decisions of a logger that stores the traffic of a chat channel in a database.
//!
//! A listener owns the network session and turns each event it receives into a
//! timestamped record; a writer owns the database collection and stores one document
//! for each record; a supervisor waits for the one failure that ends the process. The
//! three run side by side, joined by two queues. This library holds what each of them
//! decides, as functions from a state and an input to a state and an action; waiting on
//! the network, the database and the queues is left to the program that owns them.
//!
//! - `config`: resolution of the connection settings from a key/value text map;
//! - `record` and `document`: the record of one line and the document it is stored as;
//! - `listener`, `writer`, `supervisor`: the three components' decisions, each with a
//!   model of what the component does over a sequence of turns;
//! - `pipeline`: what holds of listener and writer joined by the queue between them.
mod clock;
pub mod config;
pub mod document;
pub mod listener;
pub mod options;
pub mod pipeline;
pub mod record;
pub mod session;
pub mod supervisor;
pub mod text;
pub mod writer;
