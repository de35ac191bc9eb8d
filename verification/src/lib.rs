//! A modal key/value editor: the session state, the operations that change
//! it, and the rules by which a key event selects one of them.
//!
//! * [`text`]: text buffers and the reading of a typed index.
//! * [`store`]: the ordered collection of key/value pairs.
//! * [`app`]: the session and its operations.
//! * [`input`]: key events and their dispatch.
//! * [`display`]: the texts that show a session.
//! * [`json`]: the JSON document of a store.
//! * [`laws`]: properties that relate several operations.

pub mod app;
pub mod display;
pub mod input;
pub mod json;
pub mod laws;
pub mod store;
pub mod text;
