//! Decision logic of a small HTTPS upload server.
//!
//! The server shows a page with an upload form and stores what is posted to
//! it, part by part and chunk by chunk, in one directory. This library holds
//! what the server decides; the sockets, the request bodies and the files are
//! left to the program around it, which performs what the library asks for
//! and reports back what happened.
//!
//! - [`form`]: the page with the upload form.
//! - [`destination`]: the name and the path under which a part is stored.
//! - [`reply`]: the outcome of a part, the summary of a request, and the
//!   status and message sent back.
//! - [`ingest`]: the upload pipeline of one request, as a state machine.
//! - [`startup`]: the start-up sequence of the server, as a state machine.
//! - [`model`]: the pipeline together with the files around it.
//! - [`laws`]: what holds of the pipeline.

pub mod destination;
pub mod form;
pub mod ingest;
pub mod laws;
pub mod model;
pub mod reply;
pub mod startup;
