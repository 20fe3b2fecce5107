//! A minimal container-bootstrap library.
//!
//! Given an image name and a command, the pipeline authenticates against a
//! registry, fetches the image manifest, downloads the first layer blob,
//! unpacks it into a sandbox root, plans the sandbox setup (binary staging,
//! root change), and computes how the supervised command's outcome maps to
//! this process's exit status.

pub mod error;
pub mod extract;
pub mod invocation;
pub mod isolate;
pub mod pipeline;
pub mod registry;
pub mod runner;
pub mod sandbox;
