//! Single-writer/multiple-reader access to an append-only dataset.
//!
//! One writer appends records to a growable one-dimensional dataset and
//! flushes them; any number of readers refresh and read, all of the records
//! or only the newest, without ever blocking the writer.
//!
//! The library decides; a driver performs. Every operation is a small state
//! machine that names the next native call as a [`protocol::Request`] and
//! takes what came back as a [`protocol::Reply`]. Nothing here touches the
//! container itself, so the order of the calls, what each is made with, what
//! each failure means and when each handle is released are settled here, for
//! every answer a driver can give.

pub mod error;
pub mod protocol;
pub mod release;
pub mod htype;
pub mod dataspace;
pub mod dataset;
pub mod swmr;
pub mod writer;
pub mod container;
pub mod polling;
pub mod config;
pub mod inspect;
pub mod plot;
