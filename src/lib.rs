//! Ownership-respecting writes of generated files.
//!
//! A generated file starts with a fixed sentinel header. The generator
//! creates a file where nothing exists, rewrites a file that starts with the
//! header, and leaves every other file untouched.
mod guard;
mod header;
mod invocation;
pub mod laws;
mod notify;

pub use guard::{
    apply, file_image, guarded_write, header_read, image, is_owned, is_prefix_read, plan_for,
    plan_write, probe_of, IoOp, Plan, Probe, WriteError,
};
pub use header::{
    header_bytes, is_sentinel, lemma_header_len, sentinel_header, HEADER_LEN, SENTINEL_HEADER,
};
pub use invocation::{is_quoted, parse_invocation, unquoted, Token, UsageError, BODY_START};
pub use notify::{rerun_directive, RERUN_PREFIX};
