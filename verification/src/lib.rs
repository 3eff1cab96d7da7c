//! The decision core of a multi-threaded recursive file-copy engine.
//!
//! Three pieces carry the correctness reasoning. The per-file copy engine
//! (`engine`) decides, for one source/destination pair, between a
//! copy-on-write clone, a hole-skipping sparse copy and a dense chunked
//! copy, and accounts every byte; it is a state machine whose actions an
//! unverified shell performs against the filesystem. The progress batcher
//! (`status`) coalesces high-frequency byte-progress updates onto a status
//! channel through one shared counter, so channel traffic scales with
//! progress granularity rather than chunk count. The tree-walk core
//! (`walker`) turns an enumerated source tree into size updates, typed work
//! items and eager directory creations, enforcing the no-clobber policy.
//!
//! Paths are modelled as component sequences (`paths`), configuration is
//! validated at construction (`options`), and failures form one closed
//! taxonomy (`errors`). The only outside calls the core itself makes are
//! channel sends (`channel`) and counter updates; everything that touches
//! descriptors or the directory tree stays in the shell, which feeds the
//! core plain values.

pub mod channel;
pub mod engine;
pub mod errors;
pub mod options;
pub mod paths;
pub mod status;
pub mod walker;
