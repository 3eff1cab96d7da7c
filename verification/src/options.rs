use vstd::prelude::*;

use crate::errors::XcpError;

verus! {

/// Strategy for copy-on-write cloning of a file's data blocks.
#[derive(Clone, Copy, Debug, PartialEq, Eq, Structural)]
pub enum Reflink {
    /// Clone or fail: no byte-copy fallback.
    Always,
    /// Try to clone, fall back to a byte copy silently.
    Auto,
    /// Never attempt a clone.
    Never,
}

/// What `str::to_lowercase` returns for a given character sequence.
pub uninterp spec fn lower_of(s: Seq<char>) -> Seq<char>;

/// Relies on str::to_lowercase: the result is the Unicode lowercase of the
/// input and depends on the input characters alone.
#[verifier::external_body]
fn lowercase(s: &str) -> (r: String)
    ensures
        r@ == lower_of(s@),
{
    s.to_lowercase()
}

/// The reflink mode denoted by an already-lowercased spelling, if any.
pub open spec fn reflink_of_lower(ls: Seq<char>) -> Option<Reflink> {
    if ls == "always"@ {
        Some(Reflink::Always)
    } else if ls == "auto"@ {
        Some(Reflink::Auto)
    } else if ls == "never"@ {
        Some(Reflink::Never)
    } else {
        None
    }
}

impl Reflink {
    /// Parses a reflink mode, case-insensitively. Any text whose lowercase
    /// form is not one of the three spellings is rejected, and the offending
    /// text is carried in the error.
    pub fn from_str(s: &str) -> (r: Result<Reflink, XcpError>)
        ensures
            match reflink_of_lower(lower_of(s@)) {
                Some(mode) => r == Ok::<Reflink, XcpError>(mode),
                None => match r {
                    Ok(_) => false,
                    Err(e) => e matches XcpError::InvalidArguments(t) && t@ == s@,
                },
            },
    {
        let lower = lowercase(s);
        if lower == "always".to_owned() {
            Ok(Reflink::Always)
        } else if lower == "auto".to_owned() {
            Ok(Reflink::Auto)
        } else if lower == "never".to_owned() {
            Ok(Reflink::Never)
        } else {
            Err(XcpError::InvalidArguments(s.to_owned()))
        }
    }
}

/// The configuration surface the copy core consumes.
#[derive(Clone, Copy, Debug)]
pub struct Opts {
    /// Copy-on-write clone strategy.
    pub reflink: Reflink,
    /// Progress-coalescing granularity: one `Copied` update is forwarded per
    /// crossed multiple of this many bytes.
    pub block_size: u64,
    /// Per-read/write transfer granularity: no single chunk copy exceeds it.
    pub batch_size: u64,
    /// Suppress copying the source's permissions onto the destination.
    pub no_perms: bool,
    /// Fsync the destination when a copy is finalised.
    pub fsync: bool,
    /// Refuse to overwrite an existing destination path.
    pub no_clobber: bool,
    /// Copy directly into the destination instead of nesting under it.
    pub no_target_directory: bool,
}

impl Opts {
    /// Both granularities are positive: a zero block size would make the
    /// progress-batching decision divide by zero, and a zero batch size
    /// would make a chunked copy incapable of progress.
    pub open spec fn wf(&self) -> bool {
        self.block_size > 0 && self.batch_size > 0
    }

    /// Validates a configuration. The reflink mode text and both
    /// granularities are checked here, before any copying starts.
    pub fn new(
        reflink_text: &str,
        block_size: u64,
        batch_size: u64,
        no_perms: bool,
        fsync: bool,
        no_clobber: bool,
        no_target_directory: bool,
    ) -> (r: Result<Opts, XcpError>)
        ensures
            match r {
                Ok(o) => {
                    &&& o.wf()
                    &&& reflink_of_lower(lower_of(reflink_text@)) == Some(o.reflink)
                    &&& o.block_size == block_size
                    &&& o.batch_size == batch_size
                    &&& o.no_perms == no_perms
                    &&& o.fsync == fsync
                    &&& o.no_clobber == no_clobber
                    &&& o.no_target_directory == no_target_directory
                },
                Err(e) => {
                    &&& e is InvalidArguments
                    &&& (reflink_of_lower(lower_of(reflink_text@)) is None || block_size == 0
                        || batch_size == 0)
                },
            },
    {
        let reflink = match Reflink::from_str(reflink_text) {
            Ok(mode) => mode,
            Err(e) => {
                return Err(e);
            },
        };
        if block_size == 0 {
            return Err(XcpError::InvalidArguments("block_size".to_owned()));
        }
        if batch_size == 0 {
            return Err(XcpError::InvalidArguments("batch_size".to_owned()));
        }
        Ok(
            Opts {
                reflink,
                block_size,
                batch_size,
                no_perms,
                fsync,
                no_clobber,
                no_target_directory,
            },
        )
    }
}

} // verus!
