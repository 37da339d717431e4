use vstd::prelude::*;

use crate::header::{header_bytes, is_sentinel, sentinel_header, HEADER_LEN};

verus! {

/// What was found at the target path before writing.
#[derive(Debug, Clone, PartialEq, Eq)]
pub enum Probe {
    /// Nothing exists at the path.
    Absent,
    /// Something exists; these are the bytes that reading up to
    /// `HEADER_LEN` bytes from its start returned.
    Present(Vec<u8>),
}

impl View for Probe {
    type V = Option<Seq<u8>>;

    open spec fn view(&self) -> Option<Seq<u8>> {
        match self {
            Probe::Absent => None,
            Probe::Present(read) => Some(read@),
        }
    }
}

/// What to do with the target path.
#[derive(Debug, Clone, PartialEq, Eq)]
pub enum Plan {
    /// Leave the file as it is: it belongs to someone else.
    Keep,
    /// Create or truncate the file and write exactly these bytes.
    Write(Vec<u8>),
}

impl View for Plan {
    /// `None` keeps the file; `Some(bytes)` replaces it with `bytes`.
    type V = Option<Seq<u8>>;

    open spec fn view(&self) -> Option<Seq<u8>> {
        match self {
            Plan::Keep => None,
            Plan::Write(bytes) => Some(bytes@),
        }
    }
}

/// The whole content of a generated file: the header, then the payload.
pub open spec fn image(payload: Seq<u8>) -> Seq<u8> {
    header_bytes() + payload
}

/// A file is owned by the generator exactly when it starts with the header.
pub open spec fn is_owned(contents: Seq<u8>) -> bool {
    contents.len() >= header_bytes().len() && contents.take(header_bytes().len() as int)
        == header_bytes()
}

/// The decision for a probe: absent paths and paths whose read gave exactly
/// the header are (re)written; anything else is kept.
pub open spec fn plan_for(probe: Option<Seq<u8>>, payload: Seq<u8>) -> Option<Seq<u8>> {
    match probe {
        None => Some(image(payload)),
        Some(read) => if read == header_bytes() {
            Some(image(payload))
        } else {
            None
        },
    }
}

/// What a read of up to `HEADER_LEN` bytes that stops only at end of file
/// returns from `contents`.
pub open spec fn header_read(contents: Seq<u8>) -> Seq<u8> {
    if contents.len() < header_bytes().len() {
        contents
    } else {
        contents.take(header_bytes().len() as int)
    }
}

/// `read` is what some read of at most `HEADER_LEN` bytes from the start of
/// `contents` may have returned: a prefix, possibly cut short.
pub open spec fn is_prefix_read(read: Seq<u8>, contents: Seq<u8>) -> bool {
    read.len() <= header_bytes().len() && read.len() <= contents.len() && read == contents.take(
        read.len() as int,
    )
}

/// The probe of a path whose content is `file` (`None`: nothing there).
pub open spec fn probe_of(file: Option<Seq<u8>>) -> Option<Seq<u8>> {
    match file {
        None => None,
        Some(contents) => Some(header_read(contents)),
    }
}

/// The content of the path after carrying out `plan`.
pub open spec fn apply(file: Option<Seq<u8>>, plan: Option<Seq<u8>>) -> Option<Seq<u8>> {
    match plan {
        None => file,
        Some(bytes) => Some(bytes),
    }
}

/// The content of the path after one guarded write of `payload`.
pub open spec fn guarded_write(file: Option<Seq<u8>>, payload: Seq<u8>) -> Option<Seq<u8>> {
    apply(file, plan_for(probe_of(file), payload))
}

/// Builds the header followed by `payload`.
pub fn file_image(payload: &[u8]) -> (r: Vec<u8>)
    requires
        payload@.len() + HEADER_LEN <= usize::MAX,
    ensures
        r@ == image(payload@),
{
    let mut r = sentinel_header();
    let mut i: usize = 0;
    while i < payload.len()
        invariant
            0 <= i <= payload@.len(),
            r@ == header_bytes() + payload@.take(i as int),
        decreases payload@.len() - i,
    {
        r.push(payload[i]);
        i = i + 1;
        assert(r@ =~= header_bytes() + payload@.take(i as int));
    }
    assert(payload@.take(i as int) =~= payload@);
    r
}

/// Decides, from what was found at the target path, whether to write the
/// header and `payload` there.
pub fn plan_write(probe: &Probe, payload: &[u8]) -> (r: Plan)
    requires
        payload@.len() + HEADER_LEN <= usize::MAX,
    ensures
        r@ == plan_for(probe@, payload@),
{
    match probe {
        Probe::Absent => Plan::Write(file_image(payload)),
        Probe::Present(read) => {
            if is_sentinel(read.as_slice()) {
                Plan::Write(file_image(payload))
            } else {
                Plan::Keep
            }
        },
    }
}


/// The file operation that failed.
#[derive(Debug, Clone, Copy, PartialEq, Eq, Structural)]
pub enum IoOp {
    /// Opening the target for reading or writing.
    Open,
    /// Reading the target's header.
    Read,
    /// Writing the header or the payload.
    Write,
}

/// A failed file operation on the target path, with the system's message.
#[derive(Debug, Clone, PartialEq, Eq)]
pub struct WriteError {
    pub op: IoOp,
    pub detail: String,
}

} // verus!
