use vstd::prelude::*;

verus! {

/// The marker written at the start of every file this library owns.
pub const SENTINEL_HEADER: &'static str = "// PLACEHOLDER FILE DEFAULT HEADER, DO NOT CHANGE\n";

/// The bytes of the sentinel header.
pub open spec fn header_bytes() -> Seq<u8> {
    SENTINEL_HEADER@.map_values(|c: char| c as u8)
}

/// The number of bytes in the sentinel header.
pub const HEADER_LEN: usize = 50;

/// The header is plain ASCII, `HEADER_LEN` bytes long.
pub proof fn lemma_header_len()
    ensures
        vstd::string::is_ascii(SENTINEL_HEADER),
        header_bytes().len() == HEADER_LEN,
{
    reveal_strlit("// PLACEHOLDER FILE DEFAULT HEADER, DO NOT CHANGE\n");
}

/// Returns a fresh copy of the sentinel header's bytes.
pub fn sentinel_header() -> (r: Vec<u8>)
    ensures
        r@ == header_bytes(),
        r@.len() == HEADER_LEN,
{
    proof {
        lemma_header_len();
    }
    let r = SENTINEL_HEADER.as_bytes_vec();
    assert(r@ =~= header_bytes());
    r
}

/// Tells whether `read` is exactly the sentinel header.
pub fn is_sentinel(read: &[u8]) -> (r: bool)
    ensures
        r == (read@ == header_bytes()),
{
    let h = sentinel_header();
    if read.len() != h.len() {
        return false;
    }
    let mut i: usize = 0;
    while i < read.len()
        invariant
            h@ == header_bytes(),
            read@.len() == h@.len(),
            0 <= i <= read@.len(),
            forall|j: int| 0 <= j < i ==> read@[j] == h@[j],
        decreases read@.len() - i,
    {
        if read[i] != h[i] {
            return false;
        }
        i = i + 1;
    }
    assert(read@ =~= h@);
    true
}

} // verus!
