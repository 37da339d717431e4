use vstd::prelude::*;

use crate::guard::{
    apply, guarded_write, header_read, image, is_owned, is_prefix_read, plan_for, probe_of,
};
use crate::header::header_bytes;

verus! {

/// Writing to a path where nothing exists creates a file that holds the
/// header followed exactly by the payload.
pub proof fn lemma_fresh_path_gets_image(payload: Seq<u8>)
    ensures
        guarded_write(None, payload) == Some(image(payload)),
        image(payload).take(header_bytes().len() as int) == header_bytes(),
        image(payload).skip(header_bytes().len() as int) == payload,
{
    assert(image(payload).take(header_bytes().len() as int) =~= header_bytes());
    assert(image(payload).skip(header_bytes().len() as int) =~= payload);
}

/// A file that the generator wrote is owned by it.
pub proof fn lemma_image_is_owned(payload: Seq<u8>)
    ensures
        is_owned(image(payload)),
        header_read(image(payload)) == header_bytes(),
{
    assert(image(payload).take(header_bytes().len() as int) =~= header_bytes());
}

/// Two guarded writes of the same payload to the same path leave the same
/// content as one.
pub proof fn lemma_write_is_idempotent(file: Option<Seq<u8>>, payload: Seq<u8>)
    ensures
        guarded_write(guarded_write(file, payload), payload) == guarded_write(file, payload),
{
    lemma_image_is_owned(payload);
}

/// A file whose first `HEADER_LEN` bytes differ from the header in some byte
/// is left byte for byte as it is, whatever a read of its start returned.
pub proof fn lemma_foreign_file_is_kept(
    contents: Seq<u8>,
    payload: Seq<u8>,
    i: int,
    read: Seq<u8>,
)
    requires
        contents.len() >= header_bytes().len(),
        0 <= i < header_bytes().len(),
        contents[i] != header_bytes()[i],
        is_prefix_read(read, contents),
    ensures
        plan_for(Some(read), payload) == None::<Seq<u8>>,
        apply(Some(contents), plan_for(Some(read), payload)) == Some(contents),
        guarded_write(Some(contents), payload) == Some(contents),
{
    if read == header_bytes() {
        assert(read[i] == contents[i]);
    }
    let full = header_read(contents);
    if full == header_bytes() {
        assert(full[i] == contents[i]);
    }
}

/// A file shorter than the header, an empty one included, is never owned:
/// it is left as it is, whatever a read of its start returned.
pub proof fn lemma_short_file_is_kept(contents: Seq<u8>, payload: Seq<u8>, read: Seq<u8>)
    requires
        contents.len() < header_bytes().len(),
        is_prefix_read(read, contents),
    ensures
        !is_owned(contents),
        plan_for(Some(read), payload) == None::<Seq<u8>>,
        guarded_write(Some(contents), payload) == Some(contents),
{
}

/// A file that starts with the header is replaced whole by the header and
/// the new payload, whatever followed its header.
pub proof fn lemma_owned_file_is_replaced(contents: Seq<u8>, payload: Seq<u8>)
    requires
        is_owned(contents),
    ensures
        probe_of(Some(contents)) == Some(header_bytes()),
        guarded_write(Some(contents), payload) == Some(image(payload)),
{
}


/// A guarded write replaces the file with the header and payload exactly
/// when the path is free or the file there is owned; any other file stays
/// as it is.
pub proof fn lemma_write_follows_ownership(file: Option<Seq<u8>>, payload: Seq<u8>)
    ensures
        guarded_write(file, payload) == (match file {
            None => Some(image(payload)),
            Some(contents) => if is_owned(contents) {
                Some(image(payload))
            } else {
                Some(contents)
            },
        }),
{
    match file {
        None => {},
        Some(contents) => {
            if !is_owned(contents) && contents.len() >= header_bytes().len() {
                let h = header_bytes();
                let t = contents.take(h.len() as int);
                assert(!(t =~= h));
                let i = choose|i: int| 0 <= i < h.len() && t[i] != h[i];
                lemma_foreign_file_is_kept(contents, payload, i, header_read(contents));
            }
        },
    }
}

} // verus!
