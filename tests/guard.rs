use placeholder_file::{file_image, is_sentinel, plan_write, sentinel_header, Plan, Probe};
use placeholder_file::{HEADER_LEN, SENTINEL_HEADER};

/// The content of a path after carrying out `plan` on it.
fn carry_out(file: Option<Vec<u8>>, plan: Plan) -> Option<Vec<u8>> {
    match plan {
        Plan::Keep => file,
        Plan::Write(bytes) => Some(bytes),
    }
}

/// What a full read of the header region returns from `contents`.
fn read_header(contents: &[u8]) -> Vec<u8> {
    contents[..contents.len().min(HEADER_LEN)].to_vec()
}

/// One guarded write of `payload` to a path whose content is `file`.
fn write_once(file: Option<Vec<u8>>, payload: &[u8]) -> Option<Vec<u8>> {
    let probe = match &file {
        None => Probe::Absent,
        Some(contents) => Probe::Present(read_header(contents)),
    };
    carry_out(file, plan_write(&probe, payload))
}

fn expected_image(payload: &[u8]) -> Vec<u8> {
    let mut v = b"// PLACEHOLDER FILE DEFAULT HEADER, DO NOT CHANGE\n".to_vec();
    v.extend_from_slice(payload);
    v
}

#[test]
fn header_is_fifty_exact_bytes() {
    let h = sentinel_header();
    assert_eq!(h.len(), 50);
    assert_eq!(HEADER_LEN, 50);
    assert_eq!(h, b"// PLACEHOLDER FILE DEFAULT HEADER, DO NOT CHANGE\n".to_vec());
    assert_eq!(h, SENTINEL_HEADER.as_bytes().to_vec());
}

#[test]
fn sentinel_recognised_only_exactly() {
    let h = sentinel_header();
    assert!(is_sentinel(&h));
    assert!(!is_sentinel(&[]));
    assert!(!is_sentinel(&h[..HEADER_LEN - 1]));
    let mut longer = h.clone();
    longer.push(b'x');
    assert!(!is_sentinel(&longer));
    for i in 0..HEADER_LEN {
        let mut changed = h.clone();
        changed[i] ^= 1;
        assert!(!is_sentinel(&changed));
    }
}

#[test]
fn image_is_header_then_payload() {
    assert_eq!(file_image(b"abc"), expected_image(b"abc"));
    assert_eq!(file_image(b""), sentinel_header());
}

#[test]
fn fresh_path_gets_header_and_payload() {
    let payload = b"pub mod Foo { }";
    assert_eq!(plan_write(&Probe::Absent, payload), Plan::Write(expected_image(payload)));
    let after = write_once(None, payload).unwrap();
    assert_eq!(&after[..HEADER_LEN], &sentinel_header()[..]);
    assert_eq!(&after[HEADER_LEN..], &payload[..]);
}

#[test]
fn fresh_path_with_empty_payload() {
    assert_eq!(write_once(None, b""), Some(sentinel_header()));
}

#[test]
fn second_write_changes_nothing() {
    let payload = b"fn generated() {}";
    let once = write_once(None, payload);
    let twice = write_once(once.clone(), payload);
    assert_eq!(once, twice);

    let foreign = Some(b"fn mine() {}".to_vec());
    let once = write_once(foreign.clone(), payload);
    assert_eq!(once, foreign);
    assert_eq!(write_once(once.clone(), payload), once);

    let mut owned = sentinel_header();
    owned.extend_from_slice(b"old body");
    let once = write_once(Some(owned), payload);
    assert_eq!(write_once(once.clone(), payload), once);
}

#[test]
fn foreign_file_with_one_byte_changed_is_kept() {
    let mut contents = sentinel_header();
    contents.extend_from_slice(b"hand written");
    for i in 0..HEADER_LEN {
        let mut changed = contents.clone();
        changed[i] = changed[i].wrapping_add(1);
        let probe = Probe::Present(read_header(&changed));
        assert_eq!(plan_write(&probe, b"new"), Plan::Keep);
        assert_eq!(write_once(Some(changed.clone()), b"new"), Some(changed));
    }
}

#[test]
fn foreign_file_of_header_length_is_kept() {
    let contents = vec![b'x'; HEADER_LEN];
    assert_eq!(write_once(Some(contents.clone()), b"new"), Some(contents));
}

#[test]
fn empty_file_is_kept() {
    assert_eq!(plan_write(&Probe::Present(Vec::new()), b"new"), Plan::Keep);
    assert_eq!(write_once(Some(Vec::new()), b"new"), Some(Vec::new()));
}

#[test]
fn truncated_header_is_kept() {
    let short = sentinel_header()[..HEADER_LEN - 1].to_vec();
    assert_eq!(write_once(Some(short.clone()), b"new"), Some(short));
    let tiny = b"//".to_vec();
    assert_eq!(write_once(Some(tiny.clone()), b"new"), Some(tiny));
}

#[test]
fn short_read_of_owned_file_keeps_it() {
    let probe = Probe::Present(sentinel_header()[..10].to_vec());
    assert_eq!(plan_write(&probe, b"new"), Plan::Keep);
}

#[test]
fn owned_file_is_replaced_whole() {
    let mut contents = sentinel_header();
    contents.extend_from_slice(b"a much longer old body that must disappear");
    assert_eq!(write_once(Some(contents), b"new"), Some(expected_image(b"new")));
}

#[test]
fn owned_file_of_header_length_is_replaced() {
    assert_eq!(
        write_once(Some(sentinel_header()), b"body"),
        Some(expected_image(b"body"))
    );
}
