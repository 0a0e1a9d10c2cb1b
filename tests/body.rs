use net_request::{Body, BodyError, CHUNK_LEN};

/// Feeds a body from an in-memory stream the way a connection would: each read
/// asks for `next_read` bytes and gets as many as the stream still holds.
/// Returns the number of bytes taken and of reads issued.
fn feed(body: &mut Body, stream: &[u8]) -> (usize, usize) {
    let mut pos = 0;
    let mut reads = 0;
    while !body.is_complete() {
        let n = body.next_read();
        let end = (pos + n).min(stream.len());
        let delivered = &stream[pos..end];
        reads += 1;
        pos = end;
        if body.accept(delivered).is_err() {
            break;
        }
    }
    (pos, reads)
}

fn pattern(len: usize) -> Vec<u8> {
    (0..len).map(|i| (i % 251) as u8).collect()
}

#[test]
fn exact_length_stream_yields_every_byte() {
    let stream = pattern(1300);
    let mut body = Body::new(1300);
    let (taken, reads) = feed(&mut body, &stream);
    assert_eq!(taken, 1300);
    assert_eq!(reads, 3);
    assert_eq!(body.array().unwrap(), stream);
}

#[test]
fn longer_stream_is_not_read_past_declared_length() {
    let stream = pattern(1500);
    let mut body = Body::new(1000);
    let (taken, _) = feed(&mut body, &stream);
    assert_eq!(taken, 1000);
    assert_eq!(body.array().unwrap(), stream[..1000].to_vec());
}

#[test]
fn length_that_is_a_multiple_of_the_chunk() {
    let stream = pattern(2 * CHUNK_LEN);
    let mut body = Body::new(2 * CHUNK_LEN);
    let (taken, reads) = feed(&mut body, &stream);
    assert_eq!(taken, 2 * CHUNK_LEN);
    assert_eq!(reads, 2);
    assert_eq!(body.array().unwrap(), stream);
}

#[test]
fn reads_are_bounded_by_the_chunk() {
    let mut body = Body::new(1030);
    assert_eq!(body.declared_len(), 1030);
    assert_eq!(body.next_read(), 512);
    assert!(body.accept(&pattern(512)).is_ok());
    assert_eq!(body.next_read(), 512);
    assert!(body.accept(&pattern(512)).is_ok());
    assert_eq!(body.next_read(), 6);
    assert!(body.accept(&pattern(6)).is_ok());
    assert_eq!(body.next_read(), 0);
    assert!(body.is_complete());
}

#[test]
fn chunk_of_the_wrong_length_is_refused() {
    let mut body = Body::new(10);
    assert_eq!(body.accept(&pattern(11)), Err(BodyError::Io));
    assert_eq!(body.accept(&pattern(4)), Err(BodyError::Io));
    assert!(!body.is_complete());
    assert_eq!(body.next_read(), 10);
    assert!(body.accept(&pattern(10)).is_ok());
    assert_eq!(body.array().unwrap(), pattern(10));
}

#[test]
fn short_stream_fails_every_materialization() {
    let stream = pattern(40);
    let mut a = Body::new(100);
    feed(&mut a, &stream);
    assert_eq!(a.array(), Err(BodyError::Io));
    let mut t = Body::new(100);
    feed(&mut t, &stream);
    assert_eq!(t.text(), Err(BodyError::Io));
    let mut p = Body::new(100);
    feed(&mut p, &stream);
    assert!(matches!(p.plist(), Err(BodyError::Io)));
}

#[test]
fn declared_1024_but_700_delivered() {
    let stream = pattern(700);

    let mut a = Body::new(1024);
    let (taken, reads) = feed(&mut a, &stream);
    assert_eq!(taken, 700);
    assert_eq!(reads, 2);
    assert_eq!(a.array(), Err(BodyError::Io));

    let mut t = Body::new(1024);
    feed(&mut t, &stream);
    assert_eq!(t.text(), Err(BodyError::Io));

    let mut p = Body::new(1024);
    feed(&mut p, &stream);
    assert!(matches!(p.plist(), Err(BodyError::Io)));
}

#[test]
fn empty_body_issues_no_read() {
    let stream = pattern(20);
    let mut body = Body::new(0);
    assert!(body.is_complete());
    assert_eq!(body.next_read(), 0);
    let (taken, reads) = feed(&mut body, &stream);
    assert_eq!((taken, reads), (0, 0));
    assert_eq!(body.array().unwrap(), Vec::<u8>::new());
    assert_eq!(Body::new(0).text().unwrap(), "");
}

#[test]
fn empty_body_as_plist_is_an_empty_dictionary() {
    let value = Body::new(0).plist().unwrap();
    assert!(value.as_dictionary().unwrap().is_empty());
}
