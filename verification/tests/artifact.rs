use global_search::artifact::payload;
use global_search::artifact::PREFIX_LEN;
use global_search::artifact::SUFFIX_LEN;

#[test]
fn the_framing_is_sixteen_bytes_in_front_and_one_behind() {
    assert_eq!(PREFIX_LEN, 16);
    assert_eq!(SUFFIX_LEN, 1);
    assert_eq!("window.search = ".len(), PREFIX_LEN);
    assert_eq!(";".len(), SUFFIX_LEN);
}

#[test]
fn payload_strips_the_script_around_the_json() {
    assert_eq!(payload(b"window.search = {\"a\":1};"), Some(&b"{\"a\":1}"[..]));
    assert_eq!(payload(b"window.search = {};"), Some(&b"{}"[..]));
}

#[test]
fn payload_does_not_look_at_what_it_strips() {
    assert_eq!(payload(b"0123456789abcdefPAYLOAD!"), Some(&b"PAYLOAD"[..]));
    assert_eq!(payload(b"window.search = {}\n"), Some(&b"{}"[..]));
}

#[test]
fn payload_of_a_bare_frame_is_empty() {
    assert_eq!(payload(b"window.search = ;"), Some(&b""[..]));
    assert_eq!(payload(&[0u8; 17]), Some(&[][..]));
}

#[test]
fn payload_refuses_what_is_shorter_than_the_frame() {
    assert_eq!(payload(b""), None);
    assert_eq!(payload(b";"), None);
    assert_eq!(payload(b"window.search = "), None);
    assert_eq!(payload(&[b'x'; 16]), None);
}

#[test]
fn payload_keeps_bytes_that_are_no_text() {
    let mut artifact = vec![b' '; 16];
    artifact.extend_from_slice(&[0xff, 0x00, 0xc3]);
    artifact.push(b';');
    assert_eq!(payload(&artifact), Some(&[0xff, 0x00, 0xc3][..]));
}
