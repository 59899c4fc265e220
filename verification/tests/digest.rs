use nv_getter::digest::{md5_hex, Md5Stream};
use nv_getter::hex::to_hex_lower;

#[test]
fn hex_of_bytes_is_two_lower_case_digits_each() {
    assert_eq!(to_hex_lower(&[]), "");
    assert_eq!(to_hex_lower(&[0x00, 0x0f, 0xa0, 0xff, 0x1b]), "000fa0ff1b");
}

#[test]
fn md5_of_nothing_is_the_known_digest() {
    assert_eq!(md5_hex(b""), "d41d8cd98f00b204e9800998ecf8427e");
}

#[test]
fn md5_of_the_alphabet_is_the_known_digest() {
    assert_eq!(md5_hex(b"abcdefghijklmnopqrstuvwxyz"), "c3fcd3d76192e4007dfb496cca67e13b");
}

#[test]
fn md5_does_not_depend_on_how_input_is_cut() {
    let mut stream = Md5Stream::new();
    stream.update(b"abcdefghijk");
    stream.update(b"");
    stream.update(b"lmnopqrstuvwxyz");
    assert_eq!(stream.finish(), "c3fcd3d76192e4007dfb496cca67e13b");
}
