use steel_proxy::codec::{
    push_big_endian, push_bytes, push_text, push_u16, push_varint, read_text,
    read_varint, TextError, VarIntError,
};

fn varint(x: i32) -> Vec<u8> {
    let mut out = Vec::new();
    push_varint(&mut out, x);
    out
}

#[test]
fn integers_on_the_wire() {
    assert_eq!(varint(0), vec![0x00]);
    assert_eq!(varint(127), vec![0x7f]);
    assert_eq!(varint(128), vec![0x80, 0x01]);
    assert_eq!(varint(774), vec![0x86, 0x06]);
    assert_eq!(varint(25565), vec![0xdd, 0xc7, 0x01]);
    assert_eq!(varint(i32::MAX), vec![0xff, 0xff, 0xff, 0xff, 0x07]);
    assert_eq!(varint(-1), vec![0xff, 0xff, 0xff, 0xff, 0x0f]);
    assert_eq!(varint(i32::MIN), vec![0x80, 0x80, 0x80, 0x80, 0x08]);
}

#[test]
fn integers_are_read_back_whatever_follows() {
    for x in [0, 1, 127, 128, 255, 300, 25565, 2097151, 2097152, i32::MAX, -1, -774, i32::MIN] {
        let mut bytes = varint(x);
        let used = bytes.len();
        push_bytes(&mut bytes, &[0xff, 0x00]);
        assert_eq!(read_varint(&bytes), Ok((x, used)));
    }
}

#[test]
fn integers_that_end_early_or_never() {
    assert_eq!(read_varint(&[]), Err(VarIntError::Ends));
    assert_eq!(read_varint(&[0x80, 0x80]), Err(VarIntError::Ends));
    assert_eq!(read_varint(&[0x80, 0x80, 0x80, 0x80, 0x80, 0x01]), Err(VarIntError::TooLong));
}

#[test]
fn numbers_most_significant_byte_first() {
    let mut out = Vec::new();
    push_u16(&mut out, 25565);
    assert_eq!(out, vec![0x63, 0xdd]);
    let mut out = Vec::new();
    push_big_endian(&mut out, 0x0102_0304_0506_0708_090a_0b0c_0d0e_0f10, 16);
    assert_eq!(out, vec![1, 2, 3, 4, 5, 6, 7, 8, 9, 10, 11, 12, 13, 14, 15, 16]);
}

#[test]
fn texts_on_the_wire() {
    let mut out = Vec::new();
    push_text(&mut out, "né");
    assert_eq!(out, vec![3, b'n', 0xc3, 0xa9]);
}

#[test]
fn texts_are_read_back_whatever_follows() {
    for s in ["", "server", "server pr-42", "§e", "日本語"] {
        let mut bytes = Vec::new();
        push_text(&mut bytes, s);
        push_bytes(&mut bytes, &[1, 2, 3]);
        assert_eq!(read_text(&bytes), Ok(s.to_string()));
    }
}

#[test]
fn texts_that_cannot_be_read() {
    assert_eq!(read_text(&[]), Err(TextError::Length(VarIntError::Ends)));
    assert_eq!(
        read_text(&[0x80, 0x80, 0x80, 0x80, 0x80]),
        Err(TextError::Length(VarIntError::TooLong))
    );
    assert_eq!(read_text(&[3, b'a', b'b']), Err(TextError::Short));
    assert_eq!(read_text(&[0xff, 0xff, 0xff, 0xff, 0x07]), Err(TextError::Short));
    assert_eq!(read_text(&[2, 0xc3, 0x28]), Err(TextError::NotUtf8));
}

#[test]
fn texts_of_negative_length_cannot_be_read() {
    for n in [-1, -2, i32::MIN] {
        let mut bytes = varint(n);
        push_bytes(&mut bytes, b"server");
        assert_eq!(read_text(&bytes), Err(TextError::Short));
    }
    assert_eq!(read_text(&varint(0)), Ok(String::new()));
}
