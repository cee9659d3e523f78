use decoder8086::{decode_next, process_bin, ByteCursor, DecodeError};

fn one_line(bytes: &[u8]) -> String {
    let mut cursor = ByteCursor::new(bytes);
    let line = decode_next(&mut cursor).unwrap().unwrap();
    assert_eq!(cursor.position(), bytes.len());
    assert!(decode_next(&mut cursor).is_none());
    line
}

#[test]
fn register_to_register_mov() {
    assert_eq!(one_line(&[0x89, 0xD9]), "mov cx, bx");
}

#[test]
fn memory_with_negative_byte_displacement() {
    assert_eq!(one_line(&[0x8B, 0x41, 0xDB]), "mov ax, [bx + di - 37]");
}

#[test]
fn immediate_to_byte_register() {
    assert_eq!(one_line(&[0xB1, 0x0C]), "mov cl, 12");
}

#[test]
fn sign_extended_immediate_add() {
    assert_eq!(one_line(&[0x83, 0xC6, 0x02]), "add si, 2");
}

#[test]
fn relative_jump_backwards() {
    assert_eq!(one_line(&[0x75, 0xFA]), "jne $+-6");
}

#[test]
fn displacement_sign_rendering() {
    assert_eq!(one_line(&[0x8B, 0x47, 0xFF]), "mov ax, [bx - 1]");
    assert_eq!(one_line(&[0x8B, 0x47, 0x05]), "mov ax, [bx + 5]");
    assert_eq!(one_line(&[0x8B, 0x47, 0x00]), "mov ax, [bx]");
}

#[test]
fn whole_listing() {
    let bytes = vec![0x89, 0xD9, 0xB1, 0x0C, 0x75, 0xFA];
    assert_eq!(
        process_bin(&bytes),
        Ok("bits 16\n\nmov cx, bx\nmov cl, 12\njne $+-6\n".to_string())
    );
}

#[test]
fn truncated_instruction() {
    let bytes = vec![0x89, 0xD9, 0x8B, 0x41];
    assert_eq!(process_bin(&bytes), Err(DecodeError::Truncated { offset: 2 }));
}

#[test]
fn empty_input_gives_the_header_only() {
    assert_eq!(process_bin(&vec![]), Ok("bits 16\n\n".to_string()));
}

#[test]
fn decoding_twice_gives_the_same_text() {
    let bytes = vec![0x8B, 0x41, 0xDB, 0x83, 0xC6, 0x02, 0x75, 0xFA];
    assert_eq!(process_bin(&bytes), process_bin(&bytes));
}

#[test]
fn each_instruction_consumes_its_prescribed_length() {
    let bytes = [
        0x89u8, 0xD9, 0x8B, 0x41, 0xDB, 0xB9, 0x0C, 0x00, 0xC7, 0x85, 0x85, 0x03, 0x5B, 0x01,
        0x8B, 0x2E, 0x05, 0x00, 0x83, 0xC6, 0x02, 0x75, 0xFA,
    ];
    let expected_ends = [2usize, 5, 8, 14, 18, 21, 23];
    let mut cursor = ByteCursor::new(&bytes);
    for end in expected_ends {
        assert!(decode_next(&mut cursor).unwrap().is_ok());
        assert_eq!(cursor.position(), end);
    }
    assert!(decode_next(&mut cursor).is_none());
}

#[test]
fn many_register_moves() {
    let bytes = vec![
        0x89, 0xD9, 0x88, 0xE5, 0x89, 0xDA, 0x89, 0xDE, 0x89, 0xFB, 0x88, 0xC8, 0x88, 0xED,
        0x89, 0xC3, 0x89, 0xF3, 0x89, 0xFC, 0x89, 0xC5,
    ];
    let expected = "bits 16\n\nmov cx, bx\nmov ch, ah\nmov dx, bx\nmov si, bx\nmov bx, di\n\
                    mov al, cl\nmov ch, ch\nmov bx, ax\nmov bx, si\nmov sp, di\nmov bp, ax\n";
    assert_eq!(process_bin(&bytes), Ok(expected.to_string()));
}
