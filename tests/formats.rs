use decoder8086::{
    accumulator_to_memory, decode_next, handle_jumps, handle_loops, immediate_to_accumulator,
    immediate_to_register, immediate_to_register_memory, memory_to_accumulator,
    register_memory_to_from_register, ByteCursor, Op,
};

fn line_of(bytes: &[u8]) -> String {
    let mut cursor = ByteCursor::new(bytes);
    let line = decode_next(&mut cursor).unwrap().unwrap();
    assert_eq!(cursor.position(), bytes.len());
    line
}

#[test]
fn register_memory_forms() {
    assert_eq!(line_of(&[0x88, 0xE5]), "mov ch, ah");
    assert_eq!(line_of(&[0x8A, 0x00]), "mov al, [bx + si]");
    assert_eq!(line_of(&[0x8B, 0x1B]), "mov bx, [bp + di]");
    assert_eq!(line_of(&[0x8A, 0x46, 0x00]), "mov al, [bp]");
    assert_eq!(line_of(&[0x8A, 0x60, 0x04]), "mov ah, [bx + si + 4]");
    assert_eq!(line_of(&[0x8A, 0x80, 0x87, 0x13]), "mov al, [bx + si + 4999]");
    assert_eq!(line_of(&[0x89, 0x8C, 0xD4, 0xFE]), "mov [si - 300], cx");
    assert_eq!(line_of(&[0x8B, 0x80, 0x00, 0x00]), "mov ax, [bx + si]");
    assert_eq!(line_of(&[0x8B, 0x2E, 0x05, 0x00]), "mov bp, [5]");
    assert_eq!(line_of(&[0x8B, 0x1E, 0x82, 0x0D]), "mov bx, [3458]");
    assert_eq!(line_of(&[0x03, 0x18]), "add bx, [bx + si]");
    assert_eq!(line_of(&[0x29, 0xC3]), "sub bx, ax");
    assert_eq!(line_of(&[0x3A, 0x4F, 0xFD]), "cmp cl, [bx - 3]");
}

#[test]
fn immediate_to_register_memory_forms() {
    assert_eq!(line_of(&[0xC6, 0x03, 0x07]), "mov [bp + di], byte 7");
    assert_eq!(line_of(&[0xC7, 0x85, 0x85, 0x03, 0x5B, 0x01]), "mov [di + 901], word 347");
    assert_eq!(line_of(&[0xC7, 0xC1, 0x0C, 0x00]), "mov cx, 12");
    assert_eq!(line_of(&[0x81, 0x06, 0x34, 0x12, 0x10, 0x27]), "add [4660], word 10000");
    assert_eq!(line_of(&[0x80, 0x2F, 0x22]), "sub [bx], byte 34");
    assert_eq!(line_of(&[0x83, 0x3E, 0xE2, 0x12, 0x1D]), "cmp [4834], word 29");
    assert_eq!(line_of(&[0x83, 0xC0, 0xFB]), "add ax, -5");
    assert_eq!(line_of(&[0x82, 0xC1, 0xFB]), "add cl, -5");
    assert_eq!(line_of(&[0x81, 0xEC, 0x88, 0x13]), "sub sp, 5000");
}

#[test]
fn immediate_to_register_forms() {
    assert_eq!(line_of(&[0xB9, 0x0C, 0x00]), "mov cx, 12");
    assert_eq!(line_of(&[0xB9, 0xF4, 0xFF]), "mov cx, -12");
    assert_eq!(line_of(&[0xB5, 0xF4]), "mov ch, -12");
    assert_eq!(line_of(&[0xBA, 0x6C, 0x0F]), "mov dx, 3948");
}

#[test]
fn accumulator_forms() {
    assert_eq!(line_of(&[0xA1, 0xFB, 0x09]), "mov ax, [2555]");
    assert_eq!(line_of(&[0xA3, 0x0F, 0x00]), "mov [15], ax");
    assert_eq!(line_of(&[0x05, 0xE8, 0x03]), "add ax, 1000");
    assert_eq!(line_of(&[0x2C, 0xE2]), "sub al, -30");
    assert_eq!(line_of(&[0x3C, 0x09]), "cmp al, 9");
}

#[test]
fn relative_forms() {
    assert_eq!(line_of(&[0x74, 0x02]), "je $+2");
    assert_eq!(line_of(&[0x7C, 0x00]), "jl $+0");
    assert_eq!(line_of(&[0x7F, 0x80]), "jg $+-128");
    assert_eq!(line_of(&[0xE2, 0xFE]), "loop $+-2");
    assert_eq!(line_of(&[0xE1, 0x7F]), "loopz $+127");
    assert_eq!(line_of(&[0xE3, 0x05]), "jcxz $+5");
}

#[test]
fn handlers_read_after_the_leading_byte() {
    let bytes = [0xD9u8];
    let mut cursor = ByteCursor::new(&bytes);
    assert_eq!(register_memory_to_from_register(Op::Mov, &mut cursor, 0x89), Some("mov cx, bx".to_string()));

    let bytes = [0xC6u8, 0x02];
    let mut cursor = ByteCursor::new(&bytes);
    assert_eq!(immediate_to_register_memory(Op::Add, &mut cursor, 0x83), Some("add si, 2".to_string()));

    let bytes = [0x0Cu8];
    let mut cursor = ByteCursor::new(&bytes);
    assert_eq!(immediate_to_register(Op::Mov, &mut cursor, 0xB1), Some("mov cl, 12".to_string()));

    let bytes = [0x10u8, 0x00];
    let mut cursor = ByteCursor::new(&bytes);
    assert_eq!(memory_to_accumulator(Op::Mov, &mut cursor), Some("mov ax, [16]".to_string()));

    let bytes = [0x10u8, 0x00];
    let mut cursor = ByteCursor::new(&bytes);
    assert_eq!(accumulator_to_memory(Op::Mov, &mut cursor), Some("mov [16], ax".to_string()));

    let bytes = [0x10u8, 0x00];
    let mut cursor = ByteCursor::new(&bytes);
    assert_eq!(immediate_to_accumulator(Op::Cmp, &mut cursor, 0x3D), Some("cmp ax, 16".to_string()));

    let bytes = [0xFAu8];
    let mut cursor = ByteCursor::new(&bytes);
    assert_eq!(handle_jumps(Op::Jne, &mut cursor), Some("jne $+-6".to_string()));

    let bytes = [0x03u8];
    let mut cursor = ByteCursor::new(&bytes);
    assert_eq!(handle_loops(Op::Loopnz, &mut cursor), Some("loopnz $+3".to_string()));
}

#[test]
fn handlers_report_missing_bytes() {
    let bytes = [0x86u8, 0x10];
    let mut cursor = ByteCursor::new(&bytes);
    assert_eq!(register_memory_to_from_register(Op::Mov, &mut cursor, 0x8B), None);
    assert_eq!(cursor.position(), 2);

    let bytes = [0x06u8, 0x34, 0x12, 0x10];
    let mut cursor = ByteCursor::new(&bytes);
    assert_eq!(immediate_to_register_memory(Op::Add, &mut cursor, 0x81), None);
    assert!(cursor.is_exhausted());

    let bytes: [u8; 0] = [];
    let mut cursor = ByteCursor::new(&bytes);
    assert_eq!(handle_jumps(Op::Je, &mut cursor), None);
}
