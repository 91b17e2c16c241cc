use winter::code::{
    load_library_code_32, load_library_code_64, return_only_code, window_procedure_code_32,
    window_procedure_code_64,
};

#[test]
fn load_library_thunk_32() {
    let code = load_library_code_32(0x1122_3344, 0x5566_7788, 0x99aa_bbcc);
    assert_eq!(
        code,
        vec![
            0x68, 0x44, 0x33, 0x22, 0x11, // push path
            0xb8, 0x88, 0x77, 0x66, 0x55, // mov eax, LoadLibraryA
            0xff, 0xd0, 0x85, 0xc0, 0xb8, 0x00, 0x00, 0x00, 0x00, 0x75, 0x07, //
            0xb8, 0xcc, 0xbb, 0xaa, 0x99, // mov eax, GetLastError
            0xff, 0xd0, 0xc3,
        ]
    );
}

#[test]
fn load_library_thunk_32_keeps_low_address_bits() {
    let code = load_library_code_32(0xdead_0000_1122_3344, 0, 0);
    assert_eq!(&code[1..5], &[0x44, 0x33, 0x22, 0x11]);
}

#[test]
fn load_library_thunk_64() {
    let code = load_library_code_64(0x0102_0304_0506_0708, 0x1112_1314_1516_1718, 0x2122_2324_2526_2728);
    assert_eq!(code.len(), 64);
    assert_eq!(&code[0..14], &[0x48, 0x89, 0xe0, 0x48, 0x83, 0xe4, 0xf0, 0x50, 0x48, 0x83, 0xec, 0x28, 0x48, 0xb9]);
    assert_eq!(&code[14..22], &[0x08, 0x07, 0x06, 0x05, 0x04, 0x03, 0x02, 0x01]);
    assert_eq!(&code[22..24], &[0x48, 0xb8]);
    assert_eq!(&code[24..32], &[0x18, 0x17, 0x16, 0x15, 0x14, 0x13, 0x12, 0x11]);
    assert_eq!(
        &code[32..48],
        &[0xff, 0xd0, 0x48, 0x85, 0xc0, 0x48, 0xc7, 0xc0, 0x00, 0x00, 0x00, 0x00, 0x75, 0x0c, 0x48, 0xb8]
    );
    assert_eq!(&code[48..56], &[0x28, 0x27, 0x26, 0x25, 0x24, 0x23, 0x22, 0x21]);
    assert_eq!(&code[56..64], &[0xff, 0xd0, 0x48, 0x83, 0xc4, 0x28, 0x5c, 0xc3]);
}

#[test]
fn return_only_thunk() {
    assert_eq!(return_only_code(), vec![0xc3]);
}

#[test]
fn window_procedure_thunks() {
    assert_eq!(
        window_procedure_code_32(0x1122_3344, 0x5566_7788),
        vec![0x58, 0x68, 0x44, 0x33, 0x22, 0x11, 0x50, 0xb8, 0x88, 0x77, 0x66, 0x55, 0xff, 0xe0]
    );
    let code = window_procedure_code_64(0x0102_0304_0506_0708, 0x1112_1314_1516_1718);
    assert_eq!(code.len(), 42);
    assert_eq!(&code[17..25], &[0x08, 0x07, 0x06, 0x05, 0x04, 0x03, 0x02, 0x01]);
    assert_eq!(&code[25..27], &[0x48, 0xb8]);
    assert_eq!(&code[27..35], &[0x18, 0x17, 0x16, 0x15, 0x14, 0x13, 0x12, 0x11]);
    assert_eq!(&code[35..42], &[0xff, 0xd0, 0x48, 0x83, 0xc4, 0x28, 0xc3]);
}
