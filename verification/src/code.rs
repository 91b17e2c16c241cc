use vstd::prelude::*;
use crate::bytes::{le32, le64, push_le32, push_le64};

verus! {

/// Appends the given bytes.
fn push_all(bytes: &mut Vec<u8>, tail: &[u8])
    ensures
        final(bytes)@ == old(bytes)@ + tail@,
{
    let ghost start = bytes@;
    let mut i: usize = 0;
    while i < tail.len()
        invariant
            i <= tail@.len(),
            bytes@ == start + tail@.take(i as int),
        decreases tail@.len() - i,
    {
        bytes.push(tail[i]);
        assert(tail@.take(i + 1) =~= tail@.take(i as int).push(tail@[i as int]));
        i = i + 1;
    }
    assert(tail@.take(tail@.len() as int) =~= tail@);
}

/// The x64 code that loads a library in the target process: it aligns the
/// stack, calls `LoadLibraryA` with the path, returns 0 on success and
/// otherwise the value of `GetLastError`, and restores the stack.
pub open spec fn spec_load_library_code_64(path: u64, load_library: u64, get_last_error: u64) -> Seq<u8> {
    seq![0x48u8, 0x89, 0xe0, 0x48, 0x83, 0xe4, 0xf0, 0x50, 0x48, 0x83, 0xec, 0x28, 0x48, 0xb9]
        + le64(path) + seq![0x48u8, 0xb8] + le64(load_library) + seq![
        0xffu8,
        0xd0,
        0x48,
        0x85,
        0xc0,
        0x48,
        0xc7,
        0xc0,
        0x00,
        0x00,
        0x00,
        0x00,
        0x75,
        0x0c,
        0x48,
        0xb8,
    ] + le64(get_last_error) + seq![0xffu8, 0xd0, 0x48, 0x83, 0xc4, 0x28, 0x5c, 0xc3]
}

pub fn load_library_code_64(path: u64, load_library: u64, get_last_error: u64) -> (code: Vec<u8>)
    ensures
        code@ == spec_load_library_code_64(path, load_library, get_last_error),
        code@.len() == 64,
{
    let mut code: Vec<u8> = Vec::new();
    push_all(&mut code, &[0x48u8, 0x89, 0xe0, 0x48, 0x83, 0xe4, 0xf0, 0x50, 0x48, 0x83, 0xec, 0x28, 0x48, 0xb9]);
    push_le64(&mut code, path);
    push_all(&mut code, &[0x48u8, 0xb8]);
    push_le64(&mut code, load_library);
    push_all(&mut code, &[0xffu8, 0xd0, 0x48, 0x85, 0xc0, 0x48, 0xc7, 0xc0, 0x00, 0x00, 0x00, 0x00, 0x75, 0x0c, 0x48, 0xb8]);
    push_le64(&mut code, get_last_error);
    push_all(&mut code, &[0xffu8, 0xd0, 0x48, 0x83, 0xc4, 0x28, 0x5c, 0xc3]);
    code
}

/// The x86 code that loads a library in the target process: it pushes the
/// path, calls `LoadLibraryA`, and returns 0 on success and otherwise the
/// value of `GetLastError`. Addresses are taken to their low 32 bits.
pub open spec fn spec_load_library_code_32(path: u64, load_library: u64, get_last_error: u64) -> Seq<u8> {
    seq![0x68u8] + le32(path as u32) + seq![0xb8u8] + le32(load_library as u32) + seq![
        0xffu8,
        0xd0,
        0x85,
        0xc0,
        0xb8,
        0x00,
        0x00,
        0x00,
        0x00,
        0x75,
        0x07,
        0xb8,
    ] + le32(get_last_error as u32) + seq![0xffu8, 0xd0, 0xc3]
}

pub fn load_library_code_32(path: u64, load_library: u64, get_last_error: u64) -> (code: Vec<u8>)
    ensures
        code@ == spec_load_library_code_32(path, load_library, get_last_error),
        code@.len() == 29,
{
    let mut code: Vec<u8> = Vec::new();
    push_all(&mut code, &[0x68u8]);
    push_le32(&mut code, path as u32);
    push_all(&mut code, &[0xb8u8]);
    push_le32(&mut code, load_library as u32);
    push_all(&mut code, &[0xffu8, 0xd0, 0x85, 0xc0, 0xb8, 0x00, 0x00, 0x00, 0x00, 0x75, 0x07, 0xb8]);
    push_le32(&mut code, get_last_error as u32);
    push_all(&mut code, &[0xffu8, 0xd0, 0xc3]);
    code
}

/// A function that only returns (`ret` on x86 and x64).
pub fn return_only_code() -> (code: Vec<u8>)
    ensures
        code@ == seq![0xc3u8],
{
    let mut code: Vec<u8> = Vec::new();
    code.push(0xc3);
    assert(code@ =~= seq![0xc3u8]);
    code
}

/// The x64 window procedure that the hooks register in place of a class's
/// own: it passes the class procedure as a new first argument to the
/// filtering procedure and returns its result.
pub open spec fn spec_window_procedure_code_64(class_procedure: u64, filtering_procedure: u64) -> Seq<u8> {
    seq![
        0x41u8,
        0x51,
        0x48,
        0x83,
        0xec,
        0x20,
        0x4d,
        0x89,
        0xc1,
        0x49,
        0x89,
        0xd0,
        0x48,
        0x89,
        0xca,
        0x48,
        0xb9,
    ] + le64(class_procedure) + seq![0x48u8, 0xb8] + le64(filtering_procedure) + seq![
        0xffu8,
        0xd0,
        0x48,
        0x83,
        0xc4,
        0x28,
        0xc3,
    ]
}

pub fn window_procedure_code_64(class_procedure: u64, filtering_procedure: u64) -> (code: Vec<u8>)
    ensures
        code@ == spec_window_procedure_code_64(class_procedure, filtering_procedure),
        code@.len() == 42,
{
    let mut code: Vec<u8> = Vec::new();
    push_all(&mut code, &[0x41u8, 0x51, 0x48, 0x83, 0xec, 0x20, 0x4d, 0x89, 0xc1, 0x49, 0x89, 0xd0, 0x48, 0x89, 0xca, 0x48, 0xb9]);
    push_le64(&mut code, class_procedure);
    push_all(&mut code, &[0x48u8, 0xb8]);
    push_le64(&mut code, filtering_procedure);
    push_all(&mut code, &[0xffu8, 0xd0, 0x48, 0x83, 0xc4, 0x28, 0xc3]);
    code
}

/// The x86 window procedure that the hooks register in place of a class's
/// own: it inserts the class procedure as a new first argument and jumps
/// to the filtering procedure.
pub open spec fn spec_window_procedure_code_32(class_procedure: u32, filtering_procedure: u32) -> Seq<u8> {
    seq![0x58u8, 0x68] + le32(class_procedure) + seq![0x50u8, 0xb8] + le32(filtering_procedure)
        + seq![0xffu8, 0xe0]
}

pub fn window_procedure_code_32(class_procedure: u32, filtering_procedure: u32) -> (code: Vec<u8>)
    ensures
        code@ == spec_window_procedure_code_32(class_procedure, filtering_procedure),
        code@.len() == 14,
{
    let mut code: Vec<u8> = Vec::new();
    push_all(&mut code, &[0x58u8, 0x68]);
    push_le32(&mut code, class_procedure);
    push_all(&mut code, &[0x50u8, 0xb8]);
    push_le32(&mut code, filtering_procedure);
    push_all(&mut code, &[0xffu8, 0xe0]);
    code
}

} // verus!
