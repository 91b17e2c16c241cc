use winter::errors::{
    ExportNotFoundError, GetExportAddressError, GetModuleAddressError, InvalidModuleHeadersError,
    ModuleNotFoundError, OsError,
};
use winter::exports::{
    end_of_name, find_module_address, first_matching_module, ExportDirectory, ExportLookup,
    ExportLookupMachine, ModuleEntry,
};

const BASE: usize = 0x10000;

fn put16(image: &mut [u8], at: usize, value: u16) {
    image[at..at + 2].copy_from_slice(&value.to_le_bytes());
}

fn put32(image: &mut [u8], at: usize, value: u32) {
    image[at..at + 4].copy_from_slice(&value.to_le_bytes());
}

fn image(is_64_bit: bool) -> Vec<u8> {
    let mut image = vec![0u8; 0x2000];
    image[0] = b'M';
    image[1] = b'Z';
    put32(&mut image, 0x3c, 0x80);
    image[0x80..0x84].copy_from_slice(b"PE\0\0");
    let optional_header = 0x80 + 4 + 20;
    if is_64_bit {
        put16(&mut image, optional_header, 0x20b);
        put32(&mut image, optional_header + 112, 0x200);
    } else {
        put16(&mut image, optional_header, 0x10b);
        put32(&mut image, optional_header + 96, 0x200);
    }
    put32(&mut image, 0x200 + 24, 2);
    put32(&mut image, 0x200 + 28, 0x300);
    put32(&mut image, 0x200 + 32, 0x320);
    put32(&mut image, 0x200 + 36, 0x340);
    put32(&mut image, 0x320, 0x400);
    put32(&mut image, 0x324, 0x410);
    image[0x400..0x406].copy_from_slice(b"Alpha\0");
    image[0x410..0x41d].copy_from_slice(b"LoadLibraryA\0");
    put16(&mut image, 0x340, 1);
    put16(&mut image, 0x342, 0);
    put32(&mut image, 0x300, 0x1000);
    put32(&mut image, 0x304, 0x1234);
    image
}

fn look_up(image: &[u8], name: &str) -> Result<usize, GetExportAddressError> {
    let mut machine = ExportLookupMachine::new(BASE, name);
    let mut reads = 0;
    while let Some((address, length)) = machine.request() {
        reads += 1;
        assert!(reads < 10_000, "lookup does not end");
        if address >= BASE && address - BASE + length <= image.len() {
            let start = address - BASE;
            machine.advance(&image[start..start + length]);
        } else {
            machine.read_failed(OsError { code: 299 });
        }
    }
    machine.result().unwrap()
}

#[test]
fn export_found_in_pe32_plus_image() {
    let image = image(true);
    assert_eq!(look_up(&image, "LoadLibraryA"), Ok(BASE + 0x1000));
    assert_eq!(look_up(&image, "loadlibrarya"), Ok(BASE + 0x1000));
    assert_eq!(look_up(&image, "ALPHA"), Ok(BASE + 0x1234));
}

#[test]
fn export_found_in_pe32_image() {
    let image = image(false);
    assert_eq!(look_up(&image, "alpha"), Ok(BASE + 0x1234));
}

#[test]
fn export_missing() {
    let image = image(true);
    assert_eq!(
        look_up(&image, "GetLastError"),
        Err(GetExportAddressError::ExportNotFound(ExportNotFoundError))
    );
    let mut empty = image.clone();
    put32(&mut empty, 0x200 + 24, 0);
    assert_eq!(
        look_up(&empty, "Alpha"),
        Err(GetExportAddressError::ExportNotFound(ExportNotFoundError))
    );
}

#[test]
fn export_lookup_rejects_bad_headers() {
    let invalid = Err(GetExportAddressError::InvalidModuleHeaders(InvalidModuleHeadersError));
    let mut no_mz = image(true);
    no_mz[0] = b'X';
    assert_eq!(look_up(&no_mz, "Alpha"), invalid);
    let mut no_pe = image(true);
    no_pe[0x81] = b'X';
    assert_eq!(look_up(&no_pe, "Alpha"), invalid);
    let mut bad_magic = image(true);
    put16(&mut bad_magic, 0x98, 0x107);
    assert_eq!(look_up(&bad_magic, "Alpha"), invalid);
}

#[test]
fn export_lookup_reports_failed_read() {
    let mut image = image(true);
    // The export directory lies past the end of the readable image.
    put32(&mut image, 0x98 + 112, 0x8000);
    assert_eq!(look_up(&image, "Alpha"), Err(GetExportAddressError::Os(OsError { code: 299 })));
}

#[test]
fn export_lookup_negative_header_offset_wraps() {
    let mut machine = ExportLookupMachine::new(BASE, "x");
    let mut dos = vec![0u8; 64];
    dos[0] = b'M';
    dos[1] = b'Z';
    dos[0x3c..0x40].copy_from_slice(&(-0x10i32).to_le_bytes());
    machine.advance(&dos);
    assert_eq!(machine.request(), Some((BASE - 0x10, 4)));
}

#[test]
fn export_lookup_reads_names_byte_by_byte() {
    let image = image(true);
    let mut machine = ExportLookupMachine::new(BASE, "alpha");
    assert_eq!(machine.request(), Some((BASE, 64)));
    machine.advance(&image[0..64]);
    assert_eq!(machine.request(), Some((BASE + 0x80, 4)));
    machine.advance(&image[0x80..0x84]);
    assert_eq!(machine.request(), Some((BASE + 0x98, 2)));
    machine.advance(&image[0x98..0x9a]);
    assert_eq!(machine.request(), Some((BASE + 0x98, 240)));
    machine.advance(&image[0x98..0x98 + 240]);
    assert_eq!(machine.request(), Some((BASE + 0x200, 40)));
    machine.advance(&image[0x200..0x228]);
    assert_eq!(machine.request(), Some((BASE + 0x320, 4)));
    machine.advance(&image[0x320..0x324]);
    assert_eq!(machine.request(), Some((BASE + 0x400, 1)));
    machine.advance(&image[0x400..0x401]);
    assert_eq!(machine.request(), Some((BASE + 0x401, 1)));
    assert_eq!(machine.result(), None);
}

#[test]
fn name_end_decides_next_step() {
    let directory = ExportDirectory {
        number_of_names: 2,
        address_of_functions: 0,
        address_of_names: 0,
        address_of_name_ordinals: 0,
    };
    let name: Vec<char> = "alpha".chars().collect();
    let other: Vec<char> = "beta".chars().collect();
    assert!(matches!(end_of_name(directory, 1, &name, &name), ExportLookup::Ordinal { index: 1, .. }));
    assert!(matches!(end_of_name(directory, 0, &name, &other), ExportLookup::NameAddress { index: 1, .. }));
    assert!(matches!(
        end_of_name(directory, 1, &name, &other),
        ExportLookup::Failed(GetExportAddressError::ExportNotFound(_))
    ));
}

#[test]
fn module_found_by_lowercase_name() {
    let entries = vec![
        ModuleEntry { name: Some("KERNEL32.DLL".to_string()), base_address: 0x7000 },
        ModuleEntry { name: None, base_address: 0x1 },
        ModuleEntry { name: Some("user32.dll".to_string()), base_address: 0x8000 },
        ModuleEntry { name: Some("User32.DLL".to_string()), base_address: 0x9000 },
    ];
    assert_eq!(find_module_address(&entries, "kernel32.dll"), Ok(0x7000));
    assert_eq!(find_module_address(&entries, "USER32.dll"), Ok(0x8000));
    assert_eq!(
        find_module_address(&entries, "ntdll.dll"),
        Err(GetModuleAddressError::ModuleNotFound(ModuleNotFoundError))
    );
    assert_eq!(
        find_module_address(&Vec::new(), "ntdll.dll"),
        Err(GetModuleAddressError::ModuleNotFound(ModuleNotFoundError))
    );
}

#[test]
fn first_matching_lowercase_module() {
    let names = vec![None, Some("a".chars().collect()), Some("b".chars().collect()), Some("b".chars().collect())];
    assert_eq!(first_matching_module(&names, &"b".chars().collect()), Some(2));
    assert_eq!(first_matching_module(&names, &"c".chars().collect()), None);
}
