use vstd::prelude::*;
use crate::bytes::{le16_at, le32_at, read_le16, read_le32};
use crate::text::{chars_equal, lowercase_chars, str_chars, unicode_lowercase};
use crate::errors::{
    ExportNotFoundError, GetExportAddressError, GetModuleAddressError, InvalidModuleHeadersError,
    ModuleNotFoundError, OsError,
};

verus! {

/// A name read byte by byte from memory: each byte is one character
/// (U+0000 to U+00FF).
pub open spec fn byte_chars(name: Seq<u8>) -> Seq<char> {
    name.map_values(|b: u8| b as char)
}

fn byte_chars_of(name: &Vec<u8>) -> (chars: Vec<char>)
    ensures
        chars@ == byte_chars(name@),
{
    let mut chars: Vec<char> = Vec::new();
    let mut i: usize = 0;
    while i < name.len()
        invariant
            i <= name@.len(),
            chars@ == byte_chars(name@.take(i as int)),
        decreases name@.len() - i,
    {
        chars.push(name[i] as char);
        proof {
            assert(byte_chars(name@.take(i as int + 1)) =~= byte_chars(name@.take(i as int)).push(
                name@[i as int] as char,
            ));
        }
        i = i + 1;
    }
    assert(name@.take(name@.len() as int) =~= name@);
    chars
}

/// One module of a process's module list: its name, where that name is
/// valid UTF-8, and its base address.
pub struct ModuleEntry {
    pub name: Option<String>,
    pub base_address: usize,
}

/// Whether a module entry's name equals `target` once both are lowercased.
pub open spec fn module_entry_matches(entry: ModuleEntry, target: Seq<char>) -> bool {
    match entry.name {
        Some(name) => unicode_lowercase(name@) == unicode_lowercase(target),
        None => false,
    }
}

/// Whether a lowercase module name (absent where the name is not valid
/// UTF-8) equals the lowercase target.
pub open spec fn lowercase_name_matches(name: Option<Vec<char>>, target: Seq<char>) -> bool {
    match name {
        Some(name) => name@ == target,
        None => false,
    }
}

/// The position of the first name of `lowercase_names` that equals
/// `lowercase_target`, if one does.
pub fn first_matching_module(
    lowercase_names: &Vec<Option<Vec<char>>>,
    lowercase_target: &Vec<char>,
) -> (position: Option<usize>)
    ensures
        match position {
            Some(i) => i < lowercase_names@.len() && lowercase_name_matches(
                lowercase_names@[i as int],
                lowercase_target@,
            ) && forall|j: int|
                0 <= j < i ==> !lowercase_name_matches(
                    #[trigger] lowercase_names@[j],
                    lowercase_target@,
                ),
            None => forall|j: int|
                0 <= j < lowercase_names@.len() ==> !lowercase_name_matches(
                    #[trigger] lowercase_names@[j],
                    lowercase_target@,
                ),
        },
{
    let mut i: usize = 0;
    while i < lowercase_names.len()
        invariant
            i <= lowercase_names@.len(),
            forall|j: int|
                0 <= j < i ==> !lowercase_name_matches(
                    #[trigger] lowercase_names@[j],
                    lowercase_target@,
                ),
        decreases lowercase_names@.len() - i,
    {
        match &lowercase_names[i] {
            Some(name) => {
                if chars_equal(name, lowercase_target) {
                    return Some(i);
                }
            },
            None => {},
        }
        i = i + 1;
    }
    None
}

/// The base address of the first module of `entries` whose name equals
/// `name` once both are lowercased; a module whose name is not valid UTF-8
/// matches nothing.
pub fn find_module_address(entries: &Vec<ModuleEntry>, name: &str) -> (result: Result<
    usize,
    GetModuleAddressError,
>)
    ensures
        match result {
            Ok(address) => exists|i: int|
                0 <= i < entries@.len() && module_entry_matches(entries@[i], name@)
                    && entries@[i].base_address == address && forall|j: int|
                    0 <= j < i ==> !module_entry_matches(#[trigger] entries@[j], name@),
            Err(error) => error == GetModuleAddressError::ModuleNotFound(ModuleNotFoundError)
                && forall|j: int|
                0 <= j < entries@.len() ==> !module_entry_matches(#[trigger] entries@[j], name@),
        },
{
    let target = lowercase_chars(&str_chars(name));
    let mut lowercase_names: Vec<Option<Vec<char>>> = Vec::new();
    let mut i: usize = 0;
    while i < entries.len()
        invariant
            i <= entries@.len(),
            lowercase_names@.len() == i,
            target@ == unicode_lowercase(name@),
            forall|j: int|
                0 <= j < i ==> (lowercase_name_matches(#[trigger] lowercase_names@[j], target@)
                    <==> module_entry_matches(entries@[j], name@)),
        decreases entries@.len() - i,
    {
        let lowercase = match &entries[i].name {
            Some(module_name) => Some(lowercase_chars(&str_chars(module_name.as_str()))),
            None => None,
        };
        lowercase_names.push(lowercase);
        i = i + 1;
    }
    match first_matching_module(&lowercase_names, &target) {
        Some(position) => {
            assert(module_entry_matches(entries@[position as int], name@));
            assert forall|j: int| 0 <= j < position implies !module_entry_matches(
                #[trigger] entries@[j],
                name@,
            ) by {
                assert(!lowercase_name_matches(lowercase_names@[j], target@));
            }
            Ok(entries[position].base_address)
        },
        None => {
            assert forall|j: int| 0 <= j < entries@.len() implies !module_entry_matches(
                #[trigger] entries@[j],
                name@,
            ) by {
                assert(!lowercase_name_matches(lowercase_names@[j], target@));
            }
            Err(GetModuleAddressError::ModuleNotFound(ModuleNotFoundError))
        },
    }
}

/// The parts of a module's export directory that a lookup by name uses.
#[derive(Clone, Copy, Debug, PartialEq, Eq, Structural)]
pub struct ExportDirectory {
    pub number_of_names: u32,
    pub address_of_functions: u32,
    pub address_of_names: u32,
    pub address_of_name_ordinals: u32,
}

/// Where a lookup of an export by name stands: each state but the last two
/// waits for the bytes of one read of the module's memory.
#[derive(Debug)]
pub enum ExportLookup {
    /// Reads the 64-byte DOS header at the module's base.
    DosHeader,
    /// Reads the 4-byte signature of the PE header.
    PeSignature { pe_header: usize },
    /// Reads the 2-byte magic of the optional header.
    OptionalHeaderMagic { optional_header: usize },
    /// Reads the optional header (224 bytes for PE32, 240 for PE32+).
    OptionalHeader { optional_header: usize, is_64_bit: bool },
    /// Reads the 40-byte export directory.
    Directory { directory: usize },
    /// Reads the 4-byte offset of the name at `index`.
    NameAddress { directory: ExportDirectory, index: u32 },
    /// Reads the next byte of the name at `index`; `name` holds the bytes read
    /// so far.
    Name { directory: ExportDirectory, index: u32, address: usize, name: Vec<u8> },
    /// Reads the 2-byte ordinal of the name at `index`.
    Ordinal { directory: ExportDirectory, index: u32 },
    /// Reads the 4-byte offset of the function with this ordinal.
    FunctionOffset { directory: ExportDirectory, ordinal: u16 },
    /// The export's address.
    Found(usize),
    /// The lookup failed.
    Failed(GetExportAddressError),
}

/// The size of the DOS header.
pub const DOS_HEADER_LEN: usize = 64;

/// The size of the PE file header that follows the signature.
pub const FILE_HEADER_LEN: usize = 20;

/// The size of the export directory.
pub const EXPORT_DIRECTORY_LEN: usize = 40;

/// An address in the address space: the integer reduced modulo its size, so
/// that sums of addresses and offsets wrap around at the end.
pub open spec fn wrapping(a: int) -> usize {
    (a % (usize::MAX as int + 1)) as usize
}

proof fn lemma_wrapping_small(a: int)
    requires
        0 <= a <= usize::MAX,
    ensures
        wrapping(a) == a,
{
    vstd::arithmetic::div_mod::lemma_small_mod(a as nat, (usize::MAX as int + 1) as nat);
}

proof fn lemma_wrapping_add(a: int, b: int)
    ensures
        wrapping(wrapping(a) + b) == wrapping(a + b),
        wrapping(a + wrapping(b)) == wrapping(a + b),
{
    let ghost m = usize::MAX as int + 1;
    vstd::arithmetic::div_mod::lemma_add_mod_noop(a, b, m);
    vstd::arithmetic::div_mod::lemma_mod_twice(a, m);
    vstd::arithmetic::div_mod::lemma_mod_twice(b, m);
    vstd::arithmetic::div_mod::lemma_add_mod_noop(a % m, b, m);
    vstd::arithmetic::div_mod::lemma_add_mod_noop(a, b % m, m);
    vstd::arithmetic::div_mod::lemma_mod_bound(a, m);
    vstd::arithmetic::div_mod::lemma_mod_bound(b, m);
}

/// `base + offset` in the address space.
fn address_add(base: usize, offset: usize) -> (address: usize)
    ensures
        address == wrapping(base + offset),
{
    let ghost m = usize::MAX as int + 1;
    if base <= usize::MAX - offset {
        proof {
            lemma_wrapping_small(base + offset);
        }
        base + offset
    } else {
        let r = base - (usize::MAX - offset) - 1;
        proof {
            lemma_wrapping_small(r as int);
            vstd::arithmetic::div_mod::lemma_mod_add_multiples_vanish(r as int, m);
        }
        r
    }
}

/// The address of entry `index` of a table of `scale`-byte entries at
/// offset `table` from `module`.
fn table_entry_address(module: usize, table: u32, index: usize, scale: usize) -> (address: usize)
    requires
        scale <= 4,
    ensures
        address == wrapping(module + table + index * scale),
{
    let ghost m = usize::MAX as int + 1;
    let offset = index.wrapping_mul(scale);
    proof {
        assert(offset == wrapping(index * scale)) by {
            assert(index as nat * scale as nat == index * scale) by (nonlinear_arith);
        }
    }
    let a = address_add(module, table as usize);
    let b = address_add(a, offset);
    proof {
        lemma_wrapping_add(module + table, offset as int);
        lemma_wrapping_add(module + table, index * scale);
    }
    b
}

/// A lookup of an export by name in a module of another process: a state
/// machine that says which memory to read next and takes the bytes read.
pub struct ExportLookupMachine {
    pub module: usize,
    pub export_name: Vec<char>,
    pub state: ExportLookup,
}

/// The read that a state waits for: its address and length.
pub open spec fn spec_request(module: usize, state: ExportLookup) -> Option<(usize, usize)> {
    match state {
        ExportLookup::DosHeader => Some((module, DOS_HEADER_LEN)),
        ExportLookup::PeSignature { pe_header } => Some((pe_header, 4usize)),
        ExportLookup::OptionalHeaderMagic { optional_header } => Some((optional_header, 2usize)),
        ExportLookup::OptionalHeader { optional_header, is_64_bit } => Some(
            (optional_header, if is_64_bit {
                240usize
            } else {
                224usize
            }),
        ),
        ExportLookup::Directory { directory } => Some((directory, EXPORT_DIRECTORY_LEN)),
        ExportLookup::NameAddress { directory, index } => Some(
            (wrapping(module + directory.address_of_names + index * 4), 4usize),
        ),
        ExportLookup::Name { address, name, .. } => Some((wrapping(address + name@.len()), 1usize)),
        ExportLookup::Ordinal { directory, index } => Some(
            (wrapping(module + directory.address_of_name_ordinals + index * 2), 2usize),
        ),
        ExportLookup::FunctionOffset { directory, ordinal } => Some(
            (wrapping(module + directory.address_of_functions + ordinal * 4), 4usize),
        ),
        ExportLookup::Found(_) => None,
        ExportLookup::Failed(_) => None,
    }
}

/// The lookup reads entry `index` of each export table, and nothing else:
/// the name-offset and function-offset tables have 4-byte entries and the
/// name-ordinal table 2-byte entries, entry 0 at the table's offset from the
/// module and each next entry right after the one before. So the ordinal of
/// name `i` is the i-th 2-byte entry, and the function of ordinal `o` the
/// o-th 4-byte entry.
pub proof fn lemma_export_tables_are_read_by_entry(
    module: usize,
    directory: ExportDirectory,
    index: u32,
    ordinal: u16,
)
    ensures
        spec_request(module, (ExportLookup::NameAddress { directory, index: 0 })) == Some(
            (wrapping(module + directory.address_of_names), 4usize),
        ),
        spec_request(module, (ExportLookup::Ordinal { directory, index: 0 })) == Some(
            (wrapping(module + directory.address_of_name_ordinals), 2usize),
        ),
        spec_request(module, (ExportLookup::FunctionOffset { directory, ordinal: 0 })) == Some(
            (wrapping(module + directory.address_of_functions), 4usize),
        ),
        index < u32::MAX ==> spec_request(
            module,
            (ExportLookup::NameAddress { directory, index: (index + 1) as u32 }),
        ) == Some(
            (
                wrapping(
                    spec_request(module, (ExportLookup::NameAddress { directory, index })).unwrap().0
                        + 4,
                ),
                4usize,
            ),
        ),
        index < u32::MAX ==> spec_request(
            module,
            (ExportLookup::Ordinal { directory, index: (index + 1) as u32 }),
        ) == Some(
            (
                wrapping(spec_request(module, (ExportLookup::Ordinal { directory, index })).unwrap().0 + 2),
                2usize,
            ),
        ),
        ordinal < u16::MAX ==> spec_request(
            module,
            (ExportLookup::FunctionOffset { directory, ordinal: (ordinal + 1) as u16 }),
        ) == Some(
            (
                wrapping(
                    spec_request(module, (ExportLookup::FunctionOffset { directory, ordinal })).unwrap().0
                        + 4,
                ),
                4usize,
            ),
        ),
{
    lemma_wrapping_add(module + directory.address_of_names + index * 4, 4);
    lemma_wrapping_add(module + directory.address_of_name_ordinals + index * 2, 2);
    lemma_wrapping_add(module + directory.address_of_functions + ordinal * 4, 4);
    assert(module + directory.address_of_names + (index + 1) * 4 == module
        + directory.address_of_names + index * 4 + 4);
    assert(module + directory.address_of_name_ordinals + (index + 1) * 2 == module
        + directory.address_of_name_ordinals + index * 2 + 2);
    assert(module + directory.address_of_functions + (ordinal + 1) * 4 == module
        + directory.address_of_functions + ordinal * 4 + 4);
}

/// The failure for headers that are not those of a PE module.
pub open spec fn invalid_headers() -> ExportLookup {
    ExportLookup::Failed(GetExportAddressError::InvalidModuleHeaders(InvalidModuleHeadersError))
}

/// The failure for a module that exports no matching name.
pub open spec fn not_found() -> ExportLookup {
    ExportLookup::Failed(GetExportAddressError::ExportNotFound(ExportNotFoundError))
}

/// The state that follows `state` after its read gave `bytes`, for an export
/// whose lowercase name is `target`:
/// the DOS header must start with `MZ`, and its signed 32-bit field at 0x3c
/// locates the PE header; the PE signature must be `PE\0\0`; the optional
/// header follows the 20-byte file header and its magic 0x10b or 0x20b says
/// PE32 or PE32+; the first data directory (at 96 or 112) holds the export
/// directory's offset; the export directory gives the number of names and
/// the three tables; the names are tried in order, each read up to its NUL
/// and compared in lowercase; the first name that matches gives an ordinal,
/// and the ordinal the function's offset. Offsets are relative to the
/// module's base.
pub open spec fn spec_next(
    module: usize,
    target: Seq<char>,
    state: ExportLookup,
    bytes: Seq<u8>,
    next: ExportLookup,
) -> bool {
    match state {
        ExportLookup::DosHeader => if le16_at(bytes, 0) != 0x5a4d {
            next == invalid_headers()
        } else {
            next == ExportLookup::PeSignature {
                pe_header: wrapping(module + (le32_at(bytes, 0x3c) as i32)),
            }
        },
        ExportLookup::PeSignature { pe_header } => if bytes == seq![0x50u8, 0x45, 0x00, 0x00] {
            next == ExportLookup::OptionalHeaderMagic {
                optional_header: wrapping(pe_header + 4 + FILE_HEADER_LEN),
            }
        } else {
            next == invalid_headers()
        },
        ExportLookup::OptionalHeaderMagic { optional_header } => if bytes[0] == 0x0b && bytes[1]
            == 0x01 {
            next == ExportLookup::OptionalHeader { optional_header, is_64_bit: false }
        } else if bytes[0] == 0x0b && bytes[1] == 0x02 {
            next == ExportLookup::OptionalHeader { optional_header, is_64_bit: true }
        } else {
            next == invalid_headers()
        },
        ExportLookup::OptionalHeader { is_64_bit, .. } => next == ExportLookup::Directory {
            directory: wrapping(
                module + le32_at(
                    bytes,
                    if is_64_bit {
                        112
                    } else {
                        96
                    },
                ),
            ),
        },
        ExportLookup::Directory { .. } => {
            let directory = ExportDirectory {
                number_of_names: le32_at(bytes, 24),
                address_of_functions: le32_at(bytes, 28),
                address_of_names: le32_at(bytes, 32),
                address_of_name_ordinals: le32_at(bytes, 36),
            };
            if directory.number_of_names == 0 {
                next == not_found()
            } else {
                next == ExportLookup::NameAddress { directory, index: 0 }
            }
        },
        ExportLookup::NameAddress { directory, index } => next matches ExportLookup::Name {
            directory: d,
            index: i,
            address,
            name,
        } && d == directory && i == index && address == wrapping(module + le32_at(bytes, 0))
            && name@.len() == 0,
        ExportLookup::Name { directory, index, address, name } => if bytes[0] != 0 {
            next matches ExportLookup::Name { directory: d, index: i, address: a, name: n }
                && d == directory && i == index && a == address && n@ == name@.push(bytes[0])
        } else if unicode_lowercase(byte_chars(name@)) == target {
            next == ExportLookup::Ordinal { directory, index }
        } else if index + 1 < directory.number_of_names {
            next == ExportLookup::NameAddress { directory, index: (index + 1) as u32 }
        } else {
            next == not_found()
        },
        ExportLookup::Ordinal { directory, .. } => next == ExportLookup::FunctionOffset {
            directory,
            ordinal: le16_at(bytes, 0),
        },
        ExportLookup::FunctionOffset { .. } => next == ExportLookup::Found(
            wrapping(module + le32_at(bytes, 0)),
        ),
        ExportLookup::Found(_) => false,
        ExportLookup::Failed(_) => false,
    }
}

/// The state after the name at `index` has been read in full, given its
/// lowercase form: a name equal to the lowercase target goes on to its
/// ordinal; otherwise the next name is tried, and after the last one the
/// lookup fails.
pub fn end_of_name(
    directory: ExportDirectory,
    index: u32,
    lowercase_name: &Vec<char>,
    lowercase_target: &Vec<char>,
) -> (next: ExportLookup)
    ensures
        lowercase_name@ == lowercase_target@ ==> next == (ExportLookup::Ordinal {
            directory,
            index,
        }),
        lowercase_name@ != lowercase_target@ && index + 1 < directory.number_of_names ==> next
            == (ExportLookup::NameAddress { directory, index: (index + 1) as u32 }),
        lowercase_name@ != lowercase_target@ && index + 1 >= directory.number_of_names ==> (next
            == not_found()),
{
    if chars_equal(lowercase_name, lowercase_target) {
        ExportLookup::Ordinal { directory, index }
    } else if (index as u64) + 1 < directory.number_of_names as u64 {
        ExportLookup::NameAddress { directory, index: index + 1 }
    } else {
        ExportLookup::Failed(GetExportAddressError::ExportNotFound(ExportNotFoundError))
    }
}

impl ExportLookupMachine {
    /// Starts a lookup of `export_name`, compared in lowercase, in the module
    /// whose base address is `module`.
    pub fn new(module: usize, export_name: &str) -> (machine: Self)
        ensures
            machine.module == module,
            machine.export_name@ == unicode_lowercase(export_name@),
            machine.state == ExportLookup::DosHeader,
    {
        let chars = str_chars(export_name);
        ExportLookupMachine {
            module,
            export_name: lowercase_chars(&chars),
            state: ExportLookup::DosHeader,
        }
    }

    /// The read the lookup waits for (address and length), or `None` once it
    /// has ended.
    pub fn request(&self) -> (request: Option<(usize, usize)>)
        ensures
            request == spec_request(self.module, self.state),
    {
        match &self.state {
            ExportLookup::DosHeader => Some((self.module, DOS_HEADER_LEN)),
            ExportLookup::PeSignature { pe_header } => Some((*pe_header, 4)),
            ExportLookup::OptionalHeaderMagic { optional_header } => Some((*optional_header, 2)),
            ExportLookup::OptionalHeader { optional_header, is_64_bit } => Some(
                (*optional_header, if *is_64_bit {
                    240
                } else {
                    224
                }),
            ),
            ExportLookup::Directory { directory } => Some((*directory, EXPORT_DIRECTORY_LEN)),
            ExportLookup::NameAddress { directory, index } => Some(
                (
                    table_entry_address(
                        self.module,
                        directory.address_of_names,
                        *index as usize,
                        4,
                    ),
                    4,
                ),
            ),
            ExportLookup::Name { address, name, .. } => Some(
                (address_add(*address, name.len()), 1),
            ),
            ExportLookup::Ordinal { directory, index } => Some(
                (
                    table_entry_address(
                        self.module,
                        directory.address_of_name_ordinals,
                        *index as usize,
                        2,
                    ),
                    2,
                ),
            ),
            ExportLookup::FunctionOffset { directory, ordinal } => Some(
                (
                    table_entry_address(
                        self.module,
                        directory.address_of_functions,
                        *ordinal as usize,
                        4,
                    ),
                    4,
                ),
            ),
            ExportLookup::Found(_) => None,
            ExportLookup::Failed(_) => None,
        }
    }

    /// The export's address once the lookup has found it, its error once it
    /// has failed, or `None` while it still waits for a read.
    pub fn result(&self) -> (result: Option<Result<usize, GetExportAddressError>>)
        ensures
            result == match self.state {
                ExportLookup::Found(address) => Some(Ok(address)),
                ExportLookup::Failed(error) => Some(Err(error)),
                _ => None,
            },
    {
        match &self.state {
            ExportLookup::Found(address) => Some(Ok(*address)),
            ExportLookup::Failed(error) => Some(Err(*error)),
            _ => None,
        }
    }

    /// Ends the lookup with the error of a read that failed.
    pub fn read_failed(&mut self, error: OsError)
        ensures
            final(self).module == old(self).module,
            final(self).export_name@ == old(self).export_name@,
            final(self).state == ExportLookup::Failed(GetExportAddressError::Os(error)),
    {
        self.state = ExportLookup::Failed(GetExportAddressError::Os(error));
    }

    /// Takes the bytes of the read the lookup waited for and moves to the
    /// state that follows.
    pub fn advance(&mut self, bytes: &[u8])
        requires
            spec_request(old(self).module, old(self).state) matches Some((_, length)) && bytes@.len()
                == length,
        ensures
            final(self).module == old(self).module,
            final(self).export_name@ == old(self).export_name@,
            spec_next(
                old(self).module,
                old(self).export_name@,
                old(self).state,
                bytes@,
                final(self).state,
            ),
    {
        let mut state = ExportLookup::DosHeader;
        std::mem::swap(&mut state, &mut self.state);
        let module = self.module;
        let next = match state {
            ExportLookup::DosHeader => {
                if read_le16(bytes, 0) != 0x5a4d {
                    ExportLookup::Failed(
                        GetExportAddressError::InvalidModuleHeaders(InvalidModuleHeadersError),
                    )
                } else {
                    let e_lfanew = read_le32(bytes, 0x3c) as i32;
                    let pe_header = if e_lfanew >= 0 {
                        address_add(module, e_lfanew as usize)
                    } else {
                        let back = (-(e_lfanew as i64)) as usize;
                        let r = address_add(module, usize::MAX - back + 1);
                        proof {
                            lemma_wrapping_add(module + e_lfanew, usize::MAX as int + 1);
                            vstd::arithmetic::div_mod::lemma_mod_add_multiples_vanish(
                                module + e_lfanew,
                                usize::MAX as int + 1,
                            );
                        }
                        r
                    };
                    ExportLookup::PeSignature { pe_header }
                }
            },
            ExportLookup::PeSignature { pe_header } => {
                if bytes[0] == 0x50 && bytes[1] == 0x45 && bytes[2] == 0 && bytes[3] == 0 {
                    proof {
                        assert(bytes@ =~= seq![0x50u8, 0x45, 0x00, 0x00]);
                    }
                    let optional_header = address_add(pe_header, 4 + FILE_HEADER_LEN);
                    proof {
                        lemma_wrapping_add(pe_header as int, 4 + FILE_HEADER_LEN);
                    }
                    ExportLookup::OptionalHeaderMagic { optional_header }
                } else {
                    ExportLookup::Failed(
                        GetExportAddressError::InvalidModuleHeaders(InvalidModuleHeadersError),
                    )
                }
            },
            ExportLookup::OptionalHeaderMagic { optional_header } => {
                if bytes[0] == 0x0b && bytes[1] == 0x01 {
                    ExportLookup::OptionalHeader { optional_header, is_64_bit: false }
                } else if bytes[0] == 0x0b && bytes[1] == 0x02 {
                    ExportLookup::OptionalHeader { optional_header, is_64_bit: true }
                } else {
                    ExportLookup::Failed(
                        GetExportAddressError::InvalidModuleHeaders(InvalidModuleHeadersError),
                    )
                }
            },
            ExportLookup::OptionalHeader { is_64_bit, .. } => {
                let offset = read_le32(
                    bytes,
                    if is_64_bit {
                        112
                    } else {
                        96
                    },
                );
                ExportLookup::Directory { directory: address_add(module, offset as usize) }
            },
            ExportLookup::Directory { .. } => {
                let directory = ExportDirectory {
                    number_of_names: read_le32(bytes, 24),
                    address_of_functions: read_le32(bytes, 28),
                    address_of_names: read_le32(bytes, 32),
                    address_of_name_ordinals: read_le32(bytes, 36),
                };
                if directory.number_of_names == 0 {
                    ExportLookup::Failed(GetExportAddressError::ExportNotFound(ExportNotFoundError))
                } else {
                    ExportLookup::NameAddress { directory, index: 0 }
                }
            },
            ExportLookup::NameAddress { directory, index } => {
                let offset = read_le32(bytes, 0);
                ExportLookup::Name {
                    directory,
                    index,
                    address: address_add(module, offset as usize),
                    name: Vec::new(),
                }
            },
            ExportLookup::Name { directory, index, address, name } => {
                if bytes[0] != 0 {
                    let mut name = name;
                    name.push(bytes[0]);
                    ExportLookup::Name { directory, index, address, name }
                } else {
                    let lower = lowercase_chars(&byte_chars_of(&name));
                    end_of_name(directory, index, &lower, &self.export_name)
                }
            },
            ExportLookup::Ordinal { directory, .. } => {
                ExportLookup::FunctionOffset { directory, ordinal: read_le16(bytes, 0) }
            },
            ExportLookup::FunctionOffset { .. } => {
                let offset = read_le32(bytes, 0);
                ExportLookup::Found(address_add(module, offset as usize))
            },
            ExportLookup::Found(address) => ExportLookup::Found(address),
            ExportLookup::Failed(error) => ExportLookup::Failed(error),
        };
        self.state = next;
    }
}

} // verus!
