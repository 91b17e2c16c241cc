use vstd::prelude::*;
use crate::errors::{CheckIs64BitError, LoadLibraryThreadError, UnknownMachineError};

verus! {

/// Machine types of executable images.
pub const IMAGE_FILE_MACHINE_UNKNOWN: u16 = 0;
pub const IMAGE_FILE_MACHINE_I386: u16 = 0x014c;
pub const IMAGE_FILE_MACHINE_IA64: u16 = 0x0200;
pub const IMAGE_FILE_MACHINE_AMD64: u16 = 0x8664;

/// The machine a process runs as: the machine it is emulated as, or the
/// native machine when it is not emulated.
pub open spec fn effective_machine(process_machine: u16, native_machine: u16) -> u16 {
    if process_machine == IMAGE_FILE_MACHINE_UNKNOWN {
        native_machine
    } else {
        process_machine
    }
}

/// Whether a process is 64-bit, from the two machine types that the system
/// reports for it: x86 is 32-bit, x64 and Itanium are 64-bit, any other
/// machine is an error that names it.
pub fn machine_is_64_bit(process_machine: u16, native_machine: u16) -> (result: Result<bool, CheckIs64BitError>)
    ensures
        ({
            let machine = effective_machine(process_machine, native_machine);
            result == if machine == IMAGE_FILE_MACHINE_I386 {
                Ok::<bool, CheckIs64BitError>(false)
            } else if machine == IMAGE_FILE_MACHINE_AMD64 || machine == IMAGE_FILE_MACHINE_IA64 {
                Ok::<bool, CheckIs64BitError>(true)
            } else {
                Err::<bool, CheckIs64BitError>(
                    CheckIs64BitError::UnknownMachine(UnknownMachineError(machine)),
                )
            }
        }),
{
    let machine = if process_machine == IMAGE_FILE_MACHINE_UNKNOWN {
        native_machine
    } else {
        process_machine
    };
    if machine == IMAGE_FILE_MACHINE_I386 {
        Ok(false)
    } else if machine == IMAGE_FILE_MACHINE_AMD64 || machine == IMAGE_FILE_MACHINE_IA64 {
        Ok(true)
    } else {
        Err(CheckIs64BitError::UnknownMachine(UnknownMachineError(machine)))
    }
}

/// The library injected into a process of the given width.
pub fn hooks_library_name(is_64_bit: bool) -> (name: &'static str)
    ensures
        name@ == if is_64_bit {
            "hooks64.dll"@
        } else {
            "hooks32.dll"@
        },
{
    if is_64_bit {
        "hooks64.dll"
    } else {
        "hooks32.dll"
    }
}

/// The outcome of the library-loading thread from its exit code: 0 is
/// success, any other code is the loader's error.
pub fn load_library_result(exit_code: u32) -> (result: Result<(), LoadLibraryThreadError>)
    ensures
        result == if exit_code == 0 {
            Ok::<(), LoadLibraryThreadError>(())
        } else {
            Err::<(), LoadLibraryThreadError>(LoadLibraryThreadError { error_code: exit_code })
        },
{
    if exit_code == 0 {
        Ok(())
    } else {
        Err(LoadLibraryThreadError { error_code: exit_code })
    }
}

/// A thread-snapshot entry belongs to the process when it is large enough to
/// hold its owner's id (16 bytes) and that id is the process's.
pub fn thread_entry_matches(entry_size: u32, owner_process_id: u32, process_id: u32) -> (matches: bool)
    ensures
        matches == (entry_size >= 16 && owner_process_id == process_id),
{
    entry_size >= 16 && owner_process_id == process_id
}

/// What to do after asking the system for the list of modules with room for
/// `capacity` handles, when it needed `bytes_needed` bytes of handles of
/// `handle_size` bytes each.
#[derive(Clone, Copy, Debug, PartialEq, Eq, Structural)]
pub enum BufferStep {
    /// The buffer held everything; its first `count` entries are valid.
    Done { count: usize },
    /// Ask again with room for `capacity` entries.
    Grow { capacity: usize },
}

pub fn module_list_step(capacity: usize, bytes_needed: u32, handle_size: u32) -> (step: BufferStep)
    requires
        handle_size > 0,
    ensures
        step == if capacity >= bytes_needed / handle_size {
            BufferStep::Done { count: (bytes_needed / handle_size) as usize }
        } else {
            BufferStep::Grow { capacity: (bytes_needed / handle_size) as usize }
        },
{
    let items_needed = bytes_needed / handle_size;
    if capacity >= items_needed as usize {
        BufferStep::Done { count: items_needed as usize }
    } else {
        BufferStep::Grow { capacity: items_needed as usize }
    }
}

/// What to do after asking for a module's name into a buffer of `capacity`
/// characters, when the system wrote `length` characters: a length of 0 is the
/// system's error (`None`); a name shorter than the buffer is complete;
/// otherwise it may have been cut, and the buffer doubles.
pub fn module_name_step(capacity: usize, length: u32) -> (step: Option<BufferStep>)
    requires
        capacity <= u32::MAX,
        capacity * 2 <= usize::MAX,
    ensures
        step == if length == 0 {
            None::<BufferStep>
        } else if length < capacity {
            Some(BufferStep::Done { count: length as usize })
        } else {
            Some(BufferStep::Grow { capacity: (capacity * 2) as usize })
        },
{
    if length == 0 {
        None
    } else if (length as usize) < capacity {
        Some(BufferStep::Done { count: length as usize })
    } else {
        Some(BufferStep::Grow { capacity: capacity * 2 })
    }
}

/// How many bytes one read from a pipe takes: what is pending, at most the
/// buffer's length; `None` when nothing is pending (the read returns 0 bytes
/// at once).
pub fn pipe_read_length(pending: u32, buffer_len: usize) -> (length: Option<u32>)
    requires
        buffer_len <= u32::MAX,
    ensures
        length == if pending > 0 {
            Some(if pending < buffer_len {
                pending
            } else {
                buffer_len as u32
            })
        } else {
            None::<u32>
        },
{
    if pending > 0 {
        let limit = buffer_len as u32;
        Some(if pending < limit { pending } else { limit })
    } else {
        None
    }
}

/// Results of a wait on an object.
pub const WAIT_OBJECT_0: u32 = 0;
pub const WAIT_TIMEOUT: u32 = 258;
pub const WAIT_FAILED: u32 = 0xFFFF_FFFF;

/// The state of an event from the result of a wait on it that does not
/// block: signaled, not signaled, or `None` when the wait failed.
pub fn event_state_from_wait(result: u32) -> (state: Option<bool>)
    requires
        result == WAIT_OBJECT_0 || result == WAIT_TIMEOUT || result == WAIT_FAILED,
    ensures
        state == if result == WAIT_OBJECT_0 {
            Some(true)
        } else if result == WAIT_TIMEOUT {
            Some(false)
        } else {
            None::<bool>
        },
{
    if result == WAIT_OBJECT_0 {
        Some(true)
    } else if result == WAIT_TIMEOUT {
        Some(false)
    } else {
        None
    }
}

/// The information class that hides a thread from a debugger; the hooks
/// report success for it without passing it on.
pub const THREAD_HIDE_FROM_DEBUGGER: u32 = 17;

pub fn is_hide_from_debugger(information_class: u32) -> (hide: bool)
    ensures
        hide == (information_class == THREAD_HIDE_FROM_DEBUGGER),
{
    information_class == THREAD_HIDE_FROM_DEBUGGER
}

} // verus!
