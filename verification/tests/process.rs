use winter::errors::{CheckIs64BitError, LoadLibraryThreadError, UnknownMachineError};
use winter::process::{
    event_state_from_wait, hooks_library_name, is_hide_from_debugger, load_library_result,
    machine_is_64_bit, module_list_step, module_name_step, pipe_read_length,
    thread_entry_matches, BufferStep, IMAGE_FILE_MACHINE_AMD64, IMAGE_FILE_MACHINE_I386,
    IMAGE_FILE_MACHINE_IA64, IMAGE_FILE_MACHINE_UNKNOWN, WAIT_FAILED, WAIT_OBJECT_0,
    WAIT_TIMEOUT,
};

#[test]
fn process_width_from_machines() {
    assert_eq!(machine_is_64_bit(IMAGE_FILE_MACHINE_UNKNOWN, IMAGE_FILE_MACHINE_AMD64), Ok(true));
    assert_eq!(machine_is_64_bit(IMAGE_FILE_MACHINE_I386, IMAGE_FILE_MACHINE_AMD64), Ok(false));
    assert_eq!(machine_is_64_bit(IMAGE_FILE_MACHINE_UNKNOWN, IMAGE_FILE_MACHINE_I386), Ok(false));
    assert_eq!(machine_is_64_bit(IMAGE_FILE_MACHINE_IA64, IMAGE_FILE_MACHINE_IA64), Ok(true));
    assert_eq!(
        machine_is_64_bit(IMAGE_FILE_MACHINE_UNKNOWN, 0xaa64),
        Err(CheckIs64BitError::UnknownMachine(UnknownMachineError(0xaa64)))
    );
}

#[test]
fn hooks_library_per_width() {
    assert_eq!(hooks_library_name(true), "hooks64.dll");
    assert_eq!(hooks_library_name(false), "hooks32.dll");
}

#[test]
fn library_loading_exit_code() {
    assert_eq!(load_library_result(0), Ok(()));
    assert_eq!(load_library_result(126), Err(LoadLibraryThreadError { error_code: 126 }));
}

#[test]
fn thread_entries_of_process() {
    assert!(thread_entry_matches(28, 42, 42));
    assert!(!thread_entry_matches(28, 41, 42));
    assert!(!thread_entry_matches(12, 42, 42));
}

#[test]
fn buffer_growth_steps() {
    assert_eq!(module_list_step(16, 64, 8), BufferStep::Done { count: 8 });
    assert_eq!(module_list_step(4, 64, 8), BufferStep::Grow { capacity: 8 });
    assert_eq!(module_name_step(256, 0), None);
    assert_eq!(module_name_step(256, 12), Some(BufferStep::Done { count: 12 }));
    assert_eq!(module_name_step(256, 256), Some(BufferStep::Grow { capacity: 512 }));
}

#[test]
fn pipe_reads_take_what_is_pending() {
    assert_eq!(pipe_read_length(0, 100), None);
    assert_eq!(pipe_read_length(10, 100), Some(10));
    assert_eq!(pipe_read_length(1000, 100), Some(100));
}

#[test]
fn event_state_from_nonblocking_wait() {
    assert_eq!(event_state_from_wait(WAIT_OBJECT_0), Some(true));
    assert_eq!(event_state_from_wait(WAIT_TIMEOUT), Some(false));
    assert_eq!(event_state_from_wait(WAIT_FAILED), None);
}

#[test]
fn hide_from_debugger_class() {
    assert!(is_hide_from_debugger(17));
    assert!(!is_hide_from_debugger(0));
}
