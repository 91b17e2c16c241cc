use vstd::prelude::*;

verus! {

/// An error that the operating system reported, by its error code.
#[derive(Clone, Copy, Debug, PartialEq, Eq, Structural)]
pub struct OsError {
    pub code: i32,
}

/// The processor architecture of a process is not one the harness knows.
#[derive(Clone, Copy, Debug, PartialEq, Eq, Structural)]
pub struct UnknownMachineError(pub u16);

#[derive(Clone, Copy, Debug, PartialEq, Eq, Structural)]
pub enum CheckIs64BitError {
    UnknownMachine(UnknownMachineError),
    Os(OsError),
}

/// The library-loading thread ended with this error code.
#[derive(Clone, Copy, Debug, PartialEq, Eq, Structural)]
pub struct LoadLibraryThreadError {
    pub error_code: u32,
}

#[derive(Clone, Copy, Debug, PartialEq, Eq, Structural)]
pub struct ModuleNotFoundError;

#[derive(Clone, Copy, Debug, PartialEq, Eq, Structural)]
pub struct InvalidModuleHeadersError;

#[derive(Clone, Copy, Debug, PartialEq, Eq, Structural)]
pub struct ExportNotFoundError;

#[derive(Clone, Copy, Debug, PartialEq, Eq, Structural)]
pub struct GetIdError(pub OsError);

#[derive(Clone, Copy, Debug, PartialEq, Eq, Structural)]
pub struct NewModuleEntry32IteratorError(pub OsError);

#[derive(Clone, Copy, Debug, PartialEq, Eq, Structural)]
pub enum GetModuleAddressError {
    GetId(GetIdError),
    NewModuleEntry32Iterator(NewModuleEntry32IteratorError),
    ModuleNotFound(ModuleNotFoundError),
    Os(OsError),
}

#[derive(Clone, Copy, Debug, PartialEq, Eq, Structural)]
pub enum GetExportAddressError {
    GetModuleAddress(GetModuleAddressError),
    InvalidModuleHeaders(InvalidModuleHeadersError),
    ExportNotFound(ExportNotFoundError),
    Os(OsError),
}

#[derive(Clone, Copy, Debug, PartialEq, Eq, Structural)]
pub struct NewThreadIdIteratorError(pub OsError);

#[derive(Clone, Copy, Debug, PartialEq, Eq, Structural)]
pub enum IterThreadIdsError {
    GetId(GetIdError),
    NewThreadIdIterator(NewThreadIdIteratorError),
}

#[derive(Clone, Copy, Debug, PartialEq, Eq, Structural)]
pub struct GetModulesError(pub OsError);

#[derive(Clone, Copy, Debug, PartialEq, Eq, Structural)]
pub struct GetNameError(pub OsError);

#[derive(Clone, Copy, Debug, PartialEq, Eq, Structural)]
pub struct KillOnCurrentProcessExitError(pub OsError);

#[derive(Clone, Copy, Debug, PartialEq, Eq, Structural)]
pub struct AllocateMemoryError(pub OsError);

#[derive(Clone, Copy, Debug, PartialEq, Eq, Structural)]
pub struct FreeMemoryError(pub OsError);

#[derive(Clone, Copy, Debug, PartialEq, Eq, Structural)]
pub struct SetMemoryPermissionsError(pub OsError);

#[derive(Clone, Copy, Debug, PartialEq, Eq, Structural)]
pub struct ReadMemoryError(pub OsError);

#[derive(Clone, Copy, Debug, PartialEq, Eq, Structural)]
pub struct WriteMemoryError(pub OsError);

#[derive(Clone, Copy, Debug, PartialEq, Eq, Structural)]
pub struct CreateThreadError(pub OsError);

#[derive(Clone, Copy, Debug, PartialEq, Eq, Structural)]
pub struct GetMemoryRegionError(pub OsError);

#[derive(Clone, Copy, Debug, PartialEq, Eq, Structural)]
pub struct FromIdError(pub OsError);

#[derive(Clone, Copy, Debug, PartialEq, Eq, Structural)]
pub struct GetProcessIdError(pub OsError);

#[derive(Clone, Copy, Debug, PartialEq, Eq, Structural)]
pub struct ChangeSuspendCountError(pub OsError);

#[derive(Clone, Copy, Debug, PartialEq, Eq, Structural)]
pub struct JoinError(pub OsError);

#[derive(Clone, Copy, Debug, PartialEq, Eq, Structural)]
pub struct ResumeError(pub OsError);

#[derive(Clone, Copy, Debug, PartialEq, Eq, Structural)]
pub enum GetContextError {
    GetProcessId(GetProcessIdError),
    ProcessCheckIs64Bit(CheckIs64BitError),
    Os(OsError),
}

#[derive(Clone, Copy, Debug, PartialEq, Eq, Structural)]
pub enum SetContextError {
    ThreadChangeSuspendCount(ChangeSuspendCountError),
    Os(OsError),
}

/// Errors of handles, events and pipes.
#[derive(Clone, Copy, Debug, PartialEq, Eq, Structural)]
pub struct CloneError(pub OsError);

#[derive(Clone, Copy, Debug, PartialEq, Eq, Structural)]
pub struct NewError(pub OsError);

#[derive(Clone, Copy, Debug, PartialEq, Eq, Structural)]
pub struct GetError(pub OsError);

#[derive(Clone, Copy, Debug, PartialEq, Eq, Structural)]
pub struct SetError(pub OsError);

#[derive(Clone, Copy, Debug, PartialEq, Eq, Structural)]
pub struct ResetError(pub OsError);

#[derive(Clone, Copy, Debug, PartialEq, Eq, Structural)]
pub enum WaitError {
    Clone(CloneError),
}

#[derive(Clone, Copy, Debug, PartialEq, Eq, Structural)]
pub struct WriteError(pub OsError);

#[derive(Clone, Copy, Debug, PartialEq, Eq, Structural)]
pub struct ReadError(pub OsError);

#[derive(Clone, Copy, Debug, PartialEq, Eq, Structural)]
pub enum WriterCloneError {
    HandleClone(CloneError),
}

#[derive(Clone, Copy, Debug, PartialEq, Eq, Structural)]
pub enum SenderCloneError {
    HandleClone(CloneError),
}

#[derive(Clone, Copy, Debug, PartialEq, Eq, Structural)]
pub enum NewSenderAndReceiverError {
    NewPipe(NewError),
    NewEvent(NewError),
    HandleClone(CloneError),
}

/// Why sending a message failed.
#[derive(Clone, Copy, Debug, PartialEq, Eq, Structural)]
pub enum SendError {
    EventWait(WaitError),
    Bincode,
    EventSet(SetError),
    EventReset(ResetError),
    Os(OsError),
}

/// Why receiving a message failed.
#[derive(Clone, Copy, Debug, PartialEq, Eq, Structural)]
pub enum ReceiveError {
    Bincode,
    EventGet(GetError),
    EventWait(WaitError),
    EventSet(SetError),
    EventReset(ResetError),
}

/// How the program under the harness stopped running.
#[derive(Clone, Copy, Debug, PartialEq, Eq, Structural)]
pub enum InactiveState {
    /// It waits for time to advance.
    Idle,
    /// It exited with this code.
    Terminated { exit_code: u32 },
}

#[derive(Clone, Copy, Debug, PartialEq, Eq, Structural)]
pub enum ResumeConductorError {
    MessageSend(SendError),
}

#[derive(Clone, Copy, Debug, PartialEq, Eq, Structural)]
pub enum SetKeyStateError {
    MessageSend(SendError),
}

#[derive(Clone, Copy, Debug, PartialEq, Eq, Structural)]
pub enum SetMousePositionError {
    MessageSend(SendError),
}

#[derive(Clone, Copy, Debug, PartialEq, Eq, Structural)]
pub enum SetMouseButtonStateError {
    MessageSend(SendError),
}

#[derive(Clone, Copy, Debug, PartialEq, Eq, Structural)]
pub enum AdvanceTimeError {
    MessageSend(SendError),
}

#[derive(Clone, Copy, Debug, PartialEq, Eq, Structural)]
pub enum WaitUntilInactiveError {
    ProcessJoin(JoinError),
    MessageSend(SendError),
    MessageReceive(ReceiveError),
    Os(OsError),
}

#[derive(Clone, Copy, Debug, PartialEq, Eq, Structural)]
pub enum NewSavedStateError {
    ProcessIterThreadIds(IterThreadIdsError),
    ThreadFromId(FromIdError),
    ThreadGetContext(GetContextError),
    ThreadChangeSuspendCount(ChangeSuspendCountError),
    ProcessGetMemoryInfo(GetMemoryRegionError),
    ProcessReadMemory(ReadMemoryError),
    Os(OsError),
}

#[derive(Clone, Copy, Debug, PartialEq, Eq, Structural)]
pub enum LoadError {
    ThreadSetContext(SetContextError),
    ThreadFromId(FromIdError),
    ThreadChangeSuspendCount(ChangeSuspendCountError),
    ProcessIterThreadIds(IterThreadIdsError),
    ProcessGetMemoryInfo(GetMemoryRegionError),
    ProcessWriteMemory(WriteMemoryError),
    ProcessAllocateMemory(AllocateMemoryError),
    ProcessFreeMemory(FreeMemoryError),
    ProcessSetMemoryPermissions(SetMemoryPermissionsError),
    Os(OsError),
}

#[derive(Clone, Copy, Debug, PartialEq, Eq, Structural)]
pub enum SaveStateError {
    WaitUntilInactive(WaitUntilInactiveError),
    ThreadFromId(FromIdError),
    NewSavedState(NewSavedStateError),
}

#[derive(Clone, Copy, Debug, PartialEq, Eq, Structural)]
pub enum LoadStateError {
    WaitUntilInactive(WaitUntilInactiveError),
    SavedStateLoad(LoadError),
}

} // verus!
