//! The system calls as a user program makes them: a number and up to
//! three argument words, handed over in registers.

use vstd::prelude::*;
use crate::syscall::{
    SYSCALL_EXEC, SYSCALL_EXIT, SYSCALL_FORK, SYSCALL_GETPID, SYSCALL_GET_TIME_MS,
    SYSCALL_NANOSLEEP, SYSCALL_READ, SYSCALL_SHMAT, SYSCALL_SHMGET, SYSCALL_UINTR_NOTICE,
    SYSCALL_UINTR_REGISTER_LINK, SYSCALL_UINTR_REGISTER_RECEIVER, SYSCALL_UINTR_REGISTER_SENDER,
    SYSCALL_UINTR_UIRET, SYSCALL_WAITPID, SYSCALL_WRITE, SYSCALL_YIELD,
};

verus! {

/// What a user program hands to the kernel when it traps.
#[derive(Debug, Clone, Copy, PartialEq, Eq, Structural)]
pub struct SyscallRequest {
    pub id: usize,
    pub arg0: usize,
    pub arg1: usize,
    pub arg2: usize,
}

impl SyscallRequest {
    /// The request for the call `id` with the three argument words.
    pub open spec fn of(id: usize, arg0: usize, arg1: usize, arg2: usize) -> SyscallRequest {
        SyscallRequest { id, arg0, arg1, arg2 }
    }
}

/// Reads up to `len` bytes from `fd` into the buffer at `buffer`.
pub fn sys_read(fd: usize, buffer: usize, len: usize) -> (req: SyscallRequest)
    ensures
        req == SyscallRequest::of(SYSCALL_READ, fd, buffer, len),
{
    SyscallRequest { id: SYSCALL_READ, arg0: fd, arg1: buffer, arg2: len }
}

/// Writes the `len` bytes of the buffer at `buffer` to `fd`.
pub fn sys_write(fd: usize, buffer: usize, len: usize) -> (req: SyscallRequest)
    ensures
        req == SyscallRequest::of(SYSCALL_WRITE, fd, buffer, len),
{
    SyscallRequest { id: SYSCALL_WRITE, arg0: fd, arg1: buffer, arg2: len }
}

/// Ends the program with `exit_code`, handed over as a word.
pub fn sys_exit(exit_code: i32) -> (req: SyscallRequest)
    ensures
        req == SyscallRequest::of(SYSCALL_EXIT, exit_code as usize, 0, 0),
        req.arg0 as i32 == exit_code,
{
    let word = #[verifier::truncate] (exit_code as usize);
    assert(word as i32 == exit_code) by (bit_vector)
        requires
            word == exit_code as usize,
    ;
    SyscallRequest { id: SYSCALL_EXIT, arg0: word, arg1: 0, arg2: 0 }
}

pub fn sys_yield() -> (req: SyscallRequest)
    ensures
        req == SyscallRequest::of(SYSCALL_YIELD, 0, 0, 0),
{
    SyscallRequest { id: SYSCALL_YIELD, arg0: 0, arg1: 0, arg2: 0 }
}

pub fn sys_get_time() -> (req: SyscallRequest)
    ensures
        req == SyscallRequest::of(SYSCALL_GET_TIME_MS, 0, 0, 0),
{
    SyscallRequest { id: SYSCALL_GET_TIME_MS, arg0: 0, arg1: 0, arg2: 0 }
}

pub fn sys_getpid() -> (req: SyscallRequest)
    ensures
        req == SyscallRequest::of(SYSCALL_GETPID, 0, 0, 0),
{
    SyscallRequest { id: SYSCALL_GETPID, arg0: 0, arg1: 0, arg2: 0 }
}

pub fn sys_fork() -> (req: SyscallRequest)
    ensures
        req == SyscallRequest::of(SYSCALL_FORK, 0, 0, 0),
{
    SyscallRequest { id: SYSCALL_FORK, arg0: 0, arg1: 0, arg2: 0 }
}

/// Replaces the program by the one whose name stands at `path`.
pub fn sys_exec(path: usize) -> (req: SyscallRequest)
    ensures
        req == SyscallRequest::of(SYSCALL_EXEC, path, 0, 0),
{
    SyscallRequest { id: SYSCALL_EXEC, arg0: path, arg1: 0, arg2: 0 }
}

/// Waits for the child `pid`, or for any child where `pid` is -1; the exit
/// code goes to the address `exit_code`.
pub fn sys_waitpid(pid: isize, exit_code: usize) -> (req: SyscallRequest)
    ensures
        req == SyscallRequest::of(SYSCALL_WAITPID, pid as usize, exit_code, 0),
        req.arg0 as isize == pid,
{
    let word = #[verifier::truncate] (pid as usize);
    assert(word as isize == pid) by (bit_vector)
        requires
            word == pid as usize,
    ;
    SyscallRequest { id: SYSCALL_WAITPID, arg0: word, arg1: exit_code, arg2: 0 }
}

/// Sleeps for the time that stands at the address `req_addr`.
pub fn sys_nanosleep(req_addr: usize) -> (req: SyscallRequest)
    ensures
        req == SyscallRequest::of(SYSCALL_NANOSLEEP, req_addr, 0, 0),
{
    SyscallRequest { id: SYSCALL_NANOSLEEP, arg0: req_addr, arg1: 0, arg2: 0 }
}

pub fn sys_shmget(key: usize, size: usize, shmflg: usize) -> (req: SyscallRequest)
    ensures
        req == SyscallRequest::of(SYSCALL_SHMGET, key, size, shmflg),
{
    SyscallRequest { id: SYSCALL_SHMGET, arg0: key, arg1: size, arg2: shmflg }
}

pub fn sys_shmat(shmid: usize, shmaddr: usize, shmflg: usize) -> (req: SyscallRequest)
    ensures
        req == SyscallRequest::of(SYSCALL_SHMAT, shmid, shmaddr, shmflg),
{
    SyscallRequest { id: SYSCALL_SHMAT, arg0: shmid, arg1: shmaddr, arg2: shmflg }
}

pub fn sys_uintr_register_receiver(handler: usize) -> (req: SyscallRequest)
    ensures
        req == SyscallRequest::of(SYSCALL_UINTR_REGISTER_RECEIVER, handler, 0, 0),
{
    SyscallRequest { id: SYSCALL_UINTR_REGISTER_RECEIVER, arg0: handler, arg1: 0, arg2: 0 }
}

/// Sets up a link for `vector`; the identifier of its segment goes to the
/// address `shmem_id`.
pub fn sys_uintr_register_link(vector: usize, shmem_id: usize) -> (req: SyscallRequest)
    ensures
        req == SyscallRequest::of(SYSCALL_UINTR_REGISTER_LINK, vector, shmem_id, 0),
{
    SyscallRequest { id: SYSCALL_UINTR_REGISTER_LINK, arg0: vector, arg1: shmem_id, arg2: 0 }
}

pub fn sys_uintr_register_sender(link_id: usize, shmem_id: usize) -> (req: SyscallRequest)
    ensures
        req == SyscallRequest::of(SYSCALL_UINTR_REGISTER_SENDER, link_id, shmem_id, 0),
{
    SyscallRequest { id: SYSCALL_UINTR_REGISTER_SENDER, arg0: link_id, arg1: shmem_id, arg2: 0 }
}

pub fn sys_uintr_notice(index: usize) -> (req: SyscallRequest)
    ensures
        req == SyscallRequest::of(SYSCALL_UINTR_NOTICE, index, 0, 0),
{
    SyscallRequest { id: SYSCALL_UINTR_NOTICE, arg0: index, arg1: 0, arg2: 0 }
}

pub fn sys_uintr_uiret() -> (req: SyscallRequest)
    ensures
        req == SyscallRequest::of(SYSCALL_UINTR_UIRET, 0, 0, 0),
{
    SyscallRequest { id: SYSCALL_UINTR_UIRET, arg0: 0, arg1: 0, arg2: 0 }
}

} // verus!
