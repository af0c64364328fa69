use vstd::prelude::*;

use crate::text::{decimal, file_name, file_name_of, push_decimal};

verus! {

/// Access right: terminate the process.
pub const PROCESS_TERMINATE: u32 = 0x0000_0001;

/// Access right: read the memory of the process.
pub const PROCESS_VM_READ: u32 = 0x0000_0010;

/// Access right: query information about the process, such as its image path.
pub const PROCESS_QUERY_INFORMATION: u32 = 0x0000_0400;

/// Access right: wait for the process to exit.
pub const PROCESS_SYNCHRONIZE: u32 = 0x0010_0000;

/// The exit code given to a process that is terminated by force.
pub const ERROR_APP_HANG: u32 = 1298;

/// A process that was opened for termination.
///
/// A process is valid from the moment it is opened until an attempt to
/// terminate it has come to an end. Nothing is asked of the operating system
/// for a process that is no longer valid. A process cannot be copied, so
/// that no valid copy outlives its termination.
#[derive(Debug, PartialEq, Eq, Structural)]
pub struct Process {
    id: u32,
    handle: isize,
    valid: bool,
}

/// How an attempt to terminate a process ended.
#[derive(Clone, Copy, Debug, PartialEq, Eq, Structural)]
pub enum Outcome {
    /// The process exited by itself after a close request.
    Success,
    /// The process was terminated by force.
    Forced,
    /// The process could not be terminated.
    Failed,
    /// There was no window, and so no process, to terminate.
    NoTarget,
}

impl Outcome {
    /// Whether the attempt had a process to terminate at all.
    pub open spec fn had_target(self) -> bool {
        self != Outcome::NoTarget
    }

    /// True unless there was no window, and so no process, to terminate.
    pub fn found(self) -> (r: bool)
        ensures
            r == self.had_target(),
    {
        match self {
            Outcome::NoTarget => false,
            _ => true,
        }
    }
}

impl Process {
    /// The process id.
    pub closed spec fn pid(self) -> u32 {
        self.id
    }

    /// The handle under which the process was opened.
    pub closed spec fn raw_handle(self) -> isize {
        self.handle
    }

    /// Whether the process may still be operated on.
    pub closed spec fn is_valid(self) -> bool {
        self.valid
    }

    /// This process, no longer valid.
    pub closed spec fn invalidated(self) -> Process {
        Process { id: self.id, handle: self.handle, valid: false }
    }

    /// The outcome of terminating this process by force, given whether the
    /// operating system carried the termination out. A process that is not
    /// valid cannot be terminated.
    pub open spec fn kill_outcome(self, killed: bool) -> Outcome {
        if self.is_valid() && killed {
            Outcome::Forced
        } else {
            Outcome::Failed
        }
    }

    /// The stand-in for a process that could not be found: it is not valid.
    pub closed spec fn nothing() -> Process {
        Process { id: 0, handle: 0, valid: false }
    }

    /// What is shown as the path of this process, given the path of its
    /// image: for a process that is no longer valid only a notice.
    pub open spec fn path_text(self, image_path: Seq<char>) -> Seq<char> {
        if self.is_valid() {
            image_path
        } else {
            "invalid process handle"@
        }
    }

    /// What is shown as the name of this process, given the path of its
    /// image: the file name at the end of the path, and for a process that is
    /// no longer valid only a notice.
    pub open spec fn name_text(self, image_path: Seq<char>) -> Seq<char> {
        if self.is_valid() {
            file_name(image_path)
        } else {
            "invalid process handle"@
        }
    }

    /// What is shown for this process in messages: its name and its id.
    pub open spec fn text(self, image_path: Seq<char>) -> Seq<char> {
        self.name_text(image_path) + " (pid: "@ + decimal(self.pid() as nat) + ")"@
    }

    /// The access rights to open a process with: enough to wait for it, to
    /// terminate it and to read its image path.
    pub fn access_rights() -> (r: u32)
        ensures
            r == PROCESS_SYNCHRONIZE | PROCESS_VM_READ | PROCESS_QUERY_INFORMATION
                | PROCESS_TERMINATE,
            r == 0x0010_0411,
    {
        let r: u32 = PROCESS_SYNCHRONIZE | PROCESS_VM_READ | PROCESS_QUERY_INFORMATION
            | PROCESS_TERMINATE;
        assert(0x0010_0000u32 | 0x0000_0010u32 | 0x0000_0400u32 | 0x0000_0001u32 == 0x0010_0411u32)
            by (bit_vector);
        r
    }

    /// Takes over the process `pid`, opened under `handle`. It is valid.
    /// Only a process that was opened can be taken over: a denied open gives
    /// the null handle, which stands for no process, and is the end of the
    /// program that asked for it.
    pub fn open(pid: u32, handle: isize) -> (r: Self)
        requires
            handle != 0,
        ensures
            r.pid() == pid,
            r.raw_handle() == handle,
            r.is_valid(),
    {
        Self { id: pid, handle, valid: true }
    }

    /// Returns the stand-in for a process that could not be found.
    pub fn none() -> (r: Self)
        ensures
            r == Process::nothing(),
            !r.is_valid(),
    {
        Self { id: 0, handle: 0, valid: false }
    }

    /// Returns the process id.
    pub fn id(&self) -> (r: u32)
        ensures
            r == self.pid(),
    {
        self.id
    }

    /// Returns the handle under which the process was opened.
    pub fn handle(&self) -> (r: isize)
        ensures
            r == self.raw_handle(),
    {
        self.handle
    }

    /// Returns whether the process may still be operated on.
    pub fn valid(&self) -> (r: bool)
        ensures
            r == self.is_valid(),
    {
        self.valid
    }

    /// Returns the path of the executable of this process. `image_path` is
    /// the path that the operating system gives for the process.
    pub fn path(&self, image_path: &str) -> (r: String)
        ensures
            r@ == self.path_text(image_path@),
    {
        if !self.valid {
            return String::from_str("invalid process handle");
        }
        String::from_str(image_path)
    }

    /// Returns the name of the executable of this process, with its
    /// extension and without its directory. `image_path` is the path that the
    /// operating system gives for the process.
    pub fn name(&self, image_path: &str) -> (r: String)
        ensures
            r@ == self.name_text(image_path@),
    {
        if !self.valid {
            return String::from_str("invalid process handle");
        }
        file_name_of(image_path)
    }

    /// Returns the text that stands for this process in messages, such as
    /// "notepad.exe (pid: 4711)".
    pub fn to_string(&self, image_path: &str) -> (r: String)
        ensures
            r@ == self.text(image_path@),
    {
        let mut text = self.name(image_path);
        text.append(" (pid: ");
        push_decimal(&mut text, self.id as u64);
        text.append(")");
        text
    }

    /// Marks the process as no longer valid.
    pub fn invalidate(&mut self)
        ensures
            *final(self) == old(self).invalidated(),
    {
        self.valid = false;
    }

    /// Says what to ask of the operating system in order to terminate this
    /// process by force: the handle and the exit code. For a process that is
    /// no longer valid the answer is `None`: nothing may be asked.
    pub fn kill_request(&self) -> (r: Option<(isize, u32)>)
        ensures
            r == (if self.is_valid() {
                Some((self.raw_handle(), ERROR_APP_HANG))
            } else {
                None
            }),
    {
        if self.valid {
            Some((self.handle, ERROR_APP_HANG))
        } else {
            None
        }
    }

    /// Concludes a termination by force. `killed` says whether the operating
    /// system carried it out. The process is not valid afterwards, whatever
    /// the outcome; the outcome is `Forced` if a valid process was killed and
    /// `Failed` otherwise.
    pub fn terminate(&mut self, killed: bool) -> (r: Outcome)
        ensures
            *final(self) == old(self).invalidated(),
            r == old(self).kill_outcome(killed),
    {
        let outcome = if self.valid && killed {
            Outcome::Forced
        } else {
            Outcome::Failed
        };
        self.valid = false;
        outcome
    }
}

/// Whether the bytes `name` begin with the bytes `prefix`.
pub open spec fn begins_with(name: Seq<u8>, prefix: Seq<u8>) -> bool {
    prefix.len() <= name.len() && name.take(prefix.len() as int) == prefix
}

/// How many of `names` begin with `prefix`.
pub open spec fn count_beginning_with(names: Seq<Vec<u8>>, prefix: Seq<u8>) -> nat
    decreases names.len(),
{
    if names.len() == 0 {
        0
    } else {
        count_beginning_with(names.drop_last(), prefix) + if begins_with(names.last()@, prefix) {
            1nat
        } else {
            0nat
        }
    }
}

/// True if the bytes `name` begin with the bytes `prefix`.
pub fn starts_with(name: &Vec<u8>, prefix: &Vec<u8>) -> (r: bool)
    ensures
        r == begins_with(name@, prefix@),
{
    if prefix.len() > name.len() {
        return false;
    }
    let mut i: usize = 0;
    while i < prefix.len()
        invariant
            0 <= i <= prefix.len() <= name.len(),
            name@.take(i as int) == prefix@.take(i as int),
        decreases prefix.len() - i,
    {
        if name[i] != prefix[i] {
            proof {
                assert(name@.take(prefix.len() as int)[i as int] != prefix@[i as int]);
            }
            return false;
        }
        proof {
            assert(name@.take(i + 1) =~= name@.take(i as int).push(name@[i as int]));
            assert(prefix@.take(i + 1) =~= prefix@.take(i as int).push(prefix@[i as int]));
        }
        i = i + 1;
    }
    proof {
        assert(prefix@.take(i as int) =~= prefix@);
    }
    true
}

/// Counts the running instances of the application: the processes of the
/// listing `executables`, each given by the name of its executable, whose
/// name begins with `own`, the name of the executable of the application.
pub fn instance_count(executables: &Vec<Vec<u8>>, own: &Vec<u8>) -> (r: usize)
    ensures
        r == count_beginning_with(executables@, own@),
{
    let mut count: usize = 0;
    let mut i: usize = 0;
    while i < executables.len()
        invariant
            0 <= i <= executables.len(),
            count <= i,
            count == count_beginning_with(executables@.take(i as int), own@),
        decreases executables.len() - i,
    {
        proof {
            assert(executables@.take(i + 1).drop_last() =~= executables@.take(i as int));
        }
        if starts_with(&executables[i], own) {
            count = count + 1;
        }
        i = i + 1;
    }
    proof {
        assert(executables@.take(i as int) =~= executables@);
    }
    count
}

/// Invalidating keeps the id and the handle, and is final. A process that is
/// not valid is not changed by it.
pub proof fn lemma_invalidated(process: Process)
    ensures
        process.invalidated().pid() == process.pid(),
        process.invalidated().raw_handle() == process.raw_handle(),
        !process.invalidated().is_valid(),
        !process.is_valid() ==> process.invalidated() == process,
        !Process::nothing().is_valid(),
{
}

/// Terminating a process a second time fails, and asks nothing of the
/// operating system: once a termination has been concluded, however it ended,
/// the process is not valid, so that there is no kill request for it any more
/// and the outcome is `Failed` whatever is reported.
pub proof fn lemma_second_terminate_fails(process: Process, killed: bool)
    ensures
        !process.invalidated().is_valid(),
        process.invalidated().kill_outcome(killed) == Outcome::Failed,
{
}

} // verus!
