//! The in-memory file handle and its state machine.
//!
//! A handle is created closed, transitions between `Closed` and `Open`
//! through `open` and `close` (which consume and return ownership, and may
//! fail under the fault policy), and supports a read gated on the open
//! state. The contents are immutable after construction.

use crate::fault::FaultPolicy;
use crate::fault::fault_fires;
use vstd::prelude::*;

verus! {

/// Lifecycle state of a handle. A handle starts `Closed`; the transitions
/// between `Open` and `Closed` are reversible.
#[derive(Debug, Clone, Copy, PartialEq, Eq, Structural)]
pub enum FileState {
    Open,
    Closed,
}

/// Why an operation on a handle failed.
#[derive(Debug, Clone, Copy, PartialEq, Eq, Structural)]
pub enum FileError {
    /// `open` failed: the injected fault fired during the transition.
    PermissionDenied,
    /// `close` failed: the injected fault fired during the transition.
    Interrupted,
    /// `read` was called on a handle that is not open.
    NotOpen,
}

/// An in-memory file: an immutable name, an immutable byte buffer, and a
/// mutable lifecycle state.
#[derive(Debug)]
pub struct File {
    name: String,
    data: Vec<u8>,
    state: FileState,
}

/// The mathematical model of a `File`.
#[verifier::ext_equal]
pub ghost struct FileView {
    pub name: Seq<char>,
    pub data: Seq<u8>,
    pub state: FileState,
}

impl View for File {
    type V = FileView;

    closed spec fn view(&self) -> FileView {
        FileView { name: self.name@, data: self.data@, state: self.state }
    }
}

/// The model of a freshly created handle: closed, with the given name
/// and contents.
pub open spec fn created(name: Seq<char>, data: Seq<u8>) -> FileView {
    FileView { name, data, state: FileState::Closed }
}

/// The model of a handle after a successful `open`: only the state changes.
pub open spec fn opened(v: FileView) -> FileView {
    FileView { state: FileState::Open, ..v }
}

/// The model of a handle after a successful `close`: only the state changes.
pub open spec fn closed(v: FileView) -> FileView {
    FileView { state: FileState::Closed, ..v }
}

/// The human-readable spelling of a state.
pub open spec fn state_label(s: FileState) -> Seq<char> {
    match s {
        FileState::Open => "OPEN"@,
        FileState::Closed => "CLOSED"@,
    }
}

/// The human-readable summary of a handle: `<name (STATE)>`.
pub open spec fn description(v: FileView) -> Seq<char> {
    "<"@ + v.name + " ("@ + state_label(v.state) + ")>"@
}

impl FileState {
    /// The human-readable spelling of this state.
    pub fn label(&self) -> (r: &'static str)
        ensures
            r@ == state_label(*self),
    {
        match self {
            FileState::Open => "OPEN",
            FileState::Closed => "CLOSED",
        }
    }
}

impl File {
    /// Builds a closed handle with the given name and no contents.
    pub fn new(name: &str) -> (f: File)
        ensures
            f@ == created(name@, Seq::<u8>::empty()),
    {
        File { name: name.to_owned(), data: Vec::new(), state: FileState::Closed }
    }

    /// Builds a closed handle with the given name and a copy of the given
    /// bytes.
    pub fn new_with_data(name: &str, data: &Vec<u8>) -> (f: File)
        ensures
            f@ == created(name@, data@),
    {
        File { name: name.to_owned(), data: data.clone(), state: FileState::Closed }
    }

    /// The byte length of the contents.
    pub fn len(&self) -> (n: usize)
        ensures
            n == self@.data.len(),
    {
        self.data.len()
    }

    /// The current lifecycle state.
    pub fn state(&self) -> (s: FileState)
        ensures
            s == self@.state,
    {
        self.state
    }

    /// The handle's name.
    pub fn name(&self) -> (r: &String)
        ensures
            r@ == self@.name,
    {
        &self.name
    }

    /// The handle's contents.
    pub fn data(&self) -> (r: &Vec<u8>)
        ensures
            r@ == self@.data,
    {
        &self.data
    }

    /// Appends a copy of the contents to `save_to` and returns the number
    /// of bytes appended. Fails with `NotOpen`, leaving `save_to` untouched,
    /// unless the handle is open. Never changes the handle itself.
    pub fn read(&self, save_to: &mut Vec<u8>) -> (r: Result<usize, FileError>)
        ensures
            r is Ok <==> self@.state is Open,
            self@.state is Open ==> (r matches Ok(n) && n == self@.data.len()
                && final(save_to)@ == old(save_to)@ + self@.data),
            self@.state is Closed ==> r == Err::<usize, FileError>(FileError::NotOpen)
                && final(save_to)@ == old(save_to)@,
    {
        if self.state != FileState::Open {
            return Err(FileError::NotOpen);
        }
        let mut i: usize = 0;
        while i < self.data.len()
            invariant
                i <= self.data.len(),
                save_to@ == old(save_to)@ + self.data@.subrange(0, i as int),
            decreases self.data.len() - i,
        {
            save_to.push(self.data[i]);
            proof {
                assert(self.data@.subrange(0, i + 1) =~= self.data@.subrange(0, i as int).push(
                    self.data@[i as int],
                ));
            }
            i = i + 1;
        }
        proof {
            assert(self.data@.subrange(0, self.data@.len() as int) =~= self.data@);
        }
        Ok(self.data.len())
    }

    /// The human-readable summary `<name (STATE)>`.
    pub fn describe(&self) -> (r: String)
        ensures
            r@ == description(self@),
    {
        let mut s = String::from_str("<");
        s.append(self.name.as_str());
        s.append(" (");
        s.append(self.state.label());
        s.append(")>");
        s
    }
}

/// Transitions a handle to `Open`, drawing one fault decision under the
/// given policy. On a fault the handle comes back unchanged together with
/// `PermissionDenied`; otherwise only its state changes.
pub fn open(f: File, policy: &FaultPolicy) -> (r: Result<File, (File, FileError)>)
    requires
        policy.wf(),
    ensures
        r matches Ok(g) ==> g@ == opened(f@),
        r matches Err(e) ==> e.0@ == f@ && e.1 == FileError::PermissionDenied,
        *policy is Never ==> r is Ok,
        *policy is Always ==> r is Err,
        *policy == FaultPolicy::OneIn(1u32) ==> r is Err,
{
    if fault_fires(policy) {
        return Err((f, FileError::PermissionDenied));
    }
    let mut g = f;
    g.state = FileState::Open;
    Ok(g)
}

/// Transitions a handle to `Closed`, drawing one fault decision under the
/// given policy. On a fault the handle comes back unchanged together with
/// `Interrupted`; otherwise only its state changes.
pub fn close(f: File, policy: &FaultPolicy) -> (r: Result<File, (File, FileError)>)
    requires
        policy.wf(),
    ensures
        r matches Ok(g) ==> g@ == closed(f@),
        r matches Err(e) ==> e.0@ == f@ && e.1 == FileError::Interrupted,
        *policy is Never ==> r is Ok,
        *policy is Always ==> r is Err,
        *policy == FaultPolicy::OneIn(1u32) ==> r is Err,
{
    if fault_fires(policy) {
        return Err((f, FileError::Interrupted));
    }
    let mut g = f;
    g.state = FileState::Closed;
    Ok(g)
}

/// For every name and every byte sequence, a freshly created handle's
/// contents have exactly the length of the given bytes.
pub proof fn lemma_created_len(name: Seq<char>, data: Seq<u8>)
    ensures
        created(name, data).data.len() == data.len(),
{
}

/// Opening and then closing a fresh (closed) handle restores it exactly:
/// name and contents are unchanged and the state is closed again.
pub proof fn lemma_open_then_close(v: FileView)
    requires
        v.state is Closed,
    ensures
        closed(opened(v)) == v,
{
    assert(closed(opened(v)) =~= v);
}

} // verus!
