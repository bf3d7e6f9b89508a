//! Dispatch of a finished record to the host shell, and the typed outcome.
//!
//! The shell boundary call itself is platform FFI and lives outside this
//! library, in the embedding layer. This module fixes the operation code that
//! selects each of the five operations, and interprets what the boundary call
//! reported — a success indicator, and on failure the platform error code
//! retrieved immediately after the call — as a typed result. No retry and no
//! classification is performed: every rejection is surfaced unchanged.

use vstd::prelude::*;

use crate::record::NotifyIcon;

verus! {

/// The five operations the shell accepts against an icon record.
#[derive(Clone, Copy, Debug, PartialEq, Eq, Structural)]
pub enum Operation {
    /// Register a new tray slot for the record's identity.
    Add,
    /// Update, in the addressed slot, exactly the fields whose validity bits
    /// are set; fields with unset bits are left untouched by the shell.
    Modify,
    /// Remove the addressed slot.
    Delete,
    /// Request accessibility focus on the addressed slot.
    SetFocus,
    /// Adopt the interface version stored in the record's shared slot; the
    /// caller must have written that slot as a version, not a timeout.
    SetVersion,
}

impl Operation {
    /// The wire operation code selecting this operation at the boundary call.
    pub open spec fn spec_code(self) -> u32 {
        match self {
            Operation::Add => 0,
            Operation::Modify => 1,
            Operation::Delete => 2,
            Operation::SetFocus => 3,
            Operation::SetVersion => 4,
        }
    }

    /// The wire operation code to hand to the boundary call.
    pub fn code(&self) -> (r: u32)
        ensures
            r == self.spec_code(),
    {
        match self {
            Operation::Add => 0,
            Operation::Modify => 1,
            Operation::Delete => 2,
            Operation::SetFocus => 3,
            Operation::SetVersion => 4,
        }
    }
}

/// What the shell boundary call reported back: whether the operation was
/// accepted, and the platform error code retrieved right after the call —
/// meaningful only when the operation was rejected.
#[derive(Clone, Copy, Debug, PartialEq, Eq, Structural)]
pub struct ShellReply {
    /// Whether the shell accepted the operation.
    pub accepted: bool,
    /// The platform error code current right after the call.
    pub error_code: u32,
}

/// The library's single failure: the shell rejected the boundary call. It
/// carries the platform-reported error code, uninterpreted.
#[derive(Clone, Copy, Debug, PartialEq, Eq, Structural)]
pub struct DispatchError {
    /// The platform error code reported for the rejected call.
    pub code: u32,
}

impl NotifyIcon {
    /// Interprets the shell's reply to dispatching this record under
    /// `message`. The embedding layer performs the boundary call with
    /// `message.code()` and this record's wire fields — the record is
    /// read-only for the call — and hands back what the shell reported:
    /// acceptance yields success, rejection yields the reported error code,
    /// exactly.
    pub fn notify(&self, message: Operation, reply: ShellReply) -> (r: Result<
        (),
        DispatchError,
    >)
        ensures
            r is Ok <==> reply.accepted,
            r is Err ==> r->Err_0.code == reply.error_code,
    {
        if reply.accepted {
            Ok(())
        } else {
            Err(DispatchError { code: reply.error_code })
        }
    }

    /// Outcome of registering this record as a new tray slot
    /// ([`Operation::Add`]).
    pub fn notify_add(&self, reply: ShellReply) -> (r: Result<(), DispatchError>)
        ensures
            r is Ok <==> reply.accepted,
            r is Err ==> r->Err_0.code == reply.error_code,
    {
        self.notify(Operation::Add, reply)
    }

    /// Outcome of removing the addressed slot ([`Operation::Delete`]).
    pub fn notify_delete(&self, reply: ShellReply) -> (r: Result<(), DispatchError>)
        ensures
            r is Ok <==> reply.accepted,
            r is Err ==> r->Err_0.code == reply.error_code,
    {
        self.notify(Operation::Delete, reply)
    }

    /// Outcome of updating the addressed slot's flagged fields
    /// ([`Operation::Modify`]).
    pub fn notify_modify(&self, reply: ShellReply) -> (r: Result<(), DispatchError>)
        ensures
            r is Ok <==> reply.accepted,
            r is Err ==> r->Err_0.code == reply.error_code,
    {
        self.notify(Operation::Modify, reply)
    }

    /// Outcome of requesting accessibility focus on the addressed slot
    /// ([`Operation::SetFocus`]).
    pub fn notify_set_focus(&self, reply: ShellReply) -> (r: Result<(), DispatchError>)
        ensures
            r is Ok <==> reply.accepted,
            r is Err ==> r->Err_0.code == reply.error_code,
    {
        self.notify(Operation::SetFocus, reply)
    }

    /// Outcome of instructing the shell to adopt the interface version in the
    /// record's shared slot ([`Operation::SetVersion`]).
    pub fn notify_set_version(&self, reply: ShellReply) -> (r: Result<(), DispatchError>)
        ensures
            r is Ok <==> reply.accepted,
            r is Err ==> r->Err_0.code == reply.error_code,
    {
        self.notify(Operation::SetVersion, reply)
    }
}

} // verus!
