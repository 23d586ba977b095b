//! Warnings that do not fail a deployment but are shown to the user.
use crate::text::own;
use vstd::prelude::*;

verus! {

/// What a warning is about.
#[derive(Debug, Clone, Copy, PartialEq, Eq, Structural)]
pub enum WarningKind {
    /// The deploy lock could not be released (its directory may remain).
    LockRelease,
    /// The SSH session did not close cleanly.
    SshDisconnect,
}

/// A warning collected during a deployment.
#[derive(Debug, Clone)]
pub struct Warning {
    pub kind: WarningKind,
    pub message: String,
}

impl Warning {
    /// A warning that the lock was not released.
    pub fn lock_release(message: &str) -> (r: Self)
        ensures
            r.kind == WarningKind::LockRelease,
            r.message@ == message@,
    {
        Warning { kind: WarningKind::LockRelease, message: own(message) }
    }

    /// A warning that the SSH session did not close cleanly.
    pub fn ssh_disconnect(message: &str) -> (r: Self)
        ensures
            r.kind == WarningKind::SshDisconnect,
            r.message@ == message@,
    {
        Warning { kind: WarningKind::SshDisconnect, message: own(message) }
    }
}

/// The warnings of a deployment, in the order they came.
#[derive(Debug)]
pub struct Diagnostics {
    warnings: Vec<Warning>,
}

impl View for Diagnostics {
    type V = Seq<Warning>;

    closed spec fn view(&self) -> Seq<Warning> {
        self.warnings@
    }
}

impl Default for Diagnostics {
    fn default() -> (r: Self)
        ensures
            r@ == Seq::<Warning>::empty(),
    {
        Diagnostics { warnings: Vec::new() }
    }
}

impl Diagnostics {
    /// Records a warning after those already collected.
    pub fn warn(&mut self, warning: Warning)
        ensures
            final(self)@ == old(self)@.push(warning),
    {
        self.warnings.push(warning);
    }

    /// The warnings collected so far, oldest first.
    pub fn warnings(&self) -> (r: &[Warning])
        ensures
            r@ == self@,
    {
        self.warnings.as_slice()
    }

    /// Whether any warning was collected.
    pub fn has_warnings(&self) -> (r: bool)
        ensures
            r == (self@.len() > 0),
    {
        self.warnings.len() > 0
    }
}

} // verus!
