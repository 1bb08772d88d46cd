//! Session configuration: what a host wires up when it constructs a
//! session.
//!
//! The engine calls back into the host to write output, to drive a window
//! and to read input. Which behaviour the host wants is configuration, not
//! a process-wide default, so it is data here: an explicit record of named
//! policies handed over at session construction. The unverified plumbing
//! turns each policy into the concrete callback the engine's C interface
//! expects.

use vstd::prelude::*;

verus! {

/// The kind of session manager a host wires up, held as the numeric
/// session code the engine expects for it.
#[derive(Clone, Copy, PartialEq, Eq, Debug)]
pub struct SMTYPE {
    /// The engine's numeric session code.
    pub code: usize,
}

impl SMTYPE {
    /// Which codes the engine defines: windowed, java, or console.
    pub open spec fn wf(self) -> bool {
        self.code == 0 || self.code == 2 || self.code == 3
    }

    /// The kind of a windowed (gui) front end.
    pub fn windows() -> (r: SMTYPE)
        ensures
            r.code == 0,
            r.wf(),
    {
        SMTYPE { code: 0 }
    }

    /// The kind of a java front end.
    pub fn java() -> (r: SMTYPE)
        ensures
            r.code == 2,
            r.wf(),
    {
        SMTYPE { code: 2 }
    }

    /// The kind of a plain console front end.
    pub fn console() -> (r: SMTYPE)
        ensures
            r.code == 3,
            r.wf(),
    {
        SMTYPE { code: 3 }
    }
}

/// What a session does with text the engine writes to its display.
#[derive(Clone, Copy, PartialEq, Eq, Debug)]
pub enum WritePolicy {
    /// Print it to the host's console.
    HostConsole,
}

/// How a session answers the engine's window-driver calls.
#[derive(Clone, Copy, PartialEq, Eq, Debug)]
pub enum WindowPolicy {
    /// Acknowledge every call and do nothing.
    NoOp,
}

/// How a session answers the engine's requests for input.
#[derive(Clone, Copy, PartialEq, Eq, Debug)]
pub enum ReadPolicy {
    /// Hand back the fixed placeholder sentence, [`placeholder_input`].
    FixedPlaceholder,
}

/// The callback configuration a session is constructed with: one named
/// policy per callback, plus the session kind.
#[derive(Clone, Copy, PartialEq, Eq, Debug)]
pub struct JCBs {
    /// What to do with text the engine writes.
    pub wr: WritePolicy,
    /// How to answer window-driver calls.
    pub wd: WindowPolicy,
    /// How to answer read requests.
    pub rd: ReadPolicy,
    /// The session kind to announce to the engine.
    pub sm: SMTYPE,
}

impl Default for JCBs {
    /// The default configuration: console session, output printed to the
    /// host, window calls ignored, reads answered with the placeholder.
    fn default() -> (r: Self)
        ensures
            r.wr is HostConsole,
            r.wd is NoOp,
            r.rd is FixedPlaceholder,
            r.sm.code == 3,
            r.sm.wf(),
    {
        JCBs {
            wr: WritePolicy::HostConsole,
            wd: WindowPolicy::NoOp,
            rd: ReadPolicy::FixedPlaceholder,
            sm: SMTYPE::console(),
        }
    }
}

/// The sentence the fixed-placeholder read policy answers every engine read
/// request with.
pub fn placeholder_input() -> (r: &'static str)
    ensures
        r@ == "i.3 3"@,
{
    "i.3 3"
}

} // verus!
