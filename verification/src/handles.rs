//! The values that cross the host boundary: a connected controller's opaque
//! 64-bit identifier, one newtype per kind of resolved action handle so the
//! kinds cannot be mixed up, and the analog reading carried as raw IEEE-754
//! single-precision bit patterns.
//!
//! The bridge never interprets a handle's bits; each type here only promises
//! that what was put in comes back out unchanged.

use vstd::prelude::*;

verus! {

/// A connected input device, identified by the opaque 64-bit handle the
/// native SDK reported for it. The handle is a transient snapshot: it is
/// meaningful only against the live native client that enumerated it.
#[derive(Clone, Copy, Debug, PartialEq, Eq, Structural)]
pub struct Controller {
    handle: u64,
}

impl Controller {
    /// The identifier this controller was constructed with.
    pub closed spec fn id(self) -> u64 {
        self.handle
    }

    /// Wraps a native controller handle.
    pub fn new(handle: u64) -> (c: Controller)
        ensures
            c.id() == handle,
    {
        Controller { handle }
    }

    /// Hands the native identifier back exactly as it was wrapped: a
    /// round-trip identity, with no reinterpretation of the bits.
    pub fn get_handle(&self) -> (h: u64)
        ensures
            h == self.id(),
    {
        self.handle
    }
}

/// An opaque handle for a named action set, resolved once by the native SDK.
#[derive(Clone, Copy, Debug, PartialEq, Eq, Structural)]
pub struct ActionSetHandle {
    raw: u64,
}

impl ActionSetHandle {
    /// The raw 64-bit value the handle wraps.
    pub closed spec fn id(self) -> u64 {
        self.raw
    }

    /// Wraps a raw action-set handle value.
    pub fn new(raw: u64) -> (h: ActionSetHandle)
        ensures
            h.id() == raw,
    {
        ActionSetHandle { raw }
    }

    /// The wrapped value back, unchanged.
    pub fn raw(&self) -> (r: u64)
        ensures
            r == self.id(),
    {
        self.raw
    }
}

/// An opaque handle for a named digital (pressed / not pressed) action.
#[derive(Clone, Copy, Debug, PartialEq, Eq, Structural)]
pub struct DigitalActionHandle {
    raw: u64,
}

impl DigitalActionHandle {
    /// The raw 64-bit value the handle wraps.
    pub closed spec fn id(self) -> u64 {
        self.raw
    }

    /// Wraps a raw digital-action handle value.
    pub fn new(raw: u64) -> (h: DigitalActionHandle)
        ensures
            h.id() == raw,
    {
        DigitalActionHandle { raw }
    }

    /// The wrapped value back, unchanged.
    pub fn raw(&self) -> (r: u64)
        ensures
            r == self.id(),
    {
        self.raw
    }
}

/// An opaque handle for a named analog (2-axis) action.
#[derive(Clone, Copy, Debug, PartialEq, Eq, Structural)]
pub struct AnalogActionHandle {
    raw: u64,
}

impl AnalogActionHandle {
    /// The raw 64-bit value the handle wraps.
    pub closed spec fn id(self) -> u64 {
        self.raw
    }

    /// Wraps a raw analog-action handle value.
    pub fn new(raw: u64) -> (h: AnalogActionHandle)
        ensures
            h.id() == raw,
    {
        AnalogActionHandle { raw }
    }

    /// The wrapped value back, unchanged.
    pub fn raw(&self) -> (r: u64)
        ensures
            r == self.id(),
    {
        self.raw
    }
}

/// One 2-axis analog reading, copied out of native memory at call time. The
/// native SDK reports each axis as an IEEE-754 single-precision value; the
/// bridge carries the two values as their exact bit patterns and applies no
/// scaling, clamping, or any other transformation. The host side widens each
/// pattern to its own floating-point representation, which is exact.
#[derive(Clone, Copy, Debug, PartialEq, Eq, Structural)]
pub struct AnalogActionVector {
    /// Bit pattern of the x axis reading.
    pub x_bits: u32,
    /// Bit pattern of the y axis reading.
    pub y_bits: u32,
}

impl AnalogActionVector {
    /// Packs the two axis readings, preserving each bit pattern exactly as
    /// the native SDK reported it.
    pub fn from_bits(x_bits: u32, y_bits: u32) -> (v: AnalogActionVector)
        ensures
            v.x_bits == x_bits,
            v.y_bits == y_bits,
    {
        AnalogActionVector { x_bits, y_bits }
    }
}

impl Controller {
    /// The pair of raw values that an action-set activation hands to the
    /// native call: this controller's identifier and the set's raw handle.
    pub open spec fn activation_args(self, set: ActionSetHandle) -> (u64, u64) {
        (self.id(), set.id())
    }

    /// Marshals an activation request: the pair forwarded to the native
    /// activation call, both values exactly as they were wrapped.
    pub fn activation_request(&self, set: &ActionSetHandle) -> (p: (u64, u64))
        ensures
            p == self.activation_args(*set),
    {
        (self.handle, set.raw())
    }
}

/// Resolving an action set and then activating it forwards both values
/// unmodified: for a handle wrapping the raw value the resolution returned,
/// the pair handed to the native activation call is exactly the controller's
/// identifier and that raw value.
pub proof fn lemma_resolve_then_activate_forwards(c: Controller, resolved: u64, set: ActionSetHandle)
    requires
        set.id() == resolved,
    ensures
        c.activation_args(set) == (c.id(), resolved),
{
}

/// Wraps a list of raw controller handles, as the native enumeration
/// reports them, one `Controller` per handle, keeping the enumeration order
/// and the count: the controller at each position carries exactly the
/// handle at that position, unchanged.
pub fn controllers_from_handles(handles: &Vec<u64>) -> (cs: Vec<Controller>)
    ensures
        cs@.len() == handles@.len(),
        forall|i: int| 0 <= i < handles@.len() ==> cs@[i].id() == handles@[i],
{
    let mut cs: Vec<Controller> = Vec::new();
    let mut k: usize = 0;
    while k < handles.len()
        invariant
            k <= handles@.len(),
            cs@.len() == k,
            forall|i: int| 0 <= i < k ==> cs@[i].id() == handles@[i],
        decreases handles@.len() - k,
    {
        cs.push(Controller::new(handles[k]));
        k = k + 1;
    }
    cs
}

} // verus!
