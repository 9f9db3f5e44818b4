//! The shared bit-codec contract every process-data object implements.
//!
//! A process-data object is an immutable-width, bit-packed record that is
//! exchanged once per bus cycle.  Status objects (terminal to controller)
//! implement the decode direction, control objects (controller to terminal)
//! the encode direction.  Either operation touches exactly the object's
//! declared bit window and nothing outside it.

use vstd::prelude::*;

verus! {

/// Decode direction: a status object populated from an inbound bit window.
///
/// Decoding is gated by the object's toggle bit: each implementation's
/// `spec_read` keeps every non-toggle field of `pre` when the window's toggle
/// bit is clear, so repeated decodes of a stale window change nothing.
pub trait TxPdoObject: Sized {
    /// The object's declared bit width; never changes at runtime.
    spec fn width_bits() -> nat;

    /// What one decode step yields, from the previous field values and the
    /// bytes of the window.
    spec fn spec_read(pre: Self, bits: Seq<u8>) -> Self;

    /// Populates the object's fields from a window of exactly the declared
    /// width.
    fn read(&mut self, bits: &[u8])
        requires
            bits@.len() * 8 == Self::width_bits(),
        ensures
            *final(self) == Self::spec_read(*old(self), bits@),
    ;
}

/// Encode direction: a control object written into an outbound bit window.
///
/// The window is fully overwritten: every bit not covered by a named field is
/// left at zero, so each implementation's `spec_write` determines the whole
/// window from the object's fields alone.
pub trait RxPdoObject: Sized {
    /// The object's declared bit width; never changes at runtime.
    spec fn width_bits() -> nat;

    /// The exact bytes the object encodes to.
    spec fn spec_write(self) -> Seq<u8>;

    /// Writes the object's fields into a window of exactly the declared
    /// width.
    fn write(&self, buffer: &mut Vec<u8>)
        requires
            old(buffer)@.len() * 8 == Self::width_bits(),
        ensures
            final(buffer)@ == self.spec_write(),
            final(buffer)@.len() == old(buffer)@.len(),
    ;
}

} // verus!
