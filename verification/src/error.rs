use vstd::prelude::*;

verus! {

/// Unified error model for non-blocking peripheral operations.
///
/// `WouldBlock` is backpressure, not failure: the operation made no
/// progress right now and the caller should poll again (or wait for an
/// interrupt). `Fault` is a genuine hardware-reported error condition,
/// such as a UART framing or overrun error; it is propagated to the
/// caller and never silently dropped. The core itself never aborts on a
/// fault — stop-the-world decisions belong to the application.
#[derive(Clone, Copy, Debug, PartialEq, Eq, Structural)]
pub enum IoError {
    WouldBlock,
    Fault,
}

} // verus!
