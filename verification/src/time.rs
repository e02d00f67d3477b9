use vstd::prelude::*;

verus! {

/// A span of time as a whole number of milliseconds; a plain value.
#[derive(Clone, Copy, Debug, PartialEq, Eq, Structural)]
pub struct Duration {
    pub ms: u32,
}

/// Extension for writing durations as `500.ms()`.
pub trait U32Ext {
    spec fn spec_ms(self) -> u32;

    fn ms(self) -> (d: Duration)
        ensures
            d.ms == self.spec_ms(),
    ;
}

impl U32Ext for u32 {
    open spec fn spec_ms(self) -> u32 {
        self
    }

    fn ms(self) -> (d: Duration) {
        Duration { ms: self }
    }
}

} // verus!
