//! A reporter that records nothing and reads zero.
use vstd::prelude::*;
use crate::tracing::Reporter;

verus! {

/// Records nothing; every read gives 0.
pub struct DummyEffectReporter;

impl Reporter for DummyEffectReporter {
    open spec fn can_read(&self, addr: usize, len: usize) -> bool {
        true
    }

    fn read_volatile(&mut self, _ptr: usize, _len: usize) -> (r: u64)
        ensures
            r == 0,
    {
        0
    }

    fn write_volatile(&mut self, _ptr: usize, _len: usize, _val: u64) {
    }

    fn load_modify_store(&mut self, _ptr: usize, _val: u64) {
    }
}

} // verus!
