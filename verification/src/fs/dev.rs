//! The device files that need no hardware.

use vstd::prelude::*;
use super::{ErrorKind, OffsetType};

verus! {

/// Storage Full Device `/dev/full`: reads zeros, and refuses every write as full.
pub struct Full;

impl Full {
    pub fn name(&self) -> (r: String)
        ensures
            r@ == "full"@,
    {
        "full".to_owned()
    }

    pub fn read_data(&self, _offset: OffsetType, buf: &mut [u8]) -> (r: Result<usize, ErrorKind>)
        ensures
            r == Ok::<usize, ErrorKind>(old(buf)@.len() as usize),
            final(buf)@ == Seq::new(old(buf)@.len(), |i: int| 0u8),
    {
        let mut i: usize = 0;
        while i < buf.len()
            invariant
                i <= buf@.len(),
                buf@.len() == old(buf)@.len(),
                forall|j: int| 0 <= j < i ==> buf@[j] == 0u8,
            decreases buf@.len() - i,
        {
            buf[i] = 0;
            i += 1;
        }
        assert(buf@ =~= Seq::new(old(buf)@.len(), |i: int| 0u8));
        Ok(buf.len())
    }

    pub fn write_data(&self, _offset: OffsetType, _buf: &[u8]) -> (r: Result<usize, ErrorKind>)
        ensures
            r == Err::<usize, ErrorKind>(ErrorKind::StorageFull),
    {
        Err(ErrorKind::StorageFull)
    }
}

/// Random Device `/dev/random`.
pub struct Random;

impl Random {
    pub fn name(&self) -> (r: String)
        ensures
            r@ == "random"@,
    {
        "random".to_owned()
    }
}

} // verus!
