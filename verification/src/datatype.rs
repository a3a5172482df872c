//! Datatypes and the layout of buffers, as far as point to point communication reads them.

use vstd::prelude::*;

use crate::raw::{AsRaw, RawDatatype};
use crate::Count;

verus! {

/// A datatype: its raw handle and the number of bytes of data one element holds.
#[derive(Clone, Copy, Debug, PartialEq, Eq, Structural)]
pub struct Datatype {
    pub raw: RawDatatype,
    pub size: u32,
}

impl AsRaw for Datatype {
    type Raw = RawDatatype;

    open spec fn is_raw(&self, raw: RawDatatype) -> bool {
        raw == self.raw
    }

    fn as_raw(&self) -> (r: RawDatatype)
        ensures
            r == self.raw,
    {
        self.raw
    }
}

/// The layout of a buffer: how many elements of which datatype it holds.
#[derive(Clone, Copy, Debug, PartialEq, Eq, Structural)]
pub struct BufferLayout {
    pub count: Count,
    pub datatype: Datatype,
}

impl BufferLayout {
    /// The layout of a buffer that holds a single element of `datatype`.
    pub fn single(datatype: Datatype) -> (b: BufferLayout)
        ensures
            b == (BufferLayout { count: 1, datatype }),
    {
        BufferLayout { count: 1, datatype }
    }
}

} // verus!
