//! Keeps the set of token streams closed.

use vstd::prelude::*;
use quick_xml::Reader;

verus! {

/// Implemented by the one kind of stream that the expectations are defined
/// for: a reader whose whole input is in memory.
pub trait Sealed {}

impl<'a> Sealed for Reader<&'a [u8]> {}

} // verus!
