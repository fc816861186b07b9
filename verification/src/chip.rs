//! Names for the two widths the machine works in.

use vstd::prelude::*;

verus! {

/// One memory cell or 8-bit register.
pub type Byte = u8;

/// A position in the 64 KiB address space.
pub type Address = u16;

} // verus!
