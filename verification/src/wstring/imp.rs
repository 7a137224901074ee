//! The one place that touches the raw backing buffer of a wide string.
//!
//! Everything else in the crate reads a wide string through
//! [`WStringCore::units0`], so the terminator invariant is established and
//! relied upon in this file only.

use vstd::prelude::*;

verus! {

/// Backing storage of a wide string.
///
/// The buffer is either empty or ends in a single `0` code unit that was
/// appended on construction.
#[derive(Debug, PartialEq, Eq, PartialOrd, Ord, Hash)]
pub struct WStringCore {
    buffer: Vec<u16>,
}

impl WStringCore {
    #[verifier::type_invariant]
    pub closed spec fn well_formed(&self) -> bool {
        self.buffer@.len() == 0 || self.buffer@.last() == 0
    }

    /// The code units of the string, terminator excluded.
    pub closed spec fn content(&self) -> Seq<u16> {
        if self.buffer@.len() == 0 {
            Seq::empty()
        } else {
            self.buffer@.drop_last()
        }
    }

    /// Builds the storage from the code units of a string; the terminator is
    /// appended here.
    pub fn from_code_units_vec(src: Vec<u16>) -> (core: Self)
        ensures
            core.content() == src@,
    {
        let mut src = src;
        if src.len() != 0 {
            src.push(0);
        }
        WStringCore { buffer: src }
    }

    /// The code units followed by the terminator. An empty string yields a
    /// single `0` unit that is not part of the buffer.
    pub fn units0(&self) -> (units: &[u16])
        ensures
            units@ == self.content().push(0),
    {
        proof {
            use_type_invariant(self);
        }
        if self.buffer.len() != 0 {
            self.buffer.as_slice()
        } else {
            &[0u16]
        }
    }
}

} // verus!
