//! Wide, `0`-terminated strings.

use crate::utf16;
use vstd::prelude::*;
use vstd::slice::{slice_subrange, slice_to_vec};
use vstd::std_specs::convert::FromSpecImpl;
use vstd::std_specs::iter::IteratorSpec;

mod imp;

verus! {

/// A wide UTF-16-ish string that is always ready to be handed to a native call
/// that expects a `0` terminator.
///
/// Its view is the sequence of its code units, terminator excluded. The units
/// need not be well-formed UTF-16, and a `0` may occur among them.
#[derive(Debug, PartialEq, Eq, PartialOrd, Ord, Hash)]
pub struct WString(imp::WStringCore);

impl View for WString {
    type V = Seq<u16>;

    closed spec fn view(&self) -> Seq<u16> {
        self.0.content()
    }
}

impl WString {
    /// A wide string from text or from code units.
    pub fn new<T: Into<WString>>(src: T) -> (s: Self)
        ensures
            call_ensures(<T as Into<WString>>::into, (src,), s),
    {
        src.into()
    }

    /// A wide string with the code units that `src` yields, up to its end:
    /// `src` has to be an iterator that ends.
    pub fn from_code_units<I: Iterator<Item = u16>>(src: I) -> (s: Self)
        requires
            src.obeys_prophetic_iter_laws(),
            src.decrease() is Some,
        ensures
            s@ == src.remaining(),
    {
        let mut units: Vec<u16> = Vec::new();
        let mut src = src;
        let ghost all = src.remaining();
        loop
            invariant
                src.obeys_prophetic_iter_laws(),
                src.decrease() is Some,
                units@ + src.remaining() == all,
            ensures
                units@ == all,
            decreases src.decrease()->0,
        {
            match src.next() {
                Some(unit) => {
                    units.push(unit);
                    assert(units@ + src.remaining() =~= all);
                },
                None => {
                    break ;
                },
            }
        }
        WString::from_code_units_vec(units)
    }

    /// A wide string with the code units of `src`; the terminator is added.
    pub fn from_code_units_vec(src: Vec<u16>) -> (s: Self)
        ensures
            s@ == src@,
    {
        WString(imp::WStringCore::from_code_units_vec(src))
    }

    /// The code units with the terminator: never empty, and the last unit is
    /// `0`. This is what a native call is given.
    pub fn units0(&self) -> (units: &[u16])
        ensures
            units@ == self@.push(0),
            units@.len() == self@.len() + 1,
            units@.last() == 0,
    {
        self.0.units0()
    }

    /// The code units without the terminator.
    pub fn units(&self) -> (units: &[u16])
        ensures
            units@ == self@,
    {
        let buf = self.units0();
        slice_subrange(buf, 0, buf.len() - 1)
    }

    /// Number of code units, the terminator not counted.
    pub fn len(&self) -> (n: usize)
        ensures
            n == self@.len(),
    {
        self.units().len()
    }

    /// Number of code units, the terminator counted.
    pub fn len0(&self) -> (n: usize)
        ensures
            n == self@.len() + 1,
    {
        self.units0().len()
    }

    /// The string as text for people to read. Code units that are not
    /// well-formed UTF-16 come out as U+FFFD.
    pub fn display(&self) -> (text: String)
        ensures
            text@ == utf16::lossy_text(self@),
    {
        utf16::decode_lossy(self.units())
    }
}

impl Clone for WString {
    fn clone(&self) -> (s: Self)
        ensures
            s@ == self@,
    {
        WString::from(self.units())
    }
}

impl Default for WString {
    /// The empty string.
    fn default() -> (s: Self)
        ensures
            s@ == Seq::<u16>::empty(),
    {
        WString::from_code_units_vec(Vec::new())
    }
}

impl From<&str> for WString {
    /// The UTF-16 encoding of `value`.
    fn from(value: &str) -> (s: Self)
        ensures
            s@ == utf16::encoding(value@),
    {
        WString::from_code_units_vec(utf16::encode(value))
    }
}

impl From<&String> for WString {
    /// The UTF-16 encoding of `value`.
    fn from(value: &String) -> (s: Self)
        ensures
            s@ == utf16::encoding(value@),
    {
        WString::from(value.as_str())
    }
}

impl From<String> for WString {
    /// The UTF-16 encoding of `value`.
    fn from(value: String) -> (s: Self)
        ensures
            s@ == utf16::encoding(value@),
    {
        WString::from(value.as_str())
    }
}

impl From<&[u16]> for WString {
    /// A copy of the code units of `value`.
    fn from(value: &[u16]) -> (s: Self)
        ensures
            s@ == value@,
    {
        WString::from_code_units_vec(slice_to_vec(value))
    }
}

impl From<&Vec<u16>> for WString {
    /// A copy of the code units of `value`.
    fn from(value: &Vec<u16>) -> (s: Self)
        ensures
            s@ == value@,
    {
        WString::from(value.as_slice())
    }
}

impl From<Vec<u16>> for WString {
    /// The code units of `value`.
    fn from(value: Vec<u16>) -> (s: Self)
        ensures
            s@ == value@,
    {
        WString::from_code_units_vec(value)
    }
}

// A wide string has no constructor in specifications, so none of the
// conversions has a `from_spec`: each states its result through the view, in
// the `ensures` of `from`.
impl FromSpecImpl<&str> for WString {
    open spec fn obeys_from_spec() -> bool {
        false
    }

    open spec fn from_spec(value: &str) -> Self {
        arbitrary()
    }
}

impl FromSpecImpl<&String> for WString {
    open spec fn obeys_from_spec() -> bool {
        false
    }

    open spec fn from_spec(value: &String) -> Self {
        arbitrary()
    }
}

impl FromSpecImpl<String> for WString {
    open spec fn obeys_from_spec() -> bool {
        false
    }

    open spec fn from_spec(value: String) -> Self {
        arbitrary()
    }
}

impl FromSpecImpl<&[u16]> for WString {
    open spec fn obeys_from_spec() -> bool {
        false
    }

    open spec fn from_spec(value: &[u16]) -> Self {
        arbitrary()
    }
}

impl FromSpecImpl<&Vec<u16>> for WString {
    open spec fn obeys_from_spec() -> bool {
        false
    }

    open spec fn from_spec(value: &Vec<u16>) -> Self {
        arbitrary()
    }
}

impl FromSpecImpl<Vec<u16>> for WString {
    open spec fn obeys_from_spec() -> bool {
        false
    }

    open spec fn from_spec(value: Vec<u16>) -> Self {
        arbitrary()
    }
}

} // verus!
