//! Package family names.

use crate::identity;
use crate::utf16;
use crate::wstring::WString;
use std::ops::Deref;
use vstd::prelude::*;
use vstd::std_specs::convert::FromSpecImpl;

verus! {

/// The name of a family of packages, such as `NcsiUwpApp_8wekyb3d8bbwe`: the
/// packages that share a name and a publisher.
///
/// | Field         | Example         | Example                                      |
/// | ------------- | --------------- | -------------------------------------------- |
/// | `Name`        | `NcsiUwpApp`    | `CanonicalGroupLimited.Ubuntu20.04onWindows` |
/// | `PublisherId` | `8wekyb3d8bbwe` | `79rhkp1fndgsc`                              |
///
/// The two fields are separated by the first `_` of the string. A single
/// package of the family is named by a
/// [`PackageFullName`](crate::package::PackageFullName).
#[derive(Debug, PartialEq, Eq, PartialOrd, Ord, Hash)]
pub struct PackageFamilyName(pub(crate) WString);

impl View for PackageFamilyName {
    type V = Seq<u16>;

    /// The code units of the identity string.
    closed spec fn view(&self) -> Seq<u16> {
        self.0@
    }
}

impl Clone for PackageFamilyName {
    fn clone(&self) -> (id: Self)
        ensures
            id@ == self@,
    {
        PackageFamilyName(self.0.clone())
    }
}

impl Deref for PackageFamilyName {
    type Target = WString;

    /// The identity string itself.
    fn deref(&self) -> (s: &WString)
        ensures
            s@ == self@,
    {
        &self.0
    }
}

impl PackageFamilyName {
    /// A family name from text or from code units.
    pub fn new<T: Into<Self>>(pfn: T) -> (id: Self)
        ensures
            call_ensures(<T as Into<Self>>::into, (pfn,), id),
    {
        pfn.into()
    }

    /// The family that `name` names.
    pub fn from_wstring(name: WString) -> (id: Self)
        ensures
            id@ == name@,
    {
        PackageFamilyName(name)
    }

    /// The identity string itself.
    pub fn into_wstring(self) -> (name: WString)
        ensures
            name@ == self@,
    {
        self.0
    }

    /// The family's `Name`: what stands before the first `_`, and the whole
    /// string where there is no `_`.
    pub fn name(&self) -> (field: &[u16])
        ensures
            field@ == identity::before_first(self@),
    {
        identity::split_first(self.0.units()).0
    }

    /// The family's `PublisherId`: what stands after the first `_`, and
    /// nothing where there is no `_`.
    pub fn publisher_id(&self) -> (field: &[u16])
        ensures
            field@ == identity::after_first(self@),
    {
        identity::split_first(self.0.units()).1
    }
}

impl From<&str> for PackageFamilyName {
    /// The identity that `value` spells.
    fn from(value: &str) -> (id: Self)
        ensures
            id@ == utf16::encoding(value@),
    {
        PackageFamilyName(WString::from(value))
    }
}

impl From<&String> for PackageFamilyName {
    /// The identity that `value` spells.
    fn from(value: &String) -> (id: Self)
        ensures
            id@ == utf16::encoding(value@),
    {
        PackageFamilyName(WString::from(value))
    }
}

impl From<String> for PackageFamilyName {
    /// The identity that `value` spells.
    fn from(value: String) -> (id: Self)
        ensures
            id@ == utf16::encoding(value@),
    {
        PackageFamilyName(WString::from(value))
    }
}

impl From<&[u16]> for PackageFamilyName {
    /// The identity with the code units of `value`.
    fn from(value: &[u16]) -> (id: Self)
        ensures
            id@ == value@,
    {
        PackageFamilyName(WString::from(value))
    }
}

impl From<&Vec<u16>> for PackageFamilyName {
    /// The identity with the code units of `value`.
    fn from(value: &Vec<u16>) -> (id: Self)
        ensures
            id@ == value@,
    {
        PackageFamilyName(WString::from(value))
    }
}

impl From<Vec<u16>> for PackageFamilyName {
    /// The identity with the code units of `value`.
    fn from(value: Vec<u16>) -> (id: Self)
        ensures
            id@ == value@,
    {
        PackageFamilyName(WString::from(value))
    }
}

// The conversions state their result through the view, in the `ensures` of
// `from`; an identity has no constructor in specifications.
impl FromSpecImpl<&str> for PackageFamilyName {
    open spec fn obeys_from_spec() -> bool {
        false
    }

    open spec fn from_spec(value: &str) -> Self {
        arbitrary()
    }
}

impl FromSpecImpl<&String> for PackageFamilyName {
    open spec fn obeys_from_spec() -> bool {
        false
    }

    open spec fn from_spec(value: &String) -> Self {
        arbitrary()
    }
}

impl FromSpecImpl<String> for PackageFamilyName {
    open spec fn obeys_from_spec() -> bool {
        false
    }

    open spec fn from_spec(value: String) -> Self {
        arbitrary()
    }
}

impl FromSpecImpl<&[u16]> for PackageFamilyName {
    open spec fn obeys_from_spec() -> bool {
        false
    }

    open spec fn from_spec(value: &[u16]) -> Self {
        arbitrary()
    }
}

impl FromSpecImpl<&Vec<u16>> for PackageFamilyName {
    open spec fn obeys_from_spec() -> bool {
        false
    }

    open spec fn from_spec(value: &Vec<u16>) -> Self {
        arbitrary()
    }
}

impl FromSpecImpl<Vec<u16>> for PackageFamilyName {
    open spec fn obeys_from_spec() -> bool {
        false
    }

    open spec fn from_spec(value: Vec<u16>) -> Self {
        arbitrary()
    }
}

} // verus!
