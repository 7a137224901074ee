//! Package full names.

use crate::attribute::{Attribute, Lookup, LookupView};
use crate::identity;
use crate::utf16;
use crate::wstring::WString;
use std::ops::Deref;
use vstd::prelude::*;
use vstd::std_specs::convert::FromSpecImpl;

verus! {

/// Number of fields in a package full name.
pub const FIELDS: usize = 5;

/// The name of one package, such as
/// `NcsiUwpApp_1000.19041.423.0_neutral_neutral_8wekyb3d8bbwe`.
///
/// | Field          | Example            | Example                                      |
/// | -------------- | ------------------ | -------------------------------------------- |
/// | `Name`         | `NcsiUwpApp`       | `CanonicalGroupLimited.Ubuntu20.04onWindows` |
/// | `Version`      | `1000.19041.423.0` | `2004.2020.812.0`                            |
/// | `Architecture` | `neutral`          | `x64`                                        |
/// | fourth field   | `neutral`          | (blank), `split.scale-100`                   |
/// | `PublisherId`  | `8wekyb3d8bbwe`    | `79rhkp1fndgsc`                              |
///
/// The string is split from the left at `_` into at most five fields; an `_`
/// after the fourth separator belongs to the last field. A field that the
/// string does not reach is empty.
#[derive(Debug, PartialEq, Eq, PartialOrd, Ord, Hash)]
pub struct PackageFullName(pub(crate) WString);

impl View for PackageFullName {
    type V = Seq<u16>;

    /// The code units of the identity string.
    closed spec fn view(&self) -> Seq<u16> {
        self.0@
    }
}

impl Clone for PackageFullName {
    fn clone(&self) -> (id: Self)
        ensures
            id@ == self@,
    {
        PackageFullName(self.0.clone())
    }
}

impl Deref for PackageFullName {
    type Target = WString;

    /// The identity string itself.
    fn deref(&self) -> (s: &WString)
        ensures
            s@ == self@,
    {
        &self.0
    }
}

impl PackageFullName {
    /// A full name from text or from code units.
    pub fn new<T: Into<Self>>(pfn: T) -> (id: Self)
        ensures
            call_ensures(<T as Into<Self>>::into, (pfn,), id),
    {
        pfn.into()
    }

    /// The package that `name` names.
    pub fn from_wstring(name: WString) -> (id: Self)
        ensures
            id@ == name@,
    {
        PackageFullName(name)
    }

    /// The identity string itself.
    pub fn into_wstring(self) -> (name: WString)
        ensures
            name@ == self@,
    {
        self.0
    }

    /// The package's `Name`, such as `NcsiUwpApp`.
    pub fn name(&self) -> (field: &[u16])
        ensures
            field@ == identity::piece(self@, FIELDS as nat, 0),
    {
        self.field(0)
    }

    /// The package's `Version`, such as `1000.19041.423.0`.
    pub fn version(&self) -> (field: &[u16])
        ensures
            field@ == identity::piece(self@, FIELDS as nat, 1),
    {
        self.field(1)
    }

    /// The package's `Architecture`, such as `x64` or `neutral`.
    pub fn architecture(&self) -> (field: &[u16])
        ensures
            field@ == identity::piece(self@, FIELDS as nat, 2),
    {
        self.field(2)
    }

    /// The fourth field, whose meaning is not known: blank, `neutral` and
    /// `split.scale-100` have been seen.
    pub fn field4(&self) -> (field: &[u16])
        ensures
            field@ == identity::piece(self@, FIELDS as nat, 3),
    {
        self.field(3)
    }

    /// The package's `PublisherId`, such as `8wekyb3d8bbwe`.
    pub fn publisher_id(&self) -> (field: &[u16])
        ensures
            field@ == identity::piece(self@, FIELDS as nat, 4),
    {
        self.field(4)
    }

    /// Field `n`, counted from zero. Asking for a field that the name does
    /// not have is no error: the answer is empty.
    pub fn field(&self, n: usize) -> (field: &[u16])
        ensures
            field@ == identity::piece(self@, FIELDS as nat, n as nat),
            n >= identity::pieces(self@, FIELDS as nat).len() ==> field@.len() == 0,
    {
        let units = self.0.units();
        let parts = identity::split_at_most(units, FIELDS);
        if n < parts.len() {
            parts[n]
        } else {
            let len = units.len();
            &units[len..len]
        }
    }
}

impl PackageFullName {
    /// The lookup of `attribute` of this package, with nothing asked of the
    /// store yet.
    pub fn lookup(&self, attribute: Attribute) -> (lookup: Lookup)
        ensures
            lookup@ == LookupView::start(self@, attribute),
    {
        Lookup::new(self.0.clone(), attribute)
    }

    /// `DisplayName`: the lookup of the package's name for people.
    pub fn display_name(&self) -> (lookup: Lookup)
        ensures
            lookup@ == LookupView::start(self@, Attribute::DisplayName),
    {
        self.lookup(Attribute::DisplayName)
    }

    /// `OSMaxVersionTested`: the lookup of the newest system version that the
    /// package was tested on.
    pub fn os_max_version_tested(&self) -> (lookup: Lookup)
        ensures
            lookup@ == LookupView::start(self@, Attribute::OsMaxVersionTested),
    {
        self.lookup(Attribute::OsMaxVersionTested)
    }

    /// `OSMinVersion`: the lookup of the oldest system version that the package
    /// runs on.
    pub fn os_min_version(&self) -> (lookup: Lookup)
        ensures
            lookup@ == LookupView::start(self@, Attribute::OsMinVersion),
    {
        self.lookup(Attribute::OsMinVersion)
    }

    /// `PackageRootFolder`: the lookup of the folder that holds the package.
    pub fn package_root_folder(&self) -> (lookup: Lookup)
        ensures
            lookup@ == LookupView::start(self@, Attribute::PackageRootFolder),
    {
        self.lookup(Attribute::PackageRootFolder)
    }

    /// The folder that holds the package, under the name that the system's
    /// own tools give it: the same lookup as
    /// [`package_root_folder`](PackageFullName::package_root_folder).
    pub fn install_location(&self) -> (lookup: Lookup)
        ensures
            lookup@ == LookupView::start(self@, Attribute::PackageRootFolder),
    {
        self.package_root_folder()
    }

    /// `SupportedUsers`: the lookup of the number of users that the package
    /// supports.
    pub fn supported_users(&self) -> (lookup: Lookup)
        ensures
            lookup@ == LookupView::start(self@, Attribute::SupportedUsers),
    {
        self.lookup(Attribute::SupportedUsers)
    }
}

impl From<&str> for PackageFullName {
    /// The identity that `value` spells.
    fn from(value: &str) -> (id: Self)
        ensures
            id@ == utf16::encoding(value@),
    {
        PackageFullName(WString::from(value))
    }
}

impl From<&String> for PackageFullName {
    /// The identity that `value` spells.
    fn from(value: &String) -> (id: Self)
        ensures
            id@ == utf16::encoding(value@),
    {
        PackageFullName(WString::from(value))
    }
}

impl From<String> for PackageFullName {
    /// The identity that `value` spells.
    fn from(value: String) -> (id: Self)
        ensures
            id@ == utf16::encoding(value@),
    {
        PackageFullName(WString::from(value))
    }
}

impl From<&[u16]> for PackageFullName {
    /// The identity with the code units of `value`.
    fn from(value: &[u16]) -> (id: Self)
        ensures
            id@ == value@,
    {
        PackageFullName(WString::from(value))
    }
}

impl From<&Vec<u16>> for PackageFullName {
    /// The identity with the code units of `value`.
    fn from(value: &Vec<u16>) -> (id: Self)
        ensures
            id@ == value@,
    {
        PackageFullName(WString::from(value))
    }
}

impl From<Vec<u16>> for PackageFullName {
    /// The identity with the code units of `value`.
    fn from(value: Vec<u16>) -> (id: Self)
        ensures
            id@ == value@,
    {
        PackageFullName(WString::from(value))
    }
}

// The conversions state their result through the view, in the `ensures` of
// `from`; an identity has no constructor in specifications.
impl FromSpecImpl<&str> for PackageFullName {
    open spec fn obeys_from_spec() -> bool {
        false
    }

    open spec fn from_spec(value: &str) -> Self {
        arbitrary()
    }
}

impl FromSpecImpl<&String> for PackageFullName {
    open spec fn obeys_from_spec() -> bool {
        false
    }

    open spec fn from_spec(value: &String) -> Self {
        arbitrary()
    }
}

impl FromSpecImpl<String> for PackageFullName {
    open spec fn obeys_from_spec() -> bool {
        false
    }

    open spec fn from_spec(value: String) -> Self {
        arbitrary()
    }
}

impl FromSpecImpl<&[u16]> for PackageFullName {
    open spec fn obeys_from_spec() -> bool {
        false
    }

    open spec fn from_spec(value: &[u16]) -> Self {
        arbitrary()
    }
}

impl FromSpecImpl<&Vec<u16>> for PackageFullName {
    open spec fn obeys_from_spec() -> bool {
        false
    }

    open spec fn from_spec(value: &Vec<u16>) -> Self {
        arbitrary()
    }
}

impl FromSpecImpl<Vec<u16>> for PackageFullName {
    open spec fn obeys_from_spec() -> bool {
        false
    }

    open spec fn from_spec(value: Vec<u16>) -> Self {
        arbitrary()
    }
}

} // verus!
