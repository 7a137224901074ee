use appx::attribute::{Lookup, Value};
use appx::reg::{NameBuffer, Reply, Request, Root, ValueKind};
use appx::repository::{
    families, has_family, has_package, packages, FamiliesIter, Membership, PackagesIter,
    FAMILIES_KEY, PACKAGES_KEY,
};
use appx::{Error, PackageFamilyName, PackageFullName, WString};

const NCSI: &str = "NcsiUwpApp_1000.19041.423.0_neutral_neutral_8wekyb3d8bbwe";
const UBUNTU: &str = "CanonicalGroupLimited.UbuntuonWindows_2004.2020.812.0_x64__79rhkp1fndgsc";

enum Stored {
    Text(String),
    Dword(u32),
    Qword(u64),
}

struct Entry {
    name: String,
    values: Vec<(String, Stored)>,
}

struct Key {
    path: String,
    entries: Vec<Entry>,
}

/// A store in memory that answers requests as the native one would.
struct Store {
    keys: Vec<Key>,
    open: Option<usize>,
    calls: usize,
}

fn text(units: &[u16]) -> String {
    String::from_utf16(units).unwrap()
}

impl Store {
    fn installed() -> Store {
        let families = Key {
            path: String::from(FAMILIES_KEY),
            entries: vec![
                Entry { name: String::from("NcsiUwpApp_8wekyb3d8bbwe"), values: Vec::new() },
                Entry {
                    name: String::from("CanonicalGroupLimited.UbuntuonWindows_79rhkp1fndgsc"),
                    values: Vec::new(),
                },
            ],
        };
        let packages = Key {
            path: String::from(PACKAGES_KEY),
            entries: vec![
                Entry {
                    name: String::from(NCSI),
                    values: vec![
                        (String::from("DisplayName"), Stored::Text(String::from("NcsiUwpApp"))),
                        (
                            String::from("PackageRootFolder"),
                            Stored::Text(String::from(r"C:\WINDOWS\SystemApps\NcsiUwpApp_8wekyb3d8bbwe")),
                        ),
                        (String::from("OSMinVersion"), Stored::Qword(0x000A_0000_0000_0000)),
                        (String::from("OSMaxVersionTested"), Stored::Qword(0x03E8_4A61_01A7_0000)),
                        (String::from("SupportedUsers"), Stored::Dword(1)),
                    ],
                },
                Entry {
                    name: String::from(UBUNTU),
                    values: vec![
                        (String::from("DisplayName"), Stored::Text("x".repeat(70_000))),
                        (String::from("SupportedUsers"), Stored::Text(String::from("many"))),
                        (String::from("OSMinVersion"), Stored::Dword(10)),
                    ],
                },
            ],
        };
        Store { keys: vec![families, packages], open: None, calls: 0 }
    }

    fn empty() -> Store {
        let families = Key { path: String::from(FAMILIES_KEY), entries: Vec::new() };
        let packages = Key { path: String::from(PACKAGES_KEY), entries: Vec::new() };
        Store { keys: vec![families, packages], open: None, calls: 0 }
    }

    fn bare() -> Store {
        Store { keys: Vec::new(), open: None, calls: 0 }
    }

    fn perform(&mut self, request: &Request) -> Reply {
        self.calls += 1;
        match request {
            Request::OpenRoot { root, sub_key, .. } => {
                assert_eq!(*root, Root::ClassesRoot);
                assert_eq!(sub_key.units0().last(), Some(&0));
                let path = text(sub_key.units());
                self.open = self.keys.iter().position(|key| key.path == path);
                Reply::Opened { status: if self.open.is_some() { 0 } else { 2 } }
            }
            Request::OpenSubkey { sub_key, .. } => {
                assert_eq!(sub_key.units0().last(), Some(&0));
                let key = &self.keys[self.open.unwrap()];
                let name = text(sub_key.units());
                let found = key.entries.iter().any(|entry| entry.name == name);
                Reply::Opened { status: if found { 0 } else { 2 } }
            }
            Request::EnumKey { index } => {
                let key = &self.keys[self.open.unwrap()];
                let mut name = NameBuffer::default();
                match key.entries.get(*index as usize) {
                    Some(entry) => {
                        let units: Vec<u16> = entry.name.encode_utf16().collect();
                        name.0[..units.len()].copy_from_slice(&units);
                        Reply::Name { status: 0, len: units.len() as u32, name }
                    }
                    None => Reply::Name { status: 259, len: name.len(), name },
                }
            }
            Request::GetValue { sub_path, name, kind, capacity } => {
                let key = &self.keys[self.open.unwrap()];
                let sub_path = text(sub_path.as_ref().unwrap().units());
                let name = text(name.as_ref().unwrap().units());
                let stored = key
                    .entries
                    .iter()
                    .find(|entry| entry.name == sub_path)
                    .and_then(|entry| entry.values.iter().find(|(value, _)| *value == name))
                    .map(|(_, stored)| stored);
                let status_of_absence = match stored {
                    None => 2,
                    Some(_) => 1630,
                };
                match (kind, stored) {
                    (ValueKind::Text, Some(Stored::Text(value))) => {
                        let mut units: Vec<u16> = value.encode_utf16().collect();
                        units.push(0);
                        let len = (units.len() * 2) as u32;
                        if units.len() > *capacity {
                            Reply::Text { status: 234, len, data: vec![0; *capacity] }
                        } else {
                            units.resize(*capacity, 0xFFFF);
                            Reply::Text { status: 0, len, data: units }
                        }
                    }
                    (ValueKind::Text, _) => {
                        Reply::Text { status: status_of_absence, len: 0, data: vec![0; *capacity] }
                    }
                    (ValueKind::Dword, Some(Stored::Dword(value))) => {
                        Reply::Dword { status: 0, dword: *value }
                    }
                    (ValueKind::Dword, _) => Reply::Dword { status: status_of_absence, dword: 0 },
                    (ValueKind::Qword, Some(Stored::Qword(value))) => {
                        Reply::Qword { status: 0, qword: *value }
                    }
                    (ValueKind::Qword, _) => Reply::Qword { status: status_of_absence, qword: 0 },
                }
            }
        }
    }

    fn list_families(&mut self, mut iter: FamiliesIter) -> Vec<PackageFamilyName> {
        let mut found = Vec::new();
        while let Some(request) = iter.request() {
            let reply = self.perform(&request);
            if let Some(family) = iter.next(&reply) {
                found.push(family);
            }
        }
        assert_eq!(iter.failure(), None);
        found
    }

    fn list_packages(&mut self, mut iter: PackagesIter) -> Vec<PackageFullName> {
        let mut found = Vec::new();
        while let Some(request) = iter.request() {
            let reply = self.perform(&request);
            if let Some(package) = iter.next(&reply) {
                found.push(package);
            }
        }
        assert_eq!(iter.failure(), None);
        found
    }

    fn answer(&mut self, mut question: Membership) -> bool {
        while let Some(request) = question.request() {
            let reply = self.perform(&request);
            question.respond(&reply);
        }
        question.found()
    }

    fn value(&mut self, mut lookup: Lookup) -> Result<Value, Error> {
        while let Some(request) = lookup.request() {
            let reply = self.perform(&request);
            lookup.respond(&reply);
        }
        lookup.finish().unwrap()
    }
}

#[test]
fn store_lists_its_families() {
    let mut store = Store::installed();
    let found = store.list_families(families());
    assert_eq!(
        found,
        vec![
            PackageFamilyName::from("NcsiUwpApp_8wekyb3d8bbwe"),
            PackageFamilyName::from("CanonicalGroupLimited.UbuntuonWindows_79rhkp1fndgsc"),
        ]
    );
    assert_eq!(store.calls, 4);
}

#[test]
fn store_lists_its_packages() {
    let mut store = Store::installed();
    let found = store.list_packages(packages());
    assert_eq!(found, vec![PackageFullName::from(NCSI), PackageFullName::from(UBUNTU)]);
    assert_eq!(found[1].architecture(), "x64".encode_utf16().collect::<Vec<u16>>());
    assert_eq!(store.calls, 4);
}

#[test]
fn store_without_entries_lists_nothing() {
    let mut store = Store::empty();
    assert!(store.list_families(families()).is_empty());
    assert!(store.list_packages(packages()).is_empty());
    assert_eq!(store.calls, 4);
}

#[test]
fn store_without_the_repository_lists_nothing() {
    let mut store = Store::bare();
    assert!(store.list_families(families()).is_empty());
    assert!(store.list_packages(packages()).is_empty());
    assert_eq!(store.calls, 2);
}

#[test]
fn store_knows_its_entries() {
    let mut store = Store::installed();
    assert!(store.answer(has_family("NcsiUwpApp_8wekyb3d8bbwe")));
    assert!(store.answer(has_family(PackageFamilyName::from(
        "CanonicalGroupLimited.UbuntuonWindows_79rhkp1fndgsc"
    ))));
    assert!(!store.answer(has_family("NcsiUwpApp")));
    assert!(!store.answer(has_family(NCSI)));
    assert!(store.answer(has_package(NCSI)));
    assert!(store.answer(has_package(PackageFullName::from(UBUNTU))));
    assert!(!store.answer(has_package("NcsiUwpApp_8wekyb3d8bbwe")));
    assert!(!store.answer(has_package("")));

    let mut bare = Store::bare();
    assert!(!bare.answer(has_family("NcsiUwpApp_8wekyb3d8bbwe")));
    assert!(!bare.answer(has_package(NCSI)));
    assert_eq!(bare.calls, 2);
}

#[test]
fn store_gives_the_attributes_of_a_package() {
    let mut store = Store::installed();
    let pfn = PackageFullName::from(NCSI);
    assert_eq!(store.value(pfn.display_name()), Ok(Value::Text(String::from("NcsiUwpApp"))));
    assert_eq!(
        store.value(pfn.package_root_folder()),
        Ok(Value::Path(WString::from(r"C:\WINDOWS\SystemApps\NcsiUwpApp_8wekyb3d8bbwe")))
    );
    assert_eq!(
        store.value(pfn.install_location()),
        Ok(Value::Path(WString::from(r"C:\WINDOWS\SystemApps\NcsiUwpApp_8wekyb3d8bbwe")))
    );
    assert_eq!(store.value(pfn.os_min_version()), Ok(Value::Version(0x000A_0000_0000_0000)));
    assert_eq!(store.value(pfn.os_max_version_tested()), Ok(Value::Version(0x03E8_4A61_01A7_0000)));
    assert_eq!(store.value(pfn.supported_users()), Ok(Value::Count(1)));
    assert_eq!(store.calls, 12);
}

#[test]
fn store_reports_what_it_cannot_give() {
    let mut store = Store::installed();
    let pfn = PackageFullName::from(UBUNTU);
    assert_eq!(store.value(pfn.display_name()), Err(Error::BufferTooSmall));
    assert_eq!(store.value(pfn.supported_users()), Err(Error::TypeMismatch));
    assert_eq!(store.value(pfn.os_min_version()), Err(Error::TypeMismatch));
    assert_eq!(store.value(pfn.os_max_version_tested()), Err(Error::NotFound));
    assert_eq!(store.value(pfn.package_root_folder()), Err(Error::NotFound));

    let stranger = PackageFullName::from("Stranger_1.0.0.0_x64__0000000000000");
    assert_eq!(store.value(stranger.display_name()), Err(Error::NotFound));

    let mut bare = Store::bare();
    assert_eq!(bare.value(PackageFullName::from(NCSI).display_name()), Err(Error::NotFound));
    assert_eq!(bare.calls, 1);
}

#[test]
fn store_gives_the_same_attribute_twice() {
    let mut store = Store::installed();
    let pfn = PackageFullName::from(NCSI);
    let first = store.value(pfn.display_name());
    let second = store.value(pfn.display_name());
    assert_eq!(first, second);
    let first = store.value(pfn.os_min_version());
    let second = store.value(pfn.os_min_version());
    assert_eq!(first, second);
}
