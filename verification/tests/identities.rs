use appx::attribute::{Lookup, Value};
use appx::identity::{find_separator, split_at_most, split_first, SEPARATOR};
use appx::reg::Reply;
use appx::{Error, PackageFamilyName, PackageFullName, WString};

fn wide(text: &str) -> Vec<u16> {
    text.encode_utf16().collect()
}

/// Runs `lookup` as it runs where there is no store to ask.
fn without_store(mut lookup: Lookup) -> Result<Value, Error> {
    while lookup.request().is_some() {
        lookup.respond(&Reply::Unsupported);
    }
    lookup.finish().unwrap()
}

#[test]
fn family_test_pfn() {
    let pfn = PackageFamilyName::from("NcsiUwpApp_8wekyb3d8bbwe");
    assert_eq!(pfn.name(), wide("NcsiUwpApp"));
    assert_eq!(pfn.publisher_id(), wide("8wekyb3d8bbwe"));

    let pfn = PackageFamilyName::from("CanonicalGroupLimited.UbuntuonWindows_79rhkp1fndgsc");
    assert_eq!(pfn.name(), wide("CanonicalGroupLimited.UbuntuonWindows"));
    assert_eq!(pfn.publisher_id(), wide("79rhkp1fndgsc"));
}

#[test]
fn package_test_pfn() {
    let pfn = PackageFullName::from("NcsiUwpApp_1000.19041.423.0_neutral_neutral_8wekyb3d8bbwe");
    assert_eq!(pfn.name(), wide("NcsiUwpApp"));
    assert_eq!(pfn.version(), wide("1000.19041.423.0"));
    assert_eq!(pfn.architecture(), wide("neutral"));
    assert_eq!(pfn.field4(), wide("neutral"));
    assert_eq!(pfn.publisher_id(), wide("8wekyb3d8bbwe"));

    if without_store(pfn.display_name()).is_ok() {
        assert_eq!(without_store(pfn.display_name()).unwrap(), Value::Text(String::from("NcsiUwpApp")));
        assert_eq!(
            without_store(pfn.package_root_folder()).unwrap(),
            Value::Path(WString::from(r"C:\WINDOWS\SystemApps\NcsiUwpApp_8wekyb3d8bbwe"))
        );
        assert_eq!(
            without_store(pfn.install_location()).unwrap(),
            Value::Path(WString::from(r"C:\WINDOWS\SystemApps\NcsiUwpApp_8wekyb3d8bbwe"))
        );
        match without_store(pfn.supported_users()).unwrap_or(Value::Count(0)) {
            Value::Count(users) => assert!(users >= 1),
            other => panic!("{:?}", other),
        }
    }

    let pfn = PackageFullName::from(
        "CanonicalGroupLimited.UbuntuonWindows_2004.2020.812.0_x64__79rhkp1fndgsc",
    );
    assert_eq!(pfn.name(), wide("CanonicalGroupLimited.UbuntuonWindows"));
    assert_eq!(pfn.version(), wide("2004.2020.812.0"));
    assert_eq!(pfn.architecture(), wide("x64"));
    assert_eq!(pfn.field4(), wide(""));
    assert_eq!(pfn.publisher_id(), wide("79rhkp1fndgsc"));
}

#[test]
fn family_of_ubuntu_20_04() {
    let pfn = PackageFamilyName::from("CanonicalGroupLimited.Ubuntu20.04onWindows_79rhkp1fndgsc");
    assert_eq!(pfn.name(), wide("CanonicalGroupLimited.Ubuntu20.04onWindows"));
    assert_eq!(pfn.publisher_id(), wide("79rhkp1fndgsc"));
}

#[test]
fn family_without_separator_is_all_name() {
    let pfn = PackageFamilyName::from("NcsiUwpApp");
    assert_eq!(pfn.name(), wide("NcsiUwpApp"));
    assert!(pfn.publisher_id().is_empty());
}

#[test]
fn family_is_split_at_the_first_separator_only() {
    let pfn = PackageFamilyName::from("a_b_c");
    assert_eq!(pfn.name(), wide("a"));
    assert_eq!(pfn.publisher_id(), wide("b_c"));
}

#[test]
fn family_edges() {
    let empty = PackageFamilyName::from("");
    assert!(empty.name().is_empty());
    assert!(empty.publisher_id().is_empty());

    let only = PackageFamilyName::from("_");
    assert!(only.name().is_empty());
    assert!(only.publisher_id().is_empty());

    let leading = PackageFamilyName::from("_x");
    assert!(leading.name().is_empty());
    assert_eq!(leading.publisher_id(), wide("x"));

    let trailing = PackageFamilyName::from("x_");
    assert_eq!(trailing.name(), wide("x"));
    assert!(trailing.publisher_id().is_empty());
}

#[test]
fn family_constructors_agree() {
    let text = "NcsiUwpApp_8wekyb3d8bbwe";
    let units = wide(text);
    let expected = PackageFamilyName::from(text);
    assert_eq!(PackageFamilyName::new(text), expected);
    assert_eq!(PackageFamilyName::from(String::from(text)), expected);
    assert_eq!(PackageFamilyName::from(&String::from(text)), expected);
    assert_eq!(PackageFamilyName::from(&units[..]), expected);
    assert_eq!(PackageFamilyName::from(&units), expected);
    assert_eq!(PackageFamilyName::from(units.clone()), expected);
    assert_eq!(PackageFamilyName::from_wstring(WString::from(text)), expected);
    assert_eq!(expected.clone(), expected);
    assert_eq!(expected.units(), &units[..]);
    assert_eq!(expected.display(), text);
    assert_eq!(expected.into_wstring(), WString::from(text));
}

#[test]
fn package_with_split_scale_qualifier() {
    let pfn = PackageFullName::from(
        "CanonicalGroupLimited.Ubuntu20.04onWindows_2004.2020.812.0_neutral_split.scale-100_79rhkp1fndgsc",
    );
    assert_eq!(pfn.name(), wide("CanonicalGroupLimited.Ubuntu20.04onWindows"));
    assert_eq!(pfn.version(), wide("2004.2020.812.0"));
    assert_eq!(pfn.architecture(), wide("neutral"));
    assert_eq!(pfn.field4(), wide("split.scale-100"));
    assert_eq!(pfn.publisher_id(), wide("79rhkp1fndgsc"));
}

#[test]
fn package_last_field_takes_the_extra_separators() {
    let pfn = PackageFullName::from("a_b_c_d_e_f_g");
    assert_eq!(pfn.name(), wide("a"));
    assert_eq!(pfn.version(), wide("b"));
    assert_eq!(pfn.architecture(), wide("c"));
    assert_eq!(pfn.field4(), wide("d"));
    assert_eq!(pfn.publisher_id(), wide("e_f_g"));
}

#[test]
fn package_missing_fields_are_empty() {
    let pfn = PackageFullName::from("a_b");
    assert_eq!(pfn.name(), wide("a"));
    assert_eq!(pfn.version(), wide("b"));
    assert!(pfn.architecture().is_empty());
    assert!(pfn.field4().is_empty());
    assert!(pfn.publisher_id().is_empty());

    let empty = PackageFullName::from("");
    assert!(empty.name().is_empty());
    assert!(empty.publisher_id().is_empty());
}

#[test]
fn package_field_beyond_the_count_is_empty() {
    let full = PackageFullName::from("a_b_c_d_e_f");
    assert_eq!(full.field(0), wide("a"));
    assert_eq!(full.field(4), wide("e_f"));
    for n in [5usize, 6, 100, usize::MAX] {
        assert!(full.field(n).is_empty());
    }
    let short = PackageFullName::from("a");
    assert_eq!(short.field(0), wide("a"));
    for n in [1usize, 2, 4, 5, usize::MAX] {
        assert!(short.field(n).is_empty());
    }
}

#[test]
fn package_fields_are_those_of_splitn() {
    let samples = ["", "_", "__", "a", "a_", "_a", "a_b_c_d", "a_b_c_d_e", "a_b_c_d_e_", "____", "_____", "a__b___c"];
    for sample in samples {
        let units = wide(sample);
        let expected: Vec<&[u16]> = units.splitn(5, |&unit| unit == SEPARATOR).collect();
        let pfn = PackageFullName::from(sample);
        for n in 0..8usize {
            let want: &[u16] = expected.get(n).copied().unwrap_or(&[]);
            assert_eq!(pfn.field(n), want);
        }
    }
}

#[test]
fn package_constructors_agree() {
    let text = "NcsiUwpApp_1000.19041.423.0_neutral_neutral_8wekyb3d8bbwe";
    let units = wide(text);
    let expected = PackageFullName::from(text);
    assert_eq!(PackageFullName::new(text), expected);
    assert_eq!(PackageFullName::from(String::from(text)), expected);
    assert_eq!(PackageFullName::from(&String::from(text)), expected);
    assert_eq!(PackageFullName::from(&units[..]), expected);
    assert_eq!(PackageFullName::from(&units), expected);
    assert_eq!(PackageFullName::from(units.clone()), expected);
    assert_eq!(PackageFullName::from_wstring(WString::from(text)), expected);
    assert_eq!(expected.clone(), expected);
    assert_eq!(expected.units0().last(), Some(&0));
    assert_eq!(expected.display(), text);
    assert_eq!(expected.into_wstring(), WString::from(text));
}

#[test]
fn separator_is_the_underscore() {
    assert_eq!(SEPARATOR, u16::from(b'_'));
    assert_eq!(find_separator(&wide("ab_c_d")), Some(2));
    assert_eq!(find_separator(&wide("_")), Some(0));
    assert_eq!(find_separator(&wide("abc")), None);
    assert_eq!(find_separator(&[]), None);
}

#[test]
fn split_first_parts() {
    let units = wide("left_right_more");
    let (before, after) = split_first(&units);
    assert_eq!(before, wide("left"));
    assert_eq!(after, wide("right_more"));

    let units = wide("whole");
    let (before, after) = split_first(&units);
    assert_eq!(before, wide("whole"));
    assert!(after.is_empty());
}

#[test]
fn split_at_most_respects_the_limit() {
    let units = wide("a_b_c");
    assert!(split_at_most(&units, 0).is_empty());
    assert_eq!(split_at_most(&units, 1), vec![&wide("a_b_c")[..]]);
    assert_eq!(split_at_most(&units, 2), vec![&wide("a")[..], &wide("b_c")[..]]);
    assert_eq!(split_at_most(&units, 3), vec![&wide("a")[..], &wide("b")[..], &wide("c")[..]]);
    assert_eq!(split_at_most(&units, 9), vec![&wide("a")[..], &wide("b")[..], &wide("c")[..]]);
    let nothing: &[u16] = &[];
    assert_eq!(split_at_most(&[], 5), vec![nothing]);
}

#[test]
fn split_pieces_join_to_the_source() {
    let samples = ["", "_", "a_b", "a__b", "_a_b_c_d_e_f_", "NcsiUwpApp_1000.19041.423.0_neutral_neutral_8wekyb3d8bbwe"];
    for sample in samples {
        let units = wide(sample);
        for limit in 1..8usize {
            let parts = split_at_most(&units, limit);
            assert!(!parts.is_empty() && parts.len() <= limit);
            let joined = parts.join(&SEPARATOR);
            assert_eq!(joined, units);
            for part in &parts[..parts.len() - 1] {
                assert!(!part.contains(&SEPARATOR));
            }
            let expected: Vec<&[u16]> = units.splitn(limit, |&unit| unit == SEPARATOR).collect();
            assert_eq!(parts, expected);
        }
    }
}
