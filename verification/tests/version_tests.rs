use std::cmp::Ordering;
use libpulse_binding::version::{
    pa_version_str_to_num, ErrorKind, compare_with_library_version, get_library_version_numbers,
    library_version_is_too_old, Error,
};

#[test]
fn test_ver_str_to_num() {
    assert_eq!(pa_version_str_to_num(""),         Err(ErrorKind::ParseIntError));
    assert_eq!(pa_version_str_to_num(" "),        Err(ErrorKind::ParseIntError));
    assert_eq!(pa_version_str_to_num("."),        Err(ErrorKind::ParseIntError));
    assert_eq!(pa_version_str_to_num("a"),        Err(ErrorKind::ParseIntError));
    assert_eq!(pa_version_str_to_num("a.a"),      Err(ErrorKind::ParseIntError));
    assert_eq!(pa_version_str_to_num("a.1"),      Err(ErrorKind::ParseIntError));
    assert_eq!(pa_version_str_to_num("14"),       Err(ErrorKind::MissingPart));
    assert_eq!(pa_version_str_to_num("14.0"),     Err(ErrorKind::MissingPart));
    assert_eq!(pa_version_str_to_num("14.0.0"),   Ok((14, 0, 0)));
    assert_eq!(pa_version_str_to_num("14.1.0"),   Ok((14, 1, 0)));
    assert_eq!(pa_version_str_to_num("14.2.0."),  Err(ErrorKind::ExtraParts));
    assert_eq!(pa_version_str_to_num("14.2.0.0"), Err(ErrorKind::ExtraParts));
    assert_eq!(pa_version_str_to_num("12.2a"),    Err(ErrorKind::ParseIntError));
    assert_eq!(pa_version_str_to_num("12.a"),     Err(ErrorKind::ParseIntError));
    assert_eq!(pa_version_str_to_num("12.a.1"),   Err(ErrorKind::ParseIntError));
}

/// The library version string is read from the system library by the application; here a
/// typical one stands for it.
const LIB_VERSION: &str = "15.0.0";

#[test]
fn test_comparing_pa_version() {
    let (major, minor, _micro) = get_library_version_numbers(LIB_VERSION).unwrap();
    assert_eq!(compare_with_library_version(major, minor, LIB_VERSION).unwrap(), Ordering::Equal);
    assert_eq!(compare_with_library_version(major + 1, minor, LIB_VERSION).unwrap(), Ordering::Greater);
    assert_eq!(compare_with_library_version(major - 1, minor, LIB_VERSION).unwrap(), Ordering::Less);
    assert_eq!(compare_with_library_version(major, minor + 1, LIB_VERSION).unwrap(), Ordering::Greater);
    assert_eq!(compare_with_library_version(major - 1, minor + 1, LIB_VERSION).unwrap(), Ordering::Less);
    if minor > 0 {
        assert_eq!(compare_with_library_version(major, minor - 1, LIB_VERSION).unwrap(), Ordering::Less);
        assert_eq!(compare_with_library_version(major + 1, minor - 1, LIB_VERSION).unwrap(), Ordering::Greater);
    }
}

#[test]
fn version_comparing_with_nonzero_minor() {
    let ver = "13.99.0";
    assert_eq!(get_library_version_numbers(ver).unwrap(), (13, 99, 0));
    assert_eq!(compare_with_library_version(13, 98, ver).unwrap(), Ordering::Less);
    assert_eq!(compare_with_library_version(14, 0, ver).unwrap(), Ordering::Greater);
    assert_eq!(compare_with_library_version(13, 99, ver).unwrap(), Ordering::Equal);
}

#[test]
fn version_numbers_edge_cases() {
    assert_eq!(pa_version_str_to_num("255.255.255"), Ok((255, 255, 255)));
    assert_eq!(pa_version_str_to_num("256.0.0"), Err(ErrorKind::ParseIntError));
    assert_eq!(pa_version_str_to_num("+1.+2.+3"), Ok((1, 2, 3)));
    assert_eq!(pa_version_str_to_num("+.0.0"), Err(ErrorKind::ParseIntError));
    assert_eq!(pa_version_str_to_num("-1.0.0"), Err(ErrorKind::ParseIntError));
    assert_eq!(pa_version_str_to_num("007.010.000"), Ok((7, 10, 0)));
    assert_eq!(pa_version_str_to_num("1..0"), Err(ErrorKind::ParseIntError));
    assert_eq!(pa_version_str_to_num("1.0."), Err(ErrorKind::ParseIntError));
    assert_eq!(pa_version_str_to_num("1000000000000000000000.0.0"), Err(ErrorKind::ParseIntError));
    assert_eq!(pa_version_str_to_num("١.0.0"), Err(ErrorKind::ParseIntError));
}

#[test]
fn version_errors_hold_the_string() {
    let e = get_library_version_numbers("x.y").unwrap_err();
    assert_eq!(e.version_string(), "x.y");
    assert_eq!(e, Error::new(String::from("x.y")));
    let e2 = compare_with_library_version(1, 0, "14").unwrap_err();
    assert_eq!(e2.version_string(), "14");
}

#[test]
fn version_too_old() {
    assert_eq!(library_version_is_too_old("15.0.0"), Ok(false));
    assert_eq!(library_version_is_too_old("16.1.0"), Ok(false));
    assert_eq!(library_version_is_too_old("15.1.0"), Ok(false));
    assert_eq!(library_version_is_too_old("14.9.0"), Ok(true));
    assert_eq!(library_version_is_too_old("8.0.0"), Ok(true));
    assert_eq!(library_version_is_too_old("7.1.0"), Ok(true));
    assert!(library_version_is_too_old("7.1").is_err());
}
