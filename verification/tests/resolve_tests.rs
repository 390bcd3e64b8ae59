use known_folders::Error;
use known_folders::WideBuffer;
use known_folders::interpret_and_release;
use known_folders::path_units;
use known_folders::wide_len;
use known_folders::STATUS_CANNOT_FIND_PATH;
use known_folders::STATUS_FAIL;
use known_folders::STATUS_INVALID_ARG;
use known_folders::STATUS_NOT_FOUND;
use known_folders::STATUS_OK;

fn wide(s: &str) -> Vec<u16> {
    s.chars().map(|c| c as u16).collect()
}

#[test]
fn wide_len_stops_at_first_nul() {
    assert_eq!(wide_len(&vec![67, 58, 0, 99]), 2);
    assert_eq!(wide_len(&vec![67, 58, 92]), 3);
    assert_eq!(wide_len(&vec![0, 67]), 0);
    assert_eq!(wide_len(&Vec::new()), 0);
}

#[test]
fn path_units_truncates_at_nul() {
    assert_eq!(path_units(&vec![67, 58, 0, 99]), vec![67, 58]);
    assert_eq!(path_units(&vec![67, 58, 92]), vec![67, 58, 92]);
    assert_eq!(path_units(&Vec::new()), Vec::<u16>::new());
}

#[test]
fn virtual_folder_error() {
    let mut buf = WideBuffer::new(Vec::new());
    let r = interpret_and_release(STATUS_FAIL, 0, &mut buf);
    assert_eq!(r, Err(Error::Virtual));
    assert!(buf.released);
}

#[test]
fn documents_path_resolves() {
    let mut units = wide("C:\\Users\\me\\Documents");
    units.push(0);
    let mut buf = WideBuffer::new(units);
    let r = interpret_and_release(STATUS_OK, 0, &mut buf);
    let path = r.expect("success status yields a path");
    assert!(!path.is_empty());
    assert_eq!(path, wide("C:\\Users\\me\\Documents"));
    // The resolved path is absolute: a drive letter, a colon, a separator.
    assert_eq!(path[1], ':' as u16);
    assert_eq!(path[2], '\\' as u16);
    assert!(buf.released);
}

#[test]
fn unrecognized_code_preserved() {
    let injected: u32 = 0x8123_4567;
    let mut buf = WideBuffer::new(Vec::new());
    let r = interpret_and_release(injected, 42, &mut buf);
    assert_eq!(r, Err(Error::Other(injected, 42)));
    assert!(buf.released);
}

#[test]
fn invalid_arg_carries_last_error_detail() {
    let mut buf = WideBuffer::new(Vec::new());
    let r = interpret_and_release(STATUS_INVALID_ARG, 1773, &mut buf);
    assert_eq!(r, Err(Error::InvalidArg(1773)));
    assert!(buf.released);
}

#[test]
fn both_not_found_codes_classify_alike() {
    let mut buf1 = WideBuffer::new(Vec::new());
    let r1 = interpret_and_release(STATUS_NOT_FOUND, 2, &mut buf1);
    assert_eq!(r1, Err(Error::NotFound));
    let mut buf2 = WideBuffer::new(Vec::new());
    let r2 = interpret_and_release(STATUS_CANNOT_FIND_PATH, 3, &mut buf2);
    assert_eq!(r2, Err(Error::NotFound));
}

#[test]
fn buffer_released_on_every_branch() {
    let statuses = [
        STATUS_OK,
        STATUS_FAIL,
        STATUS_INVALID_ARG,
        STATUS_NOT_FOUND,
        STATUS_CANNOT_FIND_PATH,
        0xDEAD_BEEF,
    ];
    let mut allocations: usize = 0;
    let mut releases: usize = 0;
    for &status in statuses.iter() {
        let mut buf = WideBuffer::new(wide("X\0"));
        allocations += 1;
        assert!(!buf.released);
        let _ = interpret_and_release(status, 0, &mut buf);
        if buf.released {
            releases += 1;
        }
    }
    assert_eq!(allocations, releases);
}

#[test]
fn every_status_is_classified() {
    let statuses = [
        STATUS_OK,
        STATUS_FAIL,
        STATUS_INVALID_ARG,
        STATUS_NOT_FOUND,
        STATUS_CANNOT_FIND_PATH,
        1,
        0x8000_0001,
        u32::MAX,
    ];
    for &status in statuses.iter() {
        let mut buf = WideBuffer::new(wide("D:\\data\0"));
        let r = interpret_and_release(status, 7, &mut buf);
        match r {
            Ok(path) => {
                assert_eq!(status, STATUS_OK);
                assert!(!path.is_empty());
            }
            Err(Error::Virtual) => assert_eq!(status, STATUS_FAIL),
            Err(Error::InvalidArg(detail)) => {
                assert_eq!(status, STATUS_INVALID_ARG);
                assert_eq!(detail, 7);
            }
            Err(Error::NotFound) => {
                assert!(status == STATUS_NOT_FOUND || status == STATUS_CANNOT_FIND_PATH);
            }
            Err(Error::Other(code, detail)) => {
                assert_eq!(code, status);
                assert_eq!(detail, 7);
            }
        }
    }
}

#[test]
fn repeated_resolution_is_idempotent() {
    let statuses = [STATUS_OK, STATUS_FAIL, 0x8765_4321];
    for &status in statuses.iter() {
        let mut first = WideBuffer::new(wide("C:\\same\0"));
        let mut second = WideBuffer::new(wide("C:\\same\0"));
        let r1 = interpret_and_release(status, 9, &mut first);
        let r2 = interpret_and_release(status, 9, &mut second);
        assert_eq!(r1, r2);
    }
}

#[test]
fn error_descriptions() {
    assert_eq!(Error::Virtual.describe(), "virtual folders have no path");
    assert_eq!(Error::NotFound.describe(), "not found");
    assert_eq!(Error::InvalidArg(5).describe(), "invalid arg");
    assert_eq!(Error::Other(1, 2).describe(), "other");
}
