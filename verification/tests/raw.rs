use jimage::raw::check_symbol_name;
use jimage::raw::required_symbols;
use jimage::ImageError;
use jimage::NativeLibrary;

#[test]
fn symbol_names_are_nul_terminated_and_fixed() {
    let names = required_symbols();
    assert_eq!(
        names,
        vec![
            "JIMAGE_Open\0",
            "JIMAGE_Close\0",
            "JIMAGE_PackageToModule\0",
            "JIMAGE_FindResource\0",
            "JIMAGE_GetResource\0",
            "JIMAGE_ResourceIterator\0",
        ],
    );
    for name in names {
        assert!(check_symbol_name(name));
    }
}

#[test]
fn symbol_name_check_demands_one_terminating_nul() {
    assert!(check_symbol_name("JIMAGE_Open\0"));
    assert!(!check_symbol_name("JIMAGE_Open"));
    assert!(!check_symbol_name(""));
    assert!(!check_symbol_name("JIMAGE\0Open\0"));
    assert!(!check_symbol_name("\0\0"));
    assert!(check_symbol_name("\0"));
}

#[test]
fn loading_a_missing_path_fails_before_any_archive_operation() {
    let loaded = NativeLibrary::load("/no/such/directory/libjimage-missing.so");
    assert!(matches!(loaded, Err(ImageError::Load)));
}

#[test]
fn loading_a_file_that_is_no_library_fails() {
    let loaded = NativeLibrary::load("Cargo.toml");
    assert!(matches!(loaded, Err(ImageError::Load)));
}

#[test]
fn a_library_without_the_entry_points_is_rejected_whole() {
    // The C runtime is loadable on any host this runs on, but exports none
    // of the archive entry points: the all-or-nothing check must refuse it.
    // If even the C runtime cannot be loaded by name, the load error is the
    // right report as well; what may never come back is a usable table.
    let loaded = NativeLibrary::load("libc.so.6");
    assert!(matches!(loaded, Err(ImageError::NotFound) | Err(ImageError::Load)));
}

#[test]
fn conventional_library_names() {
    assert_eq!(jimage::raw::NAME_WINDOWS, "jimage.dll");
    assert_eq!(jimage::raw::NAME_UNIX, "libjimage.so");
}
