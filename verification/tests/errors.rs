use jimage::errors::error_from_code;
use jimage::DataFault;
use jimage::ImageError;

#[test]
fn not_found_code_maps_to_not_found() {
    assert_eq!(error_from_code(0), ImageError::NotFound);
}

#[test]
fn bad_magic_code_maps_to_invalid_data_bad_magic() {
    assert_eq!(error_from_code(-1), ImageError::InvalidData(DataFault::BadMagic));
}

#[test]
fn bad_version_code_maps_to_invalid_data_bad_version() {
    assert_eq!(error_from_code(-2), ImageError::InvalidData(DataFault::BadVersion));
}

#[test]
fn corrupted_code_maps_to_invalid_data_corrupted() {
    assert_eq!(error_from_code(-3), ImageError::InvalidData(DataFault::Corrupted));
}

#[test]
fn other_codes_are_preserved_verbatim() {
    assert_eq!(error_from_code(7), ImageError::Unrecognized(7));
    assert_eq!(error_from_code(-100), ImageError::Unrecognized(-100));
    assert_eq!(error_from_code(i64::MAX), ImageError::Unrecognized(i64::MAX));
    assert_eq!(error_from_code(i64::MIN), ImageError::Unrecognized(i64::MIN));
}

#[test]
fn defined_code_constants_match_the_native_values() {
    assert_eq!(jimage::errors::JIMAGE_NOT_FOUND, 0);
    assert_eq!(jimage::errors::JIMAGE_BAD_MAGIC, -1);
    assert_eq!(jimage::errors::JIMAGE_BAD_VERSION, -2);
    assert_eq!(jimage::errors::JIMAGE_CORRUPTED, -3);
}
