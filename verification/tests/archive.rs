use jimage::archive::read_len;
use jimage::DataFault;
use jimage::File;
use jimage::ImageError;

#[test]
fn open_with_null_pointer_reports_the_code() {
    assert!(matches!(File::open(0, 0), Err(ImageError::NotFound)));
    assert!(matches!(File::open(0, -1), Err(ImageError::InvalidData(DataFault::BadMagic))));
    assert!(matches!(File::open(0, -3), Err(ImageError::InvalidData(DataFault::Corrupted))));
    assert!(matches!(File::open(0, 99), Err(ImageError::Unrecognized(99))));
}

#[test]
fn open_close_exactly_once() {
    let mut file = File::open(4096, 0).ok().unwrap();
    assert_eq!(file.handle(), 4096);
    let first = file.close();
    assert!(first, "the first release must direct the one native close");
    let second = file.close();
    assert!(!second, "a repeated release must never direct a second close");
}

#[test]
fn queries_see_the_same_handle_until_release() {
    let file = File::open(77, 0).ok().unwrap();
    assert_eq!(file.handle(), 77);
    assert_eq!(file.handle(), 77);
}

#[test]
fn package_to_module_translates_null_to_not_found() {
    let file = File::open(1, 0).ok().unwrap();
    assert_eq!(file.package_to_module(None), Err(ImageError::NotFound));
}

#[test]
fn package_to_module_passes_the_module_through() {
    let file = File::open(1, 0).ok().unwrap();
    let module = file.package_to_module(Some(b"java.base".to_vec()));
    assert_eq!(module, Ok(b"java.base".to_vec()));
}

#[test]
fn package_to_module_is_idempotent_for_one_raw_outcome() {
    let file = File::open(1, 0).ok().unwrap();
    let first = file.package_to_module(Some(b"java.base".to_vec()));
    let second = file.package_to_module(Some(b"java.base".to_vec()));
    assert_eq!(first, second);
    let first_missing = file.package_to_module(None);
    let second_missing = file.package_to_module(None);
    assert_eq!(first_missing, second_missing);
}

#[test]
fn find_resource_translates_nonpositive_results() {
    let file = File::open(1, 0).ok().unwrap();
    assert!(matches!(file.find_resource(0, 0), Err(ImageError::NotFound)));
    assert!(matches!(
        file.find_resource(-1, 0),
        Err(ImageError::InvalidData(DataFault::BadMagic))
    ));
    assert!(matches!(
        file.find_resource(-2, 0),
        Err(ImageError::InvalidData(DataFault::BadVersion))
    ));
    assert!(matches!(file.find_resource(-9, 0), Err(ImageError::Unrecognized(-9))));
}

#[test]
fn find_resource_pairs_location_size_and_handle() {
    let file = File::open(512, 0).ok().unwrap();
    let resource = file.find_resource(5, 1234).ok().unwrap();
    assert_eq!(resource.location(), 5);
    assert_eq!(resource.size(), 1234);
    assert_eq!(resource.file_handle(), 512);
}

#[test]
fn get_translates_negative_counts_and_passes_others() {
    let file = File::open(1, 0).ok().unwrap();
    let resource = file.find_resource(5, 10).ok().unwrap();
    assert!(matches!(resource.get(-3), Err(ImageError::InvalidData(DataFault::Corrupted))));
    assert_eq!(resource.get(0), Ok(0));
    assert_eq!(resource.get(42), Ok(42));
}

#[test]
fn zero_length_buffer_requests_zero_bytes() {
    assert_eq!(read_len(0), 0);
}

#[test]
fn read_len_passes_small_buffers_through() {
    assert_eq!(read_len(1), 1);
    assert_eq!(read_len(100), 100);
    assert_eq!(read_len(65536), 65536);
}
