use jimage::cbytes::check_c_representable;
use jimage::cbytes::make_c_string;
use jimage::cbytes::resource_key;
use jimage::ImageError;

#[test]
fn c_representable_rejects_only_nul() {
    assert!(check_c_representable(b"lib/modules"));
    assert!(check_c_representable(b""));
    assert!(!check_c_representable(b"lib\0modules"));
    assert!(!check_c_representable(b"\0"));
}

#[test]
fn make_c_string_appends_one_nul() {
    let v = make_c_string(b"lib/modules").unwrap();
    assert_eq!(v.as_slice(), b"lib/modules\0");
}

#[test]
fn make_c_string_of_empty_is_one_nul() {
    let v = make_c_string(b"").unwrap();
    assert_eq!(v.as_slice(), b"\0");
}

#[test]
fn make_c_string_rejects_interior_nul() {
    assert_eq!(make_c_string(b"lib\0modules"), Err(ImageError::InvalidInput));
}

#[test]
fn resource_key_recombines_the_fields() {
    let key = resource_key(b"java/lang", b"Object", b"class").unwrap();
    assert_eq!(key.as_slice(), b"java/lang/Object.class\0");
}

#[test]
fn resource_key_with_empty_extension() {
    let key = resource_key(b"java/lang", b"Object", b"").unwrap();
    assert_eq!(key.as_slice(), b"java/lang/Object.\0");
}

#[test]
fn resource_key_rejects_nul_in_any_field() {
    assert_eq!(resource_key(b"java\0lang", b"Object", b"class"), Err(ImageError::InvalidInput));
    assert_eq!(resource_key(b"java/lang", b"Obj\0ect", b"class"), Err(ImageError::InvalidInput));
    assert_eq!(resource_key(b"java/lang", b"Object", b"cla\0ss"), Err(ImageError::InvalidInput));
}
