use jimage::run_visit;
use jimage::DataFault;
use jimage::ImageError;
use jimage::VisitParams;
use jimage::VisitProgress;
use jimage::VisitResult;

fn params() -> VisitParams {
    VisitParams::new(
        b"java.base".to_vec(),
        b"9.0".to_vec(),
        b"java/lang".to_vec(),
        b"Object".to_vec(),
        b"class".to_vec(),
    )
}

#[test]
fn cancel_on_first_observes_exactly_one() {
    assert_eq!(run_visit(&vec![VisitResult::Cancel]), 1);
    assert_eq!(run_visit(&vec![VisitResult::Cancel, VisitResult::Continue, VisitResult::Continue]), 1);
}

#[test]
fn cancel_stops_after_the_cancelled_record() {
    assert_eq!(run_visit(&vec![VisitResult::Continue, VisitResult::Cancel, VisitResult::Continue]), 2);
}

#[test]
fn no_cancel_observes_everything() {
    assert_eq!(run_visit(&vec![]), 0);
    assert_eq!(
        run_visit(&vec![VisitResult::Continue, VisitResult::Continue, VisitResult::Continue]),
        3,
    );
}

#[test]
fn progress_translates_decisions_into_continuation_signals() {
    let mut progress = VisitProgress::new();
    assert_eq!(progress.seen(), 0);
    assert!(!progress.cancelled());
    assert!(progress.record(VisitResult::Continue));
    assert_eq!(progress.seen(), 1);
    assert!(!progress.cancelled());
    assert!(!progress.record(VisitResult::Cancel));
    assert_eq!(progress.seen(), 2);
    assert!(progress.cancelled());
}

#[test]
fn record_fields_come_back_as_handed_in() {
    let p = params();
    assert_eq!(p.module_name_bytes().as_slice(), b"java.base");
    assert_eq!(p.version_bytes().as_slice(), b"9.0");
    assert_eq!(p.package_bytes().as_slice(), b"java/lang");
    assert_eq!(p.name_bytes().as_slice(), b"Object");
    assert_eq!(p.extension_bytes().as_slice(), b"class");
}

#[test]
fn record_fields_decode_as_text() {
    let p = params();
    assert_eq!(p.module_name(), Ok(String::from("java.base")));
    assert_eq!(p.version(), Ok(String::from("9.0")));
    assert_eq!(p.package(), Ok(String::from("java/lang")));
    assert_eq!(p.name(), Ok(String::from("Object")));
    assert_eq!(p.extension(), Ok(String::from("class")));
}

#[test]
fn undecodable_field_reports_not_text() {
    let p = VisitParams::new(
        vec![0xFF, 0xFE],
        b"9.0".to_vec(),
        b"java/lang".to_vec(),
        b"Object".to_vec(),
        b"class".to_vec(),
    );
    assert_eq!(p.module_name(), Err(ImageError::InvalidData(DataFault::NotText)));
    assert_eq!(p.version(), Ok(String::from("9.0")));
}

#[test]
fn resource_key_rederives_the_lookup_key() {
    let p = params();
    let key = p.resource_key().unwrap();
    assert_eq!(key.as_slice(), b"java/lang/Object.class\0");
}

#[test]
fn resource_key_rejects_a_field_with_nul() {
    let p = VisitParams::new(
        b"java.base".to_vec(),
        b"9.0".to_vec(),
        b"java\0lang".to_vec(),
        b"Object".to_vec(),
        b"class".to_vec(),
    );
    assert_eq!(p.resource_key(), Err(ImageError::InvalidInput));
}
