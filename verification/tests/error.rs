use versust::NoSuccessfulJobError;

#[test]
fn error_message() {
    assert_eq!(
        NoSuccessfulJobError.message(),
        "No job completed successfully; Either no jobs were provided or all jobs failed"
    );
}

#[test]
fn error_is_copy_and_eq() {
    let e = NoSuccessfulJobError;
    let f = e;
    assert_eq!(e, f);
    assert_eq!(e.clone(), NoSuccessfulJobError);
    assert_eq!(format!("{:?}", e), "NoSuccessfulJobError");
}
