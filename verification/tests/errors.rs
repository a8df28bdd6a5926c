use whynottao::error::{failed_to, generic_failure, ErrorStatus};

#[test]
fn error_messages() {
    let e = failed_to("load URL", "bad url");
    assert_eq!(e.status, ErrorStatus::GenericFailure);
    assert_eq!(e.message, "Failed to load URL: bad url");
    assert_eq!(generic_failure("boom").message, "boom");
}
