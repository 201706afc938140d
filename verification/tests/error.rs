use hightower::error::HightowerError;

#[test]
fn each_error_names_the_failed_operation() {
    assert_eq!(
        HightowerError::ProcessEnumeration("access denied".to_string()).message(),
        "failed to enumerate running processes: access denied"
    );
    assert_eq!(
        HightowerError::KnowledgeDatabase("trailing comma".to_string()).message(),
        "could not load the known-process database: trailing comma"
    );
}
