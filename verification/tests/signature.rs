use hightower::process::SignatureStatus;
use hightower::signature::{
    after_embedded_check, chunk_size, catalog_verdict, CatalogOutcome, classify_trust_status, hex_upper,
    publisher_from_display_name, TrustFollowUp, CERT_E_CHAINING, CERT_E_UNTRUSTEDROOT,
    CRYPT_E_SECURITY_SETTINGS, TRUST_E_EXPLICIT_DISTRUST, TRUST_E_NOSIGNATURE,
    TRUST_E_SUBJECT_NOT_TRUSTED,
};

#[test]
fn trust_codes_map_to_expected_status() {
    assert_eq!(
        classify_trust_status(0),
        SignatureStatus::Signed { publisher: None }
    );
    assert_eq!(
        classify_trust_status(TRUST_E_NOSIGNATURE),
        SignatureStatus::Unsigned
    );
    assert_eq!(
        classify_trust_status(CERT_E_UNTRUSTEDROOT),
        SignatureStatus::Untrusted
    );
    assert_eq!(classify_trust_status(0x7FFF_FFFF), SignatureStatus::Unknown);
}

#[test]
fn every_distrust_code_is_untrusted() {
    for code in [
        TRUST_E_SUBJECT_NOT_TRUSTED,
        TRUST_E_EXPLICIT_DISTRUST,
        CERT_E_UNTRUSTEDROOT,
        CERT_E_CHAINING,
        CRYPT_E_SECURITY_SETTINGS,
    ] {
        assert_eq!(classify_trust_status(code), SignatureStatus::Untrusted);
    }
}

#[test]
fn trust_codes_have_their_windows_values() {
    assert_eq!(TRUST_E_NOSIGNATURE as u32, 0x800B_0100);
    assert_eq!(TRUST_E_SUBJECT_NOT_TRUSTED as u32, 0x800B_0004);
    assert_eq!(TRUST_E_EXPLICIT_DISTRUST as u32, 0x800B_0111);
    assert_eq!(CERT_E_UNTRUSTEDROOT as u32, 0x800B_0109);
    assert_eq!(CERT_E_CHAINING as u32, 0x800B_010A);
    assert_eq!(CRYPT_E_SECURITY_SETTINGS as u32, 0x8009_2026);
}

#[test]
fn the_embedded_result_decides_the_next_step() {
    assert!(matches!(after_embedded_check(0), TrustFollowUp::ReadPublisher));
    assert!(matches!(
        after_embedded_check(TRUST_E_NOSIGNATURE),
        TrustFollowUp::CheckCatalog
    ));
    assert!(matches!(
        after_embedded_check(CERT_E_CHAINING),
        TrustFollowUp::Done(SignatureStatus::Untrusted)
    ));
    assert!(matches!(
        after_embedded_check(5),
        TrustFollowUp::Done(SignatureStatus::Unknown)
    ));
}

#[test]
fn a_file_no_catalog_covers_stays_unsigned() {
    assert_eq!(
        catalog_verdict(CatalogOutcome::NotCovered),
        SignatureStatus::Unsigned
    );
    assert_eq!(
        catalog_verdict(CatalogOutcome::Checked(0)),
        SignatureStatus::Signed { publisher: None }
    );
    assert_eq!(
        catalog_verdict(CatalogOutcome::Checked(TRUST_E_EXPLICIT_DISTRUST)),
        SignatureStatus::Untrusted
    );
}

#[test]
fn publisher_is_read_up_to_the_terminator() {
    let name: Vec<u16> = "Acme Corp\0".encode_utf16().collect();
    assert_eq!(
        publisher_from_display_name(&name, name.len() as u32),
        Some("Acme Corp".to_string())
    );
    assert_eq!(publisher_from_display_name(&name, 1), None);
    assert_eq!(publisher_from_display_name(&name, 0), None);
    assert_eq!(
        publisher_from_display_name(&name, 3),
        Some("Ac".to_string())
    );
}

#[test]
fn hex_is_uppercase_two_digits_per_byte() {
    assert_eq!(hex_upper(&[0x00, 0x0F, 0xA0, 0xFF, 0x3c]), "000FA0FF3C");
    assert_eq!(hex_upper(&[]), "");
}

#[test]
fn signature_checks_split_evenly_over_threads() {
    assert_eq!(chunk_size(10, 4), 3);
    assert_eq!(chunk_size(8, 4), 2);
    assert_eq!(chunk_size(3, 8), 1);
    assert_eq!(chunk_size(0, 8), 1);
    assert_eq!(chunk_size(7, 1), 7);
    assert_eq!(chunk_size(usize::MAX, 2), usize::MAX / 2 + 1);
}

#[test]
fn an_unreadable_file_is_unknown_not_unsigned() {
    assert_eq!(
        catalog_verdict(CatalogOutcome::Undetermined),
        SignatureStatus::Unknown
    );
}
