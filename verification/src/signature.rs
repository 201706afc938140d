//! The decisions behind an Authenticode signature check.
//!
//! The Windows front end asks `WinVerifyTrust` about a file's embedded
//! signature, and, depending on the answer, reads the signer's name or falls
//! back to a security catalog. What each answer means, and which step comes
//! next, is decided here.

use vstd::prelude::*;

use crate::process::{SignatureStatus, SignatureStatusView, opt_text};
use crate::text::{utf16_lossy, decode_utf16};

verus! {

/// `TRUST_E_NOSIGNATURE`: the file carries no signature.
pub const TRUST_E_NOSIGNATURE: i32 = -2146762496i32;
/// `TRUST_E_SUBJECT_NOT_TRUSTED`: the signature is not trusted.
pub const TRUST_E_SUBJECT_NOT_TRUSTED: i32 = -2146762748i32;
/// `TRUST_E_EXPLICIT_DISTRUST`: the signer is explicitly distrusted.
pub const TRUST_E_EXPLICIT_DISTRUST: i32 = -2146762479i32;
/// `CERT_E_UNTRUSTEDROOT`: the chain ends in an untrusted root.
pub const CERT_E_UNTRUSTEDROOT: i32 = -2146762487i32;
/// `CERT_E_CHAINING`: the chain could not be built.
pub const CERT_E_CHAINING: i32 = -2146762486i32;
/// `CRYPT_E_SECURITY_SETTINGS`: local security settings reject the signature.
pub const CRYPT_E_SECURITY_SETTINGS: i32 = -2146885594i32;

/// What a `WinVerifyTrust` result code says about a file: success is a
/// trusted signature (its publisher not read yet), `TRUST_E_NOSIGNATURE` is
/// no signature, the five distrust codes are an untrusted signature, and any
/// other code means the status could not be determined.
pub open spec fn trust_status_of(status: i32) -> SignatureStatusView {
    if status == 0 {
        SignatureStatusView::Signed { publisher: None }
    } else if status == TRUST_E_NOSIGNATURE {
        SignatureStatusView::Unsigned
    } else if status == TRUST_E_SUBJECT_NOT_TRUSTED || status == TRUST_E_EXPLICIT_DISTRUST
        || status == CERT_E_UNTRUSTEDROOT || status == CERT_E_CHAINING || status
        == CRYPT_E_SECURITY_SETTINGS {
        SignatureStatusView::Untrusted
    } else {
        SignatureStatusView::Unknown
    }
}

/// Only the five distrust codes make a signature `Untrusted`; success is a
/// trusted signature, `TRUST_E_NOSIGNATURE` is no signature, and every other
/// code -- access denied, an unsupported file type, a provider error --
/// means the status could not be determined.
pub proof fn lemma_only_distrust_codes_are_untrusted(status: i32)
    ensures
        status == 0 ==> trust_status_of(status) == (SignatureStatusView::Signed { publisher: None }),
        status == TRUST_E_NOSIGNATURE ==> trust_status_of(status) == SignatureStatusView::Unsigned,
        (trust_status_of(status) == SignatureStatusView::Untrusted) <==> (status
            == TRUST_E_SUBJECT_NOT_TRUSTED || status == TRUST_E_EXPLICIT_DISTRUST || status
            == CERT_E_UNTRUSTEDROOT || status == CERT_E_CHAINING || status
            == CRYPT_E_SECURITY_SETTINGS),
        status != 0 && status != TRUST_E_NOSIGNATURE && status != TRUST_E_SUBJECT_NOT_TRUSTED
            && status != TRUST_E_EXPLICIT_DISTRUST && status != CERT_E_UNTRUSTEDROOT && status
            != CERT_E_CHAINING && status != CRYPT_E_SECURITY_SETTINGS ==> trust_status_of(status)
            == SignatureStatusView::Unknown,
        status == -2147024891i32 ==> trust_status_of(status) == SignatureStatusView::Unknown,
{
}

/// Maps a `WinVerifyTrust` result code onto a [`SignatureStatus`].
pub fn classify_trust_status(status: i32) -> (result: SignatureStatus)
    ensures
        result@ == trust_status_of(status),
{
    if status == 0 {
        SignatureStatus::Signed { publisher: None }
    } else if status == TRUST_E_NOSIGNATURE {
        SignatureStatus::Unsigned
    } else if status == TRUST_E_SUBJECT_NOT_TRUSTED || status == TRUST_E_EXPLICIT_DISTRUST
        || status == CERT_E_UNTRUSTEDROOT || status == CERT_E_CHAINING || status
        == CRYPT_E_SECURITY_SETTINGS {
        SignatureStatus::Untrusted
    } else {
        SignatureStatus::Unknown
    }
}

/// What to do after the embedded-signature check.
pub enum TrustFollowUp {
    /// The answer is final.
    Done(SignatureStatus),
    /// The embedded signature is trusted: read the signer's name from its
    /// certificate.
    ReadPublisher,
    /// There is no embedded signature: ask whether a security catalog covers
    /// the file.
    CheckCatalog,
}

/// Decides the next step from the embedded-signature result code: a trusted
/// signature is worth naming, a missing one may still be covered by a
/// catalog, and any other answer is final.
pub fn after_embedded_check(status: i32) -> (next: TrustFollowUp)
    ensures
        match trust_status_of(status) {
            SignatureStatusView::Signed { .. } => next is ReadPublisher,
            SignatureStatusView::Unsigned => next is CheckCatalog,
            other => next matches TrustFollowUp::Done(s) && s@ == other,
        },
{
    let status = classify_trust_status(status);
    match status {
        SignatureStatus::Signed { .. } => TrustFollowUp::ReadPublisher,
        SignatureStatus::Unsigned => TrustFollowUp::CheckCatalog,
        other => TrustFollowUp::Done(other),
    }
}

/// What the security-catalog fallback found out about a file without an
/// embedded signature.
pub enum CatalogOutcome {
    /// The file was read and hashed, and no catalog vouches for the hash.
    NotCovered,
    /// The file could not be opened or hashed, or the catalog lookup itself
    /// failed, so nothing could be determined.
    Undetermined,
    /// A catalog covers the file; `WinVerifyTrust` on it gave this result
    /// code.
    Checked(i32),
}

/// The verdict for a file without an embedded signature, given what the
/// catalog fallback found: still unsigned when the file was read and no
/// catalog covers it, undeterminable when the file could not be read (an
/// unreadable file yields `Unknown`, never a worse verdict), and otherwise
/// whatever the catalog check says.
pub fn catalog_verdict(outcome: CatalogOutcome) -> (result: SignatureStatus)
    ensures
        match outcome {
            CatalogOutcome::NotCovered => result@ == SignatureStatusView::Unsigned,
            CatalogOutcome::Undetermined => result@ == SignatureStatusView::Unknown,
            CatalogOutcome::Checked(code) => result@ == trust_status_of(code),
        },
{
    match outcome {
        CatalogOutcome::NotCovered => SignatureStatus::Unsigned,
        CatalogOutcome::Undetermined => SignatureStatus::Unknown,
        CatalogOutcome::Checked(code) => classify_trust_status(code),
    }
}

/// The publisher named by a certificate's display name, as the UTF-16 buffer
/// `CertGetNameStringW` filled and the count of units it reports written
/// (the terminating NUL included): nothing when it wrote no more than the
/// terminator or the name decodes to an empty string.
pub open spec fn publisher_from_units(name: Seq<u16>, written: nat) -> Option<Seq<char>> {
    if written <= 1 {
        None
    } else {
        let text = utf16_lossy(name.take(written - 1));
        if text.len() == 0 {
            None
        } else {
            Some(text)
        }
    }
}

/// Reads the publisher out of a certificate display-name buffer.
pub fn publisher_from_display_name(name: &[u16], written: u32) -> (publisher: Option<String>)
    requires
        written <= name@.len(),
    ensures
        opt_text(publisher) == publisher_from_units(name@, written as nat),
{
    if written <= 1 {
        return None;
    }
    let text = decode_utf16(name, (written - 1) as usize);
    if text.as_str().is_empty() {
        None
    } else {
        Some(text)
    }
}

/// An uppercase hexadecimal digit.
pub open spec fn hex_digit(d: nat) -> char {
    if d < 10 {
        crate::text::digit_char(d)
    } else if d == 10 {
        'A'
    } else if d == 11 {
        'B'
    } else if d == 12 {
        'C'
    } else if d == 13 {
        'D'
    } else if d == 14 {
        'E'
    } else {
        'F'
    }
}

/// Bytes written as uppercase hexadecimal, two digits per byte, high nibble
/// first (the form a catalog member tag takes).
pub open spec fn hex_text(bytes: Seq<u8>) -> Seq<char> {
    Seq::new(
        2 * bytes.len(),
        |i: int|
            if i % 2 == 0 {
                hex_digit((bytes[i / 2] / 16) as nat)
            } else {
                hex_digit((bytes[i / 2] % 16) as nat)
            },
    )
}

fn hex_char(d: u8) -> (c: char)
    requires
        d < 16,
    ensures
        c == hex_digit(d as nat),
{
    match d {
        0 => '0',
        1 => '1',
        2 => '2',
        3 => '3',
        4 => '4',
        5 => '5',
        6 => '6',
        7 => '7',
        8 => '8',
        9 => '9',
        10 => 'A',
        11 => 'B',
        12 => 'C',
        13 => 'D',
        14 => 'E',
        _ => 'F',
    }
}

/// Formats bytes as an uppercase hex string.
pub fn hex_upper(bytes: &[u8]) -> (text: String)
    ensures
        text@ == hex_text(bytes@),
{
    let mut text = String::new();
    let mut i: usize = 0;
    while i < bytes.len()
        invariant
            i <= bytes@.len(),
            text@ =~= hex_text(bytes@.take(i as int)),
        decreases bytes@.len() - i,
    {
        let byte = bytes[i];
        text.push(hex_char(byte / 16));
        text.push(hex_char(byte % 16));
        i = i + 1;
        assert(text@ =~= hex_text(bytes@.take(i as int)));
    }
    assert(bytes@.take(bytes@.len() as int) == bytes@);
    text
}

/// How many processes each thread checks when `count` signature checks are
/// split over `threads` threads: the count divided by the threads, rounded
/// up, and at least one.
pub open spec fn chunk_size_for(count: nat, threads: nat) -> nat {
    let quotient = count / threads;
    let rounded: nat = if count % threads == 0 {
        quotient
    } else {
        quotient + 1
    };
    if rounded >= 1 {
        rounded
    } else {
        1
    }
}

/// How many processes each thread checks. The chunks cover every process:
/// `threads` chunks of this size hold at least `count` processes.
pub fn chunk_size(count: usize, threads: usize) -> (size: usize)
    requires
        threads >= 1,
    ensures
        size == chunk_size_for(count as nat, threads as nat),
        size >= 1,
        size * threads >= count,
{
    let quotient = count / threads;
    let rounded = if count % threads == 0 {
        quotient
    } else {
        assert(threads >= 2);
        assert(quotient <= count / 2) by (nonlinear_arith)
            requires
                threads >= 2,
                quotient == count / threads,
        ;
        quotient + 1
    };
    let size = if rounded >= 1 {
        rounded
    } else {
        1
    };
    assert(size * threads >= count) by (nonlinear_arith)
        requires
            threads >= 1,
            quotient == count / threads,
            rounded as int == (if count % threads == 0 {
                quotient as int
            } else {
                quotient + 1
            }),
            size >= rounded,
    {
        assert(count == quotient * threads + count % threads);
        assert(rounded * threads >= count);
    }
    size
}

} // verus!
