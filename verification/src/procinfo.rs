//! Turning a process-snapshot entry into a [`ProcessInfo`].
//!
//! The Windows front end walks the ToolHelp32 snapshot and asks the OS for
//! each process's image path; what the entry and that answer become is
//! decided here.

use vstd::prelude::*;

use crate::process::{ProcessInfo, ProcessInfoView, SignatureStatus, SignatureStatusView, opt_text};
use crate::text::{decode_utf16, utf16_lossy};

verus! {

/// The number of code units before the first NUL, or all of them when there
/// is none.
pub open spec fn units_before_nul(wide: Seq<u16>) -> nat
    decreases wide.len(),
{
    if wide.len() == 0 {
        0
    } else if wide[0] == 0 {
        0
    } else {
        1 + units_before_nul(wide.drop_first())
    }
}

/// The text of a fixed-size, NUL-terminated UTF-16 buffer: the units before
/// the first NUL, decoded.
pub open spec fn nul_terminated_text(wide: Seq<u16>) -> Seq<char> {
    utf16_lossy(wide.take(units_before_nul(wide) as int))
}

proof fn lemma_units_before_nul(wide: Seq<u16>, k: int)
    requires
        0 <= k <= wide.len(),
        forall|j: int| 0 <= j < k ==> #[trigger] wide[j] != 0,
        k == wide.len() || wide[k] == 0,
    ensures
        units_before_nul(wide) == k,
    decreases wide.len(),
{
    if wide.len() > 0 && k > 0 {
        let rest = wide.drop_first();
        assert forall|j: int| 0 <= j < k - 1 implies #[trigger] rest[j] != 0 by {
            assert(rest[j] == wide[j + 1]);
        }
        if k < wide.len() {
            assert(rest[k - 1] == wide[k]);
        }
        lemma_units_before_nul(rest, k - 1);
    }
}

/// Converts a fixed-size, NUL-terminated UTF-16 buffer (as Win32 fills
/// `szExeFile`) into a `String`, stopping at the first NUL.
pub fn wide_nul_to_string(wide: &[u16]) -> (text: String)
    ensures
        text@ == nul_terminated_text(wide@),
{
    let mut end: usize = 0;
    while end < wide.len() && wide[end] != 0
        invariant
            end <= wide@.len(),
            forall|j: int| 0 <= j < end ==> #[trigger] wide@[j] != 0,
        decreases wide@.len() - end,
    {
        end = end + 1;
    }
    proof {
        lemma_units_before_nul(wide@, end as int);
    }
    decode_utf16(wide, end)
}

/// The image path `QueryFullProcessImageNameW` wrote: the first `written`
/// units of its buffer, decoded (invalid units become U+FFFD).
pub fn image_path_from_buffer(buffer: &[u16], written: u32) -> (path: String)
    requires
        written <= buffer@.len(),
    ensures
        path@ == utf16_lossy(buffer@.take(written as int)),
{
    decode_utf16(buffer, written as usize)
}

/// Builds the [`ProcessInfo`] for one snapshot entry: its pid, the name from
/// the entry's `szExeFile` buffer, and the image path the OS revealed. A
/// process whose path the OS withheld is still listed, marked restricted; a
/// freshly listed process is always `Unchecked`.
pub fn process_info_from_entry(pid: u32, exe_file: &[u16], image_path: Option<String>) -> (info:
    ProcessInfo)
    ensures
        info@ == (ProcessInfoView {
            pid,
            name: nul_terminated_text(exe_file@),
            executable_path: opt_text(image_path),
            restricted: image_path is None,
            signature: SignatureStatusView::Unchecked,
        }),
{
    let name = wide_nul_to_string(exe_file);
    let restricted = image_path.is_none();
    ProcessInfo {
        pid,
        name,
        executable_path: image_path,
        restricted,
        signature: SignatureStatus::Unchecked,
    }
}

} // verus!
