//! Reading the verdict of a Microsoft Defender scan.
use vstd::prelude::*;
use vstd::string::StringExecFns;
use vstd::utf8::{decode_utf8, valid_utf8};

use crate::text::{contains_text, has_prefix, text_contains};

verus! {

/// A scanned file was found to be malicious.
pub type Malicious = bool;

/// What `String::from_utf8_lossy` makes of a byte sequence.
pub uninterp spec fn utf8_lossy(bytes: Seq<u8>) -> Seq<char>;

/// std's `String::from_utf8_lossy`: decodes bytes as UTF-8, replacing
/// invalid sequences. Its result is named `utf8_lossy`; as its documentation
/// says, valid UTF-8 is decoded unchanged.
#[verifier::external_body]
fn decode_lossy(bytes: &[u8]) -> (s: String)
    ensures
        s@ == utf8_lossy(bytes@),
        valid_utf8(bytes@) ==> s@ == decode_utf8(bytes@),
{
    String::from_utf8_lossy(bytes).into_owned()
}

/// The line that the scanner prints for a clean file.
pub open spec fn clean_report(path: Seq<char>) -> Seq<char> {
    "Scanning "@ + path + " found no threats"@
}

proof fn lemma_contains_suffix_part(hay: Seq<char>, a: Seq<char>, b: Seq<char>)
    requires
        contains_text(hay, a + b),
    ensures
        contains_text(hay, b),
{
    let i = choose|i: int| 0 <= i <= hay.len() && #[trigger] has_prefix(hay.skip(i), a + b);
    let j = i + a.len();
    assert(hay.skip(i).take((a + b).len() as int) == a + b);
    assert(hay.skip(j).take(b.len() as int) =~= (a + b).subrange(a.len() as int, (a + b).len() as int));
    assert((a + b).subrange(a.len() as int, (a + b).len() as int) =~= b);
    assert(has_prefix(hay.skip(j), b));
}

/// A file is judged clean only on the scanner's own clean line: the output
/// must contain `Scanning <path> found no threats`, so an output without
/// ` found no threats` (such as `Scanning <path> found 1 threats.`) never
/// reports the file clean.
pub proof fn lemma_clean_report_needs_no_threats(path: Seq<char>, output: Seq<char>)
    ensures
        contains_text(output, clean_report(path)) <==> contains_text(output, "Scanning "@ + path + " found no threats"@),
        contains_text(output, clean_report(path)) ==> contains_text(output, " found no threats"@),
{
    if contains_text(output, clean_report(path)) {
        lemma_contains_suffix_part(output, "Scanning "@ + path, " found no threats"@);
    }
}

/// Whether the scanner's output reports `path` clean.
pub fn output_reports_clean(path: &str, output: &str) -> (clean: bool)
    ensures
        clean == contains_text(output@, clean_report(path@)),
        clean == contains_text(output@, "Scanning "@ + path@ + " found no threats"@),
        clean ==> contains_text(output@, " found no threats"@),
{
    proof {
        lemma_clean_report_needs_no_threats(path@, output@);
    }
    let mut report = String::from_str("Scanning ");
    report.append(path);
    report.append(" found no threats");
    text_contains(output, report.as_str())
}

/// The verdict on `path` from the scanner's raw output: malicious unless
/// the output reports the file clean.
pub fn scan_verdict(path: &str, stdout: &[u8]) -> (malicious: Malicious)
    ensures
        malicious == !contains_text(utf8_lossy(stdout@), clean_report(path@)),
        malicious == !contains_text(utf8_lossy(stdout@), "Scanning "@ + path@ + " found no threats"@),
        !contains_text(utf8_lossy(stdout@), " found no threats"@) ==> malicious,
{
    proof {
        lemma_clean_report_needs_no_threats(path@, utf8_lossy(stdout@));
    }
    let out = decode_lossy(stdout);
    !output_reports_clean(path, out.as_str())
}

} // verus!
