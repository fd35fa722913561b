//! The error texts that the public operations report.

use vstd::prelude::*;

verus! {

/// `prefix` followed by `detail`.
pub fn prefixed(prefix: &str, detail: &str) -> (r: String)
    ensures
        r@ == prefix@ + detail@,
{
    let mut s = prefix.to_string();
    s.append(detail);
    s
}

/// The public operations, each of which reports a panic in its own words.
#[derive(PartialEq, Eq, Structural, Clone, Copy, Debug)]
pub enum RawOperation {
    /// Reading metadata and dimensions.
    Probe,
    /// Full decode to RGB pixels.
    Decode,
    /// Full decode followed by JPEG compression.
    DecodeToJpeg,
    /// Extraction of the embedded preview.
    Preview,
}

/// The words that open the report of a panic during `op`.
pub open spec fn panic_prefix(op: RawOperation) -> Seq<char> {
    match op {
        RawOperation::Probe => "RAW probe panic: "@,
        RawOperation::Decode => "RAW decode panic: "@,
        RawOperation::DecodeToJpeg => "RAW decode panic: "@,
        RawOperation::Preview => "Preview extraction panic: "@,
    }
}

/// What is reported when a panic during `op` carried no text.
pub open spec fn unknown_panic_text(op: RawOperation) -> Seq<char> {
    match op {
        RawOperation::Probe => "Unknown panic during RAW probe"@,
        RawOperation::Decode => "Unknown panic during RAW decode"@,
        RawOperation::DecodeToJpeg => "Unknown panic during RAW-to-JPEG decode"@,
        RawOperation::Preview => "Unknown panic during preview extraction"@,
    }
}

/// The error reported when `op` panicked; `payload` is the panic's text, if
/// it carried one.
pub fn panic_report(op: RawOperation, payload: Option<String>) -> (r: String)
    ensures
        r@ == panic_prefix(op) + match payload {
            Some(text) => text@,
            None => unknown_panic_text(op),
        },
{
    let prefix = match op {
        RawOperation::Probe => "RAW probe panic: ",
        RawOperation::Decode => "RAW decode panic: ",
        RawOperation::DecodeToJpeg => "RAW decode panic: ",
        RawOperation::Preview => "Preview extraction panic: ",
    };
    match payload {
        Some(text) => prefixed(prefix, text.as_str()),
        None => {
            let detail = match op {
                RawOperation::Probe => "Unknown panic during RAW probe",
                RawOperation::Decode => "Unknown panic during RAW decode",
                RawOperation::DecodeToJpeg => "Unknown panic during RAW-to-JPEG decode",
                RawOperation::Preview => "Unknown panic during preview extraction",
            };
            prefixed(prefix, detail)
        },
    }
}

} // verus!
