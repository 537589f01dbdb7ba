//! The converter invoker: what an external conversion program's run comes to.
use vstd::prelude::*;
use crate::error::{ErrorKind, IoFault, Operation, StagingError};

verus! {

/// The text that lossy UTF-8 decoding makes of some bytes.
pub uninterp spec fn lossy_text(b: Seq<u8>) -> Seq<char>;

/// Relies on `String::from_utf8_lossy`: it decodes any bytes, putting U+FFFD for
/// each invalid sequence, so that no bytes give no text and some bytes give some.
#[verifier::external_body]
fn decode_lossy(b: &[u8]) -> (r: String)
    ensures
        r@ == lossy_text(b@),
        b@.len() == 0 <==> r@.len() == 0,
{
    String::from_utf8_lossy(b).into_owned()
}

/// The outcome of a run of the converter that started: whether it exited with
/// success, what it wrote to its standard output, and, where it failed, what it
/// wrote to its standard error.
#[derive(Clone, Debug)]
pub struct ConversionOutcome {
    pub succeeded: bool,
    pub output: String,
    pub error: Option<String>,
}

/// The outcome of a run whose output and error streams have been decoded.
pub fn outcome_from_text(exit_success: bool, stdout: String, stderr: String) -> (r:
    ConversionOutcome)
    ensures
        r.succeeded == exit_success,
        r.output@ == stdout@,
        exit_success ==> r.error is None,
        !exit_success ==> (r.error matches Some(e) && e@ == stderr@),
{
    if exit_success {
        ConversionOutcome { succeeded: true, output: stdout, error: None }
    } else {
        ConversionOutcome { succeeded: false, output: stdout, error: Some(stderr) }
    }
}

/// The outcome of a run, from its exit status and the raw bytes of its two
/// streams. Bytes that are not UTF-8 are replaced, never refused.
pub fn conversion_outcome(exit_success: bool, stdout: &[u8], stderr: &[u8]) -> (r:
    ConversionOutcome)
    ensures
        r.succeeded == exit_success,
        r.output@ == lossy_text(stdout@),
        exit_success ==> r.error is None,
        !exit_success ==> (r.error matches Some(e) && e@ == lossy_text(stderr@) && (e@.len() == 0
            <==> stderr@.len() == 0)),
{
    let out = decode_lossy(stdout);
    let err = decode_lossy(stderr);
    outcome_from_text(exit_success, out, err)
}

/// The error for a converter that could not be started at all.
pub fn launch_failure(executable: &str, fault: &IoFault) -> (r: StagingError)
    ensures
        r.kind == ErrorKind::LaunchFailure,
        r.operation == Operation::Launch,
        r.path@ == executable@,
        r.detail@ == fault.message@,
{
    StagingError::new(ErrorKind::LaunchFailure, Operation::Launch, executable, fault.message.as_str())
}

} // verus!
