//! Turning the tool's exit status and output into an operation outcome.

use vstd::prelude::*;

verus! {

/// `serde_json::Value`, carried through unread: a parsed JSON document.
#[verifier::external_type_specification]
#[verifier::external_body]
pub struct ExValue(serde_json::Value);

/// What `String::from_utf8` gives for these bytes: the decoded text, or the
/// text of its error.
pub uninterp spec fn utf8_decoded(bytes: Seq<u8>) -> Result<Seq<char>, Seq<char>>;

/// What `String::from_utf8_lossy` gives for these bytes.
pub uninterp spec fn lossy_text(bytes: Seq<u8>) -> Seq<char>;

/// The text of the error that `serde_json::from_str` reports for this input,
/// or `None` when the input is one well-formed JSON document.
pub uninterp spec fn json_error(text: Seq<char>) -> Option<Seq<char>>;

/// Relies on `String::from_utf8`: decodes the bytes as UTF-8, failing on an
/// invalid sequence; the result and the error's text depend on the bytes alone.
#[verifier::external_body]
fn decode_utf8(bytes: Vec<u8>) -> (r: Result<String, String>)
    ensures
        match utf8_decoded(bytes@) {
            Ok(text) => r is Ok && r->Ok_0@ == text,
            Err(msg) => r is Err && r->Err_0@ == msg,
        },
{
    String::from_utf8(bytes).map_err(|e| e.to_string())
}

/// Relies on `String::from_utf8_lossy`: decodes the bytes, replacing invalid
/// sequences; the result depends on the bytes alone.
#[verifier::external_body]
fn decode_lossy(bytes: &Vec<u8>) -> (r: String)
    ensures
        r@ == lossy_text(bytes@),
{
    String::from_utf8_lossy(bytes).into_owned()
}

/// Relies on `serde_json::from_str::<Value>`: parses the text as one JSON
/// document; whether it fails, and the error's text, depend on the text alone.
#[verifier::external_body]
fn parse_json(text: &str) -> (r: Result<serde_json::Value, String>)
    ensures
        match json_error(text@) {
            None => r is Ok,
            Some(msg) => r is Err && r->Err_0@ == msg,
        },
{
    serde_json::from_str::<serde_json::Value>(text).map_err(|e| e.to_string())
}

/// Exit status and captured output of one run of the tool.
pub struct InvocationResult {
    pub exit_succeeded: bool,
    pub stdout: Vec<u8>,
    pub stderr: Vec<u8>,
}

/// What a run of the tool amounted to.
pub enum OperationOutcome {
    /// The tool succeeded; the parsed JSON output, when output was expected.
    Success(Option<serde_json::Value>),
    Failure(String),
}

/// The shape of an outcome: parsed data, plain completion, or a failure message.
pub enum OutcomeSpec {
    Data,
    Done,
    Failure(Seq<char>),
}

pub open spec fn outcome_spec(o: OperationOutcome) -> OutcomeSpec {
    match o {
        OperationOutcome::Success(Some(_)) => OutcomeSpec::Data,
        OperationOutcome::Success(None) => OutcomeSpec::Done,
        OperationOutcome::Failure(m) => OutcomeSpec::Failure(m@),
    }
}

pub open spec fn tool_error_prefix() -> Seq<char> {
    "Restic error: "@
}

pub open spec fn utf8_error_prefix() -> Seq<char> {
    "Invalid UTF-8 sequence: "@
}

pub open spec fn json_error_prefix() -> Seq<char> {
    "Failed to parse JSON: "@
}

/// A failed run reports the tool's standard error; a successful one is done,
/// or, when JSON is expected, yields data unless decoding or parsing fails.
pub open spec fn classify_spec(result: InvocationResult, expect_json: bool) -> OutcomeSpec {
    if !result.exit_succeeded {
        OutcomeSpec::Failure(tool_error_prefix() + lossy_text(result.stderr@))
    } else if !expect_json {
        OutcomeSpec::Done
    } else {
        match utf8_decoded(result.stdout@) {
            Err(msg) => OutcomeSpec::Failure(utf8_error_prefix() + msg),
            Ok(text) => match json_error(text) {
                Some(msg) => OutcomeSpec::Failure(json_error_prefix() + msg),
                None => OutcomeSpec::Data,
            },
        }
    }
}

/// Classifies the result of one run of the tool.
pub fn classify(result: InvocationResult, expect_json: bool) -> (r: OperationOutcome)
    ensures
        outcome_spec(r) == classify_spec(result, expect_json),
{
    if !result.exit_succeeded {
        let stderr = decode_lossy(&result.stderr);
        return OperationOutcome::Failure(String::from_str("Restic error: ").concat(stderr.as_str()));
    }
    if !expect_json {
        return OperationOutcome::Success(None);
    }
    match decode_utf8(result.stdout) {
        Err(msg) => OperationOutcome::Failure(
            String::from_str("Invalid UTF-8 sequence: ").concat(msg.as_str()),
        ),
        Ok(text) => match parse_json(text.as_str()) {
            Err(msg) => OperationOutcome::Failure(
                String::from_str("Failed to parse JSON: ").concat(msg.as_str()),
            ),
            Ok(value) => OperationOutcome::Success(Some(value)),
        },
    }
}

/// Classification depends on the exit status and the bytes of the output
/// alone: equal inputs give equal outcomes.
pub proof fn classify_is_deterministic(a: InvocationResult, b: InvocationResult, expect_json: bool)
    requires
        a.exit_succeeded == b.exit_succeeded,
        a.stdout@ == b.stdout@,
        a.stderr@ == b.stderr@,
    ensures
        classify_spec(a, expect_json) == classify_spec(b, expect_json),
{
}

} // verus!
