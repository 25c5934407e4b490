//! Per-request decisions: whether to run the tool at all, and which HTTP reply
//! a run leads to.

use vstd::prelude::*;
use crate::classify::{
    classify, classify_spec, lossy_text, outcome_spec, json_error, json_error_prefix,
    tool_error_prefix, utf8_decoded, InvocationResult, OperationOutcome, OutcomeSpec,
};
use crate::invocation::{arguments_of, expects_json, subcommand_of, InvocationRequest, Operation};

verus! {

/// Unicode `White_Space`, the set that `char::is_whitespace` and `str::trim` use.
pub open spec fn is_white_space(c: char) -> bool {
    ('\u{9}' <= c && c <= '\u{d}') || c == ' ' || c == '\u{85}' || c == '\u{a0}'
        || c == '\u{1680}' || ('\u{2000}' <= c && c <= '\u{200a}') || c == '\u{2028}'
        || c == '\u{2029}' || c == '\u{202f}' || c == '\u{205f}' || c == '\u{3000}'
}

/// A text that is empty once surrounding white space is trimmed.
pub open spec fn is_blank(s: Seq<char>) -> bool {
    forall|i: int| 0 <= i < s.len() ==> is_white_space(#[trigger] s[i])
}

pub fn is_white_space_char(c: char) -> (r: bool)
    ensures
        r == is_white_space(c),
{
    ('\u{9}' <= c && c <= '\u{d}') || c == ' ' || c == '\u{85}' || c == '\u{a0}'
        || c == '\u{1680}' || ('\u{2000}' <= c && c <= '\u{200a}') || c == '\u{2028}'
        || c == '\u{2029}' || c == '\u{202f}' || c == '\u{205f}' || c == '\u{3000}'
}

pub fn is_blank_text(s: &str) -> (r: bool)
    ensures
        r == is_blank(s@),
{
    let n = s.unicode_len();
    let mut i: usize = 0;
    while i < n
        invariant
            n == s@.len(),
            i <= n,
            forall|j: int| 0 <= j < i ==> is_white_space(#[trigger] s@[j]),
        decreases n - i,
    {
        if !is_white_space_char(s.get_char(i)) {
            return false;
        }
        i = i + 1;
    }
    true
}

/// Why the tool could not be run at all.
pub enum LaunchError {
    /// The credential file could not be created; the system's reason.
    CredentialCreate(String),
    /// The secret could not be written to the credential file.
    CredentialWrite(String),
    /// The tool's process could not be started.
    Spawn(String),
}

pub open spec fn launch_message(e: LaunchError) -> Seq<char> {
    match e {
        LaunchError::CredentialCreate(d) => "Failed to create temp file for password: "@ + d@,
        LaunchError::CredentialWrite(d) => "Failed to write password to temp file: "@ + d@,
        LaunchError::Spawn(d) => "Failed to execute restic: "@ + d@,
    }
}

/// Body of an HTTP reply, sent as a JSON object.
pub enum ReplyBody {
    /// The tool's own JSON output, sent as it is.
    Json(serde_json::Value),
    /// `{"message": ...}`
    Message(String),
    /// `{"error": ...}`
    Error(String),
}

pub struct HttpReply {
    pub status: u16,
    pub body: ReplyBody,
}

/// The shape of a reply body, without the JSON data itself.
pub enum BodySpec {
    Json,
    Message(Seq<char>),
    Error(Seq<char>),
}

impl View for HttpReply {
    type V = (u16, BodySpec);

    open spec fn view(&self) -> (u16, BodySpec) {
        (self.status, match self.body {
            ReplyBody::Json(_) => BodySpec::Json,
            ReplyBody::Message(m) => BodySpec::Message(m@),
            ReplyBody::Error(m) => BodySpec::Error(m@),
        })
    }
}

pub open spec fn missing_target_message() -> Seq<char> {
    "Target directory is required"@
}

/// The message sent when an operation without output completes. Operations
/// that expect JSON never complete without data, so they have none.
pub open spec fn done_message(op: Operation) -> Seq<char> {
    match op {
        Operation::DeleteSnapshot { .. } => "Snapshot deleted successfully"@,
        Operation::RestoreSnapshot { .. } => "Snapshot restored successfully"@,
        Operation::Stats | Operation::ListSnapshots => Seq::empty(),
    }
}

/// The reply for an operation whose run was classified as `outcome`.
pub open spec fn reply_spec(op: Operation, outcome: OutcomeSpec) -> (u16, BodySpec) {
    match outcome {
        OutcomeSpec::Data => (200, BodySpec::Json),
        OutcomeSpec::Done => (200, BodySpec::Message(done_message(op))),
        OutcomeSpec::Failure(m) => (500, BodySpec::Error(m)),
    }
}

/// The reply for an operation, given what came of trying to run the tool.
pub open spec fn finish_spec(op: Operation, run: Result<InvocationResult, LaunchError>) -> (u16, BodySpec) {
    match run {
        Err(e) => (500, BodySpec::Error(launch_message(e))),
        Ok(result) => reply_spec(op, classify_spec(result, expects_json(op))),
    }
}

/// What to do with a request before the repository is touched.
pub enum Plan {
    /// Answer at once; the tool is not run.
    Reject(HttpReply),
    /// Run the tool with this request.
    Invoke(InvocationRequest),
}

/// A restore with a blank target directory is refused with 400; every other
/// operation goes on to run its tool invocation.
pub fn plan(op: &Operation) -> (r: Plan)
    ensures
        r is Reject <==> (op is RestoreSnapshot && is_blank(op->target_dir@)),
        r is Reject ==> r->Reject_0@ == (400u16, BodySpec::Error(missing_target_message())),
        r is Invoke ==> {
            let req = r->Invoke_0;
            req.subcommand@ == subcommand_of(*op)
                && req.args_view() == arguments_of(*op)
                && req.expect_json == expects_json(*op)
        },
{
    if let Operation::RestoreSnapshot { target_dir, .. } = op {
        if is_blank_text(target_dir.as_str()) {
            return Plan::Reject(HttpReply {
                status: 400,
                body: ReplyBody::Error(String::from_str("Target directory is required")),
            });
        }
    }
    Plan::Invoke(op.request())
}

fn error_reply(message: String) -> (r: HttpReply)
    ensures
        r@ == (500u16, BodySpec::Error(message@)),
{
    HttpReply { status: 500, body: ReplyBody::Error(message) }
}

/// The message for a run of the tool that could not be started.
pub fn launch_error_message(e: &LaunchError) -> (r: String)
    ensures
        r@ == launch_message(*e),
{
    match e {
        LaunchError::CredentialCreate(d) => String::from_str(
            "Failed to create temp file for password: ",
        ).concat(d.as_str()),
        LaunchError::CredentialWrite(d) => String::from_str(
            "Failed to write password to temp file: ",
        ).concat(d.as_str()),
        LaunchError::Spawn(d) => String::from_str("Failed to execute restic: ").concat(d.as_str()),
    }
}

/// The reply for an operation whose run has been classified.
pub fn reply_for(op: &Operation, outcome: OperationOutcome) -> (r: HttpReply)
    requires
        expects_json(*op) ==> !(outcome_spec(outcome) is Done),
        !expects_json(*op) ==> !(outcome_spec(outcome) is Data),
    ensures
        r@ == reply_spec(*op, outcome_spec(outcome)),
        outcome matches OperationOutcome::Success(Some(v)) ==> r.body == ReplyBody::Json(v),
{
    match outcome {
        OperationOutcome::Failure(m) => error_reply(m),
        OperationOutcome::Success(Some(v)) => HttpReply { status: 200, body: ReplyBody::Json(v) },
        OperationOutcome::Success(None) => {
            let message = match op {
                Operation::DeleteSnapshot { .. } => String::from_str(
                    "Snapshot deleted successfully",
                ),
                Operation::RestoreSnapshot { .. } => String::from_str(
                    "Snapshot restored successfully",
                ),
                Operation::Stats | Operation::ListSnapshots => {
                    proof {
                        assert(false);
                    }
                    String::new()
                },
            };
            HttpReply { status: 200, body: ReplyBody::Message(message) }
        },
    }
}

/// The reply for an operation, given what came of trying to run the tool.
pub fn finish(op: &Operation, run: Result<InvocationResult, LaunchError>) -> (r: HttpReply)
    ensures
        r@ == finish_spec(*op, run),
{
    match run {
        Err(e) => error_reply(launch_error_message(&e)),
        Ok(result) => {
            let outcome = classify(result, op.expects_json());
            reply_for(op, outcome)
        },
    }
}

/// Whatever the operation, a run in which the tool exits with failure is
/// answered with 500 and an error message that contains the tool's standard
/// error text.
pub proof fn tool_failure_is_reported(op: Operation, result: InvocationResult)
    requires
        !result.exit_succeeded,
    ensures
        ({
            let (status, body) = finish_spec(op, Ok(result));
            let stderr = lossy_text(result.stderr@);
            &&& status == 500
            &&& body is Error
            &&& exists|i: int|
                0 <= i && i + stderr.len() <= body->Error_0.len()
                    && #[trigger] body->Error_0.subrange(i, i + stderr.len()) == stderr
        }),
{
    let stderr = lossy_text(result.stderr@);
    let m = tool_error_prefix() + stderr;
    let i = tool_error_prefix().len() as int;
    assert(m.subrange(i, i + stderr.len()) =~= stderr);
    let body = finish_spec(op, Ok(result)).1;
    assert(body == BodySpec::Error(m));
    assert(body->Error_0.subrange(i, i + stderr.len()) == stderr);
}

/// A JSON-producing operation whose output decodes but does not parse is
/// answered with 500 and the parser's error, never with an empty success.
pub proof fn unparsable_output_is_an_error(op: Operation, result: InvocationResult)
    requires
        expects_json(op),
        result.exit_succeeded,
        utf8_decoded(result.stdout@) is Ok,
        json_error(utf8_decoded(result.stdout@)->Ok_0) is Some,
    ensures
        finish_spec(op, Ok(result)) == (500u16, BodySpec::Error(
            json_error_prefix() + json_error(utf8_decoded(result.stdout@)->Ok_0)->Some_0,
        )),
{
}

} // verus!
