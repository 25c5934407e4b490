//! What each operation asks of the backup tool, and the tool's full argument list.

use vstd::prelude::*;
use crate::config::RepositoryConfig;

verus! {

/// One operation that the HTTP surface offers.
pub enum Operation {
    Stats,
    ListSnapshots,
    DeleteSnapshot { snapshot_id: String },
    RestoreSnapshot { snapshot_id: String, target_dir: String },
}

/// A subcommand of the tool, its own arguments, and whether its standard
/// output is expected to be JSON.
pub struct InvocationRequest {
    pub subcommand: String,
    pub arguments: Vec<String>,
    pub expect_json: bool,
}

impl InvocationRequest {
    pub open spec fn args_view(&self) -> Seq<Seq<char>> {
        self.arguments@.map_values(|a: String| a@)
    }
}

/// One element of the tool's argument list: literal text, or the path of the
/// credential file, which only exists while the tool runs.
pub enum ToolArg {
    Text(String),
    CredentialFile,
}

impl View for ToolArg {
    /// `None` stands for the credential file's path.
    type V = Option<Seq<char>>;

    open spec fn view(&self) -> Option<Seq<char>> {
        match self {
            ToolArg::Text(s) => Some(s@),
            ToolArg::CredentialFile => None,
        }
    }
}

/// Whether the operation's output is parsed as JSON.
pub open spec fn expects_json(op: Operation) -> bool {
    op is Stats || op is ListSnapshots
}

pub open spec fn subcommand_of(op: Operation) -> Seq<char> {
    match op {
        Operation::Stats => "stats"@,
        Operation::ListSnapshots => "snapshots"@,
        Operation::DeleteSnapshot { .. } => "forget"@,
        Operation::RestoreSnapshot { .. } => "restore"@,
    }
}

pub open spec fn arguments_of(op: Operation) -> Seq<Seq<char>> {
    match op {
        Operation::Stats => seq!["--json"@],
        Operation::ListSnapshots => seq!["--json"@],
        Operation::DeleteSnapshot { snapshot_id } => seq![snapshot_id@, "--prune"@],
        Operation::RestoreSnapshot { snapshot_id, target_dir } => seq![
            snapshot_id@,
            "--target"@,
            target_dir@,
        ],
    }
}

/// The full argument list: repository flag and location, credential-file flag
/// and path, subcommand, then the subcommand's own arguments.
pub open spec fn tool_args_spec(location: Seq<char>, subcommand: Seq<char>, args: Seq<Seq<char>>) -> Seq<Option<Seq<char>>> {
    seq![Some("-r"@), Some(location), Some("--password-file"@), None, Some(subcommand)]
        + args.map_values(|a: Seq<char>| Some(a))
}

impl Operation {
    pub fn expects_json(&self) -> (r: bool)
        ensures
            r == expects_json(*self),
    {
        match self {
            Operation::Stats | Operation::ListSnapshots => true,
            _ => false,
        }
    }

    /// The tool invocation that carries out this operation.
    pub fn request(&self) -> (r: InvocationRequest)
        ensures
            r.subcommand@ == subcommand_of(*self),
            r.args_view() == arguments_of(*self),
            r.expect_json == expects_json(*self),
    {
        let r = match self {
            Operation::Stats => InvocationRequest {
                subcommand: String::from_str("stats"),
                arguments: vec![String::from_str("--json")],
                expect_json: true,
            },
            Operation::ListSnapshots => InvocationRequest {
                subcommand: String::from_str("snapshots"),
                arguments: vec![String::from_str("--json")],
                expect_json: true,
            },
            Operation::DeleteSnapshot { snapshot_id } => InvocationRequest {
                subcommand: String::from_str("forget"),
                arguments: vec![snapshot_id.clone(), String::from_str("--prune")],
                expect_json: false,
            },
            Operation::RestoreSnapshot { snapshot_id, target_dir } => InvocationRequest {
                subcommand: String::from_str("restore"),
                arguments: vec![
                    snapshot_id.clone(),
                    String::from_str("--target"),
                    target_dir.clone(),
                ],
                expect_json: false,
            },
        };
        assert(r.args_view() =~= arguments_of(*self));
        r
    }
}

/// The argument list for running `req` against the configured repository.
pub fn tool_args(config: &RepositoryConfig, req: &InvocationRequest) -> (r: Vec<ToolArg>)
    requires
        config.wf(),
    ensures
        r@.map_values(|a: ToolArg| a@) == tool_args_spec(config.location@, req.subcommand@, req.args_view()),
{
    let mut r: Vec<ToolArg> = Vec::new();
    r.push(ToolArg::Text(String::from_str("-r")));
    r.push(ToolArg::Text(config.location.clone()));
    r.push(ToolArg::Text(String::from_str("--password-file")));
    r.push(ToolArg::CredentialFile);
    r.push(ToolArg::Text(req.subcommand.clone()));
    let ghost head = seq![Some("-r"@), Some(config.location@), Some("--password-file"@), None, Some(req.subcommand@)];
    assert(r@.map_values(|a: ToolArg| a@) =~= head);
    let mut i: usize = 0;
    while i < req.arguments.len()
        invariant
            i <= req.arguments@.len(),
            r@.len() == head.len() + i,
            forall|j: int| 0 <= j < head.len() ==> (#[trigger] r@[j])@ == head[j],
            forall|j: int| 0 <= j < i ==> (#[trigger] r@[head.len() + j])@ == Some(req.arguments@[j]@),
        decreases req.arguments@.len() - i,
    {
        r.push(ToolArg::Text(req.arguments[i].clone()));
        i = i + 1;
    }
    let ghost want = tool_args_spec(config.location@, req.subcommand@, req.args_view());
    assert forall|j: int| 0 <= j < r@.len() implies (#[trigger] r@[j])@ == want[j] by {
        if j >= head.len() {
            let k = j - head.len();
            assert(r@[head.len() + k]@ == Some(req.arguments@[k]@));
        }
    }
    assert(r@.map_values(|a: ToolArg| a@) =~= tool_args_spec(config.location@, req.subcommand@, req.args_view()));
    r
}

} // verus!
