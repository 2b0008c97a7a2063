//! What the program answers with when it fails.
use vstd::prelude::*;
use vstd::string::*;

use crate::cli::{Cli, CliError, command_line, Commands, reads_as};
use crate::error::{BridgeError, BridgeErrorV, full_text};
use crate::json::{json_string, JsonV, member, text_member, write_json_string};
use crate::requests::{classify_app_server_error_message, error_class};
use crate::tasks::{refusal, run, Task, task_of};

verus! {

/// A truth value as JSON text.
pub open spec fn json_bool(b: bool) -> Seq<char> {
    if b {
        "true"@
    } else {
        "false"@
    }
}

/// A text that may be missing, as JSON text.
pub open spec fn json_text_or_null(t: Option<Seq<char>>) -> Seq<char> {
    match t {
        Some(s) => json_string(s),
        None => "null"@,
    }
}

/// A failure as JSON text: its whole message, and its class.
pub open spec fn envelope(e: BridgeErrorV) -> Seq<char> {
    let message = full_text(e);
    let class = error_class(message);
    "{\"ok\":false,\"error\":{\"code\":\"internal_error\",\"message\":"@ + json_string(message)
        + ",\"classified\":{\"code\":"@ + json_text_or_null(text_member(class, "code"@))
        + ",\"guidance\":"@ + json_text_or_null(text_member(class, "guidance"@))
        + ",\"message\":"@ + json_string(message) + ",\"retryable\":"@ + json_bool(
        member(class, "retryable"@) == Some(JsonV::Bool(true)),
    ) + "}}}"@
}

/// A text that may be missing, as JSON text.
fn write_text_or_null(t: Option<&str>) -> (r: String)
    ensures
        r@ == json_text_or_null(t.deep_view()),
{
    match t {
        Some(s) => write_json_string(s),
        None => "null".to_owned(),
    }
}

/// Writes a failure as JSON text: its whole message, and its class.
pub fn render_error_envelope(error: &BridgeError) -> (r: String)
    ensures
        r@ == envelope(error@),
{
    let message = error.full();
    let class = classify_app_server_error_message(message.as_str());
    let retryable: bool = match class.get("retryable") {
        Some(v) => match v.as_bool() {
            Some(b) => b,
            None => false,
        },
        None => false,
    };
    let written = write_json_string(message.as_str());
    let mut text: String =
        "{\"ok\":false,\"error\":{\"code\":\"internal_error\",\"message\":".to_owned();
    text.append(written.as_str());
    text.append(",\"classified\":{\"code\":");
    text.append(write_text_or_null(class.get_text("code")).as_str());
    text.append(",\"guidance\":");
    text.append(write_text_or_null(class.get_text("guidance")).as_str());
    text.append(",\"message\":");
    text.append(written.as_str());
    text.append(",\"retryable\":");
    text.append(
        if retryable {
            "true"
        } else {
            "false"
        },
    );
    text.append("}}}");
    text
}

/// Why the program does nothing for a command line.
#[derive(Debug, PartialEq, Eq)]
pub enum Refusal {
    /// The command line is not one of the program's, or asks for the help or the version.
    Usage(CliError),
    /// The command cannot be carried out.
    Failed(BridgeError),
}

/// Reads a command line, whose first word is the name of the program, and decides what is
/// done for it.
pub fn main_entry(args: &Vec<String>) -> (r: Result<Task, Refusal>)
    ensures
        match command_line(args.deep_view()) {
            Err(e) => r matches Err(Refusal::Usage(f)) && f@ == e,
            Ok((verb, g)) => exists|c: Commands|
                #[trigger] reads_as(verb, g, c) && (match refusal(c) {
                    None => r is Ok && task_of(c, r->Ok_0),
                    Some(e) => r matches Err(Refusal::Failed(f)) && f@ == e,
                }),
        },
{
    let cli: Cli = match Cli::try_parse_from(args) {
        Ok(c) => c,
        Err(e) => {
            return Err(Refusal::Usage(e));
        },
    };
    let ghost command = cli.command;
    match run(cli.command) {
        Ok(task) => {
            assert(task_of(command, task));
            Ok(task)
        },
        Err(e) => Err(Refusal::Failed(e)),
    }
}

} // verus!
