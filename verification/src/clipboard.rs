//! The clipboard tool chain: which tools are tried, in what order, and
//! what each attempt's outcome means. Running the tools is the program's job.

use vstd::prelude::*;

use crate::text::{push_str, string_from_chars};

verus! {

/// The clipboard tools, in the order they are tried.
pub open spec fn tool_names() -> Seq<Seq<char>> {
    seq!["pbcopy"@, "wl-copy"@, "xclip"@, "xsel"@]
}

/// The arguments each tool is run with.
pub open spec fn tool_args() -> Seq<Seq<Seq<char>>> {
    seq![seq![], seq![], seq!["-selection"@, "clipboard"@], seq!["--clipboard"@, "--input"@]]
}

/// A clipboard tool and its arguments.
pub struct Tool {
    pub cmd: &'static str,
    pub args: Vec<&'static str>,
}

/// The tools to try, in order.
pub fn candidates() -> (r: Vec<Tool>)
    ensures
        r@.len() == tool_names().len(),
        forall|i: int| 0 <= i < r@.len() ==> (#[trigger] r@[i]).cmd@ == tool_names()[i],
        forall|i: int|
            0 <= i < r@.len() ==> (#[trigger] r@[i]).args@.len() == tool_args()[i].len() && forall|
                k: int,
            |
                0 <= k < r@[i].args@.len() ==> (#[trigger] r@[i].args@[k])@ == tool_args()[i][k],
{
    let mut r: Vec<Tool> = Vec::new();
    r.push(Tool { cmd: "pbcopy", args: Vec::new() });
    r.push(Tool { cmd: "wl-copy", args: Vec::new() });
    r.push(Tool { cmd: "xclip", args: vec!["-selection", "clipboard"] });
    r.push(Tool { cmd: "xsel", args: vec!["--clipboard", "--input"] });
    r
}

/// How running one tool went.
pub enum PipeOutcome {
    /// The text reached the clipboard.
    Copied,
    /// The tool is not installed.
    NotFound,
    /// The tool ran and failed.
    Failed,
}

/// What to do after an attempt.
pub enum ClipboardStep {
    /// Try the tool with this index.
    Try(usize),
    /// Done; this tool took the text.
    Done(&'static str),
    /// Give up with this message.
    Error(String),
}

/// The step after running tool `index` (one of the tools): a missing tool
/// moves on to the next one, or ends with "no clipboard tool found" after
/// the last; a failure stops with "<tool> failed"; success names the tool.
pub open spec fn next_step_spec(index: int, outcome: PipeOutcome, step: ClipboardStep) -> bool {
    match outcome {
        PipeOutcome::Copied => step matches ClipboardStep::Done(t) && t@ == tool_names()[index],
        PipeOutcome::NotFound => if index + 1 < tool_names().len() {
            step == ClipboardStep::Try((index + 1) as usize)
        } else {
            step matches ClipboardStep::Error(m) && m@
                == "no clipboard tool found (tried pbcopy, wl-copy, xclip, xsel)"@
        },
        PipeOutcome::Failed => step matches ClipboardStep::Error(m) && m@ == tool_names()[index]
            + " failed"@,
    }
}

pub fn next_step(index: usize, outcome: PipeOutcome) -> (r: ClipboardStep)
    requires
        index < tool_names().len(),
    ensures
        next_step_spec(index as int, outcome, r),
{
    let tools = candidates();
    let cmd = tools[index].cmd;
    match outcome {
        PipeOutcome::Copied => ClipboardStep::Done(cmd),
        PipeOutcome::NotFound => {
            if index + 1 < tools.len() {
                ClipboardStep::Try(index + 1)
            } else {
                let mut m: Vec<char> = Vec::new();
                push_str(&mut m, "no clipboard tool found (tried pbcopy, wl-copy, xclip, xsel)");
                ClipboardStep::Error(string_from_chars(m.as_slice()))
            }
        },
        PipeOutcome::Failed => {
            let mut m: Vec<char> = Vec::new();
            push_str(&mut m, cmd);
            push_str(&mut m, " failed");
            ClipboardStep::Error(string_from_chars(m.as_slice()))
        },
    }
}

} // verus!
