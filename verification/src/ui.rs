//! The text each interface variant renders.
//!
//! Two variants exist: a plain one and a decorated one, chosen once at
//! process start. Printing, prompting and terminal control stay in the
//! surrounding program; this module pins the text itself — one line per
//! task of the report, and the error-line shape.

use vstd::prelude::*;

use crate::ansible::AnsibleTaskResult;

verus! {

/// The plain interface's text.
pub struct BasicInterface;

/// The decorated interface's text: the same lines, wrapped in terminal
/// style codes.
pub struct TTYInterface;

/// The plain line for one task: its marker, a change note when the task
/// changed the target, and its name.
pub open spec fn basic_task_line(t: crate::ansible::TaskResultV) -> Seq<char> {
    "`- ["@ + (if t.success {
        "OK"@
    } else {
        "KO"@
    }) + "]"@ + (if t.changed {
        " (change)"@
    } else {
        ""@
    }) + " "@ + t.name
}

impl BasicInterface {
    /// One plain report line for one task.
    pub fn render_task_line(&self, t: &AnsibleTaskResult) -> (r: String)
        ensures
            r@ == basic_task_line(t@),
    {
        let mut s = String::from_str("`- [");
        if t.success {
            s.append("OK");
        } else {
            s.append("KO");
        }
        s.append("]");
        if t.changed {
            s.append(" (change)");
        } else {
            s.append("");
        }
        s.append(" ");
        s.append(t.name.as_str());
        s
    }

    /// The plain error line.
    pub fn error_line(&self, message: &str) -> (r: String)
        ensures
            r@ == "/!\\ "@ + message@,
    {
        let mut s = String::from_str("/!\\ ");
        s.append(message);
        s
    }
}

/// The decorated line for one task: the same line as the plain one, with
/// the marker in bold green or red.
pub open spec fn tty_task_line(t: crate::ansible::TaskResultV) -> Seq<char> {
    "`- ["@ + (if t.success {
        "\u{1b}[1m\u{1b}[38;5;2mOK\u{1b}[m"@
    } else {
        "\u{1b}[1m\u{1b}[38;5;1mKO\u{1b}[m"@
    }) + "]"@ + (if t.changed {
        " (\u{1b}[1m\u{1b}[38;5;3mchange\u{1b}[m)"@
    } else {
        ""@
    }) + " "@ + t.name
}

impl TTYInterface {
    /// One decorated report line for one task.
    pub fn render_task_line(&self, t: &AnsibleTaskResult) -> (r: String)
        ensures
            r@ == tty_task_line(t@),
    {
        let mut s = String::from_str("`- [");
        if t.success {
            s.append("\u{1b}[1m\u{1b}[38;5;2mOK\u{1b}[m");
        } else {
            s.append("\u{1b}[1m\u{1b}[38;5;1mKO\u{1b}[m");
        }
        s.append("]");
        if t.changed {
            s.append(" (\u{1b}[1m\u{1b}[38;5;3mchange\u{1b}[m)");
        } else {
            s.append("");
        }
        s.append(" ");
        s.append(t.name.as_str());
        s
    }

    /// The decorated error line: the message in bold red.
    pub fn error_line(&self, message: &str) -> (r: String)
        ensures
            r@ == "\u{1b}[1m\u{1b}[38;5;1m"@ + message@ + "\u{1b}[m"@,
    {
        let mut s = String::from_str("\u{1b}[1m\u{1b}[38;5;1m");
        s.append(message);
        s.append("\u{1b}[m");
        s
    }
}

} // verus!
