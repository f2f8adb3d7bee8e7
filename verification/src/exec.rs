//! The external-process harness's decision logic.
//!
//! Spawning a process is left to the surrounding program; this module
//! builds the invocations to run and decides what a finished run means. In
//! captured mode a non-zero exit from the engine whose captured output
//! still begins with `{` counts as success: the engine signals task-level
//! failures inside a well-formed report, which is distinct from a crash.

use vstd::prelude::*;

verus! {

broadcast use vstd::std_specs::vec::group_vec_axioms;

/// One external-program invocation: what to run, with which arguments,
/// where, and with which extra environment entries; `engine_aware` marks
/// the configuration-management engine's own invocation.
pub struct Invocation {
    pub program: String,
    pub args: Vec<String>,
    pub cwd: String,
    pub env: Vec<(String, String)>,
    pub engine_aware: bool,
}

/// The model of an invocation.
pub struct InvocationV {
    pub program: Seq<char>,
    pub args: Seq<Seq<char>>,
    pub cwd: Seq<char>,
    pub env: Seq<(Seq<char>, Seq<char>)>,
    pub engine_aware: bool,
}

impl View for Invocation {
    type V = InvocationV;

    open spec fn view(&self) -> InvocationV {
        InvocationV {
            program: self.program@,
            args: self.args@.map_values(|a: String| a@),
            cwd: self.cwd@,
            env: self.env@.map_values(|e: (String, String)| (e.0@, e.1@)),
            engine_aware: self.engine_aware,
        }
    }
}

/// The invocation that runs one command line through a shell, in the given
/// working directory, with the given extra environment.
pub fn shell(cmdline: &String, working_dir: &String, env: Vec<(String, String)>) -> (r:
    Invocation)
    ensures
        r@.program == "sh"@,
        r@.args == seq!["-c"@, cmdline@],
        r@.cwd == working_dir@,
        r@.env == env@.map_values(|e: (String, String)| (e.0@, e.1@)),
        !r@.engine_aware,
{
    let mut args: Vec<String> = Vec::new();
    args.push(String::from_str("-c"));
    args.push(cmdline.clone());
    let r = Invocation {
        program: String::from_str("sh"),
        args,
        cwd: working_dir.clone(),
        env,
        engine_aware: false,
    };
    proof {
        assert(r@.args =~= seq!["-c"@, cmdline@]);
    }
    r
}

/// Whether a captured output begins with an opening brace.
pub open spec fn starts_with_brace(s: Seq<char>) -> bool {
    s.len() > 0 && s[0] == '{'
}

/// What a finished captured-mode run means: on exit zero the captured
/// standard output; on a non-zero exit from the engine whose output still
/// begins with `{`, that output, taken as the engine's own structured
/// failure report; otherwise the combined output and error streams.
pub open spec fn captured_outcome_spec(
    engine_aware: bool,
    exit_ok: bool,
    stdout: Seq<char>,
    stderr: Seq<char>,
) -> Result<Seq<char>, Seq<char>> {
    if exit_ok {
        Ok(stdout)
    } else if engine_aware && starts_with_brace(stdout) {
        Ok(stdout)
    } else {
        Err(stdout + "\n"@ + stderr)
    }
}

/// Decides what a finished captured-mode run means, from its exit outcome
/// and captured streams.
pub fn interpret_captured(engine_aware: bool, exit_ok: bool, stdout: String, stderr: String) -> (r:
    Result<String, String>)
    ensures
        (match r {
            Ok(o) => Ok::<Seq<char>, Seq<char>>(o@),
            Err(e) => Err::<Seq<char>, Seq<char>>(e@),
        }) == captured_outcome_spec(engine_aware, exit_ok, stdout@, stderr@),
{
    if exit_ok {
        return Ok(stdout);
    }
    if engine_aware {
        let has_brace = stdout.as_str().unicode_len() > 0 && stdout.as_str().get_char(0) == '{';
        if has_brace {
            return Ok(stdout);
        }
    }
    let mut detail = stdout;
    detail.append("\n");
    detail.append(stderr.as_str());
    Err(detail)
}

/// What a finished interactive-mode run means: nothing was captured, so a
/// failure reports only the program and its exit status.
pub fn interpret_interactive(program: &str, exit_ok: bool, status: &str) -> (r: Result<
    (),
    String,
>)
    ensures
        exit_ok <==> r is Ok,
        r matches Err(e) ==> e@ == program@ + " exited with non-zero status code "@ + status@,
{
    if exit_ok {
        Ok(())
    } else {
        let mut msg = String::from_str(program);
        msg.append(" exited with non-zero status code ");
        msg.append(status);
        Err(msg)
    }
}

} // verus!
