//! The engine interface: assembling its invocation and decoding its
//! report.
//!
//! The invocation is assembled from validated data alone — the merged
//! environment, the single-host inventory line, the wrapper play and the
//! argument list are all pinned exactly. The report decoder turns the
//! engine's structured report into one task result per task across all
//! plays: a host that was unreachable is reported as non-blocking rather
//! than failed, per the engine's own semantics.

use vstd::prelude::*;

use crate::doc::{doc_index, Doc, DocV};
use crate::exec::Invocation;
use crate::load;
use crate::sources::{AnsibleContext, Source};
use crate::util;

verus! {

broadcast use
    vstd::seq::group_seq_axioms,
    vstd::std_specs::vec::group_vec_axioms,
    vstd::string::group_string_axioms;

/// The outcome of one task against the target host.
pub struct AnsibleTaskResult {
    pub name: String,
    pub success: bool,
    pub changed: bool,
    pub message: String,
}

/// The model of a task result.
pub struct TaskResultV {
    pub name: Seq<char>,
    pub success: bool,
    pub changed: bool,
    pub message: Seq<char>,
}

impl View for AnsibleTaskResult {
    type V = TaskResultV;

    open spec fn view(&self) -> TaskResultV {
        TaskResultV {
            name: self.name@,
            success: self.success,
            changed: self.changed,
            message: self.message@,
        }
    }
}

/// A run's report: one result per task, in play order.
pub type AnsibleResult = Vec<AnsibleTaskResult>;

/// A boolean field of a document: `false` when absent or not a boolean.
pub open spec fn bool_field(d: DocV, key: Seq<char>) -> bool {
    match doc_index(d, key) {
        DocV::Bool(b) => b,
        _ => false,
    }
}

/// A string field of a document, with a default when absent or not a
/// string.
pub open spec fn str_field_or(d: DocV, key: Seq<char>, dflt: Seq<char>) -> Seq<char> {
    match doc_index(d, key) {
        DocV::Str(s) => s,
        _ => dflt,
    }
}

/// The target host's entry within one task of the report.
pub open spec fn host_of(t: DocV) -> DocV {
    doc_index(doc_index(t, "hosts"@), "provisionee"@)
}

/// One decoded task: successful when the host was unreachable or its
/// `failed` flag is not true; the name and message fall back to fixed
/// texts when absent.
pub open spec fn decode_task_spec(t: DocV) -> TaskResultV {
    let host = host_of(t);
    let failed = bool_field(host, "failed"@);
    let unreachable = bool_field(host, "unreachable"@);
    TaskResultV {
        name: str_field_or(doc_index(t, "task"@), "name"@, "unnamed task"@),
        success: unreachable || !failed,
        changed: bool_field(host, "changed"@),
        message: str_field_or(host, "msg"@, "no details"@),
    }
}

/// Law: an unreachable host overrides a failure — a task whose host has
/// both `unreachable = true` and `failed = true` still decodes as
/// successful.
pub proof fn lemma_unreachable_overrides_failed(t: DocV)
    requires
        bool_field(host_of(t), "unreachable"@),
    ensures
        decode_task_spec(t).success,
{
}

/// Law: a task missing its `msg` decodes to the message "no details", and
/// one missing its `task.name` decodes to the name "unnamed task".
pub proof fn lemma_missing_fields_default(t: DocV)
    ensures
        doc_index(host_of(t), "msg"@) == DocV::Missing ==> decode_task_spec(t).message
            == "no details"@,
        doc_index(doc_index(t, "task"@), "name"@) == DocV::Missing ==> decode_task_spec(t).name
            == "unnamed task"@,
{
}

/// The decoded tasks of one play's task list, in order.
pub open spec fn decode_tasks_spec(ts: Seq<DocV>) -> Seq<TaskResultV> {
    Seq::new(ts.len(), |i: int| decode_task_spec(ts[i]))
}

/// The decoded tasks of all plays, flattened in play order; a play without
/// a `tasks` list makes the whole report undecodable.
pub open spec fn decode_plays_spec(plays: Seq<DocV>) -> Result<Seq<TaskResultV>, Seq<char>>
    decreases plays.len(),
{
    if plays.len() == 0 {
        Ok(Seq::empty())
    } else {
        match doc_index(plays[0], "tasks"@) {
            DocV::Array(ts) => match decode_plays_spec(plays.drop_first()) {
                Ok(rest) => Ok(decode_tasks_spec(ts) + rest),
                Err(e) => Err(e),
            },
            _ => Err("missing tasks array"@),
        }
    }
}

/// The decoded report: the `plays` list must be there, else nothing of the
/// report can be trusted.
pub open spec fn decode_report_spec(d: DocV) -> Result<Seq<TaskResultV>, Seq<char>> {
    match doc_index(d, "plays"@) {
        DocV::Array(plays) => decode_plays_spec(plays),
        _ => Err("missing plays array"@),
    }
}

/// The model of a decode outcome.
pub open spec fn report_res_view(r: Result<Vec<AnsibleTaskResult>, String>) -> Result<
    Seq<TaskResultV>,
    Seq<char>,
> {
    match r {
        Ok(v) => Ok(v@.map_values(|t: AnsibleTaskResult| t@)),
        Err(e) => Err(e@),
    }
}

fn bool_field_exec(d: &Doc, key: &str) -> (r: bool)
    ensures
        r == bool_field(d.dv(), key@),
{
    match d.get(key) {
        Some(v) => match v {
            Doc::Bool(b) => *b,
            _ => false,
        },
        None => false,
    }
}

fn str_field_or_exec(d: &Doc, key: &str, dflt: &str) -> (r: String)
    ensures
        r@ == str_field_or(d.dv(), key@, dflt@),
{
    match d.get(key) {
        Some(v) => match v {
            Doc::Str(s) => s.clone(),
            _ => String::from_str(dflt),
        },
        None => String::from_str(dflt),
    }
}

/// Decodes one task of the report.
pub fn decode_task(t: &Doc) -> (r: AnsibleTaskResult)
    ensures
        r@ == decode_task_spec(t.dv()),
{
    let missing = Doc::Missing;
    let hosts = match t.get("hosts") {
        Some(d) => d,
        None => &missing,
    };
    let host = match hosts.get("provisionee") {
        Some(d) => d,
        None => &missing,
    };
    let task_doc = match t.get("task") {
        Some(d) => d,
        None => &missing,
    };
    let failed = bool_field_exec(host, "failed");
    let unreachable = bool_field_exec(host, "unreachable");
    AnsibleTaskResult {
        name: str_field_or_exec(task_doc, "name", "unnamed task"),
        success: unreachable || !failed,
        changed: bool_field_exec(host, "changed"),
        message: str_field_or_exec(host, "msg", "no details"),
    }
}

/// Decodes the engine's report: its `plays` list, each play's `tasks`
/// list, flattened into one result per task, in order.
pub fn decode_report(doc: &Doc) -> (r: Result<Vec<AnsibleTaskResult>, String>)
    ensures
        report_res_view(r) == decode_report_spec(doc.dv()),
{
    let missing = Doc::Missing;
    let plays_doc = match doc.get("plays") {
        Some(d) => d,
        None => &missing,
    };
    let plays: &Vec<Doc> = match plays_doc {
        Doc::Array(ps) => ps,
        _ => {
            return Err(String::from_str("missing plays array"));
        },
    };
    let ghost pseq = plays_doc.dv()->Array_0;
    proof {
        assert(forall|i: int| 0 <= i < pseq.len() ==> pseq[i] == #[trigger] plays@[i].dv());
        assert(pseq.skip(0) =~= pseq);
    }
    let mut out: Vec<AnsibleTaskResult> = Vec::new();
    let n = plays.len();
    let mut idx: usize = 0;
    proof {
        assert(out@.map_values(|t: AnsibleTaskResult| t@) =~= Seq::<TaskResultV>::empty());
    }
    while idx < n
        invariant
            n == plays@.len(),
            idx <= n,
            pseq.len() == n,
            doc_index(doc.dv(), "plays"@) == DocV::Array(pseq),
            forall|i: int| 0 <= i < pseq.len() ==> pseq[i] == #[trigger] plays@[i].dv(),
            decode_plays_spec(pseq) == match decode_plays_spec(pseq.skip(idx as int)) {
                Ok(rest) => Ok::<Seq<TaskResultV>, Seq<char>>(
                    out@.map_values(|t: AnsibleTaskResult| t@) + rest,
                ),
                Err(e) => Err::<Seq<TaskResultV>, Seq<char>>(e),
            },
        decreases n - idx,
    {
        let ghost tail = pseq.skip(idx as int);
        proof {
            assert(tail[0] == pseq[idx as int]);
            assert(tail.drop_first() =~= pseq.skip(idx as int + 1));
        }
        let missing_inner = Doc::Missing;
        let play = &plays[idx];
        let tasks_doc = match play.get("tasks") {
            Some(d) => d,
            None => &missing_inner,
        };
        let tasks: &Vec<Doc> = match tasks_doc {
            Doc::Array(ts) => ts,
            _ => {
                let msg = String::from_str("missing tasks array");
                proof {
                    assert(decode_plays_spec(tail) == Err::<Seq<TaskResultV>, Seq<char>>(
                        "missing tasks array"@,
                    ));
                }
                return Err(msg);
            },
        };
        let ghost tseq = tasks_doc.dv()->Array_0;
        proof {
            assert(forall|i: int| 0 <= i < tseq.len() ==> tseq[i] == #[trigger] tasks@[i].dv());
        }
        let ghost before = out@;
        let m = tasks.len();
        let mut j: usize = 0;
        while j < m
            invariant
                m == tasks@.len(),
                j <= m,
                tseq.len() == m,
                forall|i: int| 0 <= i < tseq.len() ==> tseq[i] == #[trigger] tasks@[i].dv(),
                out@.len() == before.len() + j,
                out@.subrange(0, before.len() as int) == before,
                forall|i: int|
                    0 <= i < j ==> (#[trigger] out@[before.len() + i])@ == decode_task_spec(
                        tseq[i],
                    ),
            decreases m - j,
        {
            out.push(decode_task(&tasks[j]));
            proof {
                assert(out@.subrange(0, before.len() as int) =~= before);
            }
            j += 1;
        }
        proof {
            let lhs = out@.map_values(|t: AnsibleTaskResult| t@);
            let rhs = before.map_values(|t: AnsibleTaskResult| t@) + decode_tasks_spec(tseq);
            assert forall|k: int| 0 <= k < out@.len() implies lhs[k] == rhs[k] by {
                if k < before.len() {
                    assert(out@[k] == out@.subrange(0, before.len() as int)[k]);
                } else {
                    assert(out@[before.len() + (k - before.len())]@ == decode_task_spec(
                        tseq[k - before.len()],
                    ));
                }
            }
            assert(out@.map_values(|t: AnsibleTaskResult| t@) =~= before.map_values(
                |t: AnsibleTaskResult| t@,
            ) + decode_tasks_spec(tseq));
            match decode_plays_spec(tail.drop_first()) {
                Ok(rest) => {
                    let b = before.map_values(|t: AnsibleTaskResult| t@);
                    assert(b + (decode_tasks_spec(tseq) + rest) =~= (b + decode_tasks_spec(
                        tseq,
                    )) + rest);
                },
                Err(_) => {},
            }
        }
        idx += 1;
    }
    proof {
        assert(pseq.skip(n as int) =~= Seq::<DocV>::empty());
        let m = out@.map_values(|t: AnsibleTaskResult| t@);
        assert(m + Seq::<TaskResultV>::empty() =~= m);
    }
    Ok(out)
}

/// Decodes the engine's report from its JSON text. A text the parser
/// rejects yields the parser's own message; a text it accepts yields
/// exactly the decoded report of the parsed document — so a run whose
/// output is not a well-formed report is an error, never an empty result.
pub fn decode_report_text(text: &str) -> (r: Result<Vec<AnsibleTaskResult>, String>)
    ensures
        report_res_view(r) == (match load::json_doc_of(text@) {
            Err(e) => Err::<Seq<TaskResultV>, Seq<char>>(e),
            Ok(d) => decode_report_spec(d),
        }),
{
    let doc = match load::parse_json_doc(text) {
        Ok(d) => d,
        Err(e) => {
            return Err(e);
        },
    };
    decode_report(&doc)
}


/// The three environment entries that force the engine's structured-output
/// mode and disable host-key verification.
pub open spec fn forced_mode_env() -> Seq<(Seq<char>, Seq<char>)> {
    seq![
        ("ANSIBLE_CALLBACKS_ENABLED"@, "ansible.posix.json"@),
        ("ANSIBLE_STDOUT_CALLBACK"@, "ansible.posix.json"@),
        ("ANSIBLE_HOST_KEY_CHECKING"@, "False"@),
    ]
}

/// The merged engine environment: the source's own entries first, then the
/// three forced mode entries, then the control-socket directory. Applied
/// in order, a later entry overrides an earlier one of the same name.
pub open spec fn engine_env_spec(
    ctx_env: Seq<(Seq<char>, Seq<char>)>,
    control_dir: Seq<char>,
) -> Seq<(Seq<char>, Seq<char>)> {
    ctx_env + forced_mode_env() + seq![("ANSIBLE_SSH_CONTROL_PATH_DIR"@, control_dir)]
}

/// What a name resolves to once an environment list is applied in order:
/// the last entry with that name wins.
pub open spec fn env_lookup(env: Seq<(Seq<char>, Seq<char>)>, name: Seq<char>) -> Option<
    Seq<char>,
>
    decreases env.len(),
{
    if env.len() == 0 {
        None
    } else if env.last().0 == name {
        Some(env.last().1)
    } else {
        env_lookup(env.drop_last(), name)
    }
}

proof fn lemma_engine_names_distinct()
    ensures
        "ANSIBLE_CALLBACKS_ENABLED"@ != "ANSIBLE_STDOUT_CALLBACK"@,
        "ANSIBLE_CALLBACKS_ENABLED"@ != "ANSIBLE_HOST_KEY_CHECKING"@,
        "ANSIBLE_CALLBACKS_ENABLED"@ != "ANSIBLE_SSH_CONTROL_PATH_DIR"@,
        "ANSIBLE_STDOUT_CALLBACK"@ != "ANSIBLE_HOST_KEY_CHECKING"@,
        "ANSIBLE_STDOUT_CALLBACK"@ != "ANSIBLE_SSH_CONTROL_PATH_DIR"@,
        "ANSIBLE_HOST_KEY_CHECKING"@ != "ANSIBLE_SSH_CONTROL_PATH_DIR"@,
{
    reveal_strlit("ANSIBLE_CALLBACKS_ENABLED");
    reveal_strlit("ANSIBLE_STDOUT_CALLBACK");
    reveal_strlit("ANSIBLE_HOST_KEY_CHECKING");
    reveal_strlit("ANSIBLE_SSH_CONTROL_PATH_DIR");
    assert("ANSIBLE_CALLBACKS_ENABLED"@.len() == 25);
    assert("ANSIBLE_STDOUT_CALLBACK"@.len() == 23);
    assert("ANSIBLE_HOST_KEY_CHECKING"@.len() == 25);
    assert("ANSIBLE_SSH_CONTROL_PATH_DIR"@.len() == 28);
    assert("ANSIBLE_CALLBACKS_ENABLED"@[8] == 'C');
    assert("ANSIBLE_HOST_KEY_CHECKING"@[8] == 'H');
}

/// Law: in the merged engine environment, each of the three forced mode
/// names and the control-socket name resolves to its forced value, and
/// every other name resolves exactly as it does in the source's own
/// entries — a context entry such as one binding of a custom variable is
/// kept alongside the forced ones.
pub proof fn lemma_env_merge(
    ctx_env: Seq<(Seq<char>, Seq<char>)>,
    control_dir: Seq<char>,
    name: Seq<char>,
)
    ensures
        env_lookup(engine_env_spec(ctx_env, control_dir), "ANSIBLE_CALLBACKS_ENABLED"@)
            == Some("ansible.posix.json"@),
        env_lookup(engine_env_spec(ctx_env, control_dir), "ANSIBLE_STDOUT_CALLBACK"@) == Some(
            "ansible.posix.json"@,
        ),
        env_lookup(engine_env_spec(ctx_env, control_dir), "ANSIBLE_HOST_KEY_CHECKING"@)
            == Some("False"@),
        env_lookup(engine_env_spec(ctx_env, control_dir), "ANSIBLE_SSH_CONTROL_PATH_DIR"@)
            == Some(control_dir),
        (name != "ANSIBLE_CALLBACKS_ENABLED"@ && name != "ANSIBLE_STDOUT_CALLBACK"@ && name
            != "ANSIBLE_HOST_KEY_CHECKING"@ && name != "ANSIBLE_SSH_CONTROL_PATH_DIR"@)
            ==> env_lookup(engine_env_spec(ctx_env, control_dir), name) == env_lookup(
            ctx_env,
            name,
        ),
{
    lemma_engine_names_distinct();
    let merged = engine_env_spec(ctx_env, control_dir);
    let step1 = ctx_env + forced_mode_env();
    let step2 = ctx_env + seq![
        ("ANSIBLE_CALLBACKS_ENABLED"@, "ansible.posix.json"@),
        ("ANSIBLE_STDOUT_CALLBACK"@, "ansible.posix.json"@),
    ];
    let step3 = ctx_env + seq![("ANSIBLE_CALLBACKS_ENABLED"@, "ansible.posix.json"@)];
    assert(merged.last() == ("ANSIBLE_SSH_CONTROL_PATH_DIR"@, control_dir));
    assert(merged.drop_last() =~= step1);
    assert(step1.last() == ("ANSIBLE_HOST_KEY_CHECKING"@, "False"@));
    assert(step1.drop_last() =~= step2);
    assert(step2.last() == ("ANSIBLE_STDOUT_CALLBACK"@, "ansible.posix.json"@));
    assert(step2.drop_last() =~= step3);
    assert(step3.last() == ("ANSIBLE_CALLBACKS_ENABLED"@, "ansible.posix.json"@));
    assert(step3.drop_last() =~= ctx_env);
    // the control-socket name: the last entry
    assert(env_lookup(merged, "ANSIBLE_SSH_CONTROL_PATH_DIR"@) == Some(control_dir));
    // host-key checking: one step in
    assert(env_lookup(merged, "ANSIBLE_HOST_KEY_CHECKING"@) == env_lookup(
        step1,
        "ANSIBLE_HOST_KEY_CHECKING"@,
    ));
    assert(env_lookup(step1, "ANSIBLE_HOST_KEY_CHECKING"@) == Some("False"@));
    // the structured-output pair: two and three steps in
    assert(env_lookup(merged, "ANSIBLE_STDOUT_CALLBACK"@) == env_lookup(
        step1,
        "ANSIBLE_STDOUT_CALLBACK"@,
    ));
    assert(env_lookup(step1, "ANSIBLE_STDOUT_CALLBACK"@) == env_lookup(
        step2,
        "ANSIBLE_STDOUT_CALLBACK"@,
    ));
    assert(env_lookup(step2, "ANSIBLE_STDOUT_CALLBACK"@) == Some("ansible.posix.json"@));
    assert(env_lookup(merged, "ANSIBLE_CALLBACKS_ENABLED"@) == env_lookup(
        step1,
        "ANSIBLE_CALLBACKS_ENABLED"@,
    ));
    assert(env_lookup(step1, "ANSIBLE_CALLBACKS_ENABLED"@) == env_lookup(
        step2,
        "ANSIBLE_CALLBACKS_ENABLED"@,
    ));
    assert(env_lookup(step2, "ANSIBLE_CALLBACKS_ENABLED"@) == env_lookup(
        step3,
        "ANSIBLE_CALLBACKS_ENABLED"@,
    ));
    assert(env_lookup(step3, "ANSIBLE_CALLBACKS_ENABLED"@) == Some("ansible.posix.json"@));
    // any other name falls through to the source's own entries
    if name != "ANSIBLE_CALLBACKS_ENABLED"@ && name != "ANSIBLE_STDOUT_CALLBACK"@ && name
        != "ANSIBLE_HOST_KEY_CHECKING"@ && name != "ANSIBLE_SSH_CONTROL_PATH_DIR"@ {
        assert(env_lookup(merged, name) == env_lookup(step1, name));
        assert(env_lookup(step1, name) == env_lookup(step2, name));
        assert(env_lookup(step2, name) == env_lookup(step3, name));
        assert(env_lookup(step3, name) == env_lookup(ctx_env, name));
    }
}

/// Builds the merged engine environment for one invocation.
pub fn engine_env(ctx: &AnsibleContext, control_dir: &str) -> (r: Vec<(String, String)>)
    ensures
        r@.map_values(|e: (String, String)| (e.0@, e.1@)) == engine_env_spec(
            ctx@.env,
            control_dir@,
        ),
{
    let mut r: Vec<(String, String)> = Vec::new();
    let n = ctx.env.len();
    let mut i: usize = 0;
    while i < n
        invariant
            n == ctx.env@.len(),
            i <= n,
            r@.len() == i,
            forall|j: int|
                0 <= j < i ==> (#[trigger] r@[j]).0@ == ctx.env@[j].0@ && r@[j].1@
                    == ctx.env@[j].1@,
        decreases n - i,
    {
        r.push((ctx.env[i].0.clone(), ctx.env[i].1.clone()));
        i += 1;
    }
    r.push(
        (
            String::from_str("ANSIBLE_CALLBACKS_ENABLED"),
            String::from_str("ansible.posix.json"),
        ),
    );
    r.push(
        (String::from_str("ANSIBLE_STDOUT_CALLBACK"), String::from_str("ansible.posix.json")),
    );
    r.push((String::from_str("ANSIBLE_HOST_KEY_CHECKING"), String::from_str("False")));
    r.push((String::from_str("ANSIBLE_SSH_CONTROL_PATH_DIR"), String::from_str(control_dir)));
    proof {
        assert(r@.map_values(|e: (String, String)| (e.0@, e.1@)) =~= engine_env_spec(
            ctx@.env,
            control_dir@,
        ));
    }
    r
}

/// The single-host inventory line: the logical host `provisionee`, bound
/// to the local end of the reverse tunnel and the chosen username.
pub open spec fn inventory_line_spec(port: u16, username: Seq<char>) -> Seq<char> {
    "provisionee ansible_host=127.0.0.1 ansible_port="@ + util::dec_str(port as nat)
        + " ansible_user="@ + username
}

/// Writes the single-host inventory line.
pub fn inventory_line(port: u16, username: &str) -> (r: String)
    ensures
        r@ == inventory_line_spec(port, username@),
{
    let mut s = String::from_str("provisionee ansible_host=127.0.0.1 ansible_port=");
    let port_str = util::u64_to_string(port as u64);
    s.append(port_str.as_str());
    s.append(" ansible_user=");
    s.append(username);
    s
}

/// The generated wrapper play: it imports the operator-chosen playbook,
/// then resets the connection on all hosts, so that the engine tears its
/// multiplexed connection down before the harness exits.
pub open spec fn wrapper_play_spec(playbook_fullpath: Seq<char>) -> Seq<char> {
    "- ansible.builtin.import_playbook: "@ + playbook_fullpath
        + "\n- hosts: all\n  gather_facts: no\n  tasks:\n    - name: Closing connection\n      ansible.builtin.meta: reset_connection\n"@
}

/// Writes the generated wrapper play.
pub fn wrapper_play_text(playbook_fullpath: &str) -> (r: String)
    ensures
        r@ == wrapper_play_spec(playbook_fullpath@),
{
    let mut s = String::from_str("- ansible.builtin.import_playbook: ");
    s.append(playbook_fullpath);
    s.append(
        "\n- hosts: all\n  gather_facts: no\n  tasks:\n    - name: Closing connection\n      ansible.builtin.meta: reset_connection\n",
    );
    s
}

/// The engine program to run: the source's override when it has one, else
/// the engine found on the standard search path.
pub fn engine_program(ctx: &AnsibleContext) -> (r: String)
    ensures
        match ctx@.path {
            Some(p) => r@ == p,
            None => r@ == "ansible-playbook"@,
        },
{
    match &ctx.path {
        Some(p) => p.clone(),
        None => String::from_str("ansible-playbook"),
    }
}

/// Assembles the engine's captured-mode invocation: the private-key file,
/// the inventory file, the host limit restricting the run to the single
/// target, and the play to run, in the source's directory, under the
/// merged engine environment.
pub fn engine_invocation(
    source: &Source,
    key_path: &str,
    inventory_path: &str,
    play_path: &str,
    control_dir: &str,
) -> (r: Invocation)
    ensures
        (match source@.ansible.path {
            Some(p) => r@.program == p,
            None => r@.program == "ansible-playbook"@,
        }),
        r@.args == seq![
            "--private-key"@,
            key_path@,
            "-i"@,
            inventory_path@,
            "-l"@,
            "provisionee"@,
            play_path@,
        ],
        r@.cwd == source@.path,
        r@.env == engine_env_spec(source@.ansible.env, control_dir@),
        r@.engine_aware,
{
    let program = engine_program(&source.ansible);
    let mut args: Vec<String> = Vec::new();
    args.push(String::from_str("--private-key"));
    args.push(String::from_str(key_path));
    args.push(String::from_str("-i"));
    args.push(String::from_str(inventory_path));
    args.push(String::from_str("-l"));
    args.push(String::from_str("provisionee"));
    args.push(String::from_str(play_path));
    let env = engine_env(&source.ansible, control_dir);
    let r = Invocation {
        program,
        args,
        cwd: source.path.clone(),
        env,
        engine_aware: true,
    };
    proof {
        assert(r@.args =~= seq![
            "--private-key"@,
            key_path@,
            "-i"@,
            inventory_path@,
            "-l"@,
            "provisionee"@,
            play_path@,
        ]);
    }
    r
}

/// Assembles the best-effort request that closes one leftover multiplexed
/// connection through its control socket.
pub fn control_close_invocation(socket_path: &str, cwd: &String) -> (r: Invocation)
    ensures
        r@.program == "ssh"@,
        r@.args == seq!["-O"@, "exit"@, "-S"@, socket_path@, "provisionee"@],
        r@.cwd == cwd@,
        r@.env == Seq::<(Seq<char>, Seq<char>)>::empty(),
        !r@.engine_aware,
{
    let mut args: Vec<String> = Vec::new();
    args.push(String::from_str("-O"));
    args.push(String::from_str("exit"));
    args.push(String::from_str("-S"));
    args.push(String::from_str(socket_path));
    args.push(String::from_str("provisionee"));
    let r = Invocation {
        program: String::from_str("ssh"),
        args,
        cwd: cwd.clone(),
        env: Vec::new(),
        engine_aware: false,
    };
    proof {
        assert(r@.args =~= seq!["-O"@, "exit"@, "-S"@, socket_path@, "provisionee"@]);
        assert(r@.env =~= Seq::<(Seq<char>, Seq<char>)>::empty());
    }
    r
}

} // verus!

