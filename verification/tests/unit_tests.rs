use setmeup::ansible::{
    decode_report, decode_report_text, decode_task, engine_env, engine_invocation,
    inventory_line, wrapper_play_text, AnsibleTaskResult,
};
use setmeup::config::Config;
use setmeup::doc::Doc;
use setmeup::exec::{interpret_captured, interpret_interactive, shell};
use setmeup::pattern::Pattern;
use setmeup::setup::{
    parse_port, step, BindOutcome, Bootstrap, BootstrapAction, BootstrapEvent, PortParseError,
    Setup,
};
use setmeup::sources::{AnsibleContext, Source};
use setmeup::ui::{BasicInterface, TTYInterface};
use setmeup::util::{parse_index_choice, u64_to_string};

fn report(tasks_json: &str) -> String {
    format!("{{\"plays\": [{{\"tasks\": [{}]}}]}}", tasks_json)
}

fn single_task(report_json: &str) -> AnsibleTaskResult {
    let mut tasks = decode_report_text(report_json).expect("the report should decode");
    assert_eq!(tasks.len(), 1);
    tasks.remove(0)
}

#[test]
fn unreachable_overrides_failed() {
    let t = single_task(&report(
        "{\"task\": {\"name\": \"t\"}, \"hosts\": {\"provisionee\": {\"unreachable\": true, \"failed\": true}}}",
    ));
    assert!(t.success);
}

#[test]
fn failed_alone_is_failure() {
    let t = single_task(&report(
        "{\"task\": {\"name\": \"t\"}, \"hosts\": {\"provisionee\": {\"failed\": true, \"msg\": \"boom\"}}}",
    ));
    assert!(!t.success);
    assert_eq!(t.message, "boom");
}

#[test]
fn missing_msg_and_name_default() {
    let t = single_task(&report("{\"hosts\": {\"provisionee\": {\"failed\": false}}}"));
    assert_eq!(t.message, "no details");
    assert_eq!(t.name, "unnamed task");
    assert!(t.success);
    assert!(!t.changed);
}

#[test]
fn changed_flag_carries_over() {
    let t = single_task(&report(
        "{\"task\": {\"name\": \"t\"}, \"hosts\": {\"provisionee\": {\"changed\": true}}}",
    ));
    assert!(t.changed);
}

#[test]
fn tasks_flatten_across_plays() {
    let json = "{\"plays\": [{\"tasks\": [{\"task\": {\"name\": \"a\"}, \"hosts\": {}}, {\"task\": {\"name\": \"b\"}, \"hosts\": {}}]}, {\"tasks\": [{\"task\": {\"name\": \"c\"}, \"hosts\": {}}]}]}";
    let tasks = decode_report_text(json).expect("the report should decode");
    let names: Vec<&str> = tasks.iter().map(|t| t.name.as_str()).collect();
    assert_eq!(names, vec!["a", "b", "c"]);
}

#[test]
fn missing_plays_is_hard_error() {
    match decode_report_text("{\"stats\": {}}") {
        Err(e) => assert!(e.contains("missing plays array")),
        Ok(_) => panic!("a report without plays decoded"),
    }
}

#[test]
fn missing_tasks_is_hard_error() {
    match decode_report_text("{\"plays\": [{\"name\": \"p\"}]}") {
        Err(e) => assert!(e.contains("missing tasks array")),
        Ok(_) => panic!("a play without tasks decoded"),
    }
}

#[test]
fn malformed_json_is_parser_error() {
    assert!(decode_report_text("{\"plays\": [").is_err());
}

#[test]
fn decode_task_direct() {
    let t = decode_task(&Doc::Mapping(vec![]));
    assert_eq!(t.name, "unnamed task");
    assert_eq!(t.message, "no details");
    assert!(t.success);
}

#[test]
fn decode_report_direct_missing_plays() {
    assert!(decode_report(&Doc::Bool(true)).is_err());
}

#[test]
fn merged_env_keeps_context_alongside_forced() {
    let ctx = AnsibleContext {
        path: None,
        env: vec![("FOO".to_string(), "bar".to_string())],
    };
    let env = engine_env(&ctx, "/tmp/control");
    assert!(env.iter().any(|e| e.0 == "FOO" && e.1 == "bar"));
    assert!(env.iter().any(|e| e.0 == "ANSIBLE_CALLBACKS_ENABLED" && e.1 == "ansible.posix.json"));
    assert!(env.iter().any(|e| e.0 == "ANSIBLE_STDOUT_CALLBACK" && e.1 == "ansible.posix.json"));
    assert!(env.iter().any(|e| e.0 == "ANSIBLE_HOST_KEY_CHECKING" && e.1 == "False"));
    assert!(env.iter().any(|e| e.0 == "ANSIBLE_SSH_CONTROL_PATH_DIR" && e.1 == "/tmp/control"));
    assert_eq!(env.len(), 5);
}

#[test]
fn engine_invocation_shape() {
    let source = Source::new(
        "foo".to_string(),
        "/tmp".to_string(),
        false,
        Pattern::default_filter(),
        None,
        AnsibleContext::default(),
    );
    let inv = engine_invocation(&source, "/run/key", "/run/inventory", "/run/play.yml", "/run/ctl");
    assert_eq!(inv.program, "ansible-playbook");
    assert_eq!(
        inv.args,
        vec![
            "--private-key".to_string(),
            "/run/key".to_string(),
            "-i".to_string(),
            "/run/inventory".to_string(),
            "-l".to_string(),
            "provisionee".to_string(),
            "/run/play.yml".to_string(),
        ]
    );
    assert_eq!(inv.cwd, "/tmp");
    assert!(inv.engine_aware);
}

#[test]
fn engine_invocation_uses_override() {
    let source = Source::new(
        "foo".to_string(),
        "/tmp".to_string(),
        false,
        Pattern::default_filter(),
        None,
        AnsibleContext { path: Some("/bin/true".to_string()), env: vec![] },
    );
    let inv = engine_invocation(&source, "k", "i", "p", "c");
    assert_eq!(inv.program, "/bin/true");
}

#[test]
fn inventory_line_exact() {
    assert_eq!(
        inventory_line(2222, "deploy"),
        "provisionee ansible_host=127.0.0.1 ansible_port=2222 ansible_user=deploy"
    );
}

#[test]
fn wrapper_play_exact() {
    let text = wrapper_play_text("/srv/playbooks/site.yml");
    assert_eq!(
        text,
        "- ansible.builtin.import_playbook: /srv/playbooks/site.yml\n- hosts: all\n  gather_facts: no\n  tasks:\n    - name: Closing connection\n      ansible.builtin.meta: reset_connection\n"
    );
}

#[test]
fn captured_success_returns_stdout() {
    let r = interpret_captured(true, true, "out".to_string(), "err".to_string());
    assert_eq!(r, Ok("out".to_string()));
}

#[test]
fn captured_engine_failure_with_report_is_success() {
    let r = interpret_captured(true, false, "{\"plays\": []}".to_string(), "err".to_string());
    assert_eq!(r, Ok("{\"plays\": []}".to_string()));
}

#[test]
fn captured_engine_failure_without_report_is_error() {
    let r = interpret_captured(true, false, "broken".to_string(), "err".to_string());
    assert_eq!(r, Err("broken\nerr".to_string()));
}

#[test]
fn captured_plain_failure_combines_streams() {
    let r = interpret_captured(false, false, "{not a report".to_string(), "err".to_string());
    assert_eq!(r, Err("{not a report\nerr".to_string()));
}

#[test]
fn interactive_failure_reports_status() {
    assert_eq!(interpret_interactive("prog", true, "0"), Ok(()));
    assert_eq!(
        interpret_interactive("prog", false, "exit status: 2"),
        Err("prog exited with non-zero status code exit status: 2".to_string())
    );
}

#[test]
fn shell_invocation_shape() {
    let inv = shell(&"echo hi".to_string(), &"/tmp".to_string(), vec![]);
    assert_eq!(inv.program, "sh");
    assert_eq!(inv.args, vec!["-c".to_string(), "echo hi".to_string()]);
    assert_eq!(inv.cwd, "/tmp");
    assert!(!inv.engine_aware);
}

#[test]
fn port_parse_cases() {
    assert_eq!(parse_port("2222"), Ok(2222));
    assert_eq!(parse_port("+80"), Ok(80));
    assert_eq!(parse_port("65535"), Ok(65535));
    assert_eq!(parse_port(""), Err(PortParseError::EmptyInput));
    assert_eq!(parse_port("+"), Err(PortParseError::InvalidDigit));
    assert_eq!(parse_port("12a"), Err(PortParseError::InvalidDigit));
    assert_eq!(parse_port("65536"), Err(PortParseError::TooLarge));
    assert_eq!(parse_port("-1"), Err(PortParseError::InvalidDigit));
}

#[test]
fn port_probe_decision() {
    assert!(Setup::port_is_bound(&BindOutcome::AddrInUse));
    assert!(!Setup::port_is_bound(&BindOutcome::Bound));
    assert!(!Setup::port_is_bound(&BindOutcome::OtherError));
}

#[test]
fn bootstrap_happy_path() {
    let out = step(Bootstrap::AwaitPort, BootstrapEvent::Line { input: "2222".to_string() });
    assert!(matches!(out.action, BootstrapAction::ProbePort { port: 2222 }));
    assert!(out.notice.is_none());

    let out = step(out.state, BootstrapEvent::ProbeResult { bound: true });
    assert!(matches!(out.action, BootstrapAction::GenerateKey));

    let keypair = osshkeys::KeyPair::generate(osshkeys::KeyType::ECDSA, 0)
        .expect("key generation should work");
    let pubkey = keypair.serialize_publickey().expect("public key should encode");
    let out = step(out.state, BootstrapEvent::KeyReady { keypair, pubkey: pubkey.clone() });
    assert!(matches!(out.action, BootstrapAction::AskUsername));

    let out = step(out.state, BootstrapEvent::Line { input: "deploy".to_string() });
    match &out.action {
        BootstrapAction::PresentKey { username, pubkey: pk } => {
            assert_eq!(username, "deploy");
            assert_eq!(pk, &pubkey);
        },
        other => panic!("unexpected action: {:?}", action_name(other)),
    }

    let out = step(out.state, BootstrapEvent::Line { input: "".to_string() });
    match &out.action {
        BootstrapAction::RunHandshake { port, username } => {
            assert_eq!(*port, 2222);
            assert_eq!(username, "deploy");
        },
        other => panic!("unexpected action: {:?}", action_name(other)),
    }

    let out = step(out.state, BootstrapEvent::HandshakeResult { error: None });
    assert!(matches!(out.action, BootstrapAction::Done));
    match out.state {
        Bootstrap::Complete { setup } => {
            assert_eq!(setup.reverse_port, 2222);
            assert_eq!(setup.credentials.username, "deploy");
        },
        _ => panic!("the bootstrap did not complete"),
    }
}

fn action_name(a: &BootstrapAction) -> &'static str {
    match a {
        BootstrapAction::AskPort => "AskPort",
        BootstrapAction::ProbePort { .. } => "ProbePort",
        BootstrapAction::GenerateKey => "GenerateKey",
        BootstrapAction::AskUsername => "AskUsername",
        BootstrapAction::PresentKey { .. } => "PresentKey",
        BootstrapAction::RunHandshake { .. } => "RunHandshake",
        BootstrapAction::Fail { .. } => "Fail",
        BootstrapAction::Done => "Done",
    }
}

#[test]
fn bootstrap_rejects_bad_port_entry() {
    let out = step(Bootstrap::AwaitPort, BootstrapEvent::Line { input: "abc".to_string() });
    assert!(matches!(out.action, BootstrapAction::AskPort));
    assert_eq!(
        out.notice.unwrap(),
        "Invalid port specification \"abc\" (invalid digit found in string)"
    );
}

#[test]
fn bootstrap_rejects_unbound_port() {
    let out = step(
        Bootstrap::AwaitProbe { port: 2222 },
        BootstrapEvent::ProbeResult { bound: false },
    );
    assert!(matches!(out.state, Bootstrap::AwaitPort));
    assert_eq!(out.notice.unwrap(), "Port is not bound locally: 2222");
}

#[test]
fn bootstrap_rejects_empty_username() {
    let keypair = osshkeys::KeyPair::generate(osshkeys::KeyType::ECDSA, 0)
        .expect("key generation should work");
    let out = step(
        Bootstrap::AwaitUsername { port: 22, keypair, pubkey: "PUB".to_string() },
        BootstrapEvent::Line { input: "".to_string() },
    );
    assert!(matches!(out.state, Bootstrap::AwaitUsername { .. }));
    assert_eq!(out.notice.unwrap(), "The username cannot be empty");
}

#[test]
fn bootstrap_handshake_failure_keeps_key_and_clears_username() {
    let keypair = osshkeys::KeyPair::generate(osshkeys::KeyType::ECDSA, 0)
        .expect("key generation should work");
    let pub_before = keypair.serialize_publickey().expect("public key should encode");
    let out = step(
        Bootstrap::AwaitHandshake {
            port: 22,
            keypair,
            pubkey: pub_before.clone(),
            username: "deploy".to_string(),
        },
        BootstrapEvent::HandshakeResult { error: Some("denied".to_string()) },
    );
    assert_eq!(out.notice.unwrap(), "Authentication test failed: denied");
    assert!(matches!(out.action, BootstrapAction::AskUsername));
    match out.state {
        Bootstrap::AwaitUsername { port, keypair, pubkey } => {
            assert_eq!(port, 22);
            assert_eq!(pubkey, pub_before);
            let pub_after = keypair.serialize_publickey().expect("public key should encode");
            assert_eq!(pub_after, pub_before);
        },
        _ => panic!("the handshake failure did not return to the username prompt"),
    }
}

#[test]
fn bootstrap_key_failure_is_fatal() {
    let out = step(
        Bootstrap::AwaitKey { port: 22 },
        BootstrapEvent::KeyFailure { message: "failed to generate keypair: boom".to_string() },
    );
    match out.action {
        BootstrapAction::Fail { message } => {
            assert_eq!(message, "failed to generate keypair: boom");
        },
        _ => panic!("a key failure did not end the run"),
    }
}

#[test]
fn decimal_rendering_exact() {
    assert_eq!(u64_to_string(0), "0");
    assert_eq!(u64_to_string(7), "7");
    assert_eq!(u64_to_string(65535), "65535");
    assert_eq!(u64_to_string(1000000), "1000000");
}

#[test]
fn index_choice_cases() {
    assert_eq!(parse_index_choice("1", 3), Some(0));
    assert_eq!(parse_index_choice("3", 3), Some(2));
    assert_eq!(parse_index_choice("+2", 3), Some(1));
    assert_eq!(parse_index_choice("0", 3), None);
    assert_eq!(parse_index_choice("4", 3), None);
    assert_eq!(parse_index_choice("", 3), None);
    assert_eq!(parse_index_choice("x", 3), None);
    assert_eq!(parse_index_choice("99999999999999999999999999", 3), None);
}

#[test]
fn pattern_compile_and_match() {
    assert!(Pattern::new("[".to_string()).is_err());
    let p = Pattern::new("^ab+c$".to_string()).expect("pattern should compile");
    assert!(p.is_match("abbc"));
    assert!(!p.is_match("ac"));
    assert_eq!(p.raw_str(), "^ab+c$");
}

#[test]
fn config_parse_text_rejects_two_documents() {
    match Config::parse("---\nsources:\n  a:\n    path: /tmp\n---\nother: 1\n") {
        Err(e) => assert!(e.contains("single-document")),
        Ok(_) => panic!("a two-document text parsed"),
    }
}

#[test]
fn render_lines() {
    let ok_task = AnsibleTaskResult {
        name: "install".to_string(),
        success: true,
        changed: false,
        message: "no details".to_string(),
    };
    let basic = BasicInterface;
    assert_eq!(basic.render_task_line(&ok_task), "`- [OK] install");
    assert_eq!(basic.error_line("boom"), "/!\\ boom");
    let changed_task = AnsibleTaskResult { changed: true, ..ok_task };
    assert_eq!(basic.render_task_line(&changed_task), "`- [OK] (change) install");
    let tty = TTYInterface;
    let line = tty.render_task_line(&changed_task);
    assert!(line.contains("OK"));
    assert!(line.contains("install"));
    assert_eq!(tty.error_line("boom"), "\u{1b}[1m\u{1b}[38;5;1mboom\u{1b}[m");
}

