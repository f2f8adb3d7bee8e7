use setmeup::config::Config;

fn expected_error_raised(yaml_text: &str, error_substr: &str) -> Result<(), String> {
    match Config::parse(yaml_text) {
        Ok(_) => Err("no error raised".to_string()),
        Err(e) => match e.find(error_substr) {
            Some(_) => Ok(()),
            None => Err(format!("wrong error message: {}", e)),
        },
    }
}

fn expect_parse_ok(yaml_text: &str) -> Result<Config, String> {
    match Config::parse(yaml_text) {
        Ok(c) => Ok(c),
        Err(e) => Err(format!("unexpected error: {}", e)),
    }
}

#[test]
fn test_empty_yaml_ko() -> Result<(), String> {
    expected_error_raised("", "single-document")
}

#[test]
fn test_invalid_yaml_ko() -> Result<(), String> {
    expected_error_raised("sources: [ {", "")
}

#[test]
fn test_missing_sources_ko() -> Result<(), String> {
    expected_error_raised("other: value\n", "missing or empty sources")
}

#[test]
fn test_empty_sources_ko() -> Result<(), String> {
    expected_error_raised("sources:\n", "missing or empty sources")
}

#[test]
fn test_parse_int_source_name_ko() -> Result<(), String> {
    expected_error_raised("sources:\n  1:\n    path: /tmp\n", "expected string as source name")
}

#[test]
fn test_local_no_path_ko() -> Result<(), String> {
    expected_error_raised("sources:\n  foo:\n    recurse: false\n", "missing path parameter")
}

#[test]
fn test_local_non_string_path_ko() -> Result<(), String> {
    expected_error_raised("sources:\n  foo:\n    path: 7\n", "expected string for the path")
}

#[test]
fn test_local_non_dir_path_ko() -> Result<(), String> {
    expected_error_raised(
        "sources:\n  foo:\n    path: /nonexistent_provisioning_dir\n",
        "failed to read",
    )
}

#[test]
fn test_non_boolean_recurse_ko() -> Result<(), String> {
    expected_error_raised(
        "sources:\n  foo:\n    path: /tmp\n    recurse: 3\n",
        "expected boolean for the recurse",
    )
}

#[test]
fn test_non_string_playbook_match_ko() -> Result<(), String> {
    expected_error_raised(
        "sources:\n  foo:\n    path: /tmp\n    playbook_match: 3\n",
        "expected string for the playbook_match",
    )
}

#[test]
fn test_invalid_playbook_match_ko() -> Result<(), String> {
    expected_error_raised("sources:\n  foo:\n    path: /tmp\n    playbook_match: \"[\"\n", "")
}

#[test]
fn test_local_ok() -> Result<(), String> {
    let c = expect_parse_ok("sources:\n  foo:\n    path: /tmp\n")?;

    if c.sources.len() != 1 {
        return Err("did not fetch exactly one source".to_string());
    }

    if c.sources[0].name != "foo" {
        return Err("failed to parse source name".to_string());
    }

    if c.sources[0].recurse {
        return Err("recursing although we should not".to_string());
    }

    if !c.sources[0].playbook_match.is_match("test.yml") {
        return Err("failed to match a .yml file with the default REGEX".to_string());
    }

    if c.sources[0].playbook_match.is_match("test.txt") {
        return Err("matched a .txt file with the default REGEX".to_string());
    }

    if let Some(_) = c.sources[0].pre_provision {
        return Err("unexpected pre_provision command".to_string());
    }

    match c.sources[0].path.as_str() == "/tmp" {
        true => Ok(()),
        false => Err("failed to parse /tmp as the path".to_string()),
    }
}

#[test]
fn test_recurse_ok() -> Result<(), String> {
    let c = expect_parse_ok("sources:\n  foo:\n    path: /tmp\n    recurse: true\n")?;
    match c.sources[0].recurse {
        true => Ok(()),
        false => Err("failed to parse positive recurse parameter".to_string()),
    }
}

#[test]
fn test_non_string_pre_provision_ko() -> Result<(), String> {
    expected_error_raised(
        "sources:\n  foo:\n    path: /tmp\n    pre_provision: 3\n",
        "expected string for the pre_provision",
    )
}

#[test]
fn test_pre_provision_ok() -> Result<(), String> {
    let c = expect_parse_ok("sources:\n  foo:\n    path: /tmp\n    pre_provision: /bin/true\n")?;
    match &c.sources[0].pre_provision {
        Some(s) => {
            if s == "/bin/true" {
                Ok(())
            } else {
                Err("wrong pre_provision value".to_string())
            }
        },
        None => Err("failed to parse pre_provision parameter".to_string()),
    }
}

#[test]
fn test_empty_ansible_playbook_ok() -> Result<(), String> {
    let c = expect_parse_ok("sources:\n  foo:\n    path: /tmp\n")?;

    if let Some(_) = c.sources[0].ansible.path {
        return Err("stored an ansible-playbook as the default".to_string());
    }

    if c.sources[0].ansible.env.len() > 0 {
        return Err("stored environment variables as defaults".to_string());
    }

    Ok(())
}

#[test]
fn test_ansible_playbook_non_string_path_ko() -> Result<(), String> {
    expected_error_raised(
        "sources:\n  foo:\n    path: /tmp\n    ansible_playbook:\n      path: 3\n",
        "expected string for the ansible-playbook path",
    )
}

#[test]
fn test_ansible_playbook_non_existent_path_ko() -> Result<(), String> {
    expected_error_raised(
        "sources:\n  foo:\n    path: /tmp\n    ansible_playbook:\n      path: /nonexistent_engine\n",
        "no executable ansible-playbook at",
    )
}

#[test]
fn test_ansible_playbook_non_executable_path_ko() -> Result<(), String> {
    let plain_file = tempfile::NamedTempFile::new().map_err(|e| e.to_string())?;
    let yaml = format!(
        "sources:\n  foo:\n    path: /tmp\n    ansible_playbook:\n      path: {}\n",
        plain_file.path().to_str().unwrap()
    );
    expected_error_raised(&yaml, "no executable ansible-playbook at")
}

#[test]
fn test_ansible_playbook_path_ok() -> Result<(), String> {
    let c = expect_parse_ok(
        "sources:\n  foo:\n    path: /tmp\n    ansible_playbook:\n      path: /bin/true\n",
    )?;
    match &c.sources[0].ansible.path {
        Some(p) => match p.as_str() {
            "/bin/true" => Ok(()),
            _ => Err("parsed the wrong ansible-playbook path".to_string()),
        },
        None => Err("failed to parse the ansible-playbook path".to_string()),
    }
}

#[test]
fn test_ansible_playbook_non_list_env_ko() -> Result<(), String> {
    expected_error_raised(
        "sources:\n  foo:\n    path: /tmp\n    ansible_playbook:\n      env: 3\n",
        "expected list for the ansible-playbook env",
    )
}

#[test]
fn test_ansible_playbook_no_name_env_ko() -> Result<(), String> {
    expected_error_raised(
        "sources:\n  foo:\n    path: /tmp\n    ansible_playbook:\n      env:\n        - value: bar\n",
        "missing name property",
    )
}

#[test]
fn test_ansible_playbook_non_string_env_name_ko() -> Result<(), String> {
    expected_error_raised(
        "sources:\n  foo:\n    path: /tmp\n    ansible_playbook:\n      env:\n        - name: 3\n          value: bar\n",
        "non-string name property",
    )
}

#[test]
fn test_ansible_playbook_no_value_env_ko() -> Result<(), String> {
    expected_error_raised(
        "sources:\n  foo:\n    path: /tmp\n    ansible_playbook:\n      env:\n        - name: FOO\n",
        "missing value property",
    )
}

#[test]
fn test_ansible_playbook_non_string_env_value_ko() -> Result<(), String> {
    expected_error_raised(
        "sources:\n  foo:\n    path: /tmp\n    ansible_playbook:\n      env:\n        - name: FOO\n          value: 3\n",
        "non-string value property",
    )
}

#[test]
fn test_ansible_playbook_env_ok() -> Result<(), String> {
    let c = expect_parse_ok(
        "sources:\n  foo:\n    path: /tmp\n    ansible_playbook:\n      env:\n        - name: FOO\n          value: bar\n",
    )?;
    match c.sources[0].ansible.env.len() {
        1 => Ok(()),
        _ => Err(format!(
            "parsed {} environment variables instead of 1",
            c.sources[0].ansible.env.len()
        )),
    }
}

#[test]
fn test_round_trip_reconstructs_fields() -> Result<(), String> {
    let c = expect_parse_ok(
        "sources:\n  foo:\n    path: /tmp\n    recurse: true\n    playbook_match: \"\\\\.yml$\"\n    pre_provision: /bin/true\n    ansible_playbook:\n      path: /bin/true\n      env:\n        - name: FOO\n          value: bar\n",
    )?;
    let source = &c.sources[0];
    let doc = source.serialize();
    let reparsed = setmeup::sources::Source::parse("foo".to_string(), &doc)
        .map_err(|e| format!("re-parse failed: {}", e))?;
    assert_eq!(reparsed.name, source.name);
    assert_eq!(reparsed.path, source.path);
    assert_eq!(reparsed.recurse, source.recurse);
    assert_eq!(reparsed.playbook_match.raw_str(), source.playbook_match.raw_str());
    assert_eq!(reparsed.pre_provision, source.pre_provision);
    assert_eq!(reparsed.ansible.path, source.ansible.path);
    assert_eq!(reparsed.ansible.env, source.ansible.env);
    Ok(())
}
