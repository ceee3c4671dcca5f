use gh_sizer::enums::OutputDestination;
use gh_sizer::enums::OutputFormat;
use gh_sizer::enums::ScriptType;
use gh_sizer::script::generate;
use gh_sizer::script::ConfigError;

fn repos(names: &[&str]) -> Vec<String> {
    names.iter().map(|n| n.to_string()).collect()
}

#[test]
fn generates_posix_file_script_for_two_repositories() {
    let script = generate(
        "acme",
        &repos(&["alpha", "beta"]),
        ScriptType::Bash,
        OutputDestination::File,
        OutputFormat::Text,
        "output",
        "${repository}.txt",
        "gh sizer",
    )
    .unwrap();
    let expected = "#!/bin/bash\n\
        mkdir -p \"output\"\n\
        gh sizer repo \"acme/alpha\" --output-format text > \"output/alpha.txt\"\n\
        gh sizer repo \"acme/beta\" --output-format text > \"output/beta.txt\"\n";
    assert_eq!(script, expected);
}

#[test]
fn generates_powershell_file_script_for_two_repositories() {
    let script = generate(
        "acme",
        &repos(&["alpha", "beta"]),
        ScriptType::Powershell,
        OutputDestination::File,
        OutputFormat::Text,
        "output",
        "${repository}.txt",
        "gh sizer",
    )
    .unwrap();
    let expected = "#!/usr/bin/env pwsh\n\
        New-Item -ItemType Directory -Force -Path \"output\" | Out-Null\n\
        gh sizer repo \"acme/alpha\" --output-format text | Out-File -FilePath \"output\\alpha.txt\"\n\
        gh sizer repo \"acme/beta\" --output-format text | Out-File -FilePath \"output\\beta.txt\"\n";
    assert_eq!(script, expected);
}

#[test]
fn emits_one_statement_per_repository_in_order() {
    let script = generate(
        "acme",
        &repos(&["one", "two", "three"]),
        ScriptType::Bash,
        OutputDestination::Stdout,
        OutputFormat::Text,
        "output",
        "${repository}.txt",
        "gh sizer",
    )
    .unwrap();
    let lines: Vec<&str> = script.lines().collect();
    assert_eq!(lines.len(), 4);
    assert_eq!(lines[0], "#!/bin/bash");
    assert!(lines[1].contains("\"acme/one\""));
    assert!(lines[2].contains("\"acme/two\""));
    assert!(lines[3].contains("\"acme/three\""));
}

#[test]
fn stdout_destination_has_no_redirection() {
    for script_type in [ScriptType::Bash, ScriptType::Powershell] {
        let script = generate(
            "acme",
            &repos(&["alpha", "beta"]),
            script_type,
            OutputDestination::Stdout,
            OutputFormat::Json,
            "output",
            "${repository}.txt",
            "gh sizer",
        )
        .unwrap();
        for line in script.lines() {
            assert!(!line.contains('>'), "unexpected redirection in {line:?}");
            assert!(!line.contains('|'), "unexpected redirection in {line:?}");
        }
    }
}

#[test]
fn file_destination_redirects_each_statement_exactly_once() {
    let script = generate(
        "acme",
        &repos(&["alpha", "beta"]),
        ScriptType::Bash,
        OutputDestination::File,
        OutputFormat::Text,
        "results",
        "${owner}-${repository}.txt",
        "gh sizer",
    )
    .unwrap();
    let lines: Vec<&str> = script.lines().collect();
    assert_eq!(lines.len(), 4);
    for line in &lines[2..] {
        assert_eq!(line.matches('>').count(), 1, "in {line:?}");
    }
    assert!(lines[2].ends_with("> \"results/acme-alpha.txt\""));
    assert!(lines[3].ends_with("> \"results/acme-beta.txt\""));
}

#[test]
fn generation_is_deterministic() {
    let repositories = repos(&["alpha", "beta", "gamma"]);
    let first = generate(
        "acme",
        &repositories,
        ScriptType::Powershell,
        OutputDestination::File,
        OutputFormat::Json,
        "out",
        "${repository}.json",
        "gh sizer",
    )
    .unwrap();
    let second = generate(
        "acme",
        &repositories,
        ScriptType::Powershell,
        OutputDestination::File,
        OutputFormat::Json,
        "out",
        "${repository}.json",
        "gh sizer",
    )
    .unwrap();
    assert_eq!(first, second);
}

#[test]
fn filename_template_with_path_separator_is_rejected() {
    for script_type in [ScriptType::Bash, ScriptType::Powershell] {
        for destination in [OutputDestination::File, OutputDestination::Stdout] {
            let result = generate(
                "acme",
                &repos(&["alpha"]),
                script_type,
                destination,
                OutputFormat::Text,
                "output",
                "foo/${repository}.txt",
                "gh sizer",
            );
            assert_eq!(result, Err(ConfigError::InvalidFilenameTemplate));
        }
    }
}

#[test]
fn filename_template_with_backslash_is_rejected() {
    let result = generate(
        "acme",
        &repos(&[]),
        ScriptType::Bash,
        OutputDestination::File,
        OutputFormat::Text,
        "output",
        "foo\\${repository}.txt",
        "gh sizer",
    );
    assert_eq!(result, Err(ConfigError::InvalidFilenameTemplate));
}

#[test]
fn placeholders_do_not_hide_a_separator_free_filename() {
    let result = generate(
        "acme",
        &repos(&["alpha"]),
        ScriptType::Bash,
        OutputDestination::File,
        OutputFormat::Text,
        "output",
        "${owner}-${repository}.size",
        "gh sizer",
    );
    assert!(result.is_ok());
}

#[test]
fn empty_repository_list_yields_header_only_for_stdout() {
    let script = generate(
        "acme",
        &repos(&[]),
        ScriptType::Bash,
        OutputDestination::Stdout,
        OutputFormat::Text,
        "output",
        "${repository}.txt",
        "gh sizer",
    )
    .unwrap();
    assert_eq!(script, "#!/bin/bash\n");
}

#[test]
fn empty_repository_list_yields_header_and_preamble_for_file() {
    let script = generate(
        "acme",
        &repos(&[]),
        ScriptType::Powershell,
        OutputDestination::File,
        OutputFormat::Text,
        "output",
        "${repository}.txt",
        "gh sizer",
    )
    .unwrap();
    assert_eq!(
        script,
        "#!/usr/bin/env pwsh\nNew-Item -ItemType Directory -Force -Path \"output\" | Out-Null\n"
    );
}

#[test]
fn switching_dialect_keeps_repository_set_and_order() {
    let repositories = repos(&["first-repo", "second-repo"]);
    let bash = generate(
        "acme",
        &repositories,
        ScriptType::Bash,
        OutputDestination::File,
        OutputFormat::Text,
        "output",
        "${repository}.txt",
        "gh sizer",
    )
    .unwrap();
    let powershell = generate(
        "acme",
        &repositories,
        ScriptType::Powershell,
        OutputDestination::File,
        OutputFormat::Text,
        "output",
        "${repository}.txt",
        "gh sizer",
    )
    .unwrap();
    let bash_lines: Vec<&str> = bash.lines().collect();
    let powershell_lines: Vec<&str> = powershell.lines().collect();
    assert_eq!(bash_lines.len(), powershell_lines.len());
    let invocation = "gh sizer repo \"acme/first-repo\" --output-format text";
    assert!(bash_lines[2].starts_with(invocation));
    assert!(powershell_lines[2].starts_with(invocation));
    let invocation = "gh sizer repo \"acme/second-repo\" --output-format text";
    assert!(bash_lines[3].starts_with(invocation));
    assert!(powershell_lines[3].starts_with(invocation));
}

#[test]
fn json_format_is_passed_on_each_invocation_line() {
    let script = generate(
        "acme",
        &repos(&["alpha"]),
        ScriptType::Bash,
        OutputDestination::Stdout,
        OutputFormat::Json,
        "output",
        "${repository}.txt",
        "gh sizer",
    )
    .unwrap();
    assert_eq!(script, "#!/bin/bash\ngh sizer repo \"acme/alpha\" --output-format json\n");
}

#[test]
fn command_template_is_used_verbatim() {
    let script = generate(
        "acme",
        &repos(&["alpha"]),
        ScriptType::Bash,
        OutputDestination::Stdout,
        OutputFormat::Text,
        "output",
        "${repository}.txt",
        "cargo run --",
    )
    .unwrap();
    assert_eq!(script, "#!/bin/bash\ncargo run -- repo \"acme/alpha\" --output-format text\n");
}

#[test]
fn output_directory_is_used_as_given() {
    let script = generate(
        "acme",
        &repos(&["alpha"]),
        ScriptType::Bash,
        OutputDestination::File,
        OutputFormat::Text,
        "output/directory",
        "${repository}.txt",
        "gh sizer",
    )
    .unwrap();
    let lines: Vec<&str> = script.lines().collect();
    assert_eq!(lines[1], "mkdir -p \"output/directory\"");
    assert!(lines[2].ends_with("> \"output/directory/alpha.txt\""));
}
