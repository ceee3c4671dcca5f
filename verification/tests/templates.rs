use gh_sizer::enums::OutputFormat;
use gh_sizer::enums::ScriptType;
use gh_sizer::template::quote;
use gh_sizer::template::resolve;

#[test]
fn resolves_both_placeholders() {
    let resolved = resolve("${owner}/${repository}.txt", "acme", "alpha");
    assert_eq!(resolved, "acme/alpha.txt");
}

#[test]
fn resolves_repeated_placeholders() {
    let resolved = resolve("${repository}-${repository}", "acme", "alpha");
    assert_eq!(resolved, "alpha-alpha");
}

#[test]
fn leaves_unrecognized_tokens_verbatim() {
    let resolved = resolve("${org}/${repository}", "acme", "alpha");
    assert_eq!(resolved, "${org}/alpha");
}

#[test]
fn does_not_rescan_substituted_values() {
    let resolved = resolve("${owner}", "${repository}", "alpha");
    assert_eq!(resolved, "${repository}");
}

#[test]
fn resolves_empty_template_to_empty_string() {
    let resolved = resolve("", "acme", "alpha");
    assert_eq!(resolved, "");
}

#[test]
fn keeps_template_without_placeholders() {
    let resolved = resolve("fixed-name.txt", "acme", "alpha");
    assert_eq!(resolved, "fixed-name.txt");
}

#[test]
fn resolves_with_empty_values() {
    let resolved = resolve("a${owner}b${repository}c", "", "");
    assert_eq!(resolved, "abc");
}

#[test]
fn partial_placeholder_is_kept() {
    let resolved = resolve("${owner", "acme", "alpha");
    assert_eq!(resolved, "${owner");
}

#[test]
fn quote_wraps_in_double_quotes() {
    assert_eq!(quote("acme/alpha"), "\"acme/alpha\"");
    assert_eq!(quote(""), "\"\"");
    assert_eq!(quote("with space"), "\"with space\"");
}

#[test]
fn output_format_names_are_lowercase() {
    assert_eq!(OutputFormat::Text.as_str(), "text");
    assert_eq!(OutputFormat::Json.as_str(), "json");
}

#[test]
fn script_type_names_are_lowercase() {
    assert_eq!(ScriptType::Bash.as_str(), "bash");
    assert_eq!(ScriptType::Powershell.as_str(), "powershell");
}
