use gh_sizer::enums::OutputFormat;
use gh_sizer::lister::gh_list_arguments;
use gh_sizer::lister::split_repository_names;
use gh_sizer::sizer::gh_clone_arguments;
use gh_sizer::sizer::git_sizer_arguments;

#[test]
fn splits_names_on_newlines() {
    let names = split_repository_names("first-repo\nsecond-repo\nthird-repo\n");
    assert_eq!(names, vec!["first-repo", "second-repo", "third-repo"]);
}

#[test]
fn splits_names_on_mixed_whitespace() {
    let names = split_repository_names("  one \t two\r\nthree  ");
    assert_eq!(names, vec!["one", "two", "three"]);
}

#[test]
fn splits_empty_text_to_no_names() {
    assert_eq!(split_repository_names(""), Vec::<String>::new());
    assert_eq!(split_repository_names(" \n\t "), Vec::<String>::new());
}

#[test]
fn splits_single_name_without_terminator() {
    assert_eq!(split_repository_names("only"), vec!["only"]);
}

#[test]
fn list_arguments_query_names_of_owner() {
    let args = gh_list_arguments("acme");
    assert_eq!(
        args,
        vec!["repo", "list", "acme", "-L", "10000", "--json", "name", "--jq", ".[].name"]
    );
}

#[test]
fn clone_arguments_clone_bare_into_directory() {
    let args = gh_clone_arguments("acme/alpha", "/tmp/clone");
    assert_eq!(args, vec!["repo", "clone", "acme/alpha", "/tmp/clone", "--", "--bare"]);
}

#[test]
fn sizer_arguments_depend_on_format() {
    assert_eq!(git_sizer_arguments(OutputFormat::Text), vec!["--verbose"]);
    assert_eq!(git_sizer_arguments(OutputFormat::Json), vec!["--verbose", "--json"]);
}
