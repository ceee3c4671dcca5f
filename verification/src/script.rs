//! The script emitter.
//!
//! Given an owner, an ordered repository list, a shell dialect, an output
//! destination and format, and filename/command templates, `generate`
//! produces the full text of a script: one header line, one
//! directory-creation statement when the destination is a file, and then one
//! statement per repository, in the order supplied. Each statement is
//! independent: a failure of one invocation when the script is later run
//! does not prevent the next from running.
//!
//! The only failure is `InvalidFilenameTemplate`: the filename template,
//! with its placeholders stripped, must denote a bare filename with no path
//! separator. That is checked once, before any statement is emitted.

use vstd::prelude::*;

use crate::enums::OutputDestination;
use crate::enums::OutputFormat;
use crate::enums::ScriptType;
use crate::enums::output_format_name;
use crate::template::quote;
use crate::template::quote_seq;
use crate::template::resolve;
use crate::template::resolve_seq;

verus! {

/// A fatal configuration error: no script text is produced.
#[derive(Clone, Copy, PartialEq, Eq, Structural, Debug)]
pub enum ConfigError {
    /// The filename template, after stripping placeholders, holds a path
    /// separator, so it does not denote a bare filename.
    InvalidFilenameTemplate,
}

/// Header line of a POSIX-style script.
pub open spec fn posix_header() -> Seq<char> {
    seq!['#', '!', '/', 'b', 'i', 'n', '/', 'b', 'a', 's', 'h']
}

/// Header line of a PowerShell-style script.
pub open spec fn powershell_header() -> Seq<char> {
    seq![
        '#', '!', '/', 'u', 's', 'r', '/', 'b', 'i', 'n', '/', 'e', 'n', 'v', ' ', 'p', 'w', 's',
        'h',
    ]
}

/// Start of the POSIX directory-creation statement; recursive and quiet
/// when the directory already exists.
pub open spec fn mkdir_posix_prefix() -> Seq<char> {
    seq!['m', 'k', 'd', 'i', 'r', ' ', '-', 'p', ' ']
}

/// Start of the PowerShell directory-creation statement; `-Force` makes it
/// idempotent.
pub open spec fn mkdir_powershell_prefix() -> Seq<char> {
    seq![
        'N', 'e', 'w', '-', 'I', 't', 'e', 'm', ' ', '-', 'I', 't', 'e', 'm', 'T', 'y', 'p', 'e',
        ' ', 'D', 'i', 'r', 'e', 'c', 't', 'o', 'r', 'y', ' ', '-', 'F', 'o', 'r', 'c', 'e', ' ',
        '-', 'P', 'a', 't', 'h', ' ',
    ]
}

/// End of the PowerShell directory-creation statement, discarding the
/// created item object.
pub open spec fn mkdir_powershell_suffix() -> Seq<char> {
    seq![' ', '|', ' ', 'O', 'u', 't', '-', 'N', 'u', 'l', 'l']
}

/// The sizing subcommand keyword spliced between the command template and
/// the repository identifier.
pub open spec fn repo_keyword() -> Seq<char> {
    seq![' ', 'r', 'e', 'p', 'o', ' ']
}

/// The flag that carries the output format's canonical name.
pub open spec fn format_flag() -> Seq<char> {
    seq![' ', '-', '-', 'o', 'u', 't', 'p', 'u', 't', '-', 'f', 'o', 'r', 'm', 'a', 't', ' ']
}

/// The POSIX output-redirection operator, with its surrounding spaces.
pub open spec fn posix_redirect() -> Seq<char> {
    seq![' ', '>', ' ']
}

/// The PowerShell output-redirection pipeline, with its surrounding spaces.
pub open spec fn powershell_redirect() -> Seq<char> {
    seq![
        ' ', '|', ' ', 'O', 'u', 't', '-', 'F', 'i', 'l', 'e', ' ', '-', 'F', 'i', 'l', 'e', 'P',
        'a', 't', 'h', ' ',
    ]
}

/// The path-join separator of a dialect.
pub open spec fn separator_char(script_type: ScriptType) -> char {
    match script_type {
        ScriptType::Bash => '/',
        ScriptType::Powershell => '\\',
    }
}

/// The statement terminator. Both dialects terminate every statement with a
/// newline.
pub open spec fn terminator() -> Seq<char> {
    seq!['\n']
}

/// The header line of a script, identifying the interpreter it is meant for.
pub open spec fn header_statement(script_type: ScriptType) -> Seq<char> {
    match script_type {
        ScriptType::Bash => posix_header(),
        ScriptType::Powershell => powershell_header(),
    }
}

/// The statement that idempotently creates the output directory. Emitted
/// exactly once, before any per-repository statement, when the destination
/// is a file.
pub open spec fn mkdir_statement(script_type: ScriptType, directory: Seq<char>) -> Seq<char> {
    match script_type {
        ScriptType::Bash => mkdir_posix_prefix() + quote_seq(directory),
        ScriptType::Powershell => mkdir_powershell_prefix() + quote_seq(directory)
            + mkdir_powershell_suffix(),
    }
}

/// The fully-qualified, slash-joined identifier the sizing command expects.
pub open spec fn repository_identifier(owner: Seq<char>, repository: Seq<char>) -> Seq<char> {
    owner + seq!['/'] + repository
}

/// One per-repository invocation line, before any redirection: the command
/// template verbatim, the sizing subcommand keyword, the quoted identifier,
/// and the output-format flag. Identical for both dialects.
pub open spec fn invocation_line(
    command: Seq<char>,
    owner: Seq<char>,
    repository: Seq<char>,
    format: OutputFormat,
) -> Seq<char> {
    command + repo_keyword() + quote_seq(repository_identifier(owner, repository)) + format_flag()
        + output_format_name(format)
}

/// The per-repository output file path: the directory as given, the
/// dialect's separator, and the resolved filename template.
pub open spec fn output_path(
    script_type: ScriptType,
    directory: Seq<char>,
    filename_template: Seq<char>,
    owner: Seq<char>,
    repository: Seq<char>,
) -> Seq<char> {
    directory + seq![separator_char(script_type)] + resolve_seq(
        filename_template,
        owner,
        repository,
    )
}

/// The dialect's redirection of an invocation's output to a quoted path.
pub open spec fn redirect_suffix(script_type: ScriptType, path: Seq<char>) -> Seq<char> {
    match script_type {
        ScriptType::Bash => posix_redirect() + quote_seq(path),
        ScriptType::Powershell => powershell_redirect() + quote_seq(path),
    }
}

/// One full per-repository statement: the invocation line, plus, when the
/// destination is a file, the redirection to that repository's output path.
pub open spec fn repository_statement(
    owner: Seq<char>,
    repository: Seq<char>,
    script_type: ScriptType,
    destination: OutputDestination,
    format: OutputFormat,
    directory: Seq<char>,
    filename_template: Seq<char>,
    command: Seq<char>,
) -> Seq<char> {
    match destination {
        OutputDestination::Stdout => invocation_line(command, owner, repository, format),
        OutputDestination::File => invocation_line(command, owner, repository, format)
            + redirect_suffix(
            script_type,
            output_path(script_type, directory, filename_template, owner, repository),
        ),
    }
}

/// The statements that precede the per-repository block: the header, and,
/// when the destination is a file, the directory-creation statement.
pub open spec fn preamble_statements(
    script_type: ScriptType,
    destination: OutputDestination,
    directory: Seq<char>,
) -> Seq<Seq<char>> {
    match destination {
        OutputDestination::Stdout => seq![header_statement(script_type)],
        OutputDestination::File => seq![
            header_statement(script_type),
            mkdir_statement(script_type, directory),
        ],
    }
}

/// One statement per repository, in the order supplied.
pub open spec fn repository_statements(
    owner: Seq<char>,
    repositories: Seq<Seq<char>>,
    script_type: ScriptType,
    destination: OutputDestination,
    format: OutputFormat,
    directory: Seq<char>,
    filename_template: Seq<char>,
    command: Seq<char>,
) -> Seq<Seq<char>> {
    Seq::new(
        repositories.len(),
        |i: int|
            repository_statement(
                owner,
                repositories[i],
                script_type,
                destination,
                format,
                directory,
                filename_template,
                command,
            ),
    )
}

/// Every statement of a generated script, in order.
pub open spec fn script_statements(
    owner: Seq<char>,
    repositories: Seq<Seq<char>>,
    script_type: ScriptType,
    destination: OutputDestination,
    format: OutputFormat,
    directory: Seq<char>,
    filename_template: Seq<char>,
    command: Seq<char>,
) -> Seq<Seq<char>> {
    preamble_statements(script_type, destination, directory) + repository_statements(
        owner,
        repositories,
        script_type,
        destination,
        format,
        directory,
        filename_template,
        command,
    )
}

/// Statements joined into one text, each followed by the terminator.
pub open spec fn join_terminated(statements: Seq<Seq<char>>, term: Seq<char>) -> Seq<char>
    decreases statements.len(),
{
    if statements.len() == 0 {
        Seq::empty()
    } else {
        statements[0] + term + join_terminated(statements.drop_first(), term)
    }
}

/// Appending one statement to a joined text appends that statement and one
/// terminator.
pub proof fn lemma_join_terminated_push(
    statements: Seq<Seq<char>>,
    statement: Seq<char>,
    term: Seq<char>,
)
    ensures
        join_terminated(statements.push(statement), term) == join_terminated(statements, term)
            + statement + term,
    decreases statements.len(),
{
    assert(join_terminated(Seq::<Seq<char>>::empty(), term) == Seq::<char>::empty());
    if statements.len() == 0 {
        assert(statements.push(statement).drop_first() =~= Seq::<Seq<char>>::empty());
        assert(statements.push(statement)[0] == statement);
        assert(join_terminated(statements.push(statement), term) == statement + term
            + join_terminated(Seq::<Seq<char>>::empty(), term));
        assert(join_terminated(statements.push(statement), term) =~= join_terminated(
            statements,
            term,
        ) + statement + term);
    } else {
        assert(statements.push(statement).drop_first() =~= statements.drop_first().push(
            statement,
        ));
        assert(statements.push(statement)[0] == statements[0]);
        lemma_join_terminated_push(statements.drop_first(), statement, term);
        assert(join_terminated(statements.push(statement), term) == statements[0] + term
            + join_terminated(statements.drop_first().push(statement), term));
        assert(join_terminated(statements, term) == statements[0] + term + join_terminated(
            statements.drop_first(),
            term,
        ));
        assert(join_terminated(statements.push(statement), term) =~= join_terminated(
            statements,
            term,
        ) + statement + term);
    }
}

/// The whole text of a generated script.
pub open spec fn script_text(
    owner: Seq<char>,
    repositories: Seq<Seq<char>>,
    script_type: ScriptType,
    destination: OutputDestination,
    format: OutputFormat,
    directory: Seq<char>,
    filename_template: Seq<char>,
    command: Seq<char>,
) -> Seq<char> {
    join_terminated(
        script_statements(
            owner,
            repositories,
            script_type,
            destination,
            format,
            directory,
            filename_template,
            command,
        ),
        terminator(),
    )
}

/// A path separator, in either dialect's convention.
pub open spec fn is_path_separator(c: char) -> bool {
    c == '/' || c == '\\'
}

/// The filename template with both placeholder tokens stripped.
pub open spec fn stripped_template(filename_template: Seq<char>) -> Seq<char> {
    resolve_seq(filename_template, Seq::empty(), Seq::empty())
}

/// A filename template is valid when, after stripping placeholders, it
/// denotes a bare filename: no path separator of either convention remains.
pub open spec fn filename_template_valid(filename_template: Seq<char>) -> bool {
    forall|k: int|
        0 <= k < stripped_template(filename_template).len() ==> !is_path_separator(
            #[trigger] stripped_template(filename_template)[k],
        )
}

/// The string literals spliced by the emitter denote the same character
/// sequences as the spec-level fragments.
proof fn lemma_fragment_literals()
    ensures
        "#!/bin/bash"@ == posix_header(),
        "#!/usr/bin/env pwsh"@ == powershell_header(),
        "mkdir -p "@ == mkdir_posix_prefix(),
        "New-Item -ItemType Directory -Force -Path "@ == mkdir_powershell_prefix(),
        " | Out-Null"@ == mkdir_powershell_suffix(),
        " repo "@ == repo_keyword(),
        " --output-format "@ == format_flag(),
        " > "@ == posix_redirect(),
        " | Out-File -FilePath "@ == powershell_redirect(),
        "/"@ == seq!['/'],
        "\\"@ == seq!['\\'],
        "\n"@ == terminator(),
        ""@ == Seq::<char>::empty(),
{
    reveal_strlit("#!/bin/bash");
    reveal_strlit("#!/usr/bin/env pwsh");
    reveal_strlit("mkdir -p ");
    reveal_strlit("New-Item -ItemType Directory -Force -Path ");
    reveal_strlit(" | Out-Null");
    reveal_strlit(" repo ");
    reveal_strlit(" --output-format ");
    reveal_strlit(" > ");
    reveal_strlit(" | Out-File -FilePath ");
    reveal_strlit("/");
    reveal_strlit("\\");
    reveal_strlit("\n");
    reveal_strlit("");
    assert("#!/bin/bash"@ =~= posix_header());
    assert("#!/usr/bin/env pwsh"@ =~= powershell_header());
    assert("mkdir -p "@ =~= mkdir_posix_prefix());
    assert("New-Item -ItemType Directory -Force -Path "@ =~= mkdir_powershell_prefix());
    assert(" | Out-Null"@ =~= mkdir_powershell_suffix());
    assert(" repo "@ =~= repo_keyword());
    assert(" --output-format "@ =~= format_flag());
    assert(" > "@ =~= posix_redirect());
    assert(" | Out-File -FilePath "@ =~= powershell_redirect());
    assert("/"@ =~= seq!['/']);
    assert("\\"@ =~= seq!['\\']);
    assert("\n"@ =~= terminator());
    assert(""@ =~= Seq::<char>::empty());
}

/// Whether any character of `s` is a path separator.
fn contains_path_separator(s: &str) -> (found: bool)
    ensures
        found == exists|k: int| 0 <= k < s@.len() && is_path_separator(s@[k]),
{
    let len = s.unicode_len();
    let mut i: usize = 0;
    while i < len
        invariant
            len == s@.len(),
            i <= len,
            forall|k: int| 0 <= k < i ==> !is_path_separator(#[trigger] s@[k]),
        decreases len - i,
    {
        let c = s.get_char(i);
        if c == '/' || c == '\\' {
            return true;
        }
        i += 1;
    }
    false
}

/// The dialect's path-join separator, as a string.
fn separator_str(script_type: ScriptType) -> (s: &'static str)
    ensures
        s@ == seq![separator_char(script_type)],
{
    proof {
        lemma_fragment_literals();
    }
    match script_type {
        ScriptType::Bash => "/",
        ScriptType::Powershell => "\\",
    }
}

/// Builds the header line of the script.
fn header_line(script_type: ScriptType) -> (line: String)
    ensures
        line@ == header_statement(script_type),
{
    proof {
        lemma_fragment_literals();
    }
    match script_type {
        ScriptType::Bash => String::from_str("#!/bin/bash"),
        ScriptType::Powershell => String::from_str("#!/usr/bin/env pwsh"),
    }
}

/// Builds the directory-creation statement.
fn mkdir_line(script_type: ScriptType, directory: &str) -> (line: String)
    ensures
        line@ == mkdir_statement(script_type, directory@),
{
    proof {
        lemma_fragment_literals();
    }
    let quoted = quote(directory);
    match script_type {
        ScriptType::Bash => {
            let mut line = String::from_str("mkdir -p ");
            line.append(quoted.as_str());
            line
        },
        ScriptType::Powershell => {
            let mut line = String::from_str("New-Item -ItemType Directory -Force -Path ");
            line.append(quoted.as_str());
            line.append(" | Out-Null");
            line
        },
    }
}

/// Builds one full per-repository statement.
fn statement_for_repository(
    owner: &str,
    repository: &str,
    script_type: ScriptType,
    destination: OutputDestination,
    format: OutputFormat,
    directory: &str,
    filename_template: &str,
    command_template: &str,
) -> (statement: String)
    ensures
        statement@ == repository_statement(
            owner@,
            repository@,
            script_type,
            destination,
            format,
            directory@,
            filename_template@,
            command_template@,
        ),
{
    proof {
        lemma_fragment_literals();
    }
    let mut identifier = String::from_str(owner);
    identifier.append("/");
    identifier.append(repository);
    proof {
        assert(identifier@ =~= repository_identifier(owner@, repository@));
    }
    let quoted_identifier = quote(identifier.as_str());
    let mut statement = String::from_str(command_template);
    statement.append(" repo ");
    statement.append(quoted_identifier.as_str());
    statement.append(" --output-format ");
    statement.append(format.as_str());
    proof {
        assert(statement@ =~= invocation_line(command_template@, owner@, repository@, format));
    }
    match destination {
        OutputDestination::Stdout => statement,
        OutputDestination::File => {
            let mut path = String::from_str(directory);
            path.append(separator_str(script_type));
            let resolved = resolve(filename_template, owner, repository);
            path.append(resolved.as_str());
            proof {
                assert(path@ =~= output_path(
                    script_type,
                    directory@,
                    filename_template@,
                    owner@,
                    repository@,
                ));
            }
            let quoted_path = quote(path.as_str());
            match script_type {
                ScriptType::Bash => statement.append(" > "),
                ScriptType::Powershell => statement.append(" | Out-File -FilePath "),
            }
            statement.append(quoted_path.as_str());
            proof {
                assert(statement@ =~= invocation_line(
                    command_template@,
                    owner@,
                    repository@,
                    format,
                ) + redirect_suffix(
                    script_type,
                    output_path(
                        script_type,
                        directory@,
                        filename_template@,
                        owner@,
                        repository@,
                    ),
                ));
            }
            statement
        },
    }
}

/// Generates the script text for sizing every repository of `owner` in
/// `repositories`, in the order supplied.
///
/// The result is pinned exactly: on success it is `script_text` over the
/// inputs — the dialect's header, then, for a file destination, one
/// directory-creation statement, then one statement per repository, each
/// terminated by a newline. The one failure is `InvalidFilenameTemplate`,
/// returned if and only if the filename template, with its placeholders
/// stripped, still holds a path separator; no statement is emitted then.
/// An empty repository list is not an error: the script then holds the
/// header (and, for a file destination, the directory-creation statement)
/// and nothing else.
pub fn generate(
    owner: &str,
    repositories: &Vec<String>,
    script_type: ScriptType,
    output_destination: OutputDestination,
    output_format: OutputFormat,
    output_directory: &str,
    output_filename: &str,
    command_template: &str,
) -> (result: Result<String, ConfigError>)
    ensures
        match result {
            Ok(script) => filename_template_valid(output_filename@) && script@ == script_text(
                owner@,
                repositories.deep_view(),
                script_type,
                output_destination,
                output_format,
                output_directory@,
                output_filename@,
                command_template@,
            ),
            Err(e) => e == ConfigError::InvalidFilenameTemplate && !filename_template_valid(
                output_filename@,
            ),
        },
{
    proof {
        lemma_fragment_literals();
    }
    let stripped = resolve(output_filename, "", "");
    proof {
        assert(stripped@ == stripped_template(output_filename@));
    }
    if contains_path_separator(stripped.as_str()) {
        proof {
            let k = choose|k: int| 0 <= k < stripped@.len() && is_path_separator(stripped@[k]);
            assert(is_path_separator(stripped_template(output_filename@)[k]));
        }
        return Err(ConfigError::InvalidFilenameTemplate);
    }
    proof {
        assert(forall|k: int|
            0 <= k < stripped_template(output_filename@).len() ==> !is_path_separator(
                #[trigger] stripped_template(output_filename@)[k],
            )) by {
            assert(forall|k: int|
                0 <= k < stripped@.len() ==> !is_path_separator(#[trigger] stripped@[k]));
        }
    }
    let ghost all_repositories = repositories.deep_view();
    let mut script = String::new();
    let header = header_line(script_type);
    script.append(header.as_str());
    script.append("\n");
    if output_destination == OutputDestination::File {
        let mkdir = mkdir_line(script_type, output_directory);
        script.append(mkdir.as_str());
        script.append("\n");
    }
    proof {
        let pre = preamble_statements(script_type, output_destination, output_directory@);
        let term = terminator();
        assert(join_terminated(Seq::<Seq<char>>::empty(), term) == Seq::<char>::empty());
        if output_destination == OutputDestination::File {
            let tail = seq![mkdir_statement(script_type, output_directory@)];
            assert(pre.drop_first() =~= tail);
            assert(tail.drop_first() =~= Seq::<Seq<char>>::empty());
            assert(join_terminated(tail, term) == tail[0] + term + join_terminated(
                tail.drop_first(),
                term,
            ));
            assert(join_terminated(pre, term) == pre[0] + term + join_terminated(
                pre.drop_first(),
                term,
            ));
        } else {
            assert(pre.drop_first() =~= Seq::<Seq<char>>::empty());
            assert(join_terminated(pre, term) == pre[0] + term + join_terminated(
                pre.drop_first(),
                term,
            ));
        }
        assert(all_repositories.take(0) =~= Seq::<Seq<char>>::empty());
        assert(repository_statements(
            owner@,
            all_repositories.take(0),
            script_type,
            output_destination,
            output_format,
            output_directory@,
            output_filename@,
            command_template@,
        ) =~= Seq::<Seq<char>>::empty());
        assert(pre + Seq::<Seq<char>>::empty() =~= pre);
        assert(script@ =~= join_terminated(pre, terminator()));
    }
    let repository_count = repositories.len();
    let mut index: usize = 0;
    while index < repository_count
        invariant
            repository_count == repositories.len(),
            index <= repository_count,
            all_repositories == repositories.deep_view(),
            script@ == join_terminated(
                preamble_statements(script_type, output_destination, output_directory@)
                    + repository_statements(
                    owner@,
                    all_repositories.take(index as int),
                    script_type,
                    output_destination,
                    output_format,
                    output_directory@,
                    output_filename@,
                    command_template@,
                ),
                terminator(),
            ),
        decreases repository_count - index,
    {
        let statement = statement_for_repository(
            owner,
            repositories[index].as_str(),
            script_type,
            output_destination,
            output_format,
            output_directory,
            output_filename,
            command_template,
        );
        script.append(statement.as_str());
        script.append("\n");
        proof {
            lemma_fragment_literals();
            let pre = preamble_statements(script_type, output_destination, output_directory@);
            let done = repository_statements(
                owner@,
                all_repositories.take(index as int),
                script_type,
                output_destination,
                output_format,
                output_directory@,
                output_filename@,
                command_template@,
            );
            lemma_join_terminated_push(pre + done, statement@, terminator());
            assert((pre + done).push(statement@) =~= pre + repository_statements(
                owner@,
                all_repositories.take(index + 1),
                script_type,
                output_destination,
                output_format,
                output_directory@,
                output_filename@,
                command_template@,
            ));
        }
        index += 1;
    }
    proof {
        assert(all_repositories.take(repository_count as int) =~= all_repositories);
    }
    Ok(script)
}

} // verus!
