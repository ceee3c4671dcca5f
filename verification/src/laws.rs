//! Laws of the script emitter, proved once for every input: statement count
//! and order, absence and uniqueness of redirection, behaviour on an empty
//! repository list, determinism, and dialect fidelity.

use vstd::prelude::*;

use crate::enums::OutputDestination;
use crate::enums::OutputFormat;
use crate::enums::ScriptType;
use crate::enums::output_format_name;
use crate::script::format_flag;
use crate::script::header_statement;
use crate::script::invocation_line;
use crate::script::join_terminated;
use crate::script::mkdir_statement;
use crate::script::output_path;
use crate::script::posix_header;
use crate::script::posix_redirect;
use crate::script::powershell_header;
use crate::script::powershell_redirect;
use crate::script::preamble_statements;
use crate::script::redirect_suffix;
use crate::script::repo_keyword;
use crate::script::repository_identifier;
use crate::script::repository_statement;
use crate::script::script_statements;
use crate::script::script_text;
use crate::script::separator_char;
use crate::script::terminator;
use crate::template::owner_token;
use crate::template::quote_seq;
use crate::template::repository_token;
use crate::template::resolve_seq;

verus! {

/// How many times `c` occurs in `s`.
pub open spec fn count_char(s: Seq<char>, c: char) -> nat
    decreases s.len(),
{
    if s.len() == 0 {
        0
    } else {
        (if s[0] == c {
            1nat
        } else {
            0nat
        }) + count_char(s.drop_first(), c)
    }
}

/// Occurrence counts add over concatenation.
pub proof fn lemma_count_char_concat(a: Seq<char>, b: Seq<char>, c: char)
    ensures
        count_char(a + b, c) == count_char(a, c) + count_char(b, c),
    decreases a.len(),
{
    if a.len() == 0 {
        assert(a + b =~= b);
    } else {
        assert((a + b).drop_first() =~= a.drop_first() + b);
        assert((a + b)[0] == a[0]);
        lemma_count_char_concat(a.drop_first(), b, c);
        assert(count_char(a + b, c) == count_char(a.drop_first() + b, c) + (if a[0] == c {
            1nat
        } else {
            0nat
        }));
    }
}

/// A character occurs zero times exactly when no position holds it.
pub proof fn lemma_count_char_zero(s: Seq<char>, c: char)
    ensures
        (count_char(s, c) == 0) <==> (forall|k: int| 0 <= k < s.len() ==> s[k] != c),
    decreases s.len(),
{
    if s.len() == 0 {
    } else {
        lemma_count_char_zero(s.drop_first(), c);
        assert(forall|k: int| 1 <= k < s.len() ==> s[k] == s.drop_first()[k - 1]);
        if count_char(s, c) == 0 {
            assert(forall|k: int| 0 <= k < s.len() ==> s[k] != c);
        }
        if forall|k: int| 0 <= k < s.len() ==> s[k] != c {
            assert(forall|k: int| 0 <= k < s.drop_first().len() ==> s.drop_first()[k] != c);
        }
    }
}

/// Quoting leaves the count of any character other than the quote itself
/// unchanged.
pub proof fn lemma_count_char_quote(v: Seq<char>, c: char)
    requires
        c != '"',
    ensures
        count_char(quote_seq(v), c) == count_char(v, c),
{
    reveal_with_fuel(count_char, 3);
    lemma_count_char_concat(seq!['"'] + v, seq!['"'], c);
    lemma_count_char_concat(seq!['"'], v, c);
    assert(count_char(seq!['"'], c) == 0);
}

/// Resolution introduces no occurrence of a character that neither the
/// template nor the substituted values hold.
pub proof fn lemma_count_char_resolve(t: Seq<char>, o: Seq<char>, r: Seq<char>, c: char)
    requires
        count_char(t, c) == 0,
        count_char(o, c) == 0,
        count_char(r, c) == 0,
    ensures
        count_char(resolve_seq(t, o, r), c) == 0,
    decreases t.len(),
{
    lemma_count_char_zero(t, c);
    if t.len() == 0 {
        reveal_with_fuel(count_char, 1);
    } else {
        let n: int = if owner_token().is_prefix_of(t) {
            owner_token().len() as int
        } else if repository_token().is_prefix_of(t) {
            repository_token().len() as int
        } else {
            1
        };
        assert(forall|k: int| 0 <= k < t.skip(n).len() ==> t.skip(n)[k] != c);
        lemma_count_char_zero(t.skip(n), c);
        lemma_count_char_resolve(t.skip(n), o, r, c);
        if owner_token().is_prefix_of(t) {
            lemma_count_char_concat(o, resolve_seq(t.skip(n), o, r), c);
        } else if repository_token().is_prefix_of(t) {
            lemma_count_char_concat(r, resolve_seq(t.skip(n), o, r), c);
        } else {
            lemma_count_char_concat(seq![t[0]], resolve_seq(t.skip(n), o, r), c);
            reveal_with_fuel(count_char, 2);
            assert(count_char(seq![t[0]], c) == 0);
        }
    }
}

/// Occurrence counts of the redirection characters in the two header lines:
/// neither holds one.
#[verifier::spinoff_prover]
proof fn lemma_header_redirect_counts()
    ensures
        count_char(posix_header(), '>') == 0,
        count_char(posix_header(), '|') == 0,
        count_char(powershell_header(), '>') == 0,
        count_char(powershell_header(), '|') == 0,
{
    reveal_with_fuel(count_char, 21);
}

/// Occurrence counts of the redirection characters in the fragments of an
/// invocation line: none holds one.
#[verifier::spinoff_prover]
proof fn lemma_invocation_fragment_redirect_counts()
    ensures
        count_char(repo_keyword(), '>') == 0,
        count_char(repo_keyword(), '|') == 0,
        count_char(format_flag(), '>') == 0,
        count_char(format_flag(), '|') == 0,
        count_char(output_format_name(OutputFormat::Text), '>') == 0,
        count_char(output_format_name(OutputFormat::Text), '|') == 0,
        count_char(output_format_name(OutputFormat::Json), '>') == 0,
        count_char(output_format_name(OutputFormat::Json), '|') == 0,
        count_char(terminator(), '>') == 0,
        count_char(terminator(), '|') == 0,
{
    reveal_with_fuel(count_char, 19);
}

/// Each dialect's redirection fragment holds its own redirection character
/// exactly once and the other dialect's not at all.
#[verifier::spinoff_prover]
proof fn lemma_redirect_fragment_counts()
    ensures
        count_char(posix_redirect(), '>') == 1,
        count_char(posix_redirect(), '|') == 0,
        count_char(powershell_redirect(), '|') == 1,
        count_char(powershell_redirect(), '>') == 0,
{
    reveal_with_fuel(count_char, 24);
}

/// Occurrence counts of the redirection characters in every fixed fragment:
/// only the redirection fragments themselves hold one.
proof fn lemma_fragment_redirect_counts()
    ensures
        count_char(posix_header(), '>') == 0,
        count_char(posix_header(), '|') == 0,
        count_char(powershell_header(), '>') == 0,
        count_char(powershell_header(), '|') == 0,
        count_char(repo_keyword(), '>') == 0,
        count_char(repo_keyword(), '|') == 0,
        count_char(format_flag(), '>') == 0,
        count_char(format_flag(), '|') == 0,
        count_char(output_format_name(OutputFormat::Text), '>') == 0,
        count_char(output_format_name(OutputFormat::Text), '|') == 0,
        count_char(output_format_name(OutputFormat::Json), '>') == 0,
        count_char(output_format_name(OutputFormat::Json), '|') == 0,
        count_char(posix_redirect(), '>') == 1,
        count_char(posix_redirect(), '|') == 0,
        count_char(powershell_redirect(), '|') == 1,
        count_char(powershell_redirect(), '>') == 0,
        count_char(terminator(), '>') == 0,
        count_char(terminator(), '|') == 0,
{
    lemma_header_redirect_counts();
    lemma_invocation_fragment_redirect_counts();
    lemma_redirect_fragment_counts();
}

/// The redirection character of a dialect: `>` in a POSIX redirection,
/// `|` in a PowerShell `Out-File` pipeline.
pub open spec fn redirect_char(script_type: ScriptType) -> char {
    match script_type {
        ScriptType::Bash => '>',
        ScriptType::Powershell => '|',
    }
}

/// An invocation line holds exactly the redirection characters that its
/// inputs hold: the fixed fragments and the quoting contribute none.
pub proof fn lemma_invocation_line_count(
    command: Seq<char>,
    owner: Seq<char>,
    repository: Seq<char>,
    format: OutputFormat,
    c: char,
)
    requires
        c == '>' || c == '|',
    ensures
        count_char(invocation_line(command, owner, repository, format), c) == count_char(
            command,
            c,
        ) + count_char(owner, c) + count_char(repository, c),
{
    lemma_fragment_redirect_counts();
    let id = repository_identifier(owner, repository);
    lemma_count_char_concat(owner, seq!['/'], c);
    lemma_count_char_concat(owner + seq!['/'], repository, c);
    assert(count_char(seq!['/'], c) == 0) by {
        reveal_with_fuel(count_char, 2);
    }
    lemma_count_char_quote(id, c);
    lemma_count_char_concat(command, repo_keyword(), c);
    lemma_count_char_concat(command + repo_keyword(), quote_seq(id), c);
    lemma_count_char_concat(command + repo_keyword() + quote_seq(id), format_flag(), c);
    lemma_count_char_concat(
        command + repo_keyword() + quote_seq(id) + format_flag(),
        output_format_name(format),
        c,
    );
}

/// One statement block per repository, in the order supplied: after the
/// preamble, the generated script holds exactly the statement of
/// `repositories[i]` at position `i`.
pub proof fn lemma_statement_per_repository(
    owner: Seq<char>,
    repositories: Seq<Seq<char>>,
    script_type: ScriptType,
    destination: OutputDestination,
    format: OutputFormat,
    directory: Seq<char>,
    filename_template: Seq<char>,
    command: Seq<char>,
)
    ensures
        script_statements(
            owner,
            repositories,
            script_type,
            destination,
            format,
            directory,
            filename_template,
            command,
        ).len() == preamble_statements(script_type, destination, directory).len()
            + repositories.len(),
        forall|i: int|
            0 <= i < repositories.len() ==> script_statements(
                owner,
                repositories,
                script_type,
                destination,
                format,
                directory,
                filename_template,
                command,
            )[preamble_statements(script_type, destination, directory).len() + i]
                == repository_statement(
                owner,
                #[trigger] repositories[i],
                script_type,
                destination,
                format,
                directory,
                filename_template,
                command,
            ),
{
}

/// When every invocation writes to the script's own stdout, no statement of
/// the generated script holds a redirection character of either dialect,
/// provided the owner, the repository names and the command template hold
/// none themselves.
pub proof fn lemma_stdout_no_redirection(
    owner: Seq<char>,
    repositories: Seq<Seq<char>>,
    script_type: ScriptType,
    format: OutputFormat,
    directory: Seq<char>,
    filename_template: Seq<char>,
    command: Seq<char>,
    j: int,
)
    requires
        count_char(owner, '>') == 0,
        count_char(owner, '|') == 0,
        count_char(command, '>') == 0,
        count_char(command, '|') == 0,
        forall|i: int|
            0 <= i < repositories.len() ==> count_char(#[trigger] repositories[i], '>') == 0
                && count_char(repositories[i], '|') == 0,
        0 <= j < script_statements(
            owner,
            repositories,
            script_type,
            OutputDestination::Stdout,
            format,
            directory,
            filename_template,
            command,
        ).len(),
    ensures
        count_char(
            script_statements(
                owner,
                repositories,
                script_type,
                OutputDestination::Stdout,
                format,
                directory,
                filename_template,
                command,
            )[j],
            '>',
        ) == 0,
        count_char(
            script_statements(
                owner,
                repositories,
                script_type,
                OutputDestination::Stdout,
                format,
                directory,
                filename_template,
                command,
            )[j],
            '|',
        ) == 0,
{
    lemma_fragment_redirect_counts();
    if j == 0 {
        assert(script_statements(
            owner,
            repositories,
            script_type,
            OutputDestination::Stdout,
            format,
            directory,
            filename_template,
            command,
        )[0] == header_statement(script_type));
    } else {
        let repository = repositories[j - 1];
        lemma_invocation_line_count(command, owner, repository, format, '>');
        lemma_invocation_line_count(command, owner, repository, format, '|');
    }
}

/// When every invocation writes to a file, each per-repository statement
/// holds the dialect's redirection character exactly once — before the
/// quoted output path, whose filename part is the template resolved with
/// that statement's owner and repository — provided the inputs hold no
/// redirection character themselves.
pub proof fn lemma_file_statement_redirection(
    owner: Seq<char>,
    repositories: Seq<Seq<char>>,
    script_type: ScriptType,
    format: OutputFormat,
    directory: Seq<char>,
    filename_template: Seq<char>,
    command: Seq<char>,
    i: int,
)
    requires
        0 <= i < repositories.len(),
        count_char(owner, redirect_char(script_type)) == 0,
        count_char(repositories[i], redirect_char(script_type)) == 0,
        count_char(command, redirect_char(script_type)) == 0,
        count_char(directory, redirect_char(script_type)) == 0,
        count_char(filename_template, redirect_char(script_type)) == 0,
    ensures
        script_statements(
            owner,
            repositories,
            script_type,
            OutputDestination::File,
            format,
            directory,
            filename_template,
            command,
        )[preamble_statements(script_type, OutputDestination::File, directory).len() + i]
            == invocation_line(command, owner, repositories[i], format) + redirect_suffix(
            script_type,
            output_path(script_type, directory, filename_template, owner, repositories[i]),
        ),
        count_char(
            script_statements(
                owner,
                repositories,
                script_type,
                OutputDestination::File,
                format,
                directory,
                filename_template,
                command,
            )[preamble_statements(script_type, OutputDestination::File, directory).len() + i],
            redirect_char(script_type),
        ) == 1,
{
    lemma_fragment_redirect_counts();
    let c = redirect_char(script_type);
    let repository = repositories[i];
    let path = output_path(script_type, directory, filename_template, owner, repository);
    lemma_invocation_line_count(command, owner, repository, format, c);
    assert(count_char(seq![separator_char(script_type)], c) == 0) by {
        reveal_with_fuel(count_char, 2);
    }
    lemma_count_char_resolve(filename_template, owner, repository, c);
    lemma_count_char_concat(directory, seq![separator_char(script_type)], c);
    lemma_count_char_concat(
        directory + seq![separator_char(script_type)],
        resolve_seq(filename_template, owner, repository),
        c,
    );
    lemma_count_char_quote(path, c);
    match script_type {
        ScriptType::Bash => {
            lemma_count_char_concat(posix_redirect(), quote_seq(path), c);
        },
        ScriptType::Powershell => {
            lemma_count_char_concat(powershell_redirect(), quote_seq(path), c);
        },
    }
    lemma_count_char_concat(
        invocation_line(command, owner, repository, format),
        redirect_suffix(script_type, path),
        c,
    );
}

/// An empty repository list is not an error at this layer: the script then
/// holds the header and, for a file destination, the directory-creation
/// statement, and zero per-repository statements.
pub proof fn lemma_empty_repository_list(
    owner: Seq<char>,
    script_type: ScriptType,
    destination: OutputDestination,
    format: OutputFormat,
    directory: Seq<char>,
    filename_template: Seq<char>,
    command: Seq<char>,
)
    ensures
        script_statements(
            owner,
            Seq::empty(),
            script_type,
            destination,
            format,
            directory,
            filename_template,
            command,
        ) == preamble_statements(script_type, destination, directory),
        script_text(
            owner,
            Seq::empty(),
            script_type,
            OutputDestination::Stdout,
            format,
            directory,
            filename_template,
            command,
        ) == header_statement(script_type) + terminator(),
        script_text(
            owner,
            Seq::empty(),
            script_type,
            OutputDestination::File,
            format,
            directory,
            filename_template,
            command,
        ) == header_statement(script_type) + terminator() + mkdir_statement(script_type, directory)
            + terminator(),
{
    let term = terminator();
    assert(script_statements(
        owner,
        Seq::empty(),
        script_type,
        destination,
        format,
        directory,
        filename_template,
        command,
    ) =~= preamble_statements(script_type, destination, directory));
    assert(script_statements(
        owner,
        Seq::empty(),
        script_type,
        OutputDestination::Stdout,
        format,
        directory,
        filename_template,
        command,
    ) =~= seq![header_statement(script_type)]);
    assert(script_statements(
        owner,
        Seq::empty(),
        script_type,
        OutputDestination::File,
        format,
        directory,
        filename_template,
        command,
    ) =~= seq![header_statement(script_type), mkdir_statement(script_type, directory)]);
    assert(join_terminated(Seq::<Seq<char>>::empty(), term) == Seq::<char>::empty());
    let stdout_statements = seq![header_statement(script_type)];
    assert(stdout_statements.drop_first() =~= Seq::<Seq<char>>::empty());
    assert(join_terminated(stdout_statements, term) == stdout_statements[0] + term
        + join_terminated(stdout_statements.drop_first(), term));
    assert(join_terminated(stdout_statements, term) =~= header_statement(script_type) + term);
    let file_statements = seq![
        header_statement(script_type),
        mkdir_statement(script_type, directory),
    ];
    let file_tail = seq![mkdir_statement(script_type, directory)];
    assert(file_statements.drop_first() =~= file_tail);
    assert(file_tail.drop_first() =~= Seq::<Seq<char>>::empty());
    assert(join_terminated(file_tail, term) == file_tail[0] + term + join_terminated(
        file_tail.drop_first(),
        term,
    ));
    assert(join_terminated(file_statements, term) == file_statements[0] + term + join_terminated(
        file_statements.drop_first(),
        term,
    ));
    assert(join_terminated(file_statements, term) =~= header_statement(script_type) + term
        + mkdir_statement(script_type, directory) + term);
}

/// Generation is deterministic: equal inputs — the same owner, the same
/// ordered repository list and the same configuration — give character-for-
/// character the same script text, so generating twice changes nothing.
pub proof fn lemma_generation_deterministic(
    owner1: Seq<char>,
    repositories1: Seq<Seq<char>>,
    script_type1: ScriptType,
    destination1: OutputDestination,
    format1: OutputFormat,
    directory1: Seq<char>,
    filename_template1: Seq<char>,
    command1: Seq<char>,
    owner2: Seq<char>,
    repositories2: Seq<Seq<char>>,
    script_type2: ScriptType,
    destination2: OutputDestination,
    format2: OutputFormat,
    directory2: Seq<char>,
    filename_template2: Seq<char>,
    command2: Seq<char>,
)
    requires
        owner1 == owner2,
        repositories1 == repositories2,
        script_type1 == script_type2,
        destination1 == destination2,
        format1 == format2,
        directory1 == directory2,
        filename_template1 == filename_template2,
        command1 == command2,
    ensures
        script_text(
            owner1,
            repositories1,
            script_type1,
            destination1,
            format1,
            directory1,
            filename_template1,
            command1,
        ) == script_text(
            owner2,
            repositories2,
            script_type2,
            destination2,
            format2,
            directory2,
            filename_template2,
            command2,
        ),
{
}

/// Dialect fidelity: switching the dialect changes only header, separator
/// and redirection syntax. Both dialects emit the same number of statements,
/// and the per-repository statement at each position starts with the same
/// invocation line — built from the same repository — in both.
pub proof fn lemma_dialect_fidelity(
    owner: Seq<char>,
    repositories: Seq<Seq<char>>,
    destination: OutputDestination,
    format: OutputFormat,
    directory: Seq<char>,
    filename_template: Seq<char>,
    command: Seq<char>,
    i: int,
)
    requires
        0 <= i < repositories.len(),
    ensures
        script_statements(
            owner,
            repositories,
            ScriptType::Bash,
            destination,
            format,
            directory,
            filename_template,
            command,
        ).len() == script_statements(
            owner,
            repositories,
            ScriptType::Powershell,
            destination,
            format,
            directory,
            filename_template,
            command,
        ).len(),
        script_statements(
            owner,
            repositories,
            ScriptType::Bash,
            destination,
            format,
            directory,
            filename_template,
            command,
        )[preamble_statements(ScriptType::Bash, destination, directory).len() + i].take(
            invocation_line(command, owner, repositories[i], format).len() as int,
        ) == invocation_line(command, owner, repositories[i], format),
        script_statements(
            owner,
            repositories,
            ScriptType::Powershell,
            destination,
            format,
            directory,
            filename_template,
            command,
        )[preamble_statements(ScriptType::Powershell, destination, directory).len() + i].take(
            invocation_line(command, owner, repositories[i], format).len() as int,
        ) == invocation_line(command, owner, repositories[i], format),
{
    let inv = invocation_line(command, owner, repositories[i], format);
    let bash_statement = repository_statement(
        owner,
        repositories[i],
        ScriptType::Bash,
        destination,
        format,
        directory,
        filename_template,
        command,
    );
    let powershell_statement = repository_statement(
        owner,
        repositories[i],
        ScriptType::Powershell,
        destination,
        format,
        directory,
        filename_template,
        command,
    );
    assert(bash_statement.take(inv.len() as int) =~= inv);
    assert(powershell_statement.take(inv.len() as int) =~= inv);
}

} // verus!
