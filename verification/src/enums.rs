//! The enumerations that configure script generation, with the canonical
//! lowercase name of each variant as it appears on a command line.

use vstd::prelude::*;

verus! {

/// Format of a sizing invocation's result: plain text or JSON.
///
/// Passed through as a flag on each per-repository command line; it does not
/// affect the structure of the generated script.
#[derive(Clone, Copy, PartialEq, Eq, Structural, Debug)]
pub enum OutputFormat {
    Text,
    Json,
}

/// Shell dialect of a generated script: POSIX-style or PowerShell-style.
///
/// Fixed for a whole script; it selects the header line, the
/// directory-creation statement, the redirection syntax, and the
/// path-join separator.
#[derive(Clone, Copy, PartialEq, Eq, Structural, Debug)]
pub enum ScriptType {
    Bash,
    Powershell,
}

/// Where each per-repository invocation's result goes when the generated
/// script is later run: the script's own stdout, or one file per repository
/// under a base directory.
#[derive(Clone, Copy, PartialEq, Eq, Structural, Debug)]
pub enum OutputDestination {
    Stdout,
    File,
}

/// Canonical lowercase name of an output format.
pub open spec fn output_format_name(format: OutputFormat) -> Seq<char> {
    match format {
        OutputFormat::Text => seq!['t', 'e', 'x', 't'],
        OutputFormat::Json => seq!['j', 's', 'o', 'n'],
    }
}

/// Canonical lowercase name of a script type.
pub open spec fn script_type_name(script_type: ScriptType) -> Seq<char> {
    match script_type {
        ScriptType::Bash => seq!['b', 'a', 's', 'h'],
        ScriptType::Powershell => seq![
            'p', 'o', 'w', 'e', 'r', 's', 'h', 'e', 'l', 'l',
        ],
    }
}

impl OutputFormat {
    /// The canonical lowercase name of this format, as spliced into each
    /// generated invocation line.
    pub fn as_str(&self) -> (name: &'static str)
        ensures
            name@ == output_format_name(*self),
    {
        match self {
            OutputFormat::Text => {
                proof {
                    reveal_strlit("text");
                    assert("text"@ =~= output_format_name(OutputFormat::Text));
                }
                "text"
            },
            OutputFormat::Json => {
                proof {
                    reveal_strlit("json");
                    assert("json"@ =~= output_format_name(OutputFormat::Json));
                }
                "json"
            },
        }
    }
}

impl ScriptType {
    /// The canonical lowercase name of this script type.
    pub fn as_str(&self) -> (name: &'static str)
        ensures
            name@ == script_type_name(*self),
    {
        match self {
            ScriptType::Bash => {
                proof {
                    reveal_strlit("bash");
                    assert("bash"@ =~= script_type_name(ScriptType::Bash));
                }
                "bash"
            },
            ScriptType::Powershell => {
                proof {
                    reveal_strlit("powershell");
                    assert("powershell"@ =~= script_type_name(ScriptType::Powershell));
                }
                "powershell"
            },
        }
    }
}

} // verus!
