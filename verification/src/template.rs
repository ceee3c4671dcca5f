//! Template resolution and defensive quoting.
//!
//! A template is a string holding zero or more `${owner}` / `${repository}`
//! placeholders. Resolution replaces every occurrence of the two known
//! placeholders, left to right, with the given owner and repository values.
//! Replacement is textual and not recursive: a substituted value is never
//! itself re-scanned for placeholders, and any other `${...}` text passes
//! through verbatim.

use vstd::prelude::*;

verus! {

/// The placeholder token that is replaced by the owner value.
pub open spec fn owner_token() -> Seq<char> {
    seq!['$', '{', 'o', 'w', 'n', 'e', 'r', '}']
}

/// The placeholder token that is replaced by the repository value.
pub open spec fn repository_token() -> Seq<char> {
    seq!['$', '{', 'r', 'e', 'p', 'o', 's', 'i', 't', 'o', 'r', 'y', '}']
}

/// The two placeholder tokens, written as string literals for executable
/// scanning, denote the same character sequences as the spec-level tokens.
pub proof fn lemma_placeholder_literals()
    ensures
        "${owner}"@ == owner_token(),
        "${repository}"@ == repository_token(),
{
    reveal_strlit("${owner}");
    reveal_strlit("${repository}");
    assert("${owner}"@ =~= owner_token());
    assert("${repository}"@ =~= repository_token());
}

/// Resolution of a template, left to right: each occurrence of a placeholder
/// token is replaced by the corresponding value; every other character is
/// kept. Substituted values are not re-scanned.
pub open spec fn resolve_seq(template: Seq<char>, owner: Seq<char>, repository: Seq<char>) -> Seq<
    char,
>
    decreases template.len(),
{
    if template.len() == 0 {
        Seq::empty()
    } else if owner_token().is_prefix_of(template) {
        owner + resolve_seq(template.skip(owner_token().len() as int), owner, repository)
    } else if repository_token().is_prefix_of(template) {
        repository + resolve_seq(
            template.skip(repository_token().len() as int),
            owner,
            repository,
        )
    } else {
        seq![template[0]] + resolve_seq(template.skip(1), owner, repository)
    }
}

/// True when `pattern` occurs in `text` starting at character position `at`.
pub open spec fn matches_at(text: Seq<char>, at: int, pattern: Seq<char>) -> bool {
    at + pattern.len() <= text.len() && text.subrange(at, at + pattern.len()) == pattern
}

/// Whether `pattern` occurs in `text` at character position `at`.
fn str_matches_at(text: &str, at: usize, pattern: &str) -> (found: bool)
    requires
        at <= text@.len(),
    ensures
        found == matches_at(text@, at as int, pattern@),
{
    let text_len = text.unicode_len();
    let pattern_len = pattern.unicode_len();
    if text_len - at < pattern_len {
        proof {
            assert(!matches_at(text@, at as int, pattern@));
        }
        return false;
    }
    let mut i: usize = 0;
    while i < pattern_len
        invariant
            at + pattern_len <= text_len,
            text_len == text@.len(),
            pattern_len == pattern@.len(),
            i <= pattern_len,
            forall|k: int| 0 <= k < i ==> text@[at + k] == pattern@[k],
        decreases pattern_len - i,
    {
        if text.get_char(at + i) != pattern.get_char(i) {
            proof {
                assert(text@.subrange(at as int, at + pattern@.len())[i as int] != pattern@[
                    i as int
                ]);
            }
            return false;
        }
        i += 1;
    }
    proof {
        assert(text@.subrange(at as int, at + pattern@.len()) =~= pattern@);
    }
    true
}

/// Replaces every occurrence of `${owner}` with `owner` and every occurrence
/// of `${repository}` with `repository`, scanning left to right. Substituted
/// values are spliced verbatim and never re-scanned; unrecognized `${...}`
/// text passes through unchanged. This layer has no error condition.
pub fn resolve(template: &str, owner: &str, repository: &str) -> (resolved: String)
    ensures
        resolved@ == resolve_seq(template@, owner@, repository@),
{
    proof {
        lemma_placeholder_literals();
    }
    let template_len = template.unicode_len();
    let mut resolved = String::new();
    let mut i: usize = 0;
    proof {
        assert(template@.skip(0) =~= template@);
        assert(resolved@ + resolve_seq(template@, owner@, repository@) =~= resolve_seq(
            template@,
            owner@,
            repository@,
        ));
    }
    while i < template_len
        invariant
            template_len == template@.len(),
            i <= template_len,
            resolved@ + resolve_seq(template@.skip(i as int), owner@, repository@) == resolve_seq(
                template@,
                owner@,
                repository@,
            ),
        decreases template_len - i,
    {
        let ghost rest = template@.skip(i as int);
        if str_matches_at(template, i, "${owner}") {
            proof {
                lemma_placeholder_literals();
                assert(rest.subrange(0, owner_token().len() as int) =~= template@.subrange(
                    i as int,
                    i + owner_token().len(),
                ));
                assert(owner_token().is_prefix_of(rest));
                assert(rest.skip(owner_token().len() as int) =~= template@.skip(
                    i + owner_token().len(),
                ));
                assert((resolved@ + owner@) + resolve_seq(
                    template@.skip(i + owner_token().len()),
                    owner@,
                    repository@,
                ) =~= resolved@ + (owner@ + resolve_seq(
                    template@.skip(i + owner_token().len()),
                    owner@,
                    repository@,
                )));
            }
            resolved.append(owner);
            i += 8;
        } else if str_matches_at(template, i, "${repository}") {
            proof {
                lemma_placeholder_literals();
                assert(rest.subrange(0, repository_token().len() as int) =~= template@.subrange(
                    i as int,
                    i + repository_token().len(),
                ));
                assert(!owner_token().is_prefix_of(rest)) by {
                    if owner_token().is_prefix_of(rest) {
                        assert(rest.subrange(0, owner_token().len() as int) =~= template@.subrange(
                            i as int,
                            i + owner_token().len(),
                        ));
                    }
                }
                assert(repository_token().is_prefix_of(rest));
                assert(rest.skip(repository_token().len() as int) =~= template@.skip(
                    i + repository_token().len(),
                ));
                assert((resolved@ + repository@) + resolve_seq(
                    template@.skip(i + repository_token().len()),
                    owner@,
                    repository@,
                ) =~= resolved@ + (repository@ + resolve_seq(
                    template@.skip(i + repository_token().len()),
                    owner@,
                    repository@,
                )));
            }
            resolved.append(repository);
            i += 13;
        } else {
            let c = template.substring_char(i, i + 1);
            proof {
                lemma_placeholder_literals();
                assert(!owner_token().is_prefix_of(rest)) by {
                    if owner_token().is_prefix_of(rest) {
                        assert(rest.subrange(0, owner_token().len() as int) =~= template@.subrange(
                            i as int,
                            i + owner_token().len(),
                        ));
                    }
                }
                assert(!repository_token().is_prefix_of(rest)) by {
                    if repository_token().is_prefix_of(rest) {
                        assert(rest.subrange(0, repository_token().len() as int)
                            =~= template@.subrange(i as int, i + repository_token().len()));
                    }
                }
                assert(c@ =~= seq![rest[0]]);
                assert(rest.skip(1) =~= template@.skip(i + 1));
                assert((resolved@ + c@) + resolve_seq(template@.skip(i + 1), owner@, repository@)
                    =~= resolved@ + (seq![rest[0]] + resolve_seq(
                    template@.skip(i + 1),
                    owner@,
                    repository@,
                )));
            }
            resolved.append(c);
            i += 1;
        }
    }
    proof {
        assert(template@.skip(template@.len() as int) =~= Seq::<char>::empty());
        assert(resolved@ + Seq::<char>::empty() =~= resolved@);
    }
    resolved
}

/// A value wrapped in double quotes, the quoting convention both dialects
/// share. Quoting is always applied, never conditional, so that the emitted
/// text is deterministic and values holding whitespace stay single arguments.
pub open spec fn quote_seq(value: Seq<char>) -> Seq<char> {
    seq!['"'] + value + seq!['"']
}

/// Wraps `value` in double quotes, producing a literal safe to splice into a
/// generated statement in either dialect.
pub fn quote(value: &str) -> (quoted: String)
    ensures
        quoted@ == quote_seq(value@),
{
    proof {
        reveal_strlit("\"");
    }
    let mut quoted = String::from_str("\"");
    quoted.append(value);
    quoted.append("\"");
    proof {
        assert(quoted@ =~= quote_seq(value@));
    }
    quoted
}

} // verus!
