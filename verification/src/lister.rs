//! The compute half of the repository-listing boundary.
//!
//! The surrounding tool obtains a listing by running a directory-listing
//! command; that call stays outside this library. What the library owns is
//! the argument list handed to that command and the splitting of its output
//! text into repository names: maximal runs of non-whitespace characters, in
//! the order they appear.

use vstd::prelude::*;

verus! {

/// A whitespace character as listing output uses it: space, tab, carriage
/// return or line feed.
pub open spec fn is_listing_space(c: char) -> bool {
    c == ' ' || c == '\t' || c == '\r' || c == '\n'
}

/// A name as splitting produces it: nonempty and free of whitespace.
pub open spec fn is_bare_name(s: Seq<char>) -> bool {
    s.len() > 0 && forall|k: int| 0 <= k < s.len() ==> !is_listing_space(#[trigger] s[k])
}

/// The names of `text` from position `i` on, where `current` holds the
/// characters of the token read so far: whitespace closes the current token,
/// every other character extends it.
pub open spec fn names_from(current: Seq<char>, text: Seq<char>, i: int) -> Seq<Seq<char>>
    decreases text.len() - i,
{
    if i < 0 || i >= text.len() {
        if current.len() == 0 {
            Seq::empty()
        } else {
            seq![current]
        }
    } else if is_listing_space(text[i]) {
        (if current.len() == 0 {
            Seq::empty()
        } else {
            seq![current]
        }) + names_from(Seq::empty(), text, i + 1)
    } else {
        names_from(current.push(text[i]), text, i + 1)
    }
}

/// The whitespace-separated names of a listing text, in order.
pub open spec fn listing_names(text: Seq<char>) -> Seq<Seq<char>> {
    names_from(Seq::empty(), text, 0)
}

/// Every name of a listing is nonempty and holds no whitespace.
proof fn lemma_names_from_bare(current: Seq<char>, text: Seq<char>, i: int)
    requires
        forall|k: int| 0 <= k < current.len() ==> !is_listing_space(#[trigger] current[k]),
    ensures
        forall|j: int|
            0 <= j < names_from(current, text, i).len() ==> is_bare_name(
                #[trigger] names_from(current, text, i)[j],
            ),
    decreases text.len() - i,
{
    if i < 0 || i >= text.len() {
        if current.len() > 0 {
            assert(names_from(current, text, i) =~= seq![current]);
            assert(is_bare_name(current));
        }
    } else if is_listing_space(text[i]) {
        lemma_names_from_bare(Seq::empty(), text, i + 1);
        let rest = names_from(Seq::empty(), text, i + 1);
        let head: Seq<Seq<char>> = if current.len() == 0 {
            Seq::empty()
        } else {
            seq![current]
        };
        assert(names_from(current, text, i) == head + rest);
        assert forall|j: int| 0 <= j < names_from(current, text, i).len() implies is_bare_name(
            #[trigger] names_from(current, text, i)[j],
        ) by {
            assert(names_from(current, text, i)[j] == (head + rest)[j]);
            if j < head.len() {
                assert((head + rest)[j] == current);
                assert(is_bare_name(current));
            } else {
                assert((head + rest)[j] == rest[j - head.len()]);
            }
        }
    } else {
        assert(forall|k: int|
            0 <= k < current.push(text[i]).len() ==> !is_listing_space(
                #[trigger] current.push(text[i])[k],
            ));
        lemma_names_from_bare(current.push(text[i]), text, i + 1);
        let rest = names_from(current.push(text[i]), text, i + 1);
        assert(names_from(current, text, i) == rest);
        assert forall|j: int| 0 <= j < names_from(current, text, i).len() implies is_bare_name(
            #[trigger] names_from(current, text, i)[j],
        ) by {
            assert(names_from(current, text, i)[j] == rest[j]);
        }
    }
}

/// Every name that splitting yields is nonempty and free of whitespace.
pub proof fn lemma_listing_names_bare(text: Seq<char>)
    ensures
        forall|j: int|
            0 <= j < listing_names(text).len() ==> is_bare_name(#[trigger] listing_names(text)[j]),
{
    lemma_names_from_bare(Seq::empty(), text, 0);
}

/// Splits a listing text into repository names: maximal runs of
/// non-whitespace characters, in the order they appear. Whitespace of any
/// amount and kind separates names; leading and trailing whitespace yields
/// no empty name.
pub fn split_repository_names(text: &str) -> (names: Vec<String>)
    ensures
        names.deep_view() == listing_names(text@),
{
    let len = text.unicode_len();
    let mut names: Vec<String> = Vec::new();
    let mut start: usize = 0;
    let mut i: usize = 0;
    proof {
        assert(text@.subrange(0, 0) =~= Seq::<char>::empty());
        assert(names.deep_view() =~= Seq::<Seq<char>>::empty());
        assert(names.deep_view() + names_from(Seq::empty(), text@, 0) =~= listing_names(text@));
    }
    while i < len
        invariant
            len == text@.len(),
            start <= i <= len,
            names.deep_view() + names_from(
                text@.subrange(start as int, i as int),
                text@,
                i as int,
            ) == listing_names(text@),
        decreases len - i,
    {
        let c = text.get_char(i);
        let ghost current = text@.subrange(start as int, i as int);
        if c == ' ' || c == '\t' || c == '\r' || c == '\n' {
            if start < i {
                let name = text.substring_char(start, i);
                let ghost before = names.deep_view();
                names.push(String::from_str(name));
                proof {
                    assert(names.deep_view() =~= before.push(current));
                    assert(before.push(current) =~= before + seq![current]);
                    assert((before + seq![current]) + names_from(Seq::empty(), text@, i + 1)
                        =~= before + (seq![current] + names_from(Seq::empty(), text@, i + 1)));
                }
            } else {
                proof {
                    assert(current =~= Seq::<char>::empty());
                    assert(Seq::<Seq<char>>::empty() + names_from(Seq::empty(), text@, i + 1)
                        =~= names_from(Seq::empty(), text@, i + 1));
                }
            }
            i += 1;
            start = i;
            proof {
                assert(text@.subrange(start as int, i as int) =~= Seq::<char>::empty());
            }
        } else {
            proof {
                assert(text@.subrange(start as int, i + 1) =~= current.push(text@[i as int]));
            }
            i += 1;
        }
    }
    let ghost current = text@.subrange(start as int, len as int);
    if start < len {
        let name = text.substring_char(start, len);
        let ghost before = names.deep_view();
        names.push(String::from_str(name));
        proof {
            assert(names.deep_view() =~= before.push(current));
            assert(before.push(current) =~= before + seq![current]);
            assert(names.deep_view() =~= listing_names(text@));
        }
    } else {
        proof {
            assert(current =~= Seq::<char>::empty());
            assert(names.deep_view() + Seq::<Seq<char>>::empty() =~= names.deep_view());
        }
    }
    names
}

/// The argument list of the directory-listing command: list up to ten
/// thousand repositories of `owner`, as JSON, and extract each name.
pub open spec fn list_argument_seq(owner: Seq<char>) -> Seq<Seq<char>> {
    seq![
        "repo"@,
        "list"@,
        owner,
        "-L"@,
        "10000"@,
        "--json"@,
        "name"@,
        "--jq"@,
        ".[].name"@,
    ]
}

/// Builds the argument list handed to the directory-listing command for
/// `owner`.
pub fn gh_list_arguments(owner: &str) -> (args: Vec<String>)
    ensures
        args.deep_view() == list_argument_seq(owner@),
{
    let mut args: Vec<String> = Vec::new();
    args.push(String::from_str("repo"));
    args.push(String::from_str("list"));
    args.push(String::from_str(owner));
    args.push(String::from_str("-L"));
    args.push(String::from_str("10000"));
    args.push(String::from_str("--json"));
    args.push(String::from_str("name"));
    args.push(String::from_str("--jq"));
    args.push(String::from_str(".[].name"));
    proof {
        assert(args.deep_view() =~= list_argument_seq(owner@));
    }
    args
}

} // verus!
