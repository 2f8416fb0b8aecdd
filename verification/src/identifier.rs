//! Identifiers: the key under which an asset is cached and fetched, taken
//! from the last path segment of a request, and the origin URL built from it.

use crate::text::chars_of;
use vstd::prelude::*;
use vstd::string::*;

verus! {

/// `i` is the position of the last `.` in `s`.
pub open spec fn is_last_dot(s: Seq<char>, i: int) -> bool {
    &&& 0 <= i < s.len()
    &&& s[i] == '.'
    &&& forall|j: int| i < j < s.len() ==> s[j] != '.'
}

/// The identifier that a path segment names: what stands before its last
/// `.`, or the whole segment when it holds no `.`.
pub open spec fn identifier_of(name: Seq<char>) -> Seq<char> {
    if exists|i: int| is_last_dot(name, i) {
        name.take(choose|i: int| is_last_dot(name, i))
    } else {
        name
    }
}

/// The origin URL for an identifier.
pub open spec fn source_url_of(id: Seq<char>) -> Seq<char> {
    "https://cdn.discordapp.com/emojis/"@ + id + "?size=160&animated=true"@
}

/// A sequence has at most one last dot.
proof fn lemma_last_dot_unique(s: Seq<char>, i: int, j: int)
    requires
        is_last_dot(s, i),
        is_last_dot(s, j),
    ensures
        i == j,
{
}

/// Strips the declared format suffix from a path segment: the result is the
/// part before the last `.`, or the segment itself when there is none.
pub fn extract_identifier(name: &str) -> (id: String)
    ensures
        id@ == identifier_of(name@),
{
    let chars = chars_of(name);
    let mut end: usize = chars.len();
    while end > 0 && chars[end - 1] != '.'
        invariant
            end <= chars@.len(),
            chars@ == name@,
            forall|j: int| end <= j < chars@.len() ==> chars@[j] != '.',
        decreases end,
    {
        end = end - 1;
    }
    if end == 0 {
        assert(!exists|i: int| is_last_dot(name@, i));
        name.to_owned()
    } else {
        proof {
            assert(is_last_dot(name@, end - 1));
            lemma_last_dot_unique(name@, end - 1, choose|i: int| is_last_dot(name@, i));
        }
        name.substring_char(0, end - 1).to_owned()
    }
}

/// Builds the origin URL from which the asset named `name` is fetched.
pub fn format_src(name: &str) -> (url: String)
    ensures
        url@ == source_url_of(name@),
{
    let mut url = String::from_str("https://cdn.discordapp.com/emojis/");
    url.append(name);
    url.append("?size=160&animated=true");
    url
}

/// A segment without a `.` is its own identifier.
pub proof fn lemma_identifier_without_dot(name: Seq<char>)
    requires
        forall|i: int| 0 <= i < name.len() ==> name[i] != '.',
    ensures
        identifier_of(name) == name,
{
}

/// A suffix after the last `.` is dropped: `stem.suffix` names `stem`,
/// whatever the stem holds, as long as the suffix holds no `.`.
pub proof fn lemma_identifier_drops_suffix(stem: Seq<char>, suffix: Seq<char>)
    requires
        forall|i: int| 0 <= i < suffix.len() ==> suffix[i] != '.',
    ensures
        identifier_of(stem + seq!['.'] + suffix) == stem,
{
    let name = stem + seq!['.'] + suffix;
    let k = stem.len() as int;
    assert(name[k] == '.');
    assert forall|j: int| k < j < name.len() implies name[j] != '.' by {
        assert(name[j] == suffix[j - k - 1]);
    }
    assert(is_last_dot(name, k));
    lemma_last_dot_unique(name, k, choose|i: int| is_last_dot(name, i));
    assert(name.take(k) =~= stem);
}

/// Two path segments that differ only in a declared suffix name the same
/// identifier, and so the same cache entry and the same origin URL.
pub proof fn lemma_suffix_does_not_matter(id: Seq<char>, suffix: Seq<char>)
    requires
        forall|i: int| 0 <= i < id.len() ==> id[i] != '.',
        forall|i: int| 0 <= i < suffix.len() ==> suffix[i] != '.',
    ensures
        identifier_of(id + seq!['.'] + suffix) == identifier_of(id),
        source_url_of(identifier_of(id + seq!['.'] + suffix)) == source_url_of(identifier_of(id)),
{
    lemma_identifier_without_dot(id);
    lemma_identifier_drops_suffix(id, suffix);
}

} // verus!
