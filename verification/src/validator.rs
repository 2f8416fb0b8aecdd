//! Conditional requests: whether the validators that a client lists in
//! `If-None-Match` include the token of the asset at hand.

use crate::text::chars_of;
use vstd::prelude::*;

verus! {

/// White space in the sense of Unicode's `White_Space` property, which is
/// what trimming a string removes.
pub open spec fn is_whitespace(c: char) -> bool {
    let n = c as u32;
    ||| 0x09 <= n <= 0x0D
    ||| n == 0x20
    ||| n == 0x85
    ||| n == 0xA0
    ||| n == 0x1680
    ||| 0x2000 <= n <= 0x200A
    ||| n == 0x2028
    ||| n == 0x2029
    ||| n == 0x202F
    ||| n == 0x205F
    ||| n == 0x3000
}

/// `s` without its leading white space.
pub open spec fn trim_start(s: Seq<char>) -> Seq<char>
    decreases s.len(),
{
    if s.len() > 0 && is_whitespace(s.first()) {
        trim_start(s.drop_first())
    } else {
        s
    }
}

/// `s` without its trailing white space.
pub open spec fn trim_end(s: Seq<char>) -> Seq<char>
    decreases s.len(),
{
    if s.len() > 0 && is_whitespace(s.last()) {
        trim_end(s.drop_last())
    } else {
        s
    }
}

/// `s` without the white space around it.
pub open spec fn trimmed(s: Seq<char>) -> Seq<char> {
    trim_end(trim_start(s))
}

/// `[from, to)` is one item of the comma-separated list `h`: it holds no
/// comma and is bounded on each side by a comma or by an end of `h`.
pub open spec fn is_list_item(h: Seq<char>, from: int, to: int) -> bool {
    &&& 0 <= from <= to <= h.len()
    &&& from == 0 || h[from - 1] == ','
    &&& to == h.len() || h[to] == ','
    &&& forall|k: int| from <= k < to ==> h[k] != ','
}

/// Some item of the comma-separated list `h` is `tag`, white space around
/// the item aside.
pub open spec fn lists_validator(h: Seq<char>, tag: Seq<char>) -> bool {
    exists|from: int, to: int| #[trigger]
        is_list_item(h, from, to) && trimmed(h.subrange(from, to)) == tag
}

/// A request's validator header, if it has one, lists `tag`.
pub open spec fn validator_matches(header: Option<Seq<char>>, tag: Seq<char>) -> bool {
    match header {
        Some(h) => lists_validator(h, tag),
        None => false,
    }
}

/// Trimming the front removes exactly the run of white space that ends at `a`.
proof fn lemma_trim_start_at(s: Seq<char>, a: int)
    requires
        0 <= a <= s.len(),
        forall|k: int| 0 <= k < a ==> is_whitespace(s[k]),
        a == s.len() || !is_whitespace(s[a]),
    ensures
        trim_start(s) == s.skip(a),
    decreases a,
{
    if a == 0 {
        assert(s.skip(0) =~= s);
    } else {
        lemma_trim_start_at(s.drop_first(), a - 1);
        assert(s.drop_first().skip(a - 1) =~= s.skip(a));
    }
}

/// Trimming the back removes exactly the run of white space that starts at `b`.
proof fn lemma_trim_end_at(s: Seq<char>, b: int)
    requires
        0 <= b <= s.len(),
        forall|k: int| b <= k < s.len() ==> is_whitespace(s[k]),
        b == 0 || !is_whitespace(s[b - 1]),
    ensures
        trim_end(s) == s.take(b),
    decreases s.len() - b,
{
    if b == s.len() {
        assert(s.take(b) =~= s);
    } else {
        lemma_trim_end_at(s.drop_last(), b);
        assert(s.drop_last().take(b) =~= s.take(b));
    }
}

/// Whether `c` is white space.
fn is_whitespace_char(c: char) -> (white: bool)
    ensures
        white == is_whitespace(c),
{
    let n: u32 = c as u32;
    (0x09 <= n && n <= 0x0D) || n == 0x20 || n == 0x85 || n == 0xA0 || n == 0x1680 || (0x2000 <= n
        && n <= 0x200A) || n == 0x2028 || n == 0x2029 || n == 0x202F || n == 0x205F || n == 0x3000
}

/// Whether the part `[from, to)` of `h`, trimmed, is `tag`.
fn trimmed_part_is(h: &Vec<char>, from: usize, to: usize, tag: &Vec<char>) -> (same: bool)
    requires
        from <= to <= h@.len(),
    ensures
        same == (trimmed(h@.subrange(from as int, to as int)) == tag@),
{
    let mut a: usize = from;
    while a < to && is_whitespace_char(h[a])
        invariant
            from <= a <= to <= h@.len(),
            forall|k: int| from <= k < a ==> is_whitespace(h@[k]),
        decreases to - a,
    {
        a = a + 1;
    }
    let mut b: usize = to;
    while b > a && is_whitespace_char(h[b - 1])
        invariant
            a <= b <= to <= h@.len(),
            forall|k: int| b <= k < to ==> is_whitespace(h@[k]),
        decreases b,
    {
        b = b - 1;
    }
    proof {
        let part = h@.subrange(from as int, to as int);
        lemma_trim_start_at(part, a - from);
        let front = part.skip(a - from);
        lemma_trim_end_at(front, b - a);
        assert(front.take(b - a) =~= h@.subrange(a as int, b as int));
        assert(trimmed(part) == h@.subrange(a as int, b as int));
    }
    if b - a != tag.len() {
        assert(h@.subrange(a as int, b as int).len() != tag@.len());
        return false;
    }
    let mut i: usize = 0;
    while i < b - a
        invariant
            from <= to <= h@.len(),
            a <= b <= h@.len(),
            trimmed(h@.subrange(from as int, to as int)) == h@.subrange(a as int, b as int),
            b - a == tag@.len(),
            i <= b - a,
            forall|k: int| 0 <= k < i ==> h@[a + k] == tag@[k],
        decreases b - a - i,
    {
        if h[a + i] != tag[i] {
            assert(h@.subrange(a as int, b as int)[i as int] != tag@[i as int]);
            return false;
        }
        i = i + 1;
    }
    assert(h@.subrange(a as int, b as int) =~= tag@);
    true
}

/// Whether the comma-separated list of validators `header` holds `tag`. The
/// white space around each listed validator is ignored.
pub fn validator_listed(header: &str, tag: &str) -> (listed: bool)
    ensures
        listed == lists_validator(header@, tag@),
{
    let h = chars_of(header);
    let t = chars_of(tag);
    let n: usize = h.len();
    let mut start: usize = 0;
    let mut i: usize = 0;
    loop
        invariant
            n == h@.len(),
            h@ == header@,
            t@ == tag@,
            start <= i <= n,
            start == 0 || h@[start - 1] == ',',
            forall|k: int| start <= k < i ==> h@[k] != ',',
            forall|from: int, to: int| #[trigger]
                is_list_item(h@, from, to) && to < start ==> trimmed(h@.subrange(from, to)) != t@,
        decreases n - i,
    {
        if i == n || h[i] == ',' {
            assert(is_list_item(h@, start as int, i as int));
            if trimmed_part_is(&h, start, i, &t) {
                return true;
            }
            assert forall|from: int, to: int| #[trigger]
                is_list_item(h@, from, to) && to <= i implies trimmed(h@.subrange(from, to))
                != t@ by {
                if to >= start {
                    if from < start {
                        assert(h@[start - 1] == ',');
                    }
                    if from > start {
                        assert(h@[from - 1] == ',');
                    }
                    if to < i {
                        assert(h@[to] == ',');
                    }
                }
            }
            if i == n {
                return false;
            }
            start = i + 1;
        }
        i = i + 1;
    }
}

/// Whether a request's `If-None-Match` value, if there is one, lists `tag`.
pub fn header_matches(header: Option<&str>, tag: &str) -> (matched: bool)
    ensures
        matched == validator_matches(
            match header {
                Some(h) => Some(h@),
                None => None,
            },
            tag@,
        ),
{
    match header {
        Some(h) => validator_listed(h, tag),
        None => false,
    }
}

/// A header without a comma is a list of one item: it lists `tag` exactly
/// when it is `tag` once the white space around it is removed.
pub proof fn lemma_lone_validator(h: Seq<char>, tag: Seq<char>)
    requires
        forall|k: int| 0 <= k < h.len() ==> h[k] != ',',
    ensures
        lists_validator(h, tag) <==> trimmed(h) == tag,
{
    assert(h.subrange(0, h.len() as int) =~= h);
    assert(is_list_item(h, 0, h.len() as int));
    if lists_validator(h, tag) {
        let (from, to) = choose|from: int, to: int| #[trigger]
            is_list_item(h, from, to) && trimmed(h.subrange(from, to)) == tag;
        if from > 0 {
            assert(h[from - 1] == ',');
        }
        if to < h.len() {
            assert(h[to] == ',');
        }
    }
}

/// A validator without a comma and without white space at either end lists
/// itself.
pub proof fn lemma_lone_validator_lists_itself(tag: Seq<char>)
    requires
        tag.len() > 0,
        !is_whitespace(tag.first()),
        !is_whitespace(tag.last()),
        forall|k: int| 0 <= k < tag.len() ==> tag[k] != ',',
    ensures
        lists_validator(tag, tag),
{
    assert(trim_start(tag) == tag);
    assert(trim_end(tag) == tag);
    lemma_lone_validator(tag, tag);
}

} // verus!
