//! Container sniffing: decide from the raw bytes of a RIFF/WebP container
//! whether the asset is animated, without decoding any pixel.

use vstd::prelude::*;

verus! {

/// What kind of asset a byte buffer holds.
#[derive(Clone, Copy, Debug, PartialEq, Eq, Structural)]
pub enum Classification {
    Animated,
    Static,
}

/// The bytes `RIFF`, which open every container.
pub open spec fn riff_marker() -> Seq<u8> {
    seq![0x52u8, 0x49u8, 0x46u8, 0x46u8]
}

/// The bytes `WEBP`, the format marker at offset 8.
pub open spec fn webp_marker() -> Seq<u8> {
    seq![0x57u8, 0x45u8, 0x42u8, 0x50u8]
}

/// The tag `VP8X` of the extended-format chunk.
pub open spec fn extended_tag() -> Seq<u8> {
    seq![0x56u8, 0x50u8, 0x38u8, 0x58u8]
}

/// The tag `ANIM` of the animation-parameters chunk.
pub open spec fn animation_tag() -> Seq<u8> {
    seq![0x41u8, 0x4Eu8, 0x49u8, 0x4Du8]
}

/// Length of the container header: marker, size field, format marker.
pub const HEADER_LEN: usize = 12;

/// Length of a chunk header: tag and little-endian payload size.
pub const CHUNK_HEADER_LEN: usize = 8;

/// Mask of the animation bit in the extended-format chunk's flag byte.
pub const ANIMATION_FLAG: u8 = 0x02;

/// The buffer starts with a 12-byte header carrying both markers. The size
/// field between them is not examined.
pub open spec fn has_container_header(s: Seq<u8>) -> bool {
    &&& s.len() >= 12
    &&& s.subrange(0, 4) == riff_marker()
    &&& s.subrange(8, 12) == webp_marker()
}

/// A whole chunk header lies inside the buffer at `pos`.
pub open spec fn chunk_header_fits(s: Seq<u8>, pos: int) -> bool {
    0 <= pos && pos + 8 <= s.len()
}

/// The four tag bytes of the chunk at `pos`.
pub open spec fn chunk_tag(s: Seq<u8>, pos: int) -> Seq<u8> {
    s.subrange(pos, pos + 4)
}

/// The payload size that the chunk at `pos` declares, little-endian.
pub open spec fn chunk_size(s: Seq<u8>, pos: int) -> nat {
    s[pos + 4] as nat + 0x100 * (s[pos + 5] as nat) + 0x1_0000 * (s[pos + 6] as nat) + 0x100_0000
        * (s[pos + 7] as nat)
}

/// Where the chunk after the one at `pos` starts: past the header, the
/// payload, and one padding byte when the payload size is odd.
pub open spec fn next_chunk(s: Seq<u8>, pos: int) -> int {
    pos + 8 + chunk_size(s, pos) + chunk_size(s, pos) % 2
}

/// The flag byte of an extended-format chunk at `pos` lies inside the buffer
/// and has its animation bit set.
pub open spec fn animation_flag_set(s: Seq<u8>, pos: int) -> bool {
    pos + 8 < s.len() && s[pos + 8] & ANIMATION_FLAG != 0
}

/// The verdict of the chunk walk that starts at `pos`: the first chunk that is
/// an extended-format or an animation-parameters chunk decides. A walk that
/// reaches the end of the buffer, or a chunk that declares more payload than
/// the buffer holds, finds nothing.
pub open spec fn walk_finds_animation(s: Seq<u8>, pos: int) -> bool
    decreases s.len() - pos,
{
    if !chunk_header_fits(s, pos) {
        false
    } else if chunk_tag(s, pos) == extended_tag() {
        animation_flag_set(s, pos)
    } else if chunk_tag(s, pos) == animation_tag() {
        true
    } else if next_chunk(s, pos) > s.len() {
        false
    } else {
        walk_finds_animation(s, next_chunk(s, pos))
    }
}

/// The buffer is a WebP container that the chunk walk finds to be animated.
pub open spec fn is_animated(s: Seq<u8>) -> bool {
    has_container_header(s) && walk_finds_animation(s, 12)
}

/// The classification of a buffer: anything that is not recognisably an
/// animated container counts as a still image.
pub open spec fn classification_of(s: Seq<u8>) -> Classification {
    if is_animated(s) {
        Classification::Animated
    } else {
        Classification::Static
    }
}

/// Whether the four bytes at `pos` are exactly `a b c d`.
fn tag_is(data: &[u8], pos: usize, a: u8, b: u8, c: u8, d: u8) -> (same: bool)
    requires
        pos + 4 <= data@.len(),
    ensures
        same == (data@.subrange(pos as int, pos + 4) == seq![a, b, c, d]),
{
    let same = data[pos] == a && data[pos + 1] == b && data[pos + 2] == c && data[pos + 3] == d;
    proof {
        let got = data@.subrange(pos as int, pos + 4);
        let want = seq![a, b, c, d];
        if same {
            assert(got =~= want);
        } else {
            assert(got[0] == data@[pos as int]);
            assert(got[1] == data@[pos + 1]);
            assert(got[2] == data@[pos + 2]);
            assert(got[3] == data@[pos + 3]);
        }
    }
    same
}

/// Tells whether `data` is an animated WebP container.
///
/// Every offset is checked against the buffer's length before it is read, so
/// a chunk that declares more payload than the buffer holds ends the walk
/// with the answer `false`.
pub fn is_animated_webp(data: &[u8]) -> (animated: bool)
    ensures
        animated == is_animated(data@),
{
    let len: usize = data.len();
    if len < HEADER_LEN {
        return false;
    }
    if !tag_is(data, 0, 0x52, 0x49, 0x46, 0x46) || !tag_is(data, 8, 0x57, 0x45, 0x42, 0x50) {
        return false;
    }
    let mut pos: usize = HEADER_LEN;
    while len - pos >= CHUNK_HEADER_LEN
        invariant
            len == data@.len(),
            12 <= pos <= len,
            has_container_header(data@),
            walk_finds_animation(data@, 12) == walk_finds_animation(data@, pos as int),
        decreases len - pos,
    {
        if tag_is(data, pos, 0x56, 0x50, 0x38, 0x58) {
            if len - pos > CHUNK_HEADER_LEN {
                let flags: u8 = data[pos + 8];
                return (flags & ANIMATION_FLAG) != 0;
            }
            return false;
        }
        if tag_is(data, pos, 0x41, 0x4E, 0x49, 0x4D) {
            return true;
        }
        let size: u64 = data[pos + 4] as u64 + 0x100 * (data[pos + 5] as u64) + 0x1_0000 * (data[pos
            + 6] as u64) + 0x100_0000 * (data[pos + 7] as u64);
        let padded: u64 = size + size % 2;
        let rest: usize = len - pos - CHUNK_HEADER_LEN;
        if padded > rest as u64 {
            return false;
        }
        pos = pos + CHUNK_HEADER_LEN + padded as usize;
    }
    false
}

/// Classifies `data` as an animated or a still asset.
pub fn classify(data: &[u8]) -> (kind: Classification)
    ensures
        kind == classification_of(data@),
{
    if is_animated_webp(data) {
        Classification::Animated
    } else {
        Classification::Static
    }
}

/// The walk that starts at `pos` arrives at a chunk header at `q`: `q` is
/// `pos` itself or lies further along the chain of declared sizes, and every
/// chunk on the way ends inside the buffer. Tags play no part in this.
pub open spec fn chunk_reached(s: Seq<u8>, pos: int, q: int) -> bool
    decreases s.len() - pos,
{
    if !chunk_header_fits(s, pos) {
        false
    } else if q == pos {
        true
    } else if next_chunk(s, pos) > s.len() {
        false
    } else {
        chunk_reached(s, next_chunk(s, pos), q)
    }
}

/// `q` is the start of one of the container's chunks.
pub open spec fn is_chunk(s: Seq<u8>, q: int) -> bool {
    chunk_reached(s, 12, q)
}

/// A chunk that a walk reaches lies at or after the walk's start, and its
/// header is inside the buffer.
proof fn lemma_reached_is_ahead(s: Seq<u8>, pos: int, q: int)
    requires
        chunk_reached(s, pos, q),
    ensures
        pos <= q,
        chunk_header_fits(s, q),
    decreases s.len() - pos,
{
    if q != pos {
        lemma_reached_is_ahead(s, next_chunk(s, pos), q);
    }
}

/// What the walk from `pos` reaches beyond `pos` is what the walk from the
/// next chunk reaches.
proof fn lemma_reached_from_next(s: Seq<u8>, pos: int, q: int)
    requires
        chunk_header_fits(s, pos),
        next_chunk(s, pos) <= s.len(),
        chunk_reached(s, next_chunk(s, pos), q),
    ensures
        chunk_reached(s, pos, q),
        pos < q,
{
    lemma_reached_is_ahead(s, next_chunk(s, pos), q);
}

/// The two marker tags differ.
proof fn lemma_tags_differ()
    ensures
        extended_tag() != animation_tag(),
{
    assert(extended_tag()[0] != animation_tag()[0]);
}

/// A walk that reaches neither kind of marker chunk finds no animation.
proof fn lemma_walk_without_markers(s: Seq<u8>, pos: int)
    requires
        forall|q: int| #[trigger]
            chunk_reached(s, pos, q) ==> chunk_tag(s, q) != extended_tag() && chunk_tag(s, q)
                != animation_tag(),
    ensures
        !walk_finds_animation(s, pos),
    decreases s.len() - pos,
{
    if chunk_header_fits(s, pos) {
        assert(chunk_reached(s, pos, pos));
        let next = next_chunk(s, pos);
        if next <= s.len() {
            assert forall|q: int| #[trigger] chunk_reached(s, next, q) implies chunk_tag(s, q)
                != extended_tag() && chunk_tag(s, q) != animation_tag() by {
                lemma_reached_from_next(s, pos, q);
            }
            lemma_walk_without_markers(s, next);
        }
    }
}

/// A walk gives the verdict of the first marker chunk it reaches: skipping
/// chunks that are no markers does not change it.
proof fn lemma_walk_skips_plain_chunks(s: Seq<u8>, pos: int, q: int)
    requires
        chunk_reached(s, pos, q),
        forall|p: int|
            #[trigger] chunk_reached(s, pos, p) && p < q ==> chunk_tag(s, p) != extended_tag()
                && chunk_tag(s, p) != animation_tag(),
    ensures
        walk_finds_animation(s, pos) == walk_finds_animation(s, q),
    decreases s.len() - pos,
{
    if q != pos {
        lemma_reached_is_ahead(s, next_chunk(s, pos), q);
        assert(chunk_reached(s, pos, pos));
        let next = next_chunk(s, pos);
        assert forall|p: int| #[trigger] chunk_reached(s, next, p) && p < q implies chunk_tag(s, p)
            != extended_tag() && chunk_tag(s, p) != animation_tag() by {
            lemma_reached_from_next(s, pos, p);
        }
        lemma_walk_skips_plain_chunks(s, next, q);
    }
}

/// A walk that reaches a chunk speaking for animation finds it, as long as
/// every extended-format chunk before that one has its animation bit set.
proof fn lemma_walk_meets_animation(s: Seq<u8>, pos: int, q: int)
    requires
        chunk_reached(s, pos, q),
        chunk_tag(s, q) == animation_tag() || (chunk_tag(s, q) == extended_tag()
            && animation_flag_set(s, q)),
        forall|p: int|
            #[trigger] chunk_reached(s, pos, p) && p < q && chunk_tag(s, p) == extended_tag()
                ==> animation_flag_set(s, p),
    ensures
        walk_finds_animation(s, pos),
    decreases s.len() - pos,
{
    lemma_tags_differ();
    if q != pos {
        lemma_reached_is_ahead(s, next_chunk(s, pos), q);
        assert(chunk_reached(s, pos, pos));
        let next = next_chunk(s, pos);
        if chunk_tag(s, pos) != extended_tag() && chunk_tag(s, pos) != animation_tag() {
            assert forall|p: int| #[trigger]
                chunk_reached(s, next, p) && p < q && chunk_tag(s, p)
                    == extended_tag() implies animation_flag_set(s, p) by {
                lemma_reached_from_next(s, pos, p);
            }
            lemma_walk_meets_animation(s, next, q);
        }
    }
}

/// A buffer shorter than the 12-byte header, or one whose header does not
/// carry both markers, is classified as a still image.
pub proof fn lemma_unrecognised_header_is_static(s: Seq<u8>)
    requires
        s.len() < 12 || !has_container_header(s),
    ensures
        classification_of(s) == Classification::Static,
{
}

/// A container without an extended-format chunk and without an
/// animation-parameters chunk is classified as a still image. This holds
/// whether or not the chunks fill the buffer exactly.
pub proof fn lemma_no_marker_chunk_is_static(s: Seq<u8>)
    requires
        forall|q: int| #[trigger]
            is_chunk(s, q) ==> chunk_tag(s, q) != extended_tag() && chunk_tag(s, q)
                != animation_tag(),
    ensures
        classification_of(s) == Classification::Static,
{
    assert forall|q: int| #[trigger] chunk_reached(s, 12, q) implies chunk_tag(s, q)
        != extended_tag() && chunk_tag(s, q) != animation_tag() by {
        assert(is_chunk(s, q));
    }
    lemma_walk_without_markers(s, 12);
}

/// A container with an animation-parameters chunk at `q`, wherever that is,
/// is classified as animated, provided that no extended-format chunk with a
/// clear animation bit comes before it: such a chunk is met first and is
/// authoritative. The chunks after `q` need not be well formed.
pub proof fn lemma_animation_chunk_is_animated(s: Seq<u8>, q: int)
    requires
        has_container_header(s),
        is_chunk(s, q),
        chunk_tag(s, q) == animation_tag(),
        forall|p: int|
            #[trigger] is_chunk(s, p) && p < q && chunk_tag(s, p) == extended_tag()
                ==> animation_flag_set(s, p),
    ensures
        classification_of(s) == Classification::Animated,
{
    assert forall|p: int| #[trigger]
        chunk_reached(s, 12, p) && p < q && chunk_tag(s, p)
            == extended_tag() implies animation_flag_set(s, p) by {
        assert(is_chunk(s, p));
    }
    lemma_walk_meets_animation(s, 12, q);
}

/// The first extended-format chunk of a container, at `q`, decides: with its
/// animation bit set the container is animated; with the bit clear, or with no
/// flag byte in the buffer, it is a still image, provided that no
/// animation-parameters chunk comes before `q` (one that does is met first
/// and makes the container animated).
pub proof fn lemma_extended_chunk_decides(s: Seq<u8>, q: int)
    requires
        has_container_header(s),
        is_chunk(s, q),
        chunk_tag(s, q) == extended_tag(),
        forall|p: int| #[trigger] is_chunk(s, p) && p < q ==> chunk_tag(s, p) != extended_tag(),
    ensures
        animation_flag_set(s, q) ==> classification_of(s) == Classification::Animated,
        !animation_flag_set(s, q) && (forall|p: int| #[trigger]
            is_chunk(s, p) && p < q ==> chunk_tag(s, p) != animation_tag()) ==> classification_of(
            s,
        ) == Classification::Static,
{
    if animation_flag_set(s, q) {
        assert forall|p: int| #[trigger]
            chunk_reached(s, 12, p) && p < q && chunk_tag(s, p)
                == extended_tag() implies animation_flag_set(s, p) by {
            assert(is_chunk(s, p));
        }
        lemma_walk_meets_animation(s, 12, q);
    } else if forall|p: int| #[trigger] is_chunk(s, p) && p < q ==> chunk_tag(s, p) != animation_tag() {
        assert forall|p: int| #[trigger] chunk_reached(s, 12, p) && p < q implies chunk_tag(s, p)
            != extended_tag() && chunk_tag(s, p) != animation_tag() by {
            assert(is_chunk(s, p));
        }
        lemma_walk_skips_plain_chunks(s, 12, q);
        lemma_reached_is_ahead(s, 12, q);
    }
}

} // verus!
