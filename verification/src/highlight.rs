//! Search-match highlighting: a text split into alternating non-matching and
//! matching segments along the match ranges of a query.
//!
//! The byte ranges come from the shared matcher, which reports them in
//! ascending order, non-overlapping, inside the text and on character
//! boundaries. Should a match range ever fall outside the text or off a
//! character boundary, the split stops there and the unmatched rest of the
//! text closes the list.

use vstd::prelude::*;
use crate::selectable_text::{boundary, lemma_text_boundaries, substring, utf8_bytes};

verus! {

broadcast use vstd::string::group_string_axioms;

/// Match ranges as the matcher reports them: ascending, non-overlapping,
/// inside the text, on character boundaries.
pub open spec fn ranges_wf(text: Seq<char>, ranges: Seq<(usize, usize)>) -> bool {
    &&& forall|i: int| 0 <= i < ranges.len() ==> {
        let (s, e) = #[trigger] ranges[i];
        s <= e <= utf8_bytes(text).len() && boundary(text, s as int) && boundary(text, e as int)
    }
    &&& forall|i: int| 0 < i < ranges.len() ==> ranges[i - 1].1 <= (#[trigger] ranges[i]).0
}

/// The cursor after the first `k` ranges.
pub open spec fn cursor_after(ranges: Seq<(usize, usize)>, k: int) -> int {
    if k == 0 { 0 } else { ranges[k - 1].1 as int }
}

/// The segments (as byte strings) the first `k` ranges produce: before each
/// match, the unmatched gap since the previous match (when non-empty), then
/// the match itself.
pub open spec fn segments_upto(bytes: Seq<u8>, ranges: Seq<(usize, usize)>, k: int) -> Seq<(Seq<u8>, bool)>
    decreases k,
{
    if k <= 0 {
        Seq::empty()
    } else {
        let (s, e) = ranges[k - 1];
        let cur = cursor_after(ranges, k - 1);
        let gap = if s > cur { seq![(bytes.subrange(cur, s as int), false)] } else { Seq::empty() };
        segments_upto(bytes, ranges, k - 1) + gap + seq![(bytes.subrange(s as int, e as int), true)]
    }
}

/// The highlight segments of a text: the whole text unmatched when there is
/// no match; otherwise the matches with the unmatched gaps between them and
/// the unmatched rest after the last match (when non-empty).
pub open spec fn highlight_spec(bytes: Seq<u8>, ranges: Seq<(usize, usize)>) -> Seq<(Seq<u8>, bool)> {
    if ranges.len() == 0 {
        seq![(bytes, false)]
    } else {
        let cur = cursor_after(ranges, ranges.len() as int);
        segments_upto(bytes, ranges, ranges.len() as int) + (if cur < bytes.len() {
            seq![(bytes.subrange(cur, bytes.len() as int), false)]
        } else {
            Seq::empty()
        })
    }
}

/// The byte view of a segment list.
pub open spec fn segments_view(segments: Seq<(String, bool)>) -> Seq<(Seq<u8>, bool)> {
    segments.map_values(|p: (String, bool)| (utf8_bytes(p.0@), p.1))
}

/// A range the text can be sliced at: ordered, inside the text, both ends on
/// character boundaries.
pub open spec fn range_ok(text: Seq<char>, r: (usize, usize)) -> bool {
    r.0 <= r.1 && boundary(text, r.0 as int) && boundary(text, r.1 as int)
}

/// Every range before the `k`-th can be sliced.
pub open spec fn ok_before(text: Seq<char>, ranges: Seq<(usize, usize)>, k: int) -> bool {
    forall|j: int| 0 <= j < k ==> range_ok(text, #[trigger] ranges[j])
}

/// The split stops at range `f`: the first range that cannot be sliced.
pub open spec fn stops_at(text: Seq<char>, ranges: Seq<(usize, usize)>, f: int) -> bool {
    0 <= f < ranges.len() && ok_before(text, ranges, f) && !range_ok(text, ranges[f])
}

/// The unmatched gap before the `k`-th range, when it starts past the cursor.
pub open spec fn gap_before(bytes: Seq<u8>, ranges: Seq<(usize, usize)>, k: int) -> Seq<(Seq<u8>, bool)> {
    let cur = cursor_after(ranges, k);
    if ranges[k].0 > cur {
        seq![(bytes.subrange(cur, ranges[k].0 as int), false)]
    } else {
        Seq::empty()
    }
}

/// Where the split is done without slicing: every reached range that starts
/// past the cursor starts on a character boundary inside the text.
pub open spec fn gaps_sliceable(text: Seq<char>, ranges: Seq<(usize, usize)>) -> bool {
    forall|i: int|
        0 <= i < ranges.len() && ok_before(text, ranges, i) && (#[trigger] ranges[i]).0 > cursor_after(ranges, i)
            ==> boundary(text, ranges[i].0 as int)
}

/// Split `text` into alternating non-matching/matching segments along the
/// matcher's ranges. When a range cannot be sliced, the gap before it (if
/// any) and then the unmatched rest of the text from the cursor end the
/// list.
pub fn highlight_segments(text: &str, ranges: &[(usize, usize)]) -> (r: Vec<(String, bool)>)
    requires
        gaps_sliceable(text@, ranges@),
    ensures
        ok_before(text@, ranges@, ranges@.len() as int) ==> segments_view(r@) == highlight_spec(
            utf8_bytes(text@),
            ranges@,
        ),
        forall|f: int|
            stops_at(text@, ranges@, f) ==> segments_view(r@) == segments_upto(utf8_bytes(text@), ranges@, f)
                + gap_before(utf8_bytes(text@), ranges@, f) + seq![
                (
                    utf8_bytes(text@).subrange(cursor_after(ranges@, f), utf8_bytes(text@).len() as int),
                    false,
                ),
            ],
{
    proof {
        lemma_text_boundaries(text@);
    }
    let ghost bytes = utf8_bytes(text@);
    let len = text.as_bytes().len();
    let mut segments: Vec<(String, bool)> = Vec::new();
    if ranges.len() == 0 {
        segments.push((substring(text, 0, len), false));
        assert(bytes.subrange(0, len as int) =~= bytes);
        assert(segments_view(segments@) =~= highlight_spec(bytes, ranges@));
        return segments;
    }
    let mut cursor: usize = 0;
    let mut i: usize = 0;
    while i < ranges.len()
        invariant
            i <= ranges@.len(),
            gaps_sliceable(text@, ranges@),
            ok_before(text@, ranges@, i as int),
            len == bytes.len(),
            bytes == utf8_bytes(text@),
            boundary(text@, 0),
            boundary(text@, len as int),
            cursor as int == cursor_after(ranges@, i as int),
            cursor <= len,
            boundary(text@, cursor as int),
            segments_view(segments@) == segments_upto(bytes, ranges@, i as int),
        decreases ranges@.len() - i,
    {
        let (start, end) = ranges[i];
        let ghost before = segments@;
        if start > cursor {
            assert(boundary(text@, start as int));
            proof {
                lemma_boundary_in_text(text@, start as int);
            }
            segments.push((substring(text, cursor, start), false));
        }
        let sliceable = start <= end && text.is_char_boundary(start) && text.is_char_boundary(end);
        if !sliceable {
            let ghost with_gap = segments@;
            segments.push((substring(text, cursor, len), false));
            proof {
                assert(!range_ok(text@, ranges@[i as int]));
                assert(segments_view(with_gap) =~= segments_view(before) + gap_before(bytes, ranges@, i as int));
                assert(bytes.subrange(cursor as int, len as int) =~= bytes.subrange(cursor as int, bytes.len() as int));
                assert(segments_view(segments@) =~= segments_view(with_gap) + seq![(bytes.subrange(cursor as int, bytes.len() as int), false)]);
                assert forall|f: int| stops_at(text@, ranges@, f) implies f == i by {
                    if f < i {
                        assert(range_ok(text@, ranges@[f]));
                    } else if f > i {
                        assert(range_ok(text@, ranges@[i as int]));
                    }
                }
                assert(!ok_before(text@, ranges@, ranges@.len() as int)) by {
                    assert(!range_ok(text@, ranges@[i as int]));
                }
            }
            return segments;
        }
        proof {
            lemma_boundary_in_text(text@, end as int);
        }
        segments.push((substring(text, start, end), true));
        proof {
            let gap = if start > cursor {
                seq![(bytes.subrange(cursor as int, start as int), false)]
            } else {
                Seq::<(Seq<u8>, bool)>::empty()
            };
            assert(segments_view(segments@) =~= segments_view(before) + gap + seq![(bytes.subrange(start as int, end as int), true)]);
            assert(ok_before(text@, ranges@, i + 1)) by {
                assert forall|j: int| 0 <= j < i + 1 implies range_ok(text@, #[trigger] ranges@[j]) by {
                    if j < i {
                        assert(range_ok(text@, ranges@[j]));
                    }
                }
            }
        }
        cursor = end;
        i = i + 1;
    }
    let ghost before = segments@;
    if cursor < len {
        segments.push((substring(text, cursor, len), false));
    }
    proof {
        assert forall|f: int| stops_at(text@, ranges@, f) implies false by {
            assert(range_ok(text@, ranges@[f]));
        }
    }
    assert(segments_view(segments@) =~= highlight_spec(bytes, ranges@));
    segments
}

/// A character boundary lies inside the text.
proof fn lemma_boundary_in_text(text: Seq<char>, index: int)
    requires
        boundary(text, index),
    ensures
        0 <= index <= utf8_bytes(text).len(),
{
    lemma_text_boundaries(text);
}

/// The bytes of a segment list, joined in order.
pub open spec fn joined(segments: Seq<(Seq<u8>, bool)>) -> Seq<u8>
    decreases segments.len(),
{
    if segments.len() == 0 {
        Seq::empty()
    } else {
        joined(segments.drop_last()) + segments.last().0
    }
}

proof fn lemma_joined_single(x: (Seq<u8>, bool))
    ensures
        joined(seq![x]) == x.0,
{
    let one = seq![x];
    assert(one.drop_last() =~= Seq::<(Seq<u8>, bool)>::empty());
    assert(joined(one.drop_last()) =~= Seq::<u8>::empty());
    assert(joined(one) =~= x.0);
}

proof fn lemma_joined_append(a: Seq<(Seq<u8>, bool)>, b: Seq<(Seq<u8>, bool)>)
    ensures
        joined(a + b) == joined(a) + joined(b),
    decreases b.len(),
{
    if b.len() == 0 {
        assert(a + b =~= a);
        assert(joined(a) + joined(b) =~= joined(a));
    } else {
        lemma_joined_append(a, b.drop_last());
        assert((a + b).drop_last() =~= a + b.drop_last());
        assert((a + b).last() == b.last());
        assert(joined(a) + joined(b) =~= joined(a) + joined(b.drop_last()) + b.last().0);
    }
}

proof fn lemma_joined_upto(bytes: Seq<u8>, ranges: Seq<(usize, usize)>, k: int)
    requires
        0 <= k <= ranges.len(),
        forall|i: int| 0 <= i < ranges.len() ==> (#[trigger] ranges[i]).0 <= ranges[i].1 <= bytes.len(),
        forall|i: int| 0 < i < ranges.len() ==> ranges[i - 1].1 <= (#[trigger] ranges[i]).0,
    ensures
        0 <= cursor_after(ranges, k) <= bytes.len(),
        joined(segments_upto(bytes, ranges, k)) == bytes.subrange(0, cursor_after(ranges, k)),
    decreases k,
{
    if k == 0 {
        assert(bytes.subrange(0, 0) =~= Seq::<u8>::empty());
    } else {
        lemma_joined_upto(bytes, ranges, k - 1);
        let (s, e) = ranges[k - 1];
        let cur = cursor_after(ranges, k - 1);
        if k - 1 > 0 {
            assert(ranges[k - 2].1 <= ranges[k - 1].0);
        }
        assert(cur <= s);
        let gap = if s > cur { seq![(bytes.subrange(cur, s as int), false)] } else { Seq::empty() };
        let hit = seq![(bytes.subrange(s as int, e as int), true)];
        let prev = segments_upto(bytes, ranges, k - 1);
        lemma_joined_append(prev + gap, hit);
        lemma_joined_append(prev, gap);
        lemma_joined_single((bytes.subrange(s as int, e as int), true));
        if s > cur {
            lemma_joined_single((bytes.subrange(cur, s as int), false));
        } else {
            assert(joined(gap) =~= Seq::<u8>::empty());
        }
        assert(bytes.subrange(0, e as int) =~= bytes.subrange(0, cur) + bytes.subrange(cur, s as int) + bytes.subrange(
            s as int,
            e as int,
        ));
    }
}

/// Highlighting never loses or repeats text: the segments, joined in order,
/// give back exactly the bytes of the text.
pub proof fn lemma_highlight_covers_text(text: Seq<char>, ranges: Seq<(usize, usize)>)
    requires
        ranges_wf(text, ranges),
    ensures
        joined(highlight_spec(utf8_bytes(text), ranges)) == utf8_bytes(text),
{
    let bytes = utf8_bytes(text);
    if ranges.len() == 0 {
        lemma_joined_single((bytes, false));
    } else {
        assert forall|i: int| 0 <= i < ranges.len() implies (#[trigger] ranges[i]).0 <= ranges[i].1 <= bytes.len() by {
            let (s, e) = ranges[i];
        }
        let n = ranges.len() as int;
        lemma_joined_upto(bytes, ranges, n);
        let cur = cursor_after(ranges, n);
        let rest = if cur < bytes.len() {
            seq![(bytes.subrange(cur, bytes.len() as int), false)]
        } else {
            Seq::<(Seq<u8>, bool)>::empty()
        };
        lemma_joined_append(segments_upto(bytes, ranges, n), rest);
        if cur < bytes.len() {
            lemma_joined_single((bytes.subrange(cur, bytes.len() as int), false));
        } else {
            assert(joined(rest) =~= Seq::<u8>::empty());
        }
        assert(bytes.subrange(0, cur) + joined(rest) =~= bytes);
    }
}

} // verus!
