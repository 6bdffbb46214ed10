//! Read-only selectable text: the selection state behind a single-line value
//! that a user can select with the pointer and copy.
//!
//! Click sets an anchor, dragging extends the selection, double-click selects
//! a word, triple-click selects everything. Selection offsets are byte
//! offsets into the UTF-8 text and always sit on character boundaries; a
//! changed text clears any selection, so a selection never points into old
//! bytes.

use unicode_segmentation::UnicodeSegmentation;
use vstd::prelude::*;
use vstd::utf8::*;

verus! {

broadcast use vstd::seq::group_seq_axioms, vstd::string::group_string_axioms;

/// The UTF-8 bytes of a character sequence.
pub open spec fn utf8_bytes(text: Seq<char>) -> Seq<u8> {
    encode_utf8(text)
}

/// Whether a byte offset is a character boundary of a text.
pub open spec fn boundary(text: Seq<char>, index: int) -> bool {
    is_char_boundary(utf8_bytes(text), index)
}

/// The number of extended grapheme clusters of a text, as segmented by the
/// `unicode-segmentation` crate.
pub uninterp spec fn grapheme_count(text: Seq<char>) -> nat;

/// `UnicodeSegmentation::graphemes(text, true).count()`: the number of
/// extended grapheme clusters of `text`. The contract names the count and
/// claims nothing else about it.
#[verifier::external_body]
fn count_graphemes(text: &str) -> (n: usize)
    ensures
        n as nat == grapheme_count(text@),
{
    text.graphemes(true).count()
}

/// Whether a byte belongs to an identifier-like word: ASCII alphanumerics and
/// `.`, `:`, `-`, `_` (so addresses and identifiers select whole).
pub open spec fn is_word_byte(byte: u8) -> bool {
    (0x30 <= byte <= 0x39) || (0x41 <= byte <= 0x5a) || (0x61 <= byte <= 0x7a) || byte == 0x2e
        || byte == 0x3a || byte == 0x2d || byte == 0x5f
}

fn word_byte(byte: u8) -> (r: bool)
    ensures
        r == is_word_byte(byte),
{
    (0x30 <= byte && byte <= 0x39) || (0x41 <= byte && byte <= 0x5a) || (0x61 <= byte && byte
        <= 0x7a) || byte == 0x2e || byte == 0x3a || byte == 0x2d || byte == 0x5f
}

/// The largest character boundary at or before `index` (clamped to the text).
pub open spec fn is_boundary_at_or_before(text: Seq<char>, index: int, r: int) -> bool {
    let len = utf8_bytes(text).len() as int;
    let cap = if index < len { index } else { len };
    &&& 0 <= r <= cap
    &&& boundary(text, r)
    &&& forall|j: int| r < j <= cap ==> !boundary(text, j)
}

/// The boundary lemmas this module leans on, gathered for one text.
pub proof fn lemma_text_boundaries(text: Seq<char>)
    ensures
        valid_utf8(utf8_bytes(text)),
        boundary(text, 0),
        boundary(text, utf8_bytes(text).len() as int),
{
    encode_utf8_valid_utf8(text);
    is_char_boundary_start_end_of_seq(utf8_bytes(text));
}

/// In valid UTF-8, an ASCII byte is followed by a character boundary.
proof fn lemma_ascii_then_boundary(bytes: Seq<u8>, j: int)
    requires
        valid_utf8(bytes),
        0 <= j < bytes.len(),
        bytes[j] <= 0x7f,
    ensures
        is_char_boundary(bytes, j),
        is_char_boundary(bytes, j + 1),
{
    is_char_boundary_iff_not_is_continuation_byte(bytes, j);
    is_char_boundary_start_end_of_seq(bytes);
    valid_utf8_split(bytes, j);
    let suffix = bytes.subrange(j, bytes.len() as int);
    assert(suffix[0] == bytes[j]);
    assert(valid_first_scalar(suffix));
    assert(length_of_first_scalar(suffix) == 1);
    let rest = pop_first_scalar(suffix);
    assert(valid_utf8(rest));
    if j + 1 < bytes.len() {
        assert(rest[0] == bytes[j + 1]);
        assert(valid_first_scalar(rest));
        is_char_boundary_iff_not_is_continuation_byte(bytes, j + 1);
    }
}

/// Resolve a byte offset onto the character it points into: the largest
/// character boundary at or before it, clamped to the text.
pub fn char_boundary_at_or_before(text: &str, index: usize) -> (r: usize)
    ensures
        is_boundary_at_or_before(text@, index as int, r as int),
{
    proof {
        lemma_text_boundaries(text@);
    }
    let len = text.as_bytes().len();
    let mut i: usize = if index < len { index } else { len };
    let ghost cap = i;
    while i > 0 && !text.is_char_boundary(i)
        invariant
            i <= cap,
            cap == (if index < len { index as int } else { len as int }),
            len == utf8_bytes(text@).len(),
            boundary(text@, 0),
            forall|j: int| i < j <= cap ==> !boundary(text@, j),
        decreases i,
    {
        i = i - 1;
    }
    i
}

/// The word range around a clicked byte: the maximal run of word bytes that
/// holds it; a click on a separator takes that character alone; a click at
/// or past the end takes the empty range at the end.
pub open spec fn is_word_range(text: Seq<char>, clicked: int, start: int, end: int) -> bool {
    let bytes = utf8_bytes(text);
    let len = bytes.len() as int;
    if clicked >= len {
        start == clicked && end == clicked
    } else if !is_word_byte(bytes[clicked]) {
        &&& start == clicked
        &&& clicked < end <= len
        &&& boundary(text, end)
        &&& forall|j: int| clicked < j < end ==> !boundary(text, j)
    } else {
        &&& 0 <= start <= clicked < end <= len
        &&& forall|j: int| start <= j < end ==> is_word_byte(#[trigger] bytes[j])
        &&& (start == 0 || !is_word_byte(bytes[start - 1]))
        &&& (end == len || !is_word_byte(bytes[end]))
    }
}

/// Double-click selection picks the identifier-like run under the pointer:
/// when the clicked byte is an ASCII letter or digit or one of `.`, `:`,
/// `-`, `_`, the selection is the maximal run of such bytes around it; on
/// any other byte it is just the clicked character.
pub proof fn lemma_double_click_takes_identifier_run(text: Seq<char>, clicked: int, start: int, end: int)
    requires
        0 <= clicked < utf8_bytes(text).len(),
        is_word_range(text, clicked, start, end),
    ensures
        ({
            let bytes = utf8_bytes(text);
            let b = bytes[clicked];
            if (0x30 <= b <= 0x39) || (0x41 <= b <= 0x5a) || (0x61 <= b <= 0x7a) || b == 0x2e || b == 0x3a
                || b == 0x2d || b == 0x5f {
                &&& 0 <= start <= clicked < end <= bytes.len()
                &&& forall|j: int|
                    start <= j < end ==> {
                        let c = #[trigger] bytes[j];
                        (0x30 <= c <= 0x39) || (0x41 <= c <= 0x5a) || (0x61 <= c <= 0x7a) || c == 0x2e
                            || c == 0x3a || c == 0x2d || c == 0x5f
                    }
                &&& start == 0 || !({
                    let c = bytes[start - 1];
                    (0x30 <= c <= 0x39) || (0x41 <= c <= 0x5a) || (0x61 <= c <= 0x7a) || c == 0x2e
                        || c == 0x3a || c == 0x2d || c == 0x5f
                })
                &&& end == bytes.len() || !({
                    let c = bytes[end];
                    (0x30 <= c <= 0x39) || (0x41 <= c <= 0x5a) || (0x61 <= c <= 0x7a) || c == 0x2e
                        || c == 0x3a || c == 0x2d || c == 0x5f
                })
            } else {
                &&& start == clicked
                &&& clicked < end <= bytes.len()
                &&& boundary(text, end)
                &&& forall|j: int| clicked < j < end ==> !boundary(text, j)
            }
        }),
{
}

/// A double-click anywhere in a text made only of identifier bytes (ASCII
/// letters and digits, `.`, `:`, `-`, `_`), such as `systemd-journald`,
/// selects the whole text.
pub proof fn lemma_double_click_on_identifier_selects_all(text: Seq<char>, clicked: int, start: int, end: int)
    requires
        0 <= clicked < utf8_bytes(text).len(),
        forall|j: int|
            0 <= j < utf8_bytes(text).len() ==> {
                let c = #[trigger] utf8_bytes(text)[j];
                (0x30 <= c <= 0x39) || (0x41 <= c <= 0x5a) || (0x61 <= c <= 0x7a) || c == 0x2e || c == 0x3a
                    || c == 0x2d || c == 0x5f
            },
        is_word_range(text, clicked, start, end),
    ensures
        start == 0,
        end == utf8_bytes(text).len(),
{
    lemma_double_click_takes_identifier_run(text, clicked, start, end);
    let bytes = utf8_bytes(text);
    if start > 0 {
        assert(0 <= start - 1 < bytes.len());
        let c = bytes[start - 1];
    }
    if end < bytes.len() {
        let c = bytes[end];
    }
}

/// The word selection around `index`: an identifier-like run of ASCII
/// alphanumerics plus `.`, `:`, `-`, `_` around the clicked character.
pub fn word_range(text: &str, index: usize) -> (r: (usize, usize))
    ensures
        ({
            let clicked = choose|c: int| is_boundary_at_or_before(text@, index as int, c);
            &&& is_boundary_at_or_before(text@, index as int, clicked)
            &&& is_word_range(text@, clicked, r.0 as int, r.1 as int)
        }),
        boundary(text@, r.0 as int),
        boundary(text@, r.1 as int),
        r.0 <= r.1,
{
    proof {
        lemma_text_boundaries(text@);
    }
    let bytes = text.as_bytes();
    let len = bytes.len();
    let clicked = char_boundary_at_or_before(text, index);
    proof {
        lemma_boundary_unique(text@, index as int, clicked as int);
    }
    if clicked >= len {
        return (clicked, clicked);
    }
    if !word_byte(bytes[clicked]) {
        let mut end = clicked + 1;
        while end < len && !text.is_char_boundary(end)
            invariant
                clicked < end <= len,
                len == utf8_bytes(text@).len(),
                bytes@ == utf8_bytes(text@),
                boundary(text@, len as int),
                forall|j: int| clicked < j < end ==> !boundary(text@, j),
            decreases len - end,
        {
            end = end + 1;
        }
        return (clicked, end);
    }
    let mut start = clicked;
    while start > 0 && word_byte(bytes[start - 1])
        invariant
            start <= clicked < len,
            len == bytes@.len(),
            forall|j: int| start <= j < clicked ==> is_word_byte(#[trigger] bytes@[j]),
        decreases start,
    {
        start = start - 1;
    }
    let mut end = clicked + 1;
    while end < len && word_byte(bytes[end])
        invariant
            clicked < end <= len,
            len == bytes@.len(),
            forall|j: int| clicked <= j < end ==> is_word_byte(#[trigger] bytes@[j]),
        decreases len - end,
    {
        end = end + 1;
    }
    proof {
        let b = utf8_bytes(text@);
        if start > 0 {
            assert(is_word_byte(b[clicked as int]));
            if start < clicked {
                assert(is_word_byte(b[start as int]));
            }
            if start < clicked {
                is_char_boundary_iff_not_is_continuation_byte(b, start as int);
            }
        }
        assert(is_word_byte(b[end - 1]));
        lemma_ascii_then_boundary(b, end - 1);
    }
    (start, end)
}

/// There is exactly one largest boundary at or before an offset.
proof fn lemma_boundary_unique(text: Seq<char>, index: int, r: int)
    requires
        is_boundary_at_or_before(text, index, r),
    ensures
        (choose|c: int| is_boundary_at_or_before(text, index, c)) == r,
{
    let c = choose|c: int| is_boundary_at_or_before(text, index, c);
    assert(is_boundary_at_or_before(text, index, c));
    if c < r {
        assert(!boundary(text, r));
    } else if c > r {
        assert(!boundary(text, c));
    }
}

/// The text between two character boundaries (byte offsets), as a new string.
pub fn substring(text: &str, start: usize, end: usize) -> (r: String)
    requires
        start <= end <= utf8_bytes(text@).len(),
        boundary(text@, start as int),
        boundary(text@, end as int),
    ensures
        utf8_bytes(r@) == utf8_bytes(text@).subrange(start as int, end as int),
{
    proof {
        lemma_text_boundaries(text@);
    }
    let (prefix, _) = text.split_at(end);
    let ghost b = utf8_bytes(text@);
    let ghost pb = utf8_bytes(prefix@);
    proof {
        encode_utf8_valid_utf8(prefix@);
        is_char_boundary_start_end_of_seq(pb);
        if start < end {
            is_char_boundary_iff_not_is_continuation_byte(b, start as int);
            assert(pb[start as int] == b[start as int]);
            is_char_boundary_iff_not_is_continuation_byte(pb, start as int);
        }
    }
    let (_, middle) = prefix.split_at(start);
    assert(utf8_bytes(middle@) =~= b.subrange(start as int, end as int));
    String::from_str(middle)
}

/// How many consecutive clicks began a selection.
#[derive(Clone, Copy, Debug, PartialEq, Eq, Structural)]
pub enum ClickKind {
    Single,
    Double,
    Triple,
}

/// The selection state of one selectable value: its text, the drag anchor,
/// the selected byte range and whether a drag session is open.
pub struct SelectionState {
    content: String,
    anchor: Option<usize>,
    start: usize,
    end: usize,
    dragging: bool,
}

impl SelectionState {
    /// The text.
    pub closed spec fn content_spec(&self) -> Seq<char> {
        self.content@
    }

    /// The drag anchor, if a single click planted one.
    pub closed spec fn anchor_spec(&self) -> Option<usize> {
        self.anchor
    }

    /// The selected byte range.
    pub closed spec fn selection_spec(&self) -> (usize, usize) {
        (self.start, self.end)
    }

    /// Whether a drag session is open.
    pub closed spec fn dragging_spec(&self) -> bool {
        self.dragging
    }

    /// The selection sits inside the text, on character boundaries, and so
    /// does the anchor; every state keeps this from construction on.
    #[verifier::type_invariant]
    pub open spec fn wf(&self) -> bool {
        let text = self.content_spec();
        let (start, end) = self.selection_spec();
        &&& start <= end <= utf8_bytes(text).len()
        &&& boundary(text, start as int)
        &&& boundary(text, end as int)
        &&& match self.anchor_spec() {
            Some(a) => a <= utf8_bytes(text).len() && boundary(text, a as int),
            None => true,
        }
    }

    /// The bytes of the current selection.
    pub open spec fn selected_bytes(&self) -> Seq<u8> {
        utf8_bytes(self.content_spec()).subrange(
            self.selection_spec().0 as int,
            self.selection_spec().1 as int,
        )
    }

    /// A fresh state for a text: nothing selected, no anchor, no drag.
    pub fn new(content: String) -> (r: Self)
        ensures
            r.wf(),
            r.content_spec() == content@,
            r.anchor_spec() is None,
            r.selection_spec() == (0usize, 0usize),
            !r.dragging_spec(),
    {
        proof {
            lemma_text_boundaries(content@);
        }
        SelectionState { content, anchor: None, start: 0, end: 0, dragging: false }
    }

    /// Drop the selection, the anchor and any drag session.
    pub fn clear(&mut self)
        ensures
            final(self).content_spec() == old(self).content_spec(),
            final(self).anchor_spec() is None,
            final(self).selection_spec() == (0usize, 0usize),
            !final(self).dragging_spec(),
    {
        proof {
            use_type_invariant(&*self);
        }
        proof {
            lemma_text_boundaries(self.content@);
        }
        self.anchor = None;
        self.start = 0;
        self.end = 0;
        self.dragging = false;
    }

    /// Adopt the text a new frame renders: a changed text clears any
    /// selection; an unchanged one keeps it.
    pub fn sync_content(&mut self, content: &str)
        ensures
            final(self).content_spec() == content@,
            content@ == old(self).content_spec() ==> *final(self) == *old(self),
            content@ != old(self).content_spec() ==> (final(self).anchor_spec() is None
                && final(self).selection_spec() == (0usize, 0usize) && !final(self).dragging_spec()),
    {
        proof {
            use_type_invariant(&*self);
        }
        if !crate::text::str_eq(self.content.as_str(), content) {
            proof {
                lemma_text_boundaries(content@);
                lemma_text_boundaries(self.content@);
            }
            self.anchor = None;
            self.start = 0;
            self.end = 0;
            self.dragging = false;
            self.content = String::from_str(content);
        }
    }

    /// The selected text, if the selection is not empty.
    pub fn selected_text(&self) -> (r: Option<String>)
        ensures
            r is None <==> self.selection_spec().0 == self.selection_spec().1,
            r matches Some(t) ==> utf8_bytes(t@) == self.selected_bytes(),
    {
        proof {
            use_type_invariant(self);
        }
        if self.start == self.end {
            None
        } else {
            Some(substring(self.content.as_str(), self.start, self.end))
        }
    }

    /// Begin a selection at a byte offset: a single click plants the anchor
    /// at the character it points into, a double click takes the word there,
    /// a triple click takes the whole text.
    pub fn begin(&mut self, index: usize, click: ClickKind)
        ensures
            final(self).content_spec() == old(self).content_spec(),
            final(self).dragging_spec() == old(self).dragging_spec(),
            ({
                let text = old(self).content_spec();
                let at = choose|c: int| is_boundary_at_or_before(text, index as int, c);
                &&& is_boundary_at_or_before(text, index as int, at)
                &&& match click {
                    ClickKind::Single => final(self).anchor_spec() == Some(at as usize)
                        && final(self).selection_spec() == (at as usize, at as usize),
                    ClickKind::Double => final(self).anchor_spec() is None && is_word_range(
                        text,
                        at,
                        final(self).selection_spec().0 as int,
                        final(self).selection_spec().1 as int,
                    ),
                    ClickKind::Triple => final(self).anchor_spec() is None
                        && final(self).selection_spec() == (0usize, utf8_bytes(text).len() as usize),
                }
            }),
    {
        proof {
            use_type_invariant(&*self);
        }
        proof {
            lemma_text_boundaries(self.content@);
        }
        let at = char_boundary_at_or_before(self.content.as_str(), index);
        proof {
            lemma_boundary_unique(self.content@, index as int, at as int);
        }
        match click {
            ClickKind::Single => {
                self.anchor = Some(at);
                self.start = 0;
                self.end = at;
                self.start = at;
            },
            ClickKind::Double => {
                self.anchor = None;
                let (s, e) = word_range(self.content.as_str(), at);
                proof {
                    lemma_boundary_fixed(self.content@, at as int);
                    lemma_boundary_unique(self.content@, at as int, at as int);
                }
                self.start = 0;
                self.end = e;
                self.start = s;
            },
            ClickKind::Triple => {
                self.anchor = None;
                self.start = 0;
                self.end = self.content.as_str().as_bytes().len();
            },
        }
    }

    /// Extend the selection from the anchor to the character a byte offset
    /// points into. Without an anchor nothing changes.
    pub fn extend(&mut self, index: usize)
        ensures
            final(self).content_spec() == old(self).content_spec(),
            final(self).anchor_spec() == old(self).anchor_spec(),
            final(self).dragging_spec() == old(self).dragging_spec(),
            old(self).anchor_spec() is None ==> final(self).selection_spec() == old(self).selection_spec(),
            old(self).anchor_spec() matches Some(a) ==> ({
                let text = old(self).content_spec();
                let head = choose|c: int| is_boundary_at_or_before(text, index as int, c);
                &&& is_boundary_at_or_before(text, index as int, head)
                &&& final(self).selection_spec() == (
                    if a <= head { (a, head as usize) } else { (head as usize, a) })
            }),
    {
        proof {
            use_type_invariant(&*self);
        }
        match self.anchor {
            None => {},
            Some(anchor) => {
                let head = char_boundary_at_or_before(self.content.as_str(), index);
                proof {
                    lemma_boundary_unique(self.content@, index as int, head as int);
                    lemma_text_boundaries(self.content@);
                }
                self.start = 0;
                if anchor <= head {
                    self.end = head;
                    self.start = anchor;
                } else {
                    self.end = anchor;
                    self.start = head;
                }
            },
        }
    }

    /// Finish a drag session: the anchor is dropped and the selected text (if
    /// any) is returned for the primary clipboard.
    pub fn finish(&mut self) -> (r: Option<String>)
        ensures
            final(self).content_spec() == old(self).content_spec(),
            final(self).selection_spec() == old(self).selection_spec(),
            final(self).anchor_spec() is None,
            !final(self).dragging_spec(),
            r is None <==> old(self).selection_spec().0 == old(self).selection_spec().1,
            r matches Some(t) ==> utf8_bytes(t@) == old(self).selected_bytes(),
    {
        proof {
            use_type_invariant(&*self);
        }
        self.dragging = false;
        self.anchor = None;
        self.selected_text()
    }

    /// A left-button press over the value: begin a selection; only a single
    /// click opens a drag session.
    pub fn press(&mut self, index: usize, click: ClickKind)
        ensures
            final(self).content_spec() == old(self).content_spec(),
            final(self).dragging_spec() == (click == ClickKind::Single),
            ({
                let text = old(self).content_spec();
                let at = choose|c: int| is_boundary_at_or_before(text, index as int, c);
                &&& is_boundary_at_or_before(text, index as int, at)
                &&& match click {
                    ClickKind::Single => final(self).anchor_spec() == Some(at as usize)
                        && final(self).selection_spec() == (at as usize, at as usize),
                    ClickKind::Double => final(self).anchor_spec() is None && is_word_range(
                        text,
                        at,
                        final(self).selection_spec().0 as int,
                        final(self).selection_spec().1 as int,
                    ),
                    ClickKind::Triple => final(self).anchor_spec() is None
                        && final(self).selection_spec() == (0usize, utf8_bytes(text).len() as usize),
                }
            }),
    {
        proof {
            use_type_invariant(&*self);
        }
        self.begin(index, click);
        proof {
            use_type_invariant(&*self);
        }
        self.dragging = match click {
            ClickKind::Single => true,
            _ => false,
        };
    }

    /// A pointer move: while a drag session is open, extend the selection.
    pub fn drag_to(&mut self, index: usize)
        ensures
            final(self).content_spec() == old(self).content_spec(),
            !old(self).dragging_spec() ==> *final(self) == *old(self),
            old(self).dragging_spec() ==> final(self).anchor_spec() == old(self).anchor_spec()
                && final(self).dragging_spec(),
            old(self).dragging_spec() && old(self).anchor_spec() is None ==> final(self).selection_spec()
                == old(self).selection_spec(),
            old(self).dragging_spec() ==> (old(self).anchor_spec() matches Some(a) ==> ({
                let text = old(self).content_spec();
                let head = choose|c: int| is_boundary_at_or_before(text, index as int, c);
                &&& is_boundary_at_or_before(text, index as int, head)
                &&& final(self).selection_spec() == (
                    if a <= head { (a, head as usize) } else { (head as usize, a) })
            })),
    {
        proof {
            use_type_invariant(&*self);
        }
        if self.dragging {
            self.extend(index);
        }
    }

    /// A left-button release: a drag session finishes and hands back the
    /// non-empty selected text for the primary clipboard.
    pub fn release(&mut self) -> (r: Option<String>)
        ensures
            final(self).content_spec() == old(self).content_spec(),
            !old(self).dragging_spec() ==> *final(self) == *old(self) && r is None,
            old(self).dragging_spec() ==> (r is Some <==> old(self).selection_spec().0
                != old(self).selection_spec().1) && !final(self).dragging_spec(),
            r matches Some(t) ==> utf8_bytes(t@) == old(self).selected_bytes(),
    {
        proof {
            use_type_invariant(&*self);
        }
        if self.dragging {
            self.finish()
        } else {
            None
        }
    }

    /// A key press: Ctrl/Cmd + C with a non-empty selection hands back the
    /// selected text for the standard clipboard.
    pub fn copy_request(&self, key: &str, control_or_logo: bool) -> (r: Option<String>)
        ensures
            r is Some <==> (control_or_logo && (key@ == "c"@ || key@ == "C"@)
                && self.selection_spec().0 != self.selection_spec().1),
            r matches Some(t) ==> utf8_bytes(t@) == self.selected_bytes(),
    {
        proof {
            use_type_invariant(self);
        }
        let copy_intent = control_or_logo && (crate::text::str_eq(key, "c") || crate::text::str_eq(key, "C"));
        if copy_intent {
            self.selected_text()
        } else {
            None
        }
    }

    /// After each event: a value that lost the window's one selection to
    /// another value clears its highlight.
    pub fn enforce_ownership(&mut self, is_owner: bool)
        ensures
            final(self).content_spec() == old(self).content_spec(),
            (is_owner || old(self).selection_spec().0 == old(self).selection_spec().1) ==> *final(self) == *old(self),
            (!is_owner && old(self).selection_spec().0 != old(self).selection_spec().1)
                ==> final(self).selection_spec() == (0usize, 0usize),
    {
        proof {
            use_type_invariant(&*self);
        }
        if !is_owner && self.start != self.end {
            self.clear();
        }
    }

    /// The byte offset of the selection start and end.
    pub fn selection(&self) -> (r: (usize, usize))
        ensures
            r == self.selection_spec(),
    {
        (self.start, self.end)
    }

    /// Whether a drag session is open.
    pub fn dragging(&self) -> (r: bool)
        ensures
            r == self.dragging_spec(),
    {
        self.dragging
    }
}

/// A boundary resolves to itself.
proof fn lemma_boundary_fixed(text: Seq<char>, at: int)
    requires
        0 <= at <= utf8_bytes(text).len(),
        boundary(text, at),
    ensures
        is_boundary_at_or_before(text, at, at),
{
}

/// Byte caret to grapheme index: the number of grapheme clusters before a
/// character boundary; an offset that is not a boundary maps to 0.
pub fn grapheme_index_at(text: &str, byte: usize) -> (r: usize)
    ensures
        (byte <= utf8_bytes(text@).len() && boundary(text@, byte as int)) ==> r as nat
            == grapheme_count(decode_utf8(utf8_bytes(text@).subrange(0, byte as int))),
        !(byte <= utf8_bytes(text@).len() && boundary(text@, byte as int)) ==> r == 0,
{
    if byte > text.as_bytes().len() || !text.is_char_boundary(byte) {
        return 0;
    }
    let (prefix, _) = text.split_at(byte);
    proof {
        encode_utf8_decode_utf8(prefix@);
    }
    count_graphemes(prefix)
}

} // verus!
