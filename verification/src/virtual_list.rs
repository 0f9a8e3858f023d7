//! The variable-height virtualization layer: a per-message height
//! heuristic, a size table recomputed whenever the message collection is
//! replaced, and the visible-range computation that narrows the list to
//! the window a viewport can show.

use vstd::prelude::*;
use vstd::arithmetic::div_mod::{
    lemma_div_is_ordered, lemma_div_multiples_vanish, lemma_div_plus_one, lemma_div_pos_is_pos,
};
use crate::app::{is_image_spec, AttachmentInfo, AttachmentModel, MessageInfo, MessageModel};

verus! {

/// Height of the author/avatar row of a message.
pub const AUTHOR_ROW_HEIGHT: u64 = 38;

/// Height of one wrapped line of body text.
pub const LINE_HEIGHT: u64 = 22;

/// Characters assumed to fit on one line before the body wraps.
pub const WRAP_CHARS: u64 = 100;

/// The box an image attachment is scaled into.
pub const IMAGE_MAX_WIDTH: u64 = 400;

/// See `IMAGE_MAX_WIDTH`.
pub const IMAGE_MAX_HEIGHT: u64 = 300;

/// Placeholder width shown while an image's dimensions are unknown.
pub const IMAGE_FALLBACK_WIDTH: u64 = 300;

/// See `IMAGE_FALLBACK_WIDTH`.
pub const IMAGE_FALLBACK_HEIGHT: u64 = 200;

/// Wrapped lines contributed by one newline-delimited segment of the given
/// character count: its length divided by the wrap width, rounded up, and
/// at least one line even when empty.
pub open spec fn segment_lines(len: int) -> int {
    if len <= 0 {
        1
    } else {
        (len + WRAP_CHARS - 1) / (WRAP_CHARS as int)
    }
}

/// Wrapped lines of the remaining text `s`, given that `seg` characters of
/// the current segment have already been scanned.
pub open spec fn lines_from(s: Seq<char>, seg: int) -> int
    decreases s.len(),
{
    if s.len() == 0 {
        segment_lines(seg)
    } else if s[0] == '\n' {
        segment_lines(seg) + lines_from(s.skip(1), 0)
    } else {
        lines_from(s.skip(1), seg + 1)
    }
}

/// Wrapped lines of a message body; an empty body contributes no lines.
pub open spec fn body_lines(content: Seq<char>) -> int {
    if content.len() == 0 {
        0
    } else {
        lines_from(content, 0)
    }
}

/// The box an image of the declared dimensions is displayed in:
/// aspect-ratio-preserving scaling, capped to the maximum box, with the
/// placeholder box standing in for unusable dimensions.
pub open spec fn scaled_image_box(w: int, h: int) -> (int, int) {
    if w <= 0 || h <= 0 {
        (IMAGE_FALLBACK_WIDTH as int, IMAGE_FALLBACK_HEIGHT as int)
    } else if w <= IMAGE_MAX_WIDTH && h <= IMAGE_MAX_HEIGHT {
        (w, h)
    } else if h * IMAGE_MAX_WIDTH >= w * IMAGE_MAX_HEIGHT {
        ((w * IMAGE_MAX_HEIGHT) / h, IMAGE_MAX_HEIGHT as int)
    } else {
        (IMAGE_MAX_WIDTH as int, (h * IMAGE_MAX_WIDTH) / w)
    }
}

/// Height an attachment adds to its message: the scaled image height when
/// dimensions are declared, the placeholder height otherwise.
pub open spec fn image_extent(a: AttachmentModel) -> int {
    match (a.width, a.height) {
        (Some(w), Some(h)) => scaled_image_box(w as int, h as int).1,
        _ => IMAGE_FALLBACK_HEIGHT as int,
    }
}

/// Total height the image attachments of a message add; attachments not
/// classified as images are not rendered and add nothing.
pub open spec fn attachments_extent(atts: Seq<AttachmentModel>) -> int
    decreases atts.len(),
{
    if atts.len() == 0 {
        0
    } else {
        attachments_extent(atts.drop_last()) + if is_image_spec(atts.last()) {
            image_extent(atts.last())
        } else {
            0
        }
    }
}

/// The estimated rendered height of a message: the author row, the wrapped
/// body lines, and the image attachments.
pub open spec fn message_extent(m: MessageModel) -> int {
    AUTHOR_ROW_HEIGHT + body_lines(m.content) * LINE_HEIGHT + attachments_extent(m.attachments)
}

/// `message_extent`, clamped to what a height entry can hold.
pub open spec fn clamped_extent(m: MessageModel) -> int {
    if message_extent(m) <= u64::MAX as int {
        message_extent(m)
    } else {
        u64::MAX as int
    }
}

proof fn lemma_segment_lines_bounds(len: int)
    requires
        len >= 0,
    ensures
        1 <= segment_lines(len),
        len >= 1 ==> segment_lines(len) <= len,
        segment_lines(len + 1) <= segment_lines(len) + 1,
{
    if len >= 1 {
        lemma_div_pos_is_pos(len + WRAP_CHARS - 1, WRAP_CHARS as int);
        lemma_div_is_ordered(len + WRAP_CHARS - 1, WRAP_CHARS * len, WRAP_CHARS as int);
        lemma_div_multiples_vanish(len, WRAP_CHARS as int);
        assert(WRAP_CHARS * len == (WRAP_CHARS as int) * len) by (nonlinear_arith);
        assert(len + WRAP_CHARS - 1 <= WRAP_CHARS * len) by (nonlinear_arith)
            requires
                len >= 1,
        ;
        lemma_div_pos_is_pos(len + WRAP_CHARS - 1, WRAP_CHARS as int);
        assert(segment_lines(len) >= 1) by {
            lemma_div_is_ordered(WRAP_CHARS as int, len + WRAP_CHARS - 1, WRAP_CHARS as int);
            lemma_div_multiples_vanish(1, WRAP_CHARS as int);
        };
    }
    // One more character extends the segment by at most one wrapped line.
    lemma_div_plus_one(len, WRAP_CHARS as int);
    if len >= 1 {
        lemma_div_is_ordered(len, len + WRAP_CHARS - 1, WRAP_CHARS as int);
        lemma_div_is_ordered(len + WRAP_CHARS - 1, len + WRAP_CHARS, WRAP_CHARS as int);
    }
}

fn segment_lines_count(seg: u128) -> (r: u128)
    requires
        seg <= u64::MAX as u128,
    ensures
        r as int == segment_lines(seg as int),
        1 <= r,
        seg >= 1 ==> r <= seg,
{
    proof {
        lemma_segment_lines_bounds(seg as int);
    }
    if seg == 0 {
        1
    } else {
        (seg + (WRAP_CHARS as u128) - 1) / (WRAP_CHARS as u128)
    }
}

/// Counts the wrapped lines of a message body.
fn count_body_lines(content: &str) -> (r: u128)
    ensures
        r as int == body_lines(content@),
        r <= content@.len() + 1,
        r <= usize::MAX as u128 + 1,
{
    let n = content.unicode_len();
    if n == 0 {
        return 0;
    }
    proof {
        assert(content@.skip(0) =~= content@);
    }
    let mut lines: u128 = 0;
    let mut seg: u128 = 0;
    let mut i: usize = 0;
    while i < n
        invariant
            0 < n == content@.len(),
            i <= n,
            seg <= i as u128,
            lines as int + segment_lines(seg as int) <= i + 1,
            lines as int + lines_from(content@.skip(i as int), seg as int) == lines_from(
                content@,
                0,
            ),
        decreases n - i,
    {
        proof {
            lemma_segment_lines_bounds(seg as int);
            assert(content@.skip(i as int)[0] == content@[i as int]);
            assert(content@.skip(i as int).skip(1) =~= content@.skip(i as int + 1));
        }
        let c = content.get_char(i);
        if c == '\n' {
            let step = segment_lines_count(seg);
            lines = lines + step;
            seg = 0;
        } else {
            seg = seg + 1;
        }
        i += 1;
    }
    proof {
        assert(content@.skip(n as int) =~= Seq::<char>::empty());
    }
    let tail = segment_lines_count(seg);
    lines + tail
}

/// Computes the display box of an image attachment with the declared
/// dimensions: scaled preserving aspect ratio so that it fits the maximum
/// box, left as-is when it already fits, and replaced by the placeholder
/// box when a dimension is zero.
pub fn scaled_image_size(width: u64, height: u64) -> (r: (u64, u64))
    ensures
        r.0 as int == scaled_image_box(width as int, height as int).0,
        r.1 as int == scaled_image_box(width as int, height as int).1,
        r.0 <= IMAGE_MAX_WIDTH,
        r.1 <= IMAGE_MAX_HEIGHT,
{
    if width == 0 || height == 0 {
        (IMAGE_FALLBACK_WIDTH, IMAGE_FALLBACK_HEIGHT)
    } else if width <= IMAGE_MAX_WIDTH && height <= IMAGE_MAX_HEIGHT {
        (width, height)
    } else {
        let w = width as u128;
        let h = height as u128;
        if h * (IMAGE_MAX_WIDTH as u128) >= w * (IMAGE_MAX_HEIGHT as u128) {
            let scaled_w = (w * (IMAGE_MAX_HEIGHT as u128)) / h;
            proof {
                lemma_div_is_ordered(
                    w * (IMAGE_MAX_HEIGHT as int),
                    h * (IMAGE_MAX_WIDTH as int),
                    h as int,
                );
                lemma_div_multiples_vanish(IMAGE_MAX_WIDTH as int, h as int);
                assert(h * (IMAGE_MAX_WIDTH as int) == (h as int) * (IMAGE_MAX_WIDTH as int))
                    by (nonlinear_arith);
            }
            (scaled_w as u64, IMAGE_MAX_HEIGHT)
        } else {
            let scaled_h = (h * (IMAGE_MAX_WIDTH as u128)) / w;
            proof {
                lemma_div_is_ordered(
                    h * (IMAGE_MAX_WIDTH as int),
                    w * (IMAGE_MAX_HEIGHT as int),
                    w as int,
                );
                lemma_div_multiples_vanish(IMAGE_MAX_HEIGHT as int, w as int);
                assert(w * (IMAGE_MAX_HEIGHT as int) == (w as int) * (IMAGE_MAX_HEIGHT as int))
                    by (nonlinear_arith);
            }
            (IMAGE_MAX_WIDTH, scaled_h as u64)
        }
    }
}

fn attachment_image_extent(att: &AttachmentInfo) -> (r: u64)
    ensures
        r as int == image_extent(att@),
        r <= IMAGE_MAX_HEIGHT,
{
    match (att.width, att.height) {
        (Some(w), Some(h)) => {
            let scaled = scaled_image_size(w, h);
            scaled.1
        },
        _ => IMAGE_FALLBACK_HEIGHT,
    }
}

proof fn lemma_attachments_extent_bounds(atts: Seq<AttachmentModel>)
    ensures
        0 <= attachments_extent(atts) <= atts.len() * (IMAGE_MAX_HEIGHT as int),
    decreases atts.len(),
{
    if atts.len() > 0 {
        lemma_attachments_extent_bounds(atts.drop_last());
        if is_image_spec(atts.last()) {
            if atts.last().width is Some && atts.last().height is Some {
                let w = atts.last().width->0 as int;
                let h = atts.last().height->0 as int;
                if w > 0 && h > 0 && !(w <= IMAGE_MAX_WIDTH && h <= IMAGE_MAX_HEIGHT) && h
                    * IMAGE_MAX_WIDTH < w * IMAGE_MAX_HEIGHT {
                    lemma_div_is_ordered(
                        h * (IMAGE_MAX_WIDTH as int),
                        w * (IMAGE_MAX_HEIGHT as int),
                        w,
                    );
                    lemma_div_multiples_vanish(IMAGE_MAX_HEIGHT as int, w);
                    assert(w * (IMAGE_MAX_HEIGHT as int) == (w as int) * (IMAGE_MAX_HEIGHT as int))
                        by (nonlinear_arith);
                    lemma_div_pos_is_pos(h * (IMAGE_MAX_WIDTH as int), w);
                } else if w > 0 && h > 0 && !(w <= IMAGE_MAX_WIDTH && h <= IMAGE_MAX_HEIGHT) {
                    lemma_div_pos_is_pos(w * (IMAGE_MAX_HEIGHT as int), h);
                }
            }
        }
    }
}

/// Estimates the rendered height of a message from its body text and image
/// attachments, saturating at the largest representable height.
pub fn estimate_message_height(msg: &MessageInfo) -> (r: u64)
    ensures
        r as int == clamped_extent(msg@),
{
    let mut total: u128 = AUTHOR_ROW_HEIGHT as u128;
    let lines = count_body_lines(msg.content.as_str());
    proof {
        assert(lines * (LINE_HEIGHT as u128) <= (u64::MAX as u128 + 1) * (LINE_HEIGHT as u128))
            by (nonlinear_arith)
            requires
                lines <= u64::MAX as u128 + 1,
        ;
    }
    total = total + lines * (LINE_HEIGHT as u128);
    let ghost base = total as int;
    let mut j: usize = 0;
    let atts = &msg.attachments;
    while j < atts.len()
        invariant
            j <= atts.len(),
            total as int == base + attachments_extent(atts.deep_view().take(j as int)),
            base <= AUTHOR_ROW_HEIGHT + (u64::MAX as int + 1) * (LINE_HEIGHT as int),
        decreases atts.len() - j,
    {
        proof {
            let whole = atts.deep_view();
            assert(whole.take(j + 1).drop_last() =~= whole.take(j as int));
            assert(whole.take(j + 1).last() == whole[j as int]);
            lemma_attachments_extent_bounds(whole.take(j as int));
            let cap = attachments_extent(whole.take(j as int));
            assert(cap <= (u64::MAX as int) * (IMAGE_MAX_HEIGHT as int)) by (nonlinear_arith)
                requires
                    cap <= (j as int) * (IMAGE_MAX_HEIGHT as int),
                    0 <= j as int <= u64::MAX as int,
            ;
        }
        let a = &atts[j];
        if a.is_image() {
            let e = attachment_image_extent(a);
            total = total + (e as u128);
        }
        j += 1;
    }
    proof {
        assert(atts.deep_view().take(atts.len() as int) =~= atts.deep_view());
        lemma_attachments_extent_bounds(atts.deep_view());
    }
    if total > (u64::MAX as u128) {
        u64::MAX
    } else {
        total as u64
    }
}

/// The summed heights of the first `i` entries of a size table.
pub open spec fn prefix_extent(extents: Seq<u64>, i: int) -> int
    decreases i,
{
    if i <= 0 {
        0
    } else {
        prefix_extent(extents, i - 1) + extents[i - 1]
    }
}

proof fn lemma_prefix_extent_bound(extents: Seq<u64>, i: int)
    requires
        0 <= i,
    ensures
        0 <= prefix_extent(extents, i) <= i * (u64::MAX as int),
    decreases i,
{
    if i > 0 {
        lemma_prefix_extent_bound(extents, i - 1);
        assert((i - 1) * (u64::MAX as int) + (u64::MAX as int) == i * (u64::MAX as int))
            by (nonlinear_arith);
    }
}

/// The size table of the message list: one estimated height per item,
/// recomputed whenever the backing collection is replaced.
pub struct SizeTable {
    extents: Vec<u64>,
}

impl View for SizeTable {
    type V = Seq<u64>;

    closed spec fn view(&self) -> Seq<u64> {
        self.extents@
    }
}

impl SizeTable {
    /// An empty size table.
    pub fn new() -> (r: SizeTable)
        ensures
            r@ == Seq::<u64>::empty(),
    {
        let r = SizeTable { extents: Vec::new() };
        proof {
            assert(r@ =~= Seq::<u64>::empty());
        }
        r
    }

    /// The number of items covered by the table.
    pub fn len(&self) -> (r: usize)
        ensures
            r == self@.len(),
    {
        self.extents.len()
    }

    /// The estimated height of one item.
    pub fn item_extent(&self, index: usize) -> (r: u64)
        requires
            index < self@.len(),
        ensures
            r == self@[index as int],
    {
        self.extents[index]
    }

    /// Recomputes every entry from the given message collection. Must be
    /// called whenever the backing collection is replaced; the table then
    /// holds exactly the estimated height of each message, in order.
    pub fn rebuild(&mut self, messages: &Vec<MessageInfo>)
        ensures
            final(self)@.len() == messages@.len(),
            forall|i: int|
                0 <= i < messages@.len() ==> final(self)@[i] as int == clamped_extent(
                    messages.deep_view()[i],
                ),
    {
        let mut extents: Vec<u64> = Vec::new();
        let mut i: usize = 0;
        while i < messages.len()
            invariant
                i <= messages@.len(),
                extents@.len() == i,
                forall|k: int|
                    0 <= k < i ==> extents@[k] as int == clamped_extent(messages.deep_view()[k]),
            decreases messages.len() - i,
        {
            let h = estimate_message_height(&messages[i]);
            extents.push(h);
            i += 1;
        }
        self.extents = extents;
    }

    /// The summed height of all items, saturating at the largest
    /// representable height.
    pub fn total_extent(&self) -> (r: u64)
        ensures
            prefix_extent(self@, self@.len() as int) <= u64::MAX as int ==> r as int
                == prefix_extent(self@, self@.len() as int),
            prefix_extent(self@, self@.len() as int) > u64::MAX as int ==> r == u64::MAX,
    {
        let n = self.extents.len();
        let mut acc: u128 = 0;
        let mut i: usize = 0;
        while i < n
            invariant
                i <= n == self@.len(),
                acc as int == prefix_extent(self@, i as int),
            decreases n - i,
        {
            proof {
                lemma_prefix_extent_bound(self@, i as int);
            }
            acc = acc + (self.extents[i] as u128);
            i += 1;
        }
        if acc > (u64::MAX as u128) {
            u64::MAX
        } else {
            acc as u64
        }
    }

    /// Computes the minimal contiguous index range `[lo, hi)` of items
    /// overlapping the viewport, and the summed height of the items above
    /// `lo`. An item is counted visible when it ends below the scroll
    /// offset and starts above the viewport's bottom edge; a range with
    /// `lo == hi` means nothing is visible.
    pub fn compute_visible_range(&self, scroll_offset: u64, viewport_extent: u64) -> (r: (
        usize,
        usize,
        u64,
    ))
        ensures
            r.0 <= r.1 <= self@.len(),
            prefix_extent(self@, r.0 as int) <= scroll_offset,
            r.0 < self@.len() ==> prefix_extent(self@, r.0 + 1) > scroll_offset,
            forall|k: int|
                r.0 <= k < r.1 ==> prefix_extent(self@, k) < scroll_offset + viewport_extent,
            r.1 < self@.len() ==> prefix_extent(self@, r.1 as int) >= scroll_offset
                + viewport_extent,
            r.2 as int == prefix_extent(self@, r.0 as int),
    {
        let n = self.extents.len();
        let scroll = scroll_offset as u128;
        let mut acc: u128 = 0;
        let mut lo: usize = 0;
        while lo < n && acc + (self.extents[lo] as u128) <= scroll
            invariant
                lo <= n == self@.len(),
                scroll == scroll_offset as u128,
                acc as int == prefix_extent(self@, lo as int),
                acc <= scroll,
            decreases n - lo,
        {
            acc = acc + (self.extents[lo] as u128);
            lo += 1;
        }
        proof {
            assert(prefix_extent(self@, lo as int) <= scroll_offset);
            if lo < self@.len() {
                assert(prefix_extent(self@, lo as int + 1) == acc as int + self@[lo as int]);
                assert(prefix_extent(self@, lo as int + 1) > scroll_offset);
            }
        }
        let offset_of_lo = acc as u64;
        let target = scroll + (viewport_extent as u128);
        let mut hi: usize = lo;
        while hi < n && acc < target
            invariant
                lo <= hi <= n == self@.len(),
                target as int == scroll_offset + viewport_extent,
                acc as int == prefix_extent(self@, hi as int),
                forall|k: int| lo <= k < hi ==> prefix_extent(self@, k) < target as int,
            decreases n - hi,
        {
            proof {
                lemma_prefix_extent_bound(self@, hi as int);
            }
            acc = acc + (self.extents[hi] as u128);
            hi += 1;
        }
        (lo, hi, offset_of_lo)
    }
}

} // verus!
