//! A framerate-based line renderer: it keeps the frame last painted and, on
//! each flush, repaints only the lines that changed, prints queued lines
//! above the frame, clips the frame to the terminal size and clears what is
//! left below it. Every operation returns the bytes to write to the
//! terminal.
use vstd::prelude::*;

use crate::model::Msg;
use crate::text::{bytes_equal, bytes_of, decimal_bytes, push_bytes, push_decimal_bytes};
use vstd::string::StringSliceAdditionalSpecFns;
use vstd::utf8::encode_utf8;

verus! {

/// Frame rate used when none is given.
pub const DEFAULT_FPS: u32 = 60;

/// Highest frame rate.
pub const MAX_FPS: u32 = 120;

/// The state of a `StandardRenderer`.
pub ghost struct RendererState {
    /// Content of the frame to paint.
    pub buf: Seq<u8>,
    /// Lines waiting to be printed above the frame.
    pub queued: Seq<Seq<u8>>,
    /// Content last painted.
    pub last_render: Seq<u8>,
    /// Lines last painted.
    pub last_lines: Seq<Seq<u8>>,
    /// Number of lines last painted on the main screen.
    pub lines_rendered: nat,
    /// Number of lines last painted on the alternate screen.
    pub alt_lines_rendered: nat,
    /// Whether the cursor is hidden.
    pub cursor_hidden: bool,
    /// Whether the alternate screen is active.
    pub alt_screen: bool,
    /// Terminal width in columns; 0 when unknown.
    pub width: nat,
    /// Terminal height in rows; 0 when unknown.
    pub height: nat,
    /// Time between frames, in milliseconds.
    pub framerate_ms: nat,
}

/// StandardRenderer paints frames line by line, repainting only what
/// changed since the last frame.
pub struct StandardRenderer {
    buf: Vec<u8>,
    queued_message_lines: Vec<Vec<u8>>,
    framerate_ms: u64,
    last_render: Vec<u8>,
    last_rendered_lines: Vec<Vec<u8>>,
    lines_rendered: usize,
    alt_lines_rendered: usize,
    cursor_hidden: bool,
    alt_screen_active: bool,
    width: usize,
    height: usize,
}

/// The views of a sequence of lines.
pub open spec fn lines_view(v: Seq<Vec<u8>>) -> Seq<Seq<u8>> {
    v.map_values(|l: Vec<u8>| l@)
}

impl View for StandardRenderer {
    type V = RendererState;

    closed spec fn view(&self) -> RendererState {
        RendererState {
            buf: self.buf@,
            queued: lines_view(self.queued_message_lines@),
            last_render: self.last_render@,
            last_lines: lines_view(self.last_rendered_lines@),
            lines_rendered: self.lines_rendered as nat,
            alt_lines_rendered: self.alt_lines_rendered as nat,
            cursor_hidden: self.cursor_hidden,
            alt_screen: self.alt_screen_active,
            width: self.width as nat,
            height: self.height as nat,
            framerate_ms: self.framerate_ms as nat,
        }
    }
}

/// The lines of `s`: the pieces between newline bytes, as `str::split('\n')`
/// gives them (an empty input has one empty line).
pub open spec fn split_lines(s: Seq<u8>) -> Seq<Seq<u8>>
    decreases s.len(),
{
    if s.len() == 0 {
        seq![Seq::empty()]
    } else {
        let p = split_lines(s.drop_last());
        if s.last() == 10 {
            p.push(Seq::empty())
        } else {
            p.update(p.len() - 1, p.last().push(s.last()))
        }
    }
}

/// Every split has at least one line.
pub proof fn lemma_split_nonempty(s: Seq<u8>)
    ensures
        split_lines(s).len() >= 1,
    decreases s.len(),
{
    if s.len() > 0 {
        lemma_split_nonempty(s.drop_last());
    }
}

/// `ESC [ K`: erase to the end of the line.
pub open spec fn erase_line_right() -> Seq<u8> {
    seq![27u8, 91u8, 75u8]
}

/// `ESC [ J`: erase the screen below the cursor.
pub open spec fn erase_below() -> Seq<u8> {
    seq![27u8, 91u8, 74u8]
}

/// `ESC [ 1 ; 1 H`: move the cursor to the top left corner.
pub open spec fn cursor_home() -> Seq<u8> {
    seq![27u8, 91u8, 49u8, 59u8, 49u8, 72u8]
}

/// `ESC [ n A`: move the cursor up `n` rows.
pub open spec fn cursor_up(n: nat) -> Seq<u8> {
    seq![27u8, 91u8] + decimal_bytes(n) + seq![65u8]
}

/// `ESC [ n ; 1 H`: move the cursor to the first column of row `n`.
pub open spec fn cursor_to_row(n: nat) -> Seq<u8> {
    seq![27u8, 91u8] + decimal_bytes(n) + seq![59u8, 49u8, 72u8]
}

/// `ESC [ 2 K \r`: erase the current line and return to its start.
pub open spec fn erase_line_and_return() -> Seq<u8> {
    seq![27u8, 91u8, 50u8, 75u8, 13u8]
}

/// The last `height` lines of a frame, or all of them when the height is
/// unknown or the frame fits.
pub open spec fn visible_lines(all: Seq<Seq<u8>>, height: nat) -> Seq<Seq<u8>> {
    if height > 0 && all.len() > height {
        all.skip(all.len() - height)
    } else {
        all
    }
}

/// A line clipped to the terminal width (in bytes), unless the width is
/// unknown.
pub open spec fn clip(line: Seq<u8>, width: nat) -> Seq<u8> {
    if width > 0 && line.len() > width {
        line.take(width as int)
    } else {
        line
    }
}

/// Whether clipping `line` to `width` bytes cuts it at a character
/// boundary: the clipped line ends before a byte that is not a UTF-8
/// continuation byte.
pub open spec fn clips_on_boundary(line: Seq<u8>, width: nat) -> bool {
    width > 0 && line.len() > width ==> !(0x80 <= line[width as int] && line[width as int] < 0xc0)
}

/// The bytes painted for line `j` of the frame `lines`.
pub open spec fn line_segment(
    lines: Seq<Seq<u8>>,
    last_lines: Seq<Seq<u8>>,
    flush_queued: bool,
    first_render: bool,
    width: nat,
    j: int,
) -> Seq<u8> {
    let more: bool = j < lines.len() - 1;
    if !flush_queued && last_lines.len() > j && last_lines[j] == lines[j] {
        if more {
            seq![10u8]
        } else {
            Seq::empty()
        }
    } else {
        (if j == 0 && first_render {
            seq![13u8]
        } else {
            Seq::empty()
        }) + clip(lines[j], width) + erase_line_right() + (if more {
            seq![13u8, 10u8]
        } else {
            Seq::empty()
        })
    }
}

/// The bytes painted for the first `k` lines of the frame.
pub open spec fn painted(
    lines: Seq<Seq<u8>>,
    last_lines: Seq<Seq<u8>>,
    flush_queued: bool,
    first_render: bool,
    width: nat,
    k: nat,
) -> Seq<u8>
    decreases k,
{
    if k == 0 {
        Seq::empty()
    } else {
        painted(lines, last_lines, flush_queued, first_render, width, (k - 1) as nat)
            + line_segment(lines, last_lines, flush_queued, first_render, width, k - 1)
    }
}

/// The bytes that print the first `k` queued lines, each followed by an
/// erase to its end and a new line.
pub open spec fn queued_text(q: Seq<Seq<u8>>, k: nat) -> Seq<u8>
    decreases k,
{
    if k == 0 {
        Seq::empty()
    } else {
        queued_text(q, (k - 1) as nat) + q[k - 1] + erase_line_right() + seq![13u8, 10u8]
    }
}

/// The number of lines last painted on the active screen.
pub open spec fn last_count(s: RendererState) -> nat {
    if s.alt_screen {
        s.alt_lines_rendered
    } else {
        s.lines_rendered
    }
}

/// Whether a flush of `s` has something to paint: a non-empty frame that
/// differs from the one last painted.
pub open spec fn has_new_frame(s: RendererState) -> bool {
    s.buf.len() > 0 && s.buf != s.last_render
}

/// Whether every visible line of the frame of `s` that gets clipped is cut
/// at a character boundary.
pub open spec fn clips_safely(s: RendererState) -> bool {
    lines_clip_safely(s.buf, s.width, s.height)
}

/// Whether every visible line of the frame with bytes `buf` that gets
/// clipped is cut at a character boundary.
pub open spec fn lines_clip_safely(buf: Seq<u8>, width: nat, height: nat) -> bool {
    let lines = visible_lines(split_lines(buf), height);
    forall|j: int| 0 <= j < lines.len() ==> clips_on_boundary(#[trigger] lines[j], width)
}

/// Whether queued lines are printed by a flush of `s`.
pub open spec fn flushes_queue(s: RendererState) -> bool {
    s.queued.len() > 0 && !s.alt_screen
}

/// The bytes written by a flush of `s` that has a new frame.
pub open spec fn flush_bytes(s: RendererState) -> Seq<u8> {
    let lines = visible_lines(split_lines(s.buf), s.height);
    let n = lines.len();
    let fq = flushes_queue(s);
    (if s.alt_screen {
        cursor_home()
    } else if s.lines_rendered > 1 {
        cursor_up((s.lines_rendered - 1) as nat)
    } else {
        Seq::empty()
    }) + (if fq {
        queued_text(s.queued, s.queued.len())
    } else {
        Seq::empty()
    }) + painted(lines, s.last_lines, fq, s.last_render.len() == 0, s.width, n) + (if last_count(
        s,
    ) > n {
        erase_below()
    } else {
        Seq::empty()
    }) + (if s.alt_screen {
        cursor_to_row(n)
    } else {
        seq![13u8]
    })
}

/// The state after a flush of `s` that has a new frame: the queue is
/// emptied when printed, the frame becomes the last painted one, and the
/// line count of the active screen is updated.
pub open spec fn flushed_state(s: RendererState) -> RendererState {
    let lines = visible_lines(split_lines(s.buf), s.height);
    RendererState {
        queued: if flushes_queue(s) {
            Seq::empty()
        } else {
            s.queued
        },
        last_render: s.buf,
        last_lines: lines,
        lines_rendered: if s.alt_screen {
            s.lines_rendered
        } else {
            lines.len()
        },
        alt_lines_rendered: if s.alt_screen {
            lines.len()
        } else {
            s.alt_lines_rendered
        },
        ..s
    }
}

/// The state with the memory of the last frame dropped, so that the next
/// flush repaints everything.
pub open spec fn forget_last(s: RendererState) -> RendererState {
    RendererState { last_render: Seq::empty(), last_lines: Seq::empty(), ..s }
}

/// The frame set by writing text with bytes `s`: a single space for empty
/// text.
pub open spec fn frame_bytes(s: Seq<u8>) -> Seq<u8> {
    if s.len() == 0 {
        seq![32u8]
    } else {
        s
    }
}

/// The state whose frame is the text with bytes `text`.
pub open spec fn with_frame(s: RendererState, text: Seq<u8>) -> RendererState {
    RendererState { buf: frame_bytes(text), ..s }
}

/// The state after switching to the alternate screen, which starts empty.
pub open spec fn entered_alt(s: RendererState) -> RendererState {
    RendererState { alt_screen: true, alt_lines_rendered: 0, ..forget_last(s) }
}

/// The state after switching back to the main screen.
pub open spec fn exited_alt(s: RendererState) -> RendererState {
    RendererState { alt_screen: false, ..forget_last(s) }
}

/// The state with the cursor hidden or shown.
pub open spec fn with_cursor_hidden(s: RendererState, hidden: bool) -> RendererState {
    RendererState { cursor_hidden: hidden, ..s }
}

/// The state after handling `msg`: a window size sets the terminal size, and
/// printed text off the alternate screen is queued line by line; both forget
/// the last frame. Other messages change nothing.
pub open spec fn handled_state<M, W>(s: RendererState, msg: Msg<M, W>) -> RendererState {
    match msg {
        Msg::WindowSize(ws) => RendererState {
            width: ws.width as nat,
            height: ws.height as nat,
            ..forget_last(s)
        },
        Msg::PrintLine(p) => if s.alt_screen {
            s
        } else {
            RendererState {
                queued: s.queued + split_lines(encode_utf8(p.message_body@)),
                ..forget_last(s)
            }
        },
        _ => s,
    }
}

/// The frame rate used for a requested one: the default for zero, at most
/// the highest rate.
pub open spec fn effective_fps(fps: u32) -> u32 {
    if fps == 0 {
        DEFAULT_FPS
    } else if fps > MAX_FPS {
        MAX_FPS
    } else {
        fps
    }
}

/// After a flush the frame counts as painted: flushing again writes
/// nothing.
pub proof fn law_flush_settles(s: RendererState)
    requires
        has_new_frame(s),
    ensures
        !has_new_frame(flushed_state(s)),
{
}

/// Writing the same text twice paints it once: the second write finds the
/// frame already painted and writes nothing.
pub proof fn law_rewrite_paints_nothing(s: RendererState, text: Seq<u8>)
    requires
        has_new_frame(with_frame(s, text)),
    ensures
        !has_new_frame(with_frame(flushed_state(with_frame(s, text)), text)),
        with_frame(flushed_state(with_frame(s, text)), text) == flushed_state(with_frame(s, text)),
{
}

/// A painted frame clipped to the terminal height has at most that many
/// lines, and at least one.
pub proof fn law_visible_lines_fit(buf: Seq<u8>, height: nat)
    ensures
        visible_lines(split_lines(buf), height).len() >= 1,
        height > 0 ==> visible_lines(split_lines(buf), height).len() <= height,
{
    lemma_split_nonempty(buf);
}

/// The number of line feeds in `s`.
pub open spec fn line_feeds(s: Seq<u8>) -> nat
    decreases s.len(),
{
    if s.len() == 0 {
        0
    } else {
        line_feeds(s.drop_last()) + if s.last() == 10u8 {
            1nat
        } else {
            0nat
        }
    }
}

/// Whether no line of `lines` holds a line feed.
pub open spec fn lines_without_feeds(lines: Seq<Seq<u8>>) -> bool {
    forall|j: int, i: int|
        0 <= j < lines.len() && 0 <= i < lines[j].len() ==> #[trigger] lines[j][i] != 10u8
}

/// Line feeds add up over a concatenation.
proof fn lemma_line_feeds_add(a: Seq<u8>, b: Seq<u8>)
    ensures
        line_feeds(a + b) == line_feeds(a) + line_feeds(b),
    decreases b.len(),
{
    if b.len() == 0 {
        assert(a + b =~= a);
    } else {
        assert((a + b).drop_last() =~= a + b.drop_last());
        lemma_line_feeds_add(a, b.drop_last());
    }
}

/// Bytes none of which is a line feed hold no line feed.
proof fn lemma_no_line_feeds(s: Seq<u8>)
    requires
        forall|i: int| 0 <= i < s.len() ==> #[trigger] s[i] != 10u8,
    ensures
        line_feeds(s) == 0,
    decreases s.len(),
{
    if s.len() > 0 {
        assert forall|i: int| 0 <= i < s.drop_last().len() implies #[trigger] s.drop_last()[i]
            != 10u8 by {
            assert(s.drop_last()[i] == s[i]);
        }
        lemma_no_line_feeds(s.drop_last());
    }
}

/// The bytes painted for line `j` hold one line feed, which moves to the
/// next row, unless `j` is the last line, and then none.
proof fn lemma_segment_line_feeds(
    lines: Seq<Seq<u8>>,
    last_lines: Seq<Seq<u8>>,
    flush_queued: bool,
    first_render: bool,
    width: nat,
    j: int,
)
    requires
        lines_without_feeds(lines),
        0 <= j < lines.len(),
    ensures
        line_feeds(line_segment(lines, last_lines, flush_queued, first_render, width, j)) == (if j
            < lines.len() - 1 {
            1nat
        } else {
            0nat
        }),
{
    let more: bool = j < lines.len() - 1;
    let lf: Seq<u8> = seq![10u8];
    assert(lf.drop_last() =~= Seq::<u8>::empty());
    assert(line_feeds(Seq::<u8>::empty()) == 0);
    assert(lf.last() == 10u8);
    assert(line_feeds(lf) == 1);
    let crlf: Seq<u8> = seq![13u8, 10u8];
    assert(crlf.drop_last() =~= seq![13u8]);
    assert forall|i: int| 0 <= i < seq![13u8].len() implies #[trigger] seq![13u8][i] != 10u8 by {}
    lemma_no_line_feeds(seq![13u8]);
    assert(crlf.last() == 10u8);
    assert(line_feeds(crlf) == 1);
    lemma_no_line_feeds(Seq::<u8>::empty());
    if !(!flush_queued && last_lines.len() > j && last_lines[j] == lines[j]) {
        let head: Seq<u8> = if j == 0 && first_render {
            seq![13u8]
        } else {
            Seq::empty()
        };
        let c = clip(lines[j], width);
        assert forall|i: int| 0 <= i < c.len() implies #[trigger] c[i] != 10u8 by {
            assert(c[i] == lines[j][i]);
        }
        lemma_no_line_feeds(c);
        let e = erase_line_right();
        assert forall|i: int| 0 <= i < e.len() implies #[trigger] e[i] != 10u8 by {}
        lemma_no_line_feeds(e);
        let tail: Seq<u8> = if more {
            crlf
        } else {
            Seq::empty()
        };
        lemma_line_feeds_add(head, c);
        lemma_line_feeds_add(head + c, e);
        lemma_line_feeds_add(head + c + e, tail);
    }
}

/// The bytes that paint the first `k` lines of an `n`-line frame hold `k`
/// line feeds, or `n - 1` once every line is painted.
proof fn lemma_painted_line_feeds(
    lines: Seq<Seq<u8>>,
    last_lines: Seq<Seq<u8>>,
    flush_queued: bool,
    first_render: bool,
    width: nat,
    k: nat,
)
    requires
        lines_without_feeds(lines),
        k <= lines.len(),
    ensures
        line_feeds(painted(lines, last_lines, flush_queued, first_render, width, k)) == (if k
            == lines.len() && k > 0 {
            (k - 1) as nat
        } else {
            k
        }),
    decreases k,
{
    if k > 0 {
        lemma_painted_line_feeds(lines, last_lines, flush_queued, first_render, width, (k - 1) as nat);
        lemma_segment_line_feeds(lines, last_lines, flush_queued, first_render, width, k - 1);
        lemma_line_feeds_add(
            painted(lines, last_lines, flush_queued, first_render, width, (k - 1) as nat),
            line_segment(lines, last_lines, flush_queued, first_render, width, k - 1),
        );
    }
}

/// Lines split at line feeds hold none.
proof fn lemma_split_without_feeds(s: Seq<u8>)
    ensures
        lines_without_feeds(split_lines(s)),
    decreases s.len(),
{
    if s.len() > 0 {
        lemma_split_without_feeds(s.drop_last());
        lemma_split_nonempty(s.drop_last());
        let p = split_lines(s.drop_last());
        if s.last() != 10u8 {
            let q = split_lines(s);
            assert forall|j: int, i: int|
                0 <= j < q.len() && 0 <= i < q[j].len() implies #[trigger] q[j][i] != 10u8 by {
                if j == p.len() - 1 && i == p.last().len() {
                } else if j == p.len() - 1 {
                    assert(q[j][i] == p[j][i]);
                } else {
                    assert(q[j] == p[j]);
                }
            }
        } else {
            let q = split_lines(s);
            assert forall|j: int, i: int|
                0 <= j < q.len() && 0 <= i < q[j].len() implies #[trigger] q[j][i] != 10u8 by {
                assert(q[j] == p[j]);
            }
        }
    }
}

/// Each line of a frame is painted on its own row, whichever lines are
/// skipped as unchanged: the bytes before line `j` move down exactly `j`
/// rows, and the whole frame of `n` lines holds `n - 1` line feeds.
pub proof fn law_lines_keep_their_rows(
    lines: Seq<Seq<u8>>,
    last_lines: Seq<Seq<u8>>,
    flush_queued: bool,
    first_render: bool,
    width: nat,
)
    requires
        lines_without_feeds(lines),
        lines.len() > 0,
    ensures
        forall|j: nat|
            j < lines.len() ==> line_feeds(
                #[trigger] painted(lines, last_lines, flush_queued, first_render, width, j),
            ) == j,
        line_feeds(painted(lines, last_lines, flush_queued, first_render, width, lines.len()))
            == lines.len() - 1,
{
    assert forall|j: nat| j < lines.len() implies line_feeds(
        #[trigger] painted(lines, last_lines, flush_queued, first_render, width, j),
    ) == j by {
        lemma_painted_line_feeds(lines, last_lines, flush_queued, first_render, width, j);
    }
    lemma_painted_line_feeds(lines, last_lines, flush_queued, first_render, width, lines.len());
}

/// The frame a flush paints keeps each of its lines on its own row: the
/// lines of a frame hold no line feed.
pub proof fn law_frame_lines_without_feeds(buf: Seq<u8>, height: nat)
    ensures
        lines_without_feeds(visible_lines(split_lines(buf), height)),
{
    lemma_split_without_feeds(buf);
    let all = split_lines(buf);
    let v = visible_lines(all, height);
    if height > 0 && all.len() > height {
        assert forall|j: int, i: int|
            0 <= j < v.len() && 0 <= i < v[j].len() implies #[trigger] v[j][i] != 10u8 by {
            assert(v[j] == all[j + all.len() - height]);
        }
    }
}

/// Returns whether every visible line of the frame with bytes `buf` that
/// gets clipped is cut at a character boundary.
fn frame_clips_on_boundaries(buf: &[u8], width: usize, height: usize) -> (r: bool)
    ensures
        r == lines_clip_safely(buf@, width as nat, height as nat),
{
    let all = split_into_lines(buf);
    let ghost lines = visible_lines(split_lines(buf@), height as nat);
    let start: usize = if height > 0 && all.len() > height {
        all.len() - height
    } else {
        0
    };
    assert(lines =~= lines_view(all@).skip(start as int));
    let mut i: usize = start;
    while i < all.len()
        invariant
            start <= i <= all@.len(),
            lines_view(all@) == split_lines(buf@),
            lines == lines_view(all@).skip(start as int),
            lines == visible_lines(split_lines(buf@), height as nat),
            forall|j: int| 0 <= j < i - start ==> clips_on_boundary(#[trigger] lines[j], width as nat),
        decreases all@.len() - i,
    {
        let line = &all[i];
        assert(lines[i - start] == line@);
        if width > 0 && line.len() > width && 0x80u8 <= line[width] && line[width] < 0xc0u8 {
            assert(!clips_on_boundary(
                visible_lines(split_lines(buf@), height as nat)[i - start],
                width as nat,
            ));
            return false;
        }
        i = i + 1;
    }
    true
}

/// Splits `s` into its lines.
fn split_into_lines(s: &[u8]) -> (lines: Vec<Vec<u8>>)
    ensures
        lines_view(lines@) == split_lines(s@),
{
    let mut lines: Vec<Vec<u8>> = Vec::new();
    let mut cur: Vec<u8> = Vec::new();
    let mut i: usize = 0;
    while i < s.len()
        invariant
            i <= s@.len(),
            lines_view(lines@).push(cur@) == split_lines(s@.take(i as int)),
        decreases s@.len() - i,
    {
        let b = s[i];
        let ghost before = lines_view(lines@).push(cur@);
        assert(s@.take(i + 1).drop_last() == s@.take(i as int));
        if b == 10 {
            lines.push(cur);
            cur = Vec::new();
            assert(lines_view(lines@).push(cur@) =~= before.push(Seq::empty()));
        } else {
            cur.push(b);
            assert(lines_view(lines@).push(cur@) =~= before.update(
                before.len() - 1,
                before.last().push(b),
            ));
        }
        i = i + 1;
    }
    assert(s@.take(s@.len() as int) == s@);
    lines.push(cur);
    lines
}

/// Appends `ESC [ K`.
fn push_erase_line_right(out: &mut Vec<u8>)
    ensures
        final(out)@ == old(out)@ + erase_line_right(),
{
    out.push(27);
    out.push(91);
    out.push(75);
    assert(final(out)@ =~= old(out)@ + erase_line_right());
}

impl StandardRenderer {
    /// Creates a renderer for the given frame rate: the default rate for
    /// zero, at most the highest rate.
    pub fn new(fps: u32) -> (r: StandardRenderer)
        ensures
            r@.framerate_ms == 1000int / (effective_fps(fps) as int),
            r@.buf == Seq::<u8>::empty(),
            r@.queued == Seq::<Seq<u8>>::empty(),
            r@.last_render == Seq::<u8>::empty(),
            r@.last_lines == Seq::<Seq<u8>>::empty(),
            r@.lines_rendered == 0,
            r@.alt_lines_rendered == 0,
            !r@.cursor_hidden,
            !r@.alt_screen,
            r@.width == 0,
            r@.height == 0,
    {
        let effective_fps: u32 = if fps == 0 {
            DEFAULT_FPS
        } else if fps > MAX_FPS {
            MAX_FPS
        } else {
            fps
        };
        StandardRenderer {
            buf: Vec::new(),
            queued_message_lines: Vec::new(),
            framerate_ms: 1000 / (effective_fps as u64),
            last_render: Vec::new(),
            last_rendered_lines: Vec::new(),
            lines_rendered: 0,
            alt_lines_rendered: 0,
            cursor_hidden: false,
            alt_screen_active: false,
            width: 0,
            height: 0,
        }
    }

    /// Returns the time between frames, in milliseconds.
    pub fn framerate_ms(&self) -> (ms: u64)
        ensures
            ms == self@.framerate_ms,
    {
        self.framerate_ms
    }

    /// The number of lines last painted on the active screen.
    fn last_lines_rendered(&self) -> (n: usize)
        ensures
            n == last_count(self@),
    {
        if self.alt_screen_active {
            self.alt_lines_rendered
        } else {
            self.lines_rendered
        }
    }

    /// Returns the lines of the frame that fit the terminal height.
    fn visible(&self) -> (lines: Vec<Vec<u8>>)
        ensures
            lines_view(lines@) == visible_lines(split_lines(self@.buf), self@.height),
    {
        let mut all = split_into_lines(self.buf.as_slice());
        if self.height > 0 && all.len() > self.height {
            let start = all.len() - self.height;
            let ghost av = lines_view(all@);
            let tail = all.split_off(start);
            assert(lines_view(tail@) =~= av.skip(start as int));
            tail
        } else {
            all
        }
    }

    /// Returns whether `stop` may be called: a pending frame that it would
    /// paint cuts every clipped line at a character boundary.
    pub fn can_stop(&self) -> (r: bool)
        ensures
            r == (has_new_frame(self@) ==> clips_safely(self@)),
    {
        if self.buf.len() == 0 || bytes_equal(self.buf.as_slice(), self.last_render.as_slice()) {
            return true;
        }
        frame_clips_on_boundaries(self.buf.as_slice(), self.width, self.height)
    }

    /// Returns whether `write` may be called with `s`: a frame that it would
    /// paint cuts every clipped line at a character boundary.
    pub fn can_write(&self, s: &str) -> (r: bool)
        ensures
            r == (has_new_frame(with_frame(self@, s.spec_bytes())) ==> clips_safely(
                with_frame(self@, s.spec_bytes()),
            )),
    {
        let mut frame = bytes_of(s);
        if frame.len() == 0 {
            frame.push(32);
        }
        assert(frame@ =~= frame_bytes(s.spec_bytes()));
        if bytes_equal(frame.as_slice(), self.last_render.as_slice()) {
            return true;
        }
        frame_clips_on_boundaries(frame.as_slice(), self.width, self.height)
    }

    /// Starts the renderer; nothing to do.
    pub fn start(&mut self)
        ensures
            final(self)@ == old(self)@,
    {
    }

    /// Stops the renderer: paints the pending frame, then erases the current
    /// line and returns to its start.
    pub fn stop(&mut self) -> (out: Vec<u8>)
        requires
            has_new_frame(old(self)@) ==> clips_safely(old(self)@),
        ensures
            has_new_frame(old(self)@) ==> out@ == flush_bytes(old(self)@)
                + erase_line_and_return() && final(self)@ == flushed_state(old(self)@),
            !has_new_frame(old(self)@) ==> out@ == erase_line_and_return() && final(self)@
                == old(self)@,
    {
        let mut out = self.flush();
        out.push(27);
        out.push(91);
        out.push(50);
        out.push(75);
        out.push(13);
        assert(out@ =~= (if has_new_frame(old(self)@) { flush_bytes(old(self)@) } else { Seq::empty() }) + erase_line_and_return());
        out
    }

    /// Kills the renderer without painting: erases the current line and
    /// returns to its start.
    pub fn kill(&self) -> (out: Vec<u8>)
        ensures
            out@ == erase_line_and_return(),
    {
        let mut out: Vec<u8> = Vec::new();
        out.push(27);
        out.push(91);
        out.push(50);
        out.push(75);
        out.push(13);
        assert(out@ =~= erase_line_and_return());
        out
    }

    /// Sets the frame to `s` (a single space when `s` is empty) and paints
    /// it. Clipping a line inside a character is refused.
    pub fn write(&mut self, s: &str) -> (out: Vec<u8>)
        requires
            has_new_frame(with_frame(old(self)@, s.spec_bytes())) ==> clips_safely(
                with_frame(old(self)@, s.spec_bytes()),
            ),
        ensures
            has_new_frame(with_frame(old(self)@, s.spec_bytes())) ==> out@ == flush_bytes(
                with_frame(old(self)@, s.spec_bytes()),
            ) && final(self)@ == flushed_state(with_frame(old(self)@, s.spec_bytes())),
            !has_new_frame(with_frame(old(self)@, s.spec_bytes())) ==> out@ == Seq::<u8>::empty()
                && final(self)@ == with_frame(old(self)@, s.spec_bytes()),
    {
        let bytes = bytes_of(s);
        if bytes.len() == 0 {
            let mut space: Vec<u8> = Vec::new();
            space.push(32);
            self.buf = space;
        } else {
            self.buf = bytes;
        }
        proof {
            assert(self.buf@ =~= frame_bytes(s.spec_bytes()));
        }
        self.flush()
    }

    /// Handles the messages that concern the renderer: a window size sets
    /// the terminal size, and printed lines are queued above the frame
    /// unless the alternate screen is active. Both make the next flush
    /// repaint everything.
    pub fn handle_message<M, W>(&mut self, msg: &Msg<M, W>)
        ensures
            final(self)@ == handled_state(old(self)@, *msg),
    {
        match msg {
            Msg::WindowSize(ws) => {
                self.width = ws.width;
                self.height = ws.height;
                self.last_render = Vec::new();
                self.last_rendered_lines = Vec::new();
                proof {
                    assert(self@.last_lines =~= Seq::<Seq<u8>>::empty());
                    assert(self@.last_render =~= Seq::<u8>::empty());
                }
            },
            Msg::PrintLine(p) => {
                if !self.alt_screen_active {
                    let body = bytes_of(p.message_body.as_str());
                    let mut lines = split_into_lines(body.as_slice());
                    let ghost q = lines_view(self.queued_message_lines@);
                    let ghost l = lines_view(lines@);
                    self.queued_message_lines.append(&mut lines);
                    self.last_render = Vec::new();
                    self.last_rendered_lines = Vec::new();
                    proof {
                        assert(self@.queued =~= q + l);
                        assert(self@.last_lines =~= Seq::<Seq<u8>>::empty());
                        assert(self@.last_render =~= Seq::<u8>::empty());
                    }
                }
            },
            _ => {},
        }
    }

    /// Makes the next flush repaint everything.
    pub fn repaint(&mut self)
        ensures
            final(self)@ == forget_last(old(self)@),
    {
        self.last_render = Vec::new();
        self.last_rendered_lines = Vec::new();
        proof {
            assert(self@.last_lines =~= Seq::<Seq<u8>>::empty());
            assert(self@.last_render =~= Seq::<u8>::empty());
        }
    }

    /// Clears the screen and makes the next flush repaint everything.
    pub fn clear_screen(&mut self) -> (out: Vec<u8>)
        ensures
            out@ == seq![27u8, 91u8, 50u8, 74u8],
            final(self)@ == forget_last(old(self)@),
    {
        self.repaint();
        clear_all_sequence()
    }

    /// Returns whether the alternate screen is active.
    pub fn alt_screen(&self) -> (b: bool)
        ensures
            b == self@.alt_screen,
    {
        self.alt_screen_active
    }

    /// Switches to the alternate screen, which starts empty; nothing happens
    /// when it is already active.
    pub fn enter_alt_screen(&mut self) -> (out: Vec<u8>)
        ensures
            old(self)@.alt_screen ==> out@ == Seq::<u8>::empty() && final(self)@ == old(self)@,
            !old(self)@.alt_screen ==> out@ == seq![27u8, 91u8, 63u8, 49u8, 48u8, 52u8, 57u8, 104u8]
                && final(self)@ == entered_alt(old(self)@),
    {
        if self.alt_screen_active {
            return Vec::new();
        }
        self.alt_screen_active = true;
        self.alt_lines_rendered = 0;
        self.repaint();
        enter_alternate_screen_sequence()
    }

    /// Switches back to the main screen; nothing happens when the main
    /// screen is already active.
    pub fn exit_alt_screen(&mut self) -> (out: Vec<u8>)
        ensures
            !old(self)@.alt_screen ==> out@ == Seq::<u8>::empty() && final(self)@ == old(self)@,
            old(self)@.alt_screen ==> out@ == seq![27u8, 91u8, 63u8, 49u8, 48u8, 52u8, 57u8, 108u8]
                && final(self)@ == exited_alt(old(self)@),
    {
        if !self.alt_screen_active {
            return Vec::new();
        }
        self.alt_screen_active = false;
        self.repaint();
        leave_alternate_screen_sequence()
    }

    /// Shows the cursor.
    pub fn show_cursor(&mut self) -> (out: Vec<u8>)
        ensures
            out@ == seq![27u8, 91u8, 63u8, 50u8, 53u8, 104u8],
            final(self)@ == with_cursor_hidden(old(self)@, false),
    {
        self.cursor_hidden = false;
        show_cursor_sequence()
    }

    /// Hides the cursor.
    pub fn hide_cursor(&mut self) -> (out: Vec<u8>)
        ensures
            out@ == seq![27u8, 91u8, 63u8, 50u8, 53u8, 108u8],
            final(self)@ == with_cursor_hidden(old(self)@, true),
    {
        self.cursor_hidden = true;
        hide_cursor_sequence()
    }

    /// Enables mouse reports while a button is held.
    pub fn enable_mouse_cell_motion(&self) -> (out: Vec<u8>)
        ensures
            out@ == mouse_capture_on(),
    {
        enable_mouse_capture_sequence()
    }

    /// Disables mouse reports while a button is held.
    pub fn disable_mouse_cell_motion(&self) -> (out: Vec<u8>)
        ensures
            out@ == mouse_capture_off(),
    {
        disable_mouse_capture_sequence()
    }

    /// Enables reports of all mouse motion.
    pub fn enable_mouse_all_motion(&self) -> (out: Vec<u8>)
        ensures
            out@ == mouse_capture_on(),
    {
        enable_mouse_capture_sequence()
    }

    /// Disables reports of all mouse motion.
    pub fn disable_mouse_all_motion(&self) -> (out: Vec<u8>)
        ensures
            out@ == mouse_capture_off(),
    {
        disable_mouse_capture_sequence()
    }

    /// Extended mouse coordinates are part of the mouse capture; nothing to
    /// do.
    pub fn enable_mouse_sgr_mode(&mut self)
        ensures
            final(self)@ == old(self)@,
    {
    }

    /// Extended mouse coordinates are part of the mouse capture; nothing to
    /// do.
    pub fn disable_mouse_sgr_mode(&mut self)
        ensures
            final(self)@ == old(self)@,
    {
    }

    /// This renderer does not manage bracketed paste; nothing to do.
    pub fn enable_bracketed_paste(&mut self)
        ensures
            final(self)@ == old(self)@,
    {
    }

    /// This renderer does not manage bracketed paste; nothing to do.
    pub fn disable_bracketed_paste(&mut self)
        ensures
            final(self)@ == old(self)@,
    {
    }

    /// Bracketed paste is never active under this renderer.
    pub fn bracketed_paste_active(&self) -> (b: bool)
        ensures
            !b,
    {
        false
    }

    /// Sets the window title.
    pub fn set_window_title(&self, title: &str) -> (out: Vec<u8>)
        ensures
            out@ == seq![27u8, 93u8, 48u8, 59u8] + title.spec_bytes() + seq![7u8],
    {
        set_title_sequence(title)
    }

    /// Focus reporting is never active under this renderer.
    pub fn report_focus(&self) -> (b: bool)
        ensures
            !b,
    {
        false
    }

    /// This renderer does not manage focus reports; nothing to do.
    pub fn enable_report_focus(&mut self)
        ensures
            final(self)@ == old(self)@,
    {
    }

    /// This renderer does not manage focus reports; nothing to do.
    pub fn disable_report_focus(&mut self)
        ensures
            final(self)@ == old(self)@,
    {
    }

    /// Paints the frame if it changed since the last flush and returns the
    /// bytes to write; nothing is written when the frame is empty or
    /// unchanged. Clipping a line inside a character is refused.
    fn flush(&mut self) -> (out: Vec<u8>)
        requires
            has_new_frame(old(self)@) ==> clips_safely(old(self)@),
        ensures
            has_new_frame(old(self)@) ==> out@ == flush_bytes(old(self)@) && final(self)@
                == flushed_state(old(self)@),
            !has_new_frame(old(self)@) ==> out@ == Seq::<u8>::empty() && final(self)@ == old(
                self,
            )@,
    {
        let mut out: Vec<u8> = Vec::new();
        if self.buf.len() == 0 || bytes_equal(self.buf.as_slice(), self.last_render.as_slice()) {
            return out;
        }
        let ghost s = self@;
        push_return_to_top(&mut out, self.alt_screen_active, self.lines_rendered);
        let ghost after_prefix = out@;
        let new_lines = self.visible();
        let n = new_lines.len();
        proof {
            lemma_split_nonempty(s.buf);
            assert(lines_view(new_lines@).len() == n);
        }
        let flush_queued = self.queued_message_lines.len() > 0 && !self.alt_screen_active;
        if flush_queued {
            push_queued(&mut out, &self.queued_message_lines);
            self.queued_message_lines = Vec::new();
        }
        let ghost after_queue = out@;
        let first_render = self.last_render.len() == 0;
        push_frame(&mut out, &new_lines, &self.last_rendered_lines, flush_queued, first_render, self.width);
        let ghost after_paint = out@;
        if self.last_lines_rendered() > n {
            out.push(27);
            out.push(91);
            out.push(74);
        }
        assert(out@ =~= after_paint + (if last_count(s) > n {
            erase_below()
        } else {
            Seq::empty()
        }));
        let ghost after_clear = out@;
        if self.alt_screen_active {
            self.alt_lines_rendered = n;
            out.push(27);
            out.push(91);
            push_decimal_bytes(&mut out, n as u64);
            out.push(59);
            out.push(49);
            out.push(72);
        } else {
            self.lines_rendered = n;
            out.push(13);
        }
        assert(out@ =~= after_clear + (if s.alt_screen {
            cursor_to_row(n as nat)
        } else {
            seq![13u8]
        }));
        self.last_rendered_lines = new_lines;
        let copy = self.buf.clone();
        proof {
            assert(copy@ =~= self.buf@);
        }
        self.last_render = copy;
        proof {
            let f = flushed_state(s);
            assert(self@.queued =~= f.queued);
            assert(self@.last_lines =~= f.last_lines);
            assert(self@.last_render =~= f.last_render);
            assert(out@ =~= flush_bytes(s));
        }
        out
    }
}

/// The terminal sequences used by the renderer, as crossterm's commands
/// write them (`Command::write_ansi`).
/// `Clear(ClearType::All)`: erase the whole screen.
#[verifier::external_body]
fn clear_all_sequence() -> (v: Vec<u8>)
    ensures
        v@ == seq![27u8, 91u8, 50u8, 74u8],
{
    let mut s = String::new();
    let _ = crossterm::Command::write_ansi(&crossterm::terminal::Clear(crossterm::terminal::ClearType::All), &mut s);
    s.into_bytes()
}

/// `EnterAlternateScreen`: switch to the alternate screen.
#[verifier::external_body]
fn enter_alternate_screen_sequence() -> (v: Vec<u8>)
    ensures
        v@ == seq![27u8, 91u8, 63u8, 49u8, 48u8, 52u8, 57u8, 104u8],
{
    let mut s = String::new();
    let _ = crossterm::Command::write_ansi(&crossterm::terminal::EnterAlternateScreen, &mut s);
    s.into_bytes()
}

/// `LeaveAlternateScreen`: switch back to the main screen.
#[verifier::external_body]
fn leave_alternate_screen_sequence() -> (v: Vec<u8>)
    ensures
        v@ == seq![27u8, 91u8, 63u8, 49u8, 48u8, 52u8, 57u8, 108u8],
{
    let mut s = String::new();
    let _ = crossterm::Command::write_ansi(&crossterm::terminal::LeaveAlternateScreen, &mut s);
    s.into_bytes()
}

/// `cursor::Show`: show the cursor.
#[verifier::external_body]
fn show_cursor_sequence() -> (v: Vec<u8>)
    ensures
        v@ == seq![27u8, 91u8, 63u8, 50u8, 53u8, 104u8],
{
    let mut s = String::new();
    let _ = crossterm::Command::write_ansi(&crossterm::cursor::Show, &mut s);
    s.into_bytes()
}

/// `cursor::Hide`: hide the cursor.
#[verifier::external_body]
fn hide_cursor_sequence() -> (v: Vec<u8>)
    ensures
        v@ == seq![27u8, 91u8, 63u8, 50u8, 53u8, 108u8],
{
    let mut s = String::new();
    let _ = crossterm::Command::write_ansi(&crossterm::cursor::Hide, &mut s);
    s.into_bytes()
}

/// The modes that `EnableMouseCapture` sets, in order: 1000, 1002, 1003,
/// 1015 and 1006 (`ESC [ ? <mode> h` each).
pub open spec fn mouse_capture_on() -> Seq<u8> {
    seq![27u8, 91u8, 63u8, 49u8, 48u8, 48u8, 48u8, 104u8] + seq![27u8, 91u8, 63u8, 49u8, 48u8, 48u8, 50u8, 104u8]
        + seq![27u8, 91u8, 63u8, 49u8, 48u8, 48u8, 51u8, 104u8] + seq![27u8, 91u8, 63u8, 49u8, 48u8, 49u8, 53u8, 104u8]
        + seq![27u8, 91u8, 63u8, 49u8, 48u8, 48u8, 54u8, 104u8]
}

/// The modes that `DisableMouseCapture` resets, in order: 1006, 1015, 1003,
/// 1002 and 1000 (`ESC [ ? <mode> l` each).
pub open spec fn mouse_capture_off() -> Seq<u8> {
    seq![27u8, 91u8, 63u8, 49u8, 48u8, 48u8, 54u8, 108u8] + seq![27u8, 91u8, 63u8, 49u8, 48u8, 49u8, 53u8, 108u8]
        + seq![27u8, 91u8, 63u8, 49u8, 48u8, 48u8, 51u8, 108u8] + seq![27u8, 91u8, 63u8, 49u8, 48u8, 48u8, 50u8, 108u8]
        + seq![27u8, 91u8, 63u8, 49u8, 48u8, 48u8, 48u8, 108u8]
}

/// `event::EnableMouseCapture`: report mouse presses, drags and motion with
/// extended coordinates.
#[verifier::external_body]
fn enable_mouse_capture_sequence() -> (v: Vec<u8>)
    ensures
        v@ == mouse_capture_on(),
{
    let mut s = String::new();
    let _ = crossterm::Command::write_ansi(&crossterm::event::EnableMouseCapture, &mut s);
    s.into_bytes()
}

/// `event::DisableMouseCapture`: stop the mouse reports, in the reverse
/// order of `EnableMouseCapture`.
#[verifier::external_body]
fn disable_mouse_capture_sequence() -> (v: Vec<u8>)
    ensures
        v@ == mouse_capture_off(),
{
    let mut s = String::new();
    let _ = crossterm::Command::write_ansi(&crossterm::event::DisableMouseCapture, &mut s);
    s.into_bytes()
}

/// `terminal::SetTitle(title)`: `ESC ] 0 ;`, the title and `BEL`.
#[verifier::external_body]
fn set_title_sequence(title: &str) -> (v: Vec<u8>)
    ensures
        v@ == seq![27u8, 93u8, 48u8, 59u8] + title.spec_bytes() + seq![7u8],
{
    let mut s = String::new();
    let _ = crossterm::Command::write_ansi(&crossterm::terminal::SetTitle(title), &mut s);
    s.into_bytes()
}

/// Appends the move back to the top of the previous frame: the top left
/// corner on the alternate screen, otherwise up by the previous line count
/// less one.
fn push_return_to_top(out: &mut Vec<u8>, alt: bool, lines_rendered: usize)
    ensures
        final(out)@ == old(out)@ + (if alt {
            cursor_home()
        } else if lines_rendered > 1 {
            cursor_up((lines_rendered - 1) as nat)
        } else {
            Seq::empty()
        }),
{
    let ghost start = out@;
    if alt {
        out.push(27);
        out.push(91);
        out.push(49);
        out.push(59);
        out.push(49);
        out.push(72);
    } else if lines_rendered > 1 {
        out.push(27);
        out.push(91);
        push_decimal_bytes(out, (lines_rendered - 1) as u64);
        out.push(65);
    }
    assert(out@ =~= start + (if alt {
        cursor_home()
    } else if lines_rendered > 1 {
        cursor_up((lines_rendered - 1) as nat)
    } else {
        Seq::empty()
    }));
}

/// Appends the queued lines, each followed by an erase to its end and a new
/// line.
fn push_queued(out: &mut Vec<u8>, q: &Vec<Vec<u8>>)
    ensures
        final(out)@ == old(out)@ + queued_text(lines_view(q@), q@.len()),
{
    let ghost start = out@;
    let mut k: usize = 0;
    while k < q.len()
        invariant
            k <= q@.len(),
            out@ == start + queued_text(lines_view(q@), k as nat),
        decreases q@.len() - k,
    {
        push_bytes(out, q[k].as_slice());
        push_erase_line_right(out);
        out.push(13);
        out.push(10);
        assert(lines_view(q@)[k as int] == q@[k as int]@);
        assert(out@ =~= start + queued_text(lines_view(q@), (k + 1) as nat));
        k = k + 1;
    }
}

/// Appends the bytes that paint line `i` of the frame.
fn push_line(
    out: &mut Vec<u8>,
    lines: &Vec<Vec<u8>>,
    last: &Vec<Vec<u8>>,
    flush_queued: bool,
    first_render: bool,
    width: usize,
    i: usize,
)
    requires
        i < lines@.len(),
    ensures
        final(out)@ == old(out)@ + line_segment(
            lines_view(lines@),
            lines_view(last@),
            flush_queued,
            first_render,
            width as nat,
            i as int,
        ),
{
    let ghost start = out@;
    let n = lines.len();
    let ghost lv = lines_view(lines@);
    let ghost llv = lines_view(last@);
    assert(lv[i as int] == lines@[i as int]@);
    let can_skip = !flush_queued && last.len() > i && bytes_equal(
        last[i].as_slice(),
        lines[i].as_slice(),
    );
    proof {
        if last@.len() > i {
            assert(llv[i as int] == last@[i as int]@);
        }
    }
    if can_skip {
        if i < n - 1 {
            out.push(10);
        }
    } else {
        if i == 0 && first_render {
            out.push(13);
        }
        let line = lines[i].as_slice();
        if width > 0 && line.len() > width {
            let cut = &line[0..width];
            assert(cut@ =~= clip(lv[i as int], width as nat));
            push_bytes(out, cut);
        } else {
            push_bytes(out, line);
        }
        push_erase_line_right(out);
        if i < n - 1 {
            out.push(13);
            out.push(10);
        }
    }
    assert(out@ =~= start + line_segment(lv, llv, flush_queued, first_render, width as nat, i as int));
}

/// Appends the bytes that paint every line of the frame.
fn push_frame(
    out: &mut Vec<u8>,
    lines: &Vec<Vec<u8>>,
    last: &Vec<Vec<u8>>,
    flush_queued: bool,
    first_render: bool,
    width: usize,
)
    ensures
        final(out)@ == old(out)@ + painted(
            lines_view(lines@),
            lines_view(last@),
            flush_queued,
            first_render,
            width as nat,
            lines@.len(),
        ),
{
    let ghost start = out@;
    let mut i: usize = 0;
    while i < lines.len()
        invariant
            i <= lines@.len(),
            out@ == start + painted(
                lines_view(lines@),
                lines_view(last@),
                flush_queued,
                first_render,
                width as nat,
                i as nat,
            ),
        decreases lines@.len() - i,
    {
        push_line(out, lines, last, flush_queued, first_render, width, i);
        assert(out@ =~= start + painted(
            lines_view(lines@),
            lines_view(last@),
            flush_queued,
            first_render,
            width as nat,
            (i + 1) as nat,
        ));
        i = i + 1;
    }
}

} // verus!
