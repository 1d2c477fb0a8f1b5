//! Streaming-safe Markdown buffer for token-by-token output.
//!
//! The document is `committed + tail + pending`. Deltas are coalesced in
//! `pending`; applying them appends to `tail` and promotes the stable prefix
//! of `tail` (through a blank line, or through a complete code fence) into
//! `committed`, which only grows while streaming. An open code fence stays in
//! `tail` until it closes. A tail larger than [`STREAM_TAIL_MAX`] bytes is cut
//! back at a line break unless a fence is open. A width change or a reset may
//! re-split the whole document.

use vstd::prelude::*;
use crate::markdown_fence::{concat_chars, open_fence, open_fence_spec, opt_int, promote, promote_spec, slice_chars};
use crate::style::DesignSystem;
use crate::text::{chars_of, string_from_chars};

verus! {

/// Largest tail, in bytes, kept as the reparse window.
pub const STREAM_TAIL_MAX: usize = 16384;
/// Default number of deltas coalesced before they are applied.
pub const STREAM_COALESCE_DELTAS: u32 = 8;
/// Default number of pending bytes that forces an apply.
pub const STREAM_COALESCE_CHARS: usize = 256;
/// Full reparses allowed on the hot path.
pub const STREAM_HOT_FULL_REPARSE_BUDGET: u32 = 0;

/// Stream lifecycle.
#[derive(Debug, Clone, Copy, PartialEq, Eq, Hash, Structural)]
pub enum StreamPhase {
    /// Nothing received.
    Idle,
    /// Receiving deltas.
    Streaming,
    /// Completed; tail flushed.
    Done,
    /// Host or parse failure; raw fallback.
    Failed,
}

impl Default for StreamPhase {
    /// `Idle`.
    fn default() -> (r: StreamPhase)
        ensures
            r == StreamPhase::Idle,
    {
        StreamPhase::Idle
    }
}

impl StreamPhase {
    /// Stable id.
    pub open spec fn id_spec(self) -> Seq<char> {
        match self {
            StreamPhase::Idle => "idle"@,
            StreamPhase::Streaming => "streaming"@,
            StreamPhase::Done => "done"@,
            StreamPhase::Failed => "failed"@,
        }
    }

    /// Stable id.
    pub fn id(self) -> (s: &'static str)
        ensures
            s@ == self.id_spec(),
    {
        match self {
            StreamPhase::Idle => "idle",
            StreamPhase::Streaming => "streaming",
            StreamPhase::Done => "done",
            StreamPhase::Failed => "failed",
        }
    }
}

/// A host-injected insertion (tool output, status line).
#[derive(Debug, Clone, PartialEq, Eq)]
pub struct StreamInsertion {
    /// Stable id.
    pub id: String,
    /// Kind label (`tool`, `status`, ...).
    pub kind: String,
    /// Display lines.
    pub lines: Vec<String>,
}

impl StreamInsertion {
    /// Builds an insertion.
    pub fn new(id: &str, kind: &str, lines: &[&str]) -> (r: Self)
        ensures
            r.id@ == id@,
            r.kind@ == kind@,
            r.lines@.len() == lines@.len(),
            forall|j: int| 0 <= j < lines@.len() ==> #[trigger] r.lines@[j]@ == lines@[j]@,
    {
        let mut out: Vec<String> = Vec::new();
        let mut i: usize = 0;
        while i < lines.len()
            invariant
                i <= lines@.len(),
                out@.len() == i,
                forall|j: int| 0 <= j < i ==> #[trigger] out@[j]@ == lines@[j]@,
            decreases lines@.len() - i,
        {
            out.push(String::from_str(lines[i]));
            i = i + 1;
        }
        StreamInsertion { id: String::from_str(id), kind: String::from_str(kind), lines: out }
    }
}

/// A span of the streamed text that a citation points at (byte offsets).
#[derive(Debug, Clone, Copy, PartialEq, Eq, Structural)]
pub struct SourceAnchor {
    /// Start offset.
    pub start: usize,
    /// End offset (exclusive).
    pub end: usize,
}

/// A citation attached to streamed content.
#[derive(Debug, Clone, PartialEq, Eq)]
pub struct StreamCitation {
    /// Stable id.
    pub id: String,
    /// Display label (`[1]`, a source title).
    pub label: String,
    /// Link or path the host opens.
    pub href: Option<String>,
    /// Source span in the stream text.
    pub source: Option<SourceAnchor>,
}

impl StreamCitation {
    /// A citation with no link and no span.
    pub fn new(id: &str, label: &str) -> (c: Self)
        ensures
            c.id@ == id@,
            c.label@ == label@,
            c.href.is_none(),
            c.source.is_none(),
    {
        StreamCitation { id: String::from_str(id), label: String::from_str(label), href: None, source: None }
    }

    /// Sets the link.
    pub fn href(self, h: &str) -> (c: Self)
        ensures
            c.id == self.id,
            c.label == self.label,
            c.href is Some && c.href->0@ == h@,
            c.source == self.source,
    {
        StreamCitation { href: Some(String::from_str(h)), ..self }
    }

    /// Sets the source span.
    pub fn source(self, a: SourceAnchor) -> (c: Self)
        ensures
            c.id == self.id,
            c.label == self.label,
            c.href == self.href,
            c.source == Some(a),
    {
        StreamCitation { source: Some(a), ..self }
    }
}

/// Scroll and focus of the document view.
#[derive(Debug, Clone, Copy, PartialEq, Eq, Structural)]
pub struct MarkdownViewState {
    /// First visible row (`u16::MAX`: follow the end).
    pub scroll_y: u16,
    /// Whether the view owns keys.
    pub focused: bool,
}

impl Default for MarkdownViewState {
    /// Scrolled to the top, unfocused.
    fn default() -> (r: MarkdownViewState)
        ensures
            r == (MarkdownViewState { scroll_y: 0, focused: false }),
    {
        MarkdownViewState { scroll_y: 0, focused: false }
    }
}

impl MarkdownViewState {
    /// Top of the document, unfocused.
    pub fn new() -> (v: Self)
        ensures
            v.scroll_y == 0,
            !v.focused,
    {
        MarkdownViewState { scroll_y: 0, focused: false }
    }
}

// ── Byte lengths ────────────────────────────────────────────────────────────

/// UTF-8 length of a char.
pub open spec fn char_utf8_len(c: char) -> int {
    let u = c as u32;
    if u < 0x80 { 1 } else if u < 0x800 { 2 } else if u < 0x10000 { 3 } else { 4 }
}

/// UTF-8 length of `s[i..]`.
pub open spec fn utf8_from(s: Seq<char>, i: int) -> int
    decreases s.len() - i,
{
    if i < 0 || i >= s.len() { 0 } else { char_utf8_len(s[i]) + utf8_from(s, i + 1) }
}

/// UTF-8 length of `s`.
pub open spec fn utf8_len(s: Seq<char>) -> int {
    utf8_from(s, 0)
}

fn char_bytes(c: char) -> (n: u128)
    ensures
        n as int == char_utf8_len(c),
        1 <= n <= 4,
{
    let u = c as u32;
    if u < 0x80 { 1 } else if u < 0x800 { 2 } else if u < 0x10000 { 3 } else { 4 }
}

proof fn lemma_utf8_from_bound(s: Seq<char>, i: int)
    requires
        0 <= i <= s.len(),
    ensures
        0 <= utf8_from(s, i) <= 4 * (s.len() - i),
    decreases s.len() - i,
{
    if i < s.len() {
        lemma_utf8_from_bound(s, i + 1);
    }
}

fn utf8_count(s: &Vec<char>) -> (n: u128)
    ensures
        n as int == utf8_len(s@),
{
    let mut acc: u128 = 0;
    let mut i: usize = 0;
    while i < s.len()
        invariant
            i <= s.len(),
            acc + utf8_from(s@, i as int) == utf8_len(s@),
            acc <= 4 * i,
        decreases s.len() - i,
    {
        acc = acc + char_bytes(s[i]);
        i = i + 1;
    }
    proof {
        lemma_utf8_from_bound(s@, 0);
    }
    acc
}

/// `n` saturated to the `usize` range.
pub open spec fn sat_usize(n: int) -> int {
    if n > usize::MAX { usize::MAX as int } else { n }
}

/// Smallest prefix length of `t` (from `k`, with `acc` bytes before it)
/// that holds at least `target` bytes.
pub open spec fn byte_cut(t: Seq<char>, k: int, acc: int, target: int) -> int
    decreases t.len() - k,
{
    if k < 0 || k >= t.len() || acc >= target { k } else { byte_cut(t, k + 1, acc + char_utf8_len(t[k]), target) }
}

/// Last `\n` before index `k`.
pub open spec fn last_nl(t: Seq<char>, k: int) -> Option<int>
    decreases k,
{
    if k <= 0 || k > t.len() {
        None
    } else if t[k - 1] == '\n' {
        Some(k - 1)
    } else {
        last_nl(t, k - 1)
    }
}

/// Cuts an oversize tail back: outside a fence, the head of the tail up to
/// the overflow (to its last line break, when it has one) moves into
/// `committed`.
pub open spec fn trim_spec(c: Seq<char>, t: Seq<char>) -> (Seq<char>, Seq<char>) {
    let bytes = utf8_len(t);
    if bytes <= STREAM_TAIL_MAX {
        (c, t)
    } else if open_fence_spec(c + t) is Some {
        (c, t)
    } else {
        let k = byte_cut(t, 0, 0, bytes - STREAM_TAIL_MAX);
        let cut = match last_nl(t, k) { Some(i) => i + 1, None => k };
        (c + t.subrange(0, cut), t.subrange(cut, t.len() as int))
    }
}

fn trim_window(c: Vec<char>, t: Vec<char>) -> (r: (Vec<char>, Vec<char>))
    ensures
        (r.0@, r.1@) == trim_spec(c@, t@),
{
    let bytes = utf8_count(&t);
    if bytes <= STREAM_TAIL_MAX as u128 {
        return (c, t);
    }
    let all = concat_chars(&c, &t);
    if open_fence(&all).is_some() {
        return (c, t);
    }
    let target = bytes - STREAM_TAIL_MAX as u128;
    let mut k: usize = 0;
    let mut acc: u128 = 0;
    while k < t.len() && acc < target
        invariant
            k <= t.len(),
            acc <= 4 * k,
            byte_cut(t@, 0, 0, target as int) == byte_cut(t@, k as int, acc as int, target as int),
        decreases t.len() - k,
    {
        acc = acc + char_bytes(t[k]);
        k = k + 1;
    }
    let mut j = k;
    while j > 0 && t[j - 1] != '\n'
        invariant
            j <= k <= t.len(),
            last_nl(t@, k as int) == last_nl(t@, j as int),
        decreases j,
    {
        j = j - 1;
    }
    let cut = if j > 0 { j } else { k };
    assert(cut as int == match last_nl(t@, k as int) { Some(i) => i + 1, None => k as int });
    let head = slice_chars(&t, 0, cut);
    let rest = slice_chars(&t, cut, t.len());
    (concat_chars(&c, &head), rest)
}


// ── State ───────────────────────────────────────────────────────────────────

/// Streaming buffer plus view state.
#[derive(Debug, Clone, PartialEq)]
pub struct StreamingMarkdownState {
    committed: Vec<char>,
    tail: Vec<char>,
    pending: Vec<char>,
    pending_deltas: u32,
    fence: Option<usize>,
    /// Phase.
    pub phase: StreamPhase,
    /// Revision, bumped on every content change.
    pub revision: u64,
    /// Full reparses (whole document re-split).
    pub full_reparse_count: u32,
    /// Tail-only reparses.
    pub tail_reparse_count: u32,
    /// Scroll and focus of the view.
    pub view: MarkdownViewState,
    /// Insertions (tool / status).
    pub insertions: Vec<StreamInsertion>,
    /// Citations.
    pub citations: Vec<StreamCitation>,
    /// Deltas coalesced before an apply.
    pub coalesce_deltas: u32,
    /// Pending bytes that force an apply.
    pub coalesce_chars: usize,
    /// Follow the end while streaming.
    pub follow_stream: bool,
    last_width: u16,
    accepts_input: bool,
    /// Show the streaming caret.
    pub show_caret: bool,
    /// Error message when failed.
    pub error: Option<String>,
}

/// Mathematical model of the streaming state.
pub struct StreamModel {
    /// Stable prefix.
    pub committed: Seq<char>,
    /// Reparse window.
    pub tail: Seq<char>,
    /// Coalesced, not yet applied.
    pub pending: Seq<char>,
    /// Deltas since the last apply.
    pub pending_deltas: u32,
    /// Marker length of the open fence, if any.
    pub fence: Option<int>,
    /// Phase.
    pub phase: StreamPhase,
    /// Revision.
    pub revision: u64,
    /// Full reparses.
    pub full_reparse_count: u32,
    /// Tail reparses.
    pub tail_reparse_count: u32,
    /// View state.
    pub view: MarkdownViewState,
    /// Insertions.
    pub insertions: Seq<StreamInsertion>,
    /// Citations.
    pub citations: Seq<StreamCitation>,
    /// Coalesce delta threshold.
    pub coalesce_deltas: u32,
    /// Coalesce byte threshold.
    pub coalesce_chars: usize,
    /// Follow the end.
    pub follow_stream: bool,
    /// Last laid-out width.
    pub last_width: u16,
    /// Input gate.
    pub accepts_input: bool,
    /// Caret.
    pub show_caret: bool,
    /// Error message.
    pub error: Option<Seq<char>>,
}

impl View for StreamingMarkdownState {
    type V = StreamModel;

    closed spec fn view(&self) -> StreamModel {
        StreamModel {
            committed: self.committed@,
            tail: self.tail@,
            pending: self.pending@,
            pending_deltas: self.pending_deltas,
            fence: opt_int(self.fence),
            phase: self.phase,
            revision: self.revision,
            full_reparse_count: self.full_reparse_count,
            tail_reparse_count: self.tail_reparse_count,
            view: self.view,
            insertions: self.insertions@,
            citations: self.citations@,
            coalesce_deltas: self.coalesce_deltas,
            coalesce_chars: self.coalesce_chars,
            follow_stream: self.follow_stream,
            last_width: self.last_width,
            accepts_input: self.accepts_input,
            show_caret: self.show_caret,
            error: match self.error { Some(e) => Some(e@), None => None },
        }
    }
}

/// `n + 1` saturated at `u32::MAX`.
pub open spec fn inc32(n: u32) -> u32 {
    if n == u32::MAX { n } else { (n + 1) as u32 }
}

/// `n + 1` saturated at `u64::MAX`.
pub open spec fn inc64(n: u64) -> u64 {
    if n == u64::MAX { n } else { (n + 1) as u64 }
}

impl StreamModel {
    /// The whole document.
    pub open spec fn text(self) -> Seq<char> {
        self.committed + self.tail + self.pending
    }

    /// Pending text applied: appended to the tail, stable prefixes promoted,
    /// an oversize tail cut back, the fence re-detected; a follower scrolls
    /// to the end. Nothing pending changes nothing.
    pub open spec fn apply_pending(self) -> StreamModel {
        if self.pending.len() == 0 {
            self
        } else {
            let p = promote_spec(self.committed, self.tail + self.pending);
            let t = trim_spec(p.0, p.1);
            StreamModel {
                committed: t.0,
                tail: t.1,
                pending: Seq::empty(),
                pending_deltas: 0,
                tail_reparse_count: inc32(self.tail_reparse_count),
                revision: inc64(self.revision),
                fence: open_fence_spec(t.0 + t.1),
                view: if self.follow_stream {
                    MarkdownViewState { scroll_y: u16::MAX, focused: self.view.focused }
                } else {
                    self.view
                },
                ..self
            }
        }
    }

    /// A delta received: coalesced, and applied once enough deltas or bytes
    /// are pending. An idle or finished stream starts streaming again.
    pub open spec fn push_delta(self, delta: Seq<char>) -> StreamModel {
        if delta.len() == 0 {
            self
        } else {
            let phase = if self.phase == StreamPhase::Idle || self.phase == StreamPhase::Done {
                StreamPhase::Streaming
            } else {
                self.phase
            };
            let m = StreamModel {
                phase,
                pending: self.pending + delta,
                pending_deltas: if self.pending_deltas == u32::MAX { u32::MAX } else { (self.pending_deltas + 1) as u32 },
                ..self
            };
            if m.pending_deltas >= m.coalesce_deltas || utf8_len(m.pending) >= m.coalesce_chars {
                m.apply_pending()
            } else {
                m
            }
        }
    }

    /// Stream closed: pending applied, the whole tail promoted.
    pub open spec fn finish(self) -> StreamModel {
        let a = self.apply_pending();
        StreamModel {
            committed: a.committed + a.tail,
            tail: Seq::empty(),
            fence: None,
            phase: StreamPhase::Done,
            revision: inc64(a.revision),
            tail_reparse_count: inc32(a.tail_reparse_count),
            ..a
        }
    }

    /// Document replaced by `text`: everything re-split from scratch.
    pub open spec fn reset_with(self, text: Seq<char>) -> StreamModel {
        let p = promote_spec(Seq::empty(), text);
        StreamModel {
            committed: p.0,
            tail: p.1,
            pending: Seq::empty(),
            pending_deltas: 0,
            fence: open_fence_spec(p.0 + p.1),
            error: None,
            phase: if text.len() == 0 { StreamPhase::Idle } else { StreamPhase::Streaming },
            full_reparse_count: inc32(self.full_reparse_count),
            revision: inc64(self.revision),
            ..self
        }
    }

    /// Failure: pending applied, buffers kept for the raw fallback.
    pub open spec fn fail(self, message: Seq<char>) -> StreamModel {
        let a = self.apply_pending();
        StreamModel { phase: StreamPhase::Failed, error: Some(message), revision: inc64(a.revision), ..a }
    }

    /// A new width re-splits the whole document; zero or the same width
    /// only records it.
    pub open spec fn on_width_change(self, width: u16) -> StreamModel {
        if width == 0 || width == self.last_width {
            StreamModel { last_width: width, ..self }
        } else {
            let p = promote_spec(Seq::empty(), self.text());
            StreamModel {
                last_width: width,
                committed: p.0,
                tail: p.1,
                pending: Seq::empty(),
                pending_deltas: 0,
                full_reparse_count: inc32(self.full_reparse_count),
                revision: inc64(self.revision),
                fence: open_fence_spec(p.0 + p.1),
                ..self
            }
        }
    }
}

impl StreamingMarkdownState {
    /// Empty idle stream with the default coalescing thresholds, following
    /// the end, accepting input, caret on.
    pub fn new() -> (s: Self)
        ensures
            s@ == (StreamModel {
                committed: Seq::empty(),
                tail: Seq::empty(),
                pending: Seq::empty(),
                pending_deltas: 0,
                fence: None,
                phase: StreamPhase::Idle,
                revision: 0,
                full_reparse_count: 0,
                tail_reparse_count: 0,
                view: MarkdownViewState { scroll_y: 0, focused: false },
                insertions: Seq::empty(),
                citations: Seq::empty(),
                coalesce_deltas: STREAM_COALESCE_DELTAS,
                coalesce_chars: STREAM_COALESCE_CHARS,
                follow_stream: true,
                last_width: 0,
                accepts_input: true,
                show_caret: true,
                error: None,
            }),
            s.public_fields_match(),
    {
        StreamingMarkdownState {
            committed: Vec::new(),
            tail: Vec::new(),
            pending: Vec::new(),
            pending_deltas: 0,
            fence: None,
            phase: StreamPhase::Idle,
            revision: 0,
            full_reparse_count: 0,
            tail_reparse_count: 0,
            view: MarkdownViewState::new(),
            insertions: Vec::new(),
            citations: Vec::new(),
            coalesce_deltas: STREAM_COALESCE_DELTAS,
            coalesce_chars: STREAM_COALESCE_CHARS,
            follow_stream: true,
            last_width: 0,
            accepts_input: true,
            show_caret: true,
            error: None,
        }
    }

    /// The public fields agree with the model.
    pub closed spec fn public_fields_match(&self) -> bool {
        &&& self@.phase == self.phase
        &&& self@.revision == self.revision
        &&& self@.full_reparse_count == self.full_reparse_count
        &&& self@.tail_reparse_count == self.tail_reparse_count
        &&& self@.view == self.view
        &&& self@.coalesce_deltas == self.coalesce_deltas
        &&& self@.coalesce_chars == self.coalesce_chars
        &&& self@.follow_stream == self.follow_stream
    }

    /// The whole document: committed, tail, pending.
    pub fn text(&self) -> (s: String)
        ensures
            s@ == self@.text(),
    {
        let a = concat_chars(&self.committed, &self.tail);
        let b = concat_chars(&a, &self.pending);
        string_from_chars(b.as_slice())
    }

    /// Bytes in the stable prefix.
    pub fn committed_len(&self) -> (n: usize)
        ensures
            n as int == sat_usize(utf8_len(self@.committed)),
    {
        let b = utf8_count(&self.committed);
        if b > usize::MAX as u128 { usize::MAX } else { b as usize }
    }

    /// Bytes in the reparse window (pending excluded).
    pub fn tail_len(&self) -> (n: usize)
        ensures
            n as int == sat_usize(utf8_len(self@.tail)),
    {
        let b = utf8_count(&self.tail);
        if b > usize::MAX as u128 { usize::MAX } else { b as usize }
    }

    /// Bytes coalesced and not yet applied.
    pub fn pending_len(&self) -> (n: usize)
        ensures
            n as int == sat_usize(utf8_len(self@.pending)),
    {
        let b = utf8_count(&self.pending);
        if b > usize::MAX as u128 { usize::MAX } else { b as usize }
    }

    /// Whether a code fence is open at the end of the document.
    pub fn fence_open(&self) -> (b: bool)
        ensures
            b == (self@.fence is Some),
    {
        self.fence.is_some()
    }

    /// Whether the view takes input.
    pub fn accepts_input(&self) -> (b: bool)
        ensures
            b == self@.accepts_input,
    {
        self.accepts_input
    }

    /// Gates input; the view's focus follows.
    pub fn set_accepts_input(&mut self, on: bool)
        ensures
            final(self)@ == (StreamModel {
                accepts_input: on,
                view: MarkdownViewState { focused: on, scroll_y: old(self)@.view.scroll_y },
                ..old(self)@
            }),
            old(self).public_fields_match() ==> final(self).public_fields_match(),
    {
        self.accepts_input = on;
        self.view.focused = on;
    }

    /// Applies the coalesced pending text.
    pub fn apply_pending(&mut self)
        ensures
            final(self)@ == old(self)@.apply_pending(),
            old(self).public_fields_match() ==> final(self).public_fields_match(),
    {
        if self.pending.len() == 0 {
            return;
        }
        let work = concat_chars(&self.tail, &self.pending);
        let committed = self.committed.clone();
        let (c1, t1) = promote(committed, work);
        let (c2, t2) = trim_window(c1, t1);
        let all = concat_chars(&c2, &t2);
        self.fence = open_fence(&all);
        self.committed = c2;
        self.tail = t2;
        self.pending = Vec::new();
        self.pending_deltas = 0;
        self.tail_reparse_count = self.tail_reparse_count.saturating_add(1);
        self.revision = self.revision.saturating_add(1);
        if self.follow_stream {
            self.view.scroll_y = u16::MAX;
        }
    }

    /// Receives a delta.
    pub fn push_delta(&mut self, delta: &str)
        ensures
            final(self)@ == old(self)@.push_delta(delta@),
            old(self).public_fields_match() ==> final(self).public_fields_match(),
    {
        let d = chars_of(delta);
        if d.len() == 0 {
            return;
        }
        match self.phase {
            StreamPhase::Idle | StreamPhase::Done => {
                self.phase = StreamPhase::Streaming;
            },
            _ => {},
        }
        self.pending = concat_chars(&self.pending, &d);
        self.pending_deltas = self.pending_deltas.saturating_add(1);
        let bytes = utf8_count(&self.pending);
        if self.pending_deltas >= self.coalesce_deltas || bytes >= self.coalesce_chars as u128 {
            self.apply_pending();
        }
    }

    /// Flushes pending text and closes the stream.
    pub fn finish(&mut self)
        ensures
            final(self)@ == old(self)@.finish(),
            old(self).public_fields_match() ==> final(self).public_fields_match(),
    {
        self.apply_pending();
        self.committed = concat_chars(&self.committed, &self.tail);
        self.tail = Vec::new();
        self.fence = None;
        self.phase = StreamPhase::Done;
        self.revision = self.revision.saturating_add(1);
        self.tail_reparse_count = self.tail_reparse_count.saturating_add(1);
    }

    /// Replaces the whole document (the committed prefix may shrink).
    pub fn reset_with(&mut self, text: &str)
        ensures
            final(self)@ == old(self)@.reset_with(text@),
            old(self).public_fields_match() ==> final(self).public_fields_match(),
    {
        let t = chars_of(text);
        let empty = t.len() == 0;
        let (c, rest) = promote(Vec::new(), t);
        let all = concat_chars(&c, &rest);
        self.fence = open_fence(&all);
        self.committed = c;
        self.tail = rest;
        self.pending = Vec::new();
        self.pending_deltas = 0;
        self.error = None;
        self.phase = if empty { StreamPhase::Idle } else { StreamPhase::Streaming };
        self.full_reparse_count = self.full_reparse_count.saturating_add(1);
        self.revision = self.revision.saturating_add(1);
    }

    /// Marks the stream failed; buffers stay for a raw paint.
    pub fn fail(&mut self, message: &str)
        ensures
            final(self)@ == old(self)@.fail(message@),
            old(self).public_fields_match() ==> final(self).public_fields_match(),
    {
        self.apply_pending();
        self.phase = StreamPhase::Failed;
        self.error = Some(String::from_str(message));
        self.revision = self.revision.saturating_add(1);
    }

    /// A new layout width: the whole document is re-split.
    pub fn on_width_change(&mut self, width: u16)
        ensures
            final(self)@ == old(self)@.on_width_change(width),
            old(self).public_fields_match() ==> final(self).public_fields_match(),
    {
        if width == 0 || width == self.last_width {
            self.last_width = width;
            return;
        }
        self.last_width = width;
        let a = concat_chars(&self.committed, &self.tail);
        let full = concat_chars(&a, &self.pending);
        let (c, rest) = promote(Vec::new(), full);
        let all = concat_chars(&c, &rest);
        self.fence = open_fence(&all);
        self.committed = c;
        self.tail = rest;
        self.pending = Vec::new();
        self.pending_deltas = 0;
        self.full_reparse_count = self.full_reparse_count.saturating_add(1);
        self.revision = self.revision.saturating_add(1);
    }

    /// Adds a citation.
    pub fn add_citation(&mut self, c: StreamCitation)
        ensures
            final(self)@ == (StreamModel { citations: old(self)@.citations.push(c), revision: inc64(old(self)@.revision), ..old(self)@ }),
            old(self).public_fields_match() ==> final(self).public_fields_match(),
    {
        self.citations.push(c);
        self.revision = self.revision.saturating_add(1);
    }

    /// Adds an insertion.
    pub fn add_insertion(&mut self, ins: StreamInsertion)
        ensures
            final(self)@ == (StreamModel { insertions: old(self)@.insertions.push(ins), revision: inc64(old(self)@.revision), ..old(self)@ }),
            old(self).public_fields_match() ==> final(self).public_fields_match(),
    {
        self.insertions.push(ins);
        self.revision = self.revision.saturating_add(1);
    }
}


// ── Laws ────────────────────────────────────────────────────────────────────

proof fn lemma_promote_keeps_text(c: Seq<char>, t: Seq<char>)
    ensures
        promote_spec(c, t).0 + promote_spec(c, t).1 == c + t,
        promote_spec(c, t).0.len() >= c.len(),
        promote_spec(c, t).0.subrange(0, c.len() as int) == c,
    decreases t.len(),
{
    if t.len() > 0 {
        match crate::markdown_fence::stable_boundary(c, t) {
            Some(k) => if 0 < k <= t.len() {
                let c2 = c + t.subrange(0, k);
                let t2 = t.subrange(k, t.len() as int);
                lemma_promote_keeps_text(c2, t2);
                assert(c2 + t2 =~= c + t);
                let r = promote_spec(c2, t2).0;
                assert(r.subrange(0, c.len() as int) =~= c2.subrange(0, c.len() as int));
                assert(c2.subrange(0, c.len() as int) =~= c);
            } else {
                assert(c.subrange(0, c.len() as int) =~= c);
            },
            None => {
                assert(c.subrange(0, c.len() as int) =~= c);
            },
        }
    } else {
        assert(c.subrange(0, c.len() as int) =~= c);
    }
}

proof fn lemma_trim_keeps_text(c: Seq<char>, t: Seq<char>)
    ensures
        trim_spec(c, t).0 + trim_spec(c, t).1 == c + t,
        trim_spec(c, t).0.len() >= c.len(),
        trim_spec(c, t).0.subrange(0, c.len() as int) == c,
{
    assert(c.subrange(0, c.len() as int) =~= c);
    let bytes = utf8_len(t);
    if bytes > STREAM_TAIL_MAX && !(open_fence_spec(c + t) is Some) {
        let k = byte_cut(t, 0, 0, bytes - STREAM_TAIL_MAX);
        lemma_byte_cut_bound(t, 0, 0, bytes - STREAM_TAIL_MAX);
        let cut = match last_nl(t, k) { Some(i) => i + 1, None => k };
        lemma_last_nl_bound(t, k);
        assert(c + t.subrange(0, cut) + t.subrange(cut, t.len() as int) =~= c + t);
        assert((c + t.subrange(0, cut)).subrange(0, c.len() as int) =~= c);
    }
}

proof fn lemma_byte_cut_bound(t: Seq<char>, k: int, acc: int, target: int)
    requires
        0 <= k <= t.len(),
    ensures
        k <= byte_cut(t, k, acc, target) <= t.len(),
    decreases t.len() - k,
{
    if k < t.len() && acc < target {
        lemma_byte_cut_bound(t, k + 1, acc + char_utf8_len(t[k]), target);
    }
}

proof fn lemma_last_nl_bound(t: Seq<char>, k: int)
    requires
        0 <= k <= t.len(),
    ensures
        match last_nl(t, k) { Some(i) => 0 <= i < k, None => true },
    decreases k,
{
    if k > 0 && t[k - 1] != '\n' {
        lemma_last_nl_bound(t, k - 1);
    }
}

/// Applying pending text never loses or reorders text, and the committed
/// prefix only grows.
pub proof fn law_apply_keeps_text(m: StreamModel)
    ensures
        m.apply_pending().text() == m.text(),
        m.apply_pending().committed.len() >= m.committed.len(),
        m.apply_pending().committed.subrange(0, m.committed.len() as int) == m.committed,
{
    if m.pending.len() > 0 {
        let p = promote_spec(m.committed, m.tail + m.pending);
        lemma_promote_keeps_text(m.committed, m.tail + m.pending);
        lemma_trim_keeps_text(p.0, p.1);
        let t = trim_spec(p.0, p.1);
        assert(t.0.subrange(0, m.committed.len() as int) =~= p.0.subrange(0, m.committed.len() as int));
        assert(m.apply_pending().text() =~= t.0 + t.1);
        assert(m.text() =~= m.committed + (m.tail + m.pending));
    } else {
        assert(m.committed.subrange(0, m.committed.len() as int) =~= m.committed);
    }
}

proof fn lemma_utf8_suffix(a: Seq<char>, b: Seq<char>, j: int)
    requires
        0 <= j <= b.len(),
    ensures
        utf8_from(a + b, a.len() + j) == utf8_from(b, j),
    decreases b.len() - j,
{
    if j < b.len() {
        lemma_utf8_suffix(a, b, j + 1);
        assert((a + b)[a.len() + j] == b[j]);
    }
}

proof fn lemma_utf8_concat(a: Seq<char>, b: Seq<char>, i: int)
    requires
        0 <= i <= a.len(),
    ensures
        utf8_from(a + b, i) == utf8_from(a, i) + utf8_len(b),
    decreases a.len() - i,
{
    if i < a.len() {
        lemma_utf8_concat(a, b, i + 1);
        assert((a + b)[i] == a[i]);
    } else {
        lemma_utf8_suffix(a, b, 0);
    }
}

/// After pending text is applied nothing is pending, and the committed and
/// tail bytes add up to the document's bytes.
pub proof fn law_apply_byte_counts(m: StreamModel)
    ensures
        m.apply_pending().pending.len() == 0,
        utf8_len(m.apply_pending().committed) + utf8_len(m.apply_pending().tail)
            == utf8_len(m.apply_pending().text()),
{
    let a = m.apply_pending();
    assert(a.text() =~= a.committed + a.tail);
    lemma_utf8_concat(a.committed, a.tail, 0);
}

/// A delta lands at the end of the document, and the committed prefix only
/// grows.
pub proof fn law_push_delta_appends(m: StreamModel, delta: Seq<char>)
    ensures
        m.push_delta(delta).text() == m.text() + delta,
        m.push_delta(delta).committed.len() >= m.committed.len(),
        m.push_delta(delta).committed.subrange(0, m.committed.len() as int) == m.committed,
{
    if delta.len() == 0 {
        assert(m.text() + delta =~= m.text());
        assert(m.committed.subrange(0, m.committed.len() as int) =~= m.committed);
    } else {
        let phase = if m.phase == StreamPhase::Idle || m.phase == StreamPhase::Done {
            StreamPhase::Streaming
        } else {
            m.phase
        };
        let q = StreamModel {
            phase,
            pending: m.pending + delta,
            pending_deltas: if m.pending_deltas == u32::MAX { u32::MAX } else { (m.pending_deltas + 1) as u32 },
            ..m
        };
        law_apply_keeps_text(q);
        assert(q.text() =~= m.text() + delta);
    }
}

/// Finishing keeps the document, empties the tail and the pending text, and
/// leaves the stream done with no open fence.
pub proof fn law_finish_flushes(m: StreamModel)
    ensures
        m.finish().text() == m.text(),
        m.finish().tail.len() == 0,
        m.finish().pending.len() == 0,
        m.finish().phase == StreamPhase::Done,
        m.finish().fence is None,
        m.finish().committed.subrange(0, m.committed.len() as int) == m.committed,
{
    law_apply_keeps_text(m);
    let a = m.apply_pending();
    assert(a.pending.len() == 0);
    assert(m.finish().text() =~= a.text());
    assert((a.committed + a.tail).subrange(0, m.committed.len() as int) =~= a.committed.subrange(0, m.committed.len() as int));
}

/// After a reset the document is exactly the new text.
pub proof fn law_reset_sets_text(m: StreamModel, text: Seq<char>)
    ensures
        m.reset_with(text).text() == text,
{
    lemma_promote_keeps_text(Seq::empty(), text);
    assert(Seq::<char>::empty() + text =~= text);
    let p = promote_spec(Seq::empty(), text);
    assert(m.reset_with(text).text() =~= p.0 + p.1);
}

/// A width change re-splits the document without changing it.
pub proof fn law_width_change_keeps_text(m: StreamModel, width: u16)
    ensures
        m.on_width_change(width).text() == m.text(),
{
    if !(width == 0 || width == m.last_width) {
        lemma_promote_keeps_text(Seq::empty(), m.text());
        assert(Seq::<char>::empty() + m.text() =~= m.text());
        let p = promote_spec(Seq::empty(), m.text());
        assert(m.on_width_change(width).text() =~= p.0 + p.1);
    }
}


// ── Plain-line projection ───────────────────────────────────────────────────

/// The chars of each string.
pub open spec fn views(v: Seq<String>) -> Seq<Seq<char>> {
    Seq::new(v.len(), |j: int| v[j]@)
}

proof fn lemma_views_push(v: Seq<String>, x: String)
    ensures
        views(v.push(x)) == views(v).push(x@),
{
    assert(views(v.push(x)) =~= views(v).push(x@));
}

/// Lines of `s` from `i` (current line from `ls`): split at `\n`; the piece
/// after the last `\n` only when it is not empty.
pub open spec fn text_lines(s: Seq<char>, i: int, ls: int, acc: Seq<Seq<char>>) -> Seq<Seq<char>>
    decreases s.len() - i,
{
    if i >= s.len() {
        if 0 <= ls < s.len() { acc.push(s.subrange(ls, s.len() as int)) } else { acc }
    } else if s[i] == '\n' {
        text_lines(s, i + 1, i + 1, acc.push(s.subrange(ls, i)))
    } else {
        text_lines(s, i + 1, ls, acc)
    }
}

/// `parts` joined with `sep`.
pub open spec fn join(parts: Seq<Seq<char>>, sep: Seq<char>) -> Seq<char>
    decreases parts.len(),
{
    if parts.len() == 0 {
        Seq::empty()
    } else if parts.len() == 1 {
        parts[0]
    } else {
        join(parts.drop_last(), sep) + sep + parts.last()
    }
}

/// `[kind] line line ...` for an insertion.
pub open spec fn insertion_line(ins: StreamInsertion) -> Seq<char> {
    "["@ + ins.kind@ + "] "@ + join(views(ins.lines@), " "@)
}

/// The streaming cue painted after an incomplete trailing block.
pub open spec fn stream_cue() -> Seq<char> {
    "▎"@
}

/// Plain lines: the document's lines; `…` after a fence left open, else a
/// cue while streaming with an unsettled tail; one line per insertion; a
/// `Sources:` line listing the citation labels; a lone cue for an empty
/// streaming document.
pub open spec fn plain_lines_spec(m: StreamModel) -> Seq<Seq<char>> {
    let base = text_lines(m.text(), 0, 0, Seq::empty());
    let l1 = if open_fence_spec(m.text()) is Some {
        base.push("…"@)
    } else if m.phase == StreamPhase::Streaming && (m.tail + m.pending).len() > 0 {
        base.push(stream_cue())
    } else {
        base
    };
    let l2 = l1 + Seq::new(m.insertions.len(), |j: int| insertion_line(m.insertions[j]));
    let l3 = if m.citations.len() > 0 {
        l2.push("Sources: "@ + join(Seq::new(m.citations.len(), |j: int| m.citations[j].label@), " · "@))
    } else {
        l2
    };
    if l3.len() == 0 && m.phase == StreamPhase::Streaming { l3.push(stream_cue()) } else { l3 }
}

fn join_exec(parts: &Vec<String>, sep: &str) -> (r: String)
    ensures
        r@ == join(views(parts@), sep@),
{
    let mut acc: Vec<char> = Vec::new();
    let sepv = chars_of(sep);
    let mut i: usize = 0;
    while i < parts.len()
        invariant
            i <= parts@.len(),
            sepv@ == sep@,
            acc@ == join(views(parts@).subrange(0, i as int), sep@),
        decreases parts@.len() - i,
    {
        let part = chars_of(parts[i].as_str());
        let ghost sub = views(parts@).subrange(0, i as int + 1);
        assert(sub.drop_last() =~= views(parts@).subrange(0, i as int));
        if i == 0 {
            acc = part;
            assert(acc@ == join(sub, sep@));
        } else {
            let with_sep = concat_chars(&acc, &sepv);
            acc = concat_chars(&with_sep, &part);
        }
        i = i + 1;
    }
    assert(views(parts@).subrange(0, parts@.len() as int) =~= views(parts@));
    string_from_chars(acc.as_slice())
}

fn text_lines_exec(s: &Vec<char>, out: &mut Vec<String>)
    ensures
        views(final(out)@) == text_lines(s@, 0, 0, views(old(out)@)),
{
    let n = s.len();
    let mut ls: usize = 0;
    let mut i: usize = 0;
    while i < n
        invariant
            n == s.len(),
            ls <= i <= n,
            text_lines(s@, 0, 0, views(old(out)@)) == text_lines(s@, i as int, ls as int, views(out@)),
        decreases n - i,
    {
        if s[i] == '\n' {
            let piece = slice_chars(s, ls, i);
            let line = string_from_chars(piece.as_slice());
            proof {
                lemma_views_push(out@, line);
            }
            out.push(line);
            ls = i + 1;
        }
        i = i + 1;
    }
    if ls < n {
        let piece = slice_chars(s, ls, n);
        let line = string_from_chars(piece.as_slice());
        proof {
            lemma_views_push(out@, line);
        }
        out.push(line);
    }
}

/// Kind of a projected markdown block, as far as the stream's rules read it.
#[derive(Debug, Clone, Copy, PartialEq, Eq, Structural)]
pub enum StreamBlockKind {
    /// A paragraph.
    Paragraph,
    /// A fenced code block.
    Fence,
    /// A table.
    Table,
    /// Any other block (heading, list item, quote, rule, blank).
    Other,
}

/// Whether tail block `i` of `n` (of kind `kind`, itself incomplete or not)
/// paints as incomplete: it is, or it is the last one while the stream runs
/// or has failed and it is a fence, table or paragraph.
pub open spec fn tail_block_incomplete(phase: StreamPhase, kind: StreamBlockKind, incomplete: bool, i: int, n: int) -> bool {
    incomplete || (i + 1 == n && (phase == StreamPhase::Streaming || phase == StreamPhase::Failed)
        && (kind == StreamBlockKind::Fence || kind == StreamBlockKind::Table || kind == StreamBlockKind::Paragraph))
}

impl StreamingMarkdownState {
    /// Incomplete flags of the blocks projected from the tail, in order (see
    /// [`tail_block_incomplete`]).
    pub fn tail_block_flags(&self, blocks: &[(StreamBlockKind, bool)]) -> (v: Vec<bool>)
        ensures
            v@ == Seq::new(blocks@.len(), |i: int| tail_block_incomplete(self@.phase, blocks@[i].0, blocks@[i].1, i,
                blocks@.len() as int)),
    {
        let mut v: Vec<bool> = Vec::new();
        let n = blocks.len();
        let running = match self.phase {
            StreamPhase::Streaming | StreamPhase::Failed => true,
            _ => false,
        };
        let mut i: usize = 0;
        while i < n
            invariant
                n == blocks@.len(),
                i <= n,
                running == (self@.phase == StreamPhase::Streaming || self@.phase == StreamPhase::Failed),
                v@ == Seq::new(i as nat, |j: int| tail_block_incomplete(self@.phase, blocks@[j].0, blocks@[j].1, j, n as int)),
            decreases n - i,
        {
            let (kind, incomplete) = blocks[i];
            let shaped = match kind {
                StreamBlockKind::Fence | StreamBlockKind::Table | StreamBlockKind::Paragraph => true,
                StreamBlockKind::Other => false,
            };
            v.push(incomplete || (i + 1 == n && running && shaped));
            assert(v@ =~= Seq::new((i + 1) as nat, |j: int| tail_block_incomplete(self@.phase, blocks@[j].0, blocks@[j].1, j, n as int)));
            i = i + 1;
        }
        v
    }

    /// Whether a failed stream that projected no blocks paints its raw text
    /// as one incomplete paragraph.
    pub fn paints_raw_fallback(&self, projected_blocks: usize) -> (b: bool)
        ensures
            b == (self@.phase == StreamPhase::Failed && projected_blocks == 0),
    {
        match self.phase {
            StreamPhase::Failed => projected_blocks == 0,
            _ => false,
        }
    }
}

impl StreamingMarkdownState {
    /// Plain-line projection of the stream (see [`plain_lines_spec`]).
    pub fn plain_lines(&self) -> (r: Vec<String>)
        ensures
            views(r@) == plain_lines_spec(self@),
    {
        let mut out: Vec<String> = Vec::new();
        let a = concat_chars(&self.committed, &self.tail);
        let all = concat_chars(&a, &self.pending);
        assert(views(out@) =~= Seq::<Seq<char>>::empty());
        text_lines_exec(&all, &mut out);
        let streaming = match self.phase { StreamPhase::Streaming => true, _ => false };
        if open_fence(&all).is_some() {
            let mark = String::from_str("…");
            proof {
                reveal_strlit("…");
                lemma_views_push(out@, mark);
            }
            out.push(mark);
        } else if streaming && (self.tail.len() > 0 || self.pending.len() > 0) {
            let cue = String::from_str("▎");
            proof {
                reveal_strlit("▎");
                lemma_views_push(out@, cue);
            }
            out.push(cue);
        }
        let ghost l1 = views(out@);
        let mut k: usize = 0;
        while k < self.insertions.len()
            invariant
                k <= self@.insertions.len(),
                self@.insertions == self.insertions@,
                views(out@) == l1 + Seq::new(k as nat, |j: int| insertion_line(self@.insertions[j])),
            decreases self@.insertions.len() - k,
        {
            let ins = &self.insertions[k];
            let body = join_exec(&ins.lines, " ");
            let head = crate::text::concat_str("[", ins.kind.as_str());
            let head2 = crate::text::concat_str(head.as_str(), "] ");
            let line = crate::text::concat_str(head2.as_str(), body.as_str());
            proof {
                reveal_strlit("[");
                reveal_strlit("] ");
                reveal_strlit(" ");
                lemma_views_push(out@, line);
            }
            out.push(line);
            assert(views(out@) =~= l1 + Seq::new(k as nat + 1, |j: int| insertion_line(self@.insertions[j])));
            k = k + 1;
        }
        if self.citations.len() > 0 {
            let mut labels: Vec<String> = Vec::new();
            let mut c: usize = 0;
            while c < self.citations.len()
                invariant
                    c <= self@.citations.len(),
                    self@.citations == self.citations@,
                    views(labels@) == Seq::new(c as nat, |j: int| self@.citations[j].label@),
                decreases self@.citations.len() - c,
            {
                let label = self.citations[c].label.clone();
                proof {
                    lemma_views_push(labels@, label);
                }
                labels.push(label);
                assert(views(labels@) =~= Seq::new(c as nat + 1, |j: int| self@.citations[j].label@));
                c = c + 1;
            }
            let joined = join_exec(&labels, " · ");
            let line = crate::text::concat_str("Sources: ", joined.as_str());
            proof {
                reveal_strlit("Sources: ");
                lemma_views_push(out@, line);
            }
            out.push(line);
        }
        if out.len() == 0 && streaming {
            let cue = String::from_str("▎");
            proof {
                reveal_strlit("▎");
                lemma_views_push(out@, cue);
            }
            out.push(cue);
        }
        out
    }
}

/// Bytes of `committed` once every stable prefix of `tail` is promoted.
pub fn streaming_stable_prefix_len(committed: &str, tail: &str) -> (n: usize)
    ensures
        n as int == sat_usize(utf8_len(promote_spec(committed@, tail@).0)),
{
    let (c, _t) = promote(chars_of(committed), chars_of(tail));
    let b = utf8_count(&c);
    if b > usize::MAX as u128 { usize::MAX } else { b as usize }
}

/// Whether `text` ends inside an open code fence.
pub fn has_open_fence(text: &str) -> (b: bool)
    ensures
        b == (open_fence_spec(text@) is Some),
{
    open_fence(&chars_of(text)).is_some()
}

/// Outcome of a streaming-document event.
#[derive(Debug, Clone, Copy, PartialEq, Eq)]
pub enum StreamingMarkdownOutcome {
    /// Not handled.
    Ignored,
    /// Content changed.
    Changed {
        /// New revision.
        revision: u64,
    },
}

/// Paint host for a streaming document.
#[derive(Debug, Clone, Copy)]
pub struct StreamingMarkdown<'a> {
    /// Design system.
    pub system: &'a DesignSystem,
    /// Paint without hue.
    pub colorless: bool,
}

impl<'a> StreamingMarkdown<'a> {
    /// A host in color.
    pub fn new(system: &'a DesignSystem) -> (w: Self)
        ensures
            w.system == system,
            !w.colorless,
    {
        StreamingMarkdown { system, colorless: false }
    }

    /// Paint without hue.
    pub fn colorless(self, on: bool) -> (w: Self)
        ensures
            w.system == self.system,
            w.colorless == on,
    {
        StreamingMarkdown { system: self.system, colorless: on }
    }
}

/// A stream cut mid-fence.
pub fn mid_fence_chunks() -> (v: Vec<&'static str>)
    ensures
        v@.len() == 5,
        v@[0]@ == "# Title\n\n"@,
        v@[1]@ == "Intro para\n\n"@,
        v@[2]@ == "```rust\n"@,
        v@[3]@ == "fn main() {\n"@,
        v@[4]@ == "  println!(\"hi\");\n"@,
{
    vec!["# Title\n\n", "Intro para\n\n", "```rust\n", "fn main() {\n", "  println!(\"hi\");\n"]
}

/// The chunk that closes [`mid_fence_chunks`].
pub fn mid_fence_close() -> (s: &'static str)
    ensures
        s@ == "}\n```\n\nDone.\n"@,
{
    "}\n```\n\nDone.\n"
}

/// An unclosed table.
pub fn partial_table_chunks() -> (v: Vec<&'static str>)
    ensures
        v@.len() == 3,
        v@[0]@ == "| a | b |\n"@,
        v@[1]@ == "| --- | --- |\n"@,
        v@[2]@ == "| 1 | "@,
{
    vec!["| a | b |\n", "| --- | --- |\n", "| 1 | "]
}

/// A partial nested list.
pub fn partial_list_chunks() -> (v: Vec<&'static str>)
    ensures
        v@.len() == 3,
        v@[0]@ == "- one\n"@,
        v@[1]@ == "- two\n"@,
        v@[2]@ == "  - nested "@,
{
    vec!["- one\n", "- two\n", "  - nested "]
}

/// A link split across deltas.
pub fn partial_inline_chunks() -> (v: Vec<&'static str>)
    ensures
        v@.len() == 3,
        v@[0]@ == "See [docs](http"@,
        v@[1]@ == "s://example.com"@,
        v@[2]@ == ")\n\n"@,
{
    vec!["See [docs](http", "s://example.com", ")\n\n"]
}

/// Rapid fence open / close.
pub fn fence_thrash() -> (v: Vec<&'static str>)
    ensures
        v@.len() == 5,
        v@[0]@ == "```\n"@,
        v@[1]@ == "x\n"@,
        v@[2]@ == "```\n"@,
        v@[3]@ == "```\n"@,
        v@[4]@ == "y"@,
{
    vec!["```\n", "x\n", "```\n", "```\n", "y"]
}

} // verus!
