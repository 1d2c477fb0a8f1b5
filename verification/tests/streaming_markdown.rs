use termrock::streaming_markdown::{
    fence_thrash, has_open_fence, mid_fence_chunks, mid_fence_close, partial_inline_chunks, partial_list_chunks,
    partial_table_chunks, streaming_stable_prefix_len, StreamBlockKind, StreamCitation, StreamInsertion, StreamPhase,
    StreamingMarkdownState,
};

#[test]
fn committed_grows_monotone_on_deltas() {
    let mut st = StreamingMarkdownState::new();
    st.coalesce_deltas = 1;
    st.coalesce_chars = 1;
    let mut last = 0usize;
    for ch in ["# H\n\n", "para\n\n", "```\n", "code\n", "```\n\n"] {
        st.push_delta(ch);
        st.apply_pending();
        assert!(st.committed_len() >= last, "committed shrank {} → {}", last, st.committed_len());
        last = st.committed_len();
    }
    assert!(st.committed_len() > 0);
}

#[test]
fn mid_fence_stays_in_tail_until_close() {
    let mut st = StreamingMarkdownState::new();
    st.coalesce_deltas = 1;
    for c in mid_fence_chunks() {
        st.push_delta(c);
        st.apply_pending();
    }
    assert!(has_open_fence(&st.text()) || st.tail_len() != 0);
    let lines = st.plain_lines();
    assert!(
        lines.iter().any(|l| l.contains("println") || l.contains("```") || l.contains("…") || l.contains("▎")),
        "{lines:?}"
    );
    st.push_delta(mid_fence_close());
    st.apply_pending();
    st.finish();
    assert_eq!(st.phase, StreamPhase::Done);
    assert_eq!(st.tail_len(), 0);
    assert!(!has_open_fence(&st.text()));
}

#[test]
fn no_full_reparse_on_hot_deltas() {
    let mut st = StreamingMarkdownState::new();
    st.coalesce_deltas = 1;
    st.coalesce_chars = 1;
    let before = st.full_reparse_count;
    for _ in 0..50 {
        st.push_delta("word ");
        st.apply_pending();
    }
    assert_eq!(st.full_reparse_count, before, "hot path must not full-reparse");
    assert!(st.tail_reparse_count >= 50 || st.revision >= 50);
}

#[test]
fn width_change_allows_full_reparse() {
    let mut st = StreamingMarkdownState::new();
    st.push_delta("# Hi\n\nbody\n");
    st.apply_pending();
    let before = st.full_reparse_count;
    st.on_width_change(40);
    st.on_width_change(20);
    assert!(st.full_reparse_count > before);
}

#[test]
fn finish_flushes_tail() {
    let mut st = StreamingMarkdownState::new();
    st.push_delta("only tail");
    st.apply_pending();
    st.finish();
    assert_eq!(st.tail_len(), 0);
    assert!(st.text().contains("only tail"));
    assert_eq!(st.phase, StreamPhase::Done);
}

#[test]
fn citations_and_insertions() {
    let mut st = StreamingMarkdownState::new();
    st.push_delta("See claim.\n\n");
    st.apply_pending();
    st.add_citation(StreamCitation::new("c1", "[1]").href("https://example.com"));
    st.add_insertion(StreamInsertion::new("t1", "tool", &["ran tests"]));
    let lines = st.plain_lines();
    assert!(lines.iter().any(|l| l.contains("Sources")));
    assert!(lines.iter().any(|l| l.contains("tool")));
}

#[test]
fn coalesce_batches_deltas() {
    let mut st = StreamingMarkdownState::new();
    st.coalesce_deltas = 4;
    st.coalesce_chars = 10_000;
    st.push_delta("a");
    st.push_delta("b");
    assert_eq!(st.tail_len(), 0);
    st.push_delta("c");
    st.push_delta("d");
    assert!(st.pending_len() != 0 || st.tail_len() != 0 || st.committed_len() > 0);
    st.apply_pending();
    assert!(st.text().contains('a'));
}

#[test]
fn scroll_state_preserved_when_not_following() {
    let mut st = StreamingMarkdownState::new();
    st.follow_stream = false;
    st.view.scroll_y = 3;
    st.push_delta("# x\n\n");
    for _ in 0..20 {
        st.push_delta("line\n\n");
        st.apply_pending();
    }
    assert_eq!(st.view.scroll_y, 3);
}

#[test]
fn reset_allows_shrink() {
    let mut st = StreamingMarkdownState::new();
    st.push_delta("long text here\n\n");
    st.apply_pending();
    let n = st.committed_len() + st.tail_len();
    st.reset_with("x");
    assert!(st.text().len() < n || st.text() == "x");
}

#[test]
fn stable_prefix_stops_at_open_fence() {
    assert_eq!(streaming_stable_prefix_len("", "para\n\nmore"), 6);
    assert_eq!(streaming_stable_prefix_len("", "intro\n```rust\ncode\n"), 6);
    assert_eq!(streaming_stable_prefix_len("", "```rust\nx\n```\ntail"), 14);
    assert_eq!(streaming_stable_prefix_len("", "```\nx\n```\ntail"), 10);
    assert_eq!(streaming_stable_prefix_len("", "no boundary"), 0);
    assert_eq!(streaming_stable_prefix_len("ab", ""), 2);
    assert!(has_open_fence("```rust\nfn x"));
    assert!(!has_open_fence("```rust\nfn x\n```\n"));
    assert!(has_open_fence("``` \n"));
    assert!(has_open_fence("~~~~py\nx\n~~~\n"));
    assert!(!has_open_fence("~~~~py\nx\n~~~~\n"));
}

#[test]
fn failure_and_phase_transitions() {
    let mut st = StreamingMarkdownState::new();
    assert_eq!(st.phase, StreamPhase::Idle);
    st.push_delta("");
    assert_eq!(st.phase, StreamPhase::Idle);
    for c in partial_table_chunks() {
        st.push_delta(c);
    }
    assert_eq!(st.phase, StreamPhase::Streaming);
    st.fail("parse?");
    assert_eq!(st.phase, StreamPhase::Failed);
    assert_eq!(st.error.as_deref(), Some("parse?"));
    assert_eq!(st.text(), "| a | b |\n| --- | --- |\n| 1 | ");
    st.reset_with("");
    assert_eq!(st.phase, StreamPhase::Idle);
    assert_eq!(st.text(), "");
}

#[test]
fn plain_lines_projects_text_insertions_and_sources() {
    let mut st = StreamingMarkdownState::new();
    st.push_delta("a\nb\n\nc");
    st.apply_pending();
    st.add_insertion(StreamInsertion::new("i", "tool", &["x", "y"]));
    st.add_citation(StreamCitation::new("1", "[1]"));
    st.add_citation(StreamCitation::new("2", "[2]"));
    assert_eq!(st.plain_lines(), vec!["a", "b", "", "c", "▎", "[tool] x y", "Sources: [1] · [2]"]);
    let mut empty = StreamingMarkdownState::new();
    empty.push_delta("z");
    empty.reset_with("");
    assert!(empty.plain_lines().is_empty());
}

#[test]
fn fixtures_survive_streaming() {
    for fixture in [mid_fence_chunks(), partial_table_chunks(), partial_list_chunks(), partial_inline_chunks(), fence_thrash()] {
        let mut st = StreamingMarkdownState::new();
        st.coalesce_deltas = 1;
        let mut whole = String::new();
        for c in fixture {
            whole.push_str(c);
            st.push_delta(c);
            st.apply_pending();
            assert_eq!(st.text(), whole);
        }
        st.finish();
        assert_eq!(st.text(), whole);
        assert_eq!(st.tail_len(), 0);
    }
}

#[test]
fn bare_and_info_fences_open() {
    assert!(has_open_fence("```\ncode\n"));
    assert!(has_open_fence("```rust\nfn x\n"));
    assert!(!has_open_fence("```rust\nfn x\n```\n"));
    assert!(!has_open_fence("plain text\n"));
    assert!(has_open_fence("~~~\nx\n"));
}

#[test]
fn blank_line_inside_fence_is_no_boundary() {
    let mut st = StreamingMarkdownState::new();
    let text = "```rust\na\n\nb\n```\n";
    st.reset_with(text);
    assert_eq!(st.text(), text);
    assert_eq!(st.phase, StreamPhase::Streaming);
    assert_eq!(st.committed_len(), 17);
    assert_eq!(st.tail_len(), 0);
}

#[test]
fn blank_line_in_open_fence_keeps_tail() {
    let mut st = StreamingMarkdownState::new();
    st.reset_with("intro\n\n```\na\n\nb\n");
    assert_eq!(st.committed_len(), 7);
    assert_eq!(st.tail_len(), 9);
}

#[test]
fn open_fence_projects_ellipsis() {
    let mut st = StreamingMarkdownState::new();
    st.push_delta("```rust\nfn x");
    st.apply_pending();
    let lines = st.plain_lines();
    assert_eq!(lines.first().map(String::as_str), Some("```rust"));
    assert!(lines.iter().any(|l| l == "fn x"));
    assert_eq!(lines.last().map(String::as_str), Some("…"));
    st.push_delta("\n```\n");
    st.apply_pending();
    assert_ne!(st.plain_lines().last().map(String::as_str), Some("…"));
}

#[test]
fn trailing_block_is_incomplete_while_streaming() {
    let mut st = StreamingMarkdownState::new();
    st.push_delta("para\n\n```rust\nx");
    st.apply_pending();
    let blocks = [(StreamBlockKind::Paragraph, false), (StreamBlockKind::Other, true), (StreamBlockKind::Fence, false)];
    assert_eq!(st.tail_block_flags(&blocks), vec![false, true, true]);
    let last_other = [(StreamBlockKind::Paragraph, false), (StreamBlockKind::Other, false)];
    assert_eq!(st.tail_block_flags(&last_other), vec![false, false]);
    assert!(!st.paints_raw_fallback(0));
    st.fail("boom");
    assert_eq!(st.tail_block_flags(&blocks), vec![false, true, true]);
    assert!(st.paints_raw_fallback(0));
    assert!(!st.paints_raw_fallback(2));
    let mut done = StreamingMarkdownState::new();
    done.push_delta("a");
    done.apply_pending();
    done.finish();
    assert_eq!(done.tail_block_flags(&blocks), vec![false, true, false]);
}
