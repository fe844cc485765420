use chatme_core::stream::{simulate_stream, StreamAssembler};

#[test]
fn sse_stream_is_reconstructed_from_split_chunks() {
    let mut a = StreamAssembler::new();
    // the second line is torn across the two transport chunks
    let part1 = "data: {\"choices\":[{\"delta\":{\"content\":\"Hel\"}}]}\n\ndata: {\"choices\":[{\"del";
    let part2 = "ta\":{\"content\":\"lo world\"}}]}\ndata: [DONE]\n";
    let out1 = a.push_text(part1);
    assert_eq!(out1.len(), 1);
    assert_eq!(out1[0].delta, "Hel");
    assert_eq!(out1[0].full_content, "Hel");
    let out2 = a.push_text(part2);
    assert_eq!(out2.len(), 1);
    assert_eq!(out2[0].delta, "lo world");
    assert_eq!(out2[0].full_content, "Hello world");
    let content = a.content();
    assert_eq!(content, "Hello world");
    // the reconstruction law on this run: deltas concatenate to the content
    let mut rebuilt = String::new();
    for d in out1.iter().chain(out2.iter()) {
        rebuilt.push_str(&d.delta);
    }
    assert_eq!(rebuilt, content);
}

#[test]
fn sse_stops_at_the_terminator() {
    let mut a = StreamAssembler::new();
    let text = "data: {\"choices\":[{\"delta\":{\"content\":\"one\"}}]}\ndata: [DONE]\ndata: {\"choices\":[{\"delta\":{\"content\":\"two\"}}]}\n";
    let out = a.push_text(text);
    assert_eq!(out.len(), 1);
    assert_eq!(out[0].delta, "one");
    assert_eq!(a.content(), "one");
}

#[test]
fn sse_ignores_noise_lines_and_malformed_payloads() {
    let mut a = StreamAssembler::new();
    let text = ": keep-alive\nevent: ping\ndata: not json at all\ndata: {\"other\":1}\ndata: {\"choices\":[{\"delta\":{\"content\":\"ok\"}}]}\r\n";
    let out = a.push_text(text);
    assert_eq!(out.len(), 1);
    assert_eq!(out[0].delta, "ok");
    assert_eq!(a.content(), "ok");
}

#[test]
fn simulated_stream_chunks_concatenate_to_the_content() {
    let (chunks, content) = simulate_stream("the  quick\tbrown\nfox");
    assert_eq!(content, "the quick brown fox");
    assert_eq!(chunks.len(), 4);
    let mut rebuilt = String::new();
    for c in &chunks {
        rebuilt.push_str(&c.delta);
        assert_eq!(c.full_content, rebuilt);
    }
    assert_eq!(rebuilt, content);
}

#[test]
fn simulated_stream_of_empty_text_emits_nothing() {
    let (chunks, content) = simulate_stream("   \t  ");
    assert!(chunks.is_empty());
    assert_eq!(content, "");
}

#[test]
fn simulated_stream_of_one_word() {
    let (chunks, content) = simulate_stream("alone");
    assert_eq!(chunks.len(), 1);
    assert_eq!(chunks[0].delta, "alone");
    assert_eq!(content, "alone");
}
