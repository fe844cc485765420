//! The streaming pipeline: rebuilding one logical response out of an
//! incremental delivery. Native server-sent-event streams are buffered by
//! line, `data: ` payloads are parsed and their deltas accumulated; for
//! vendors without native streaming a chunked delivery is fabricated by
//! splitting the finished text on whitespace. Either way the accumulated
//! content equals the concatenation of the emitted chunks, in order.

use vstd::prelude::*;
use vstd::string::*;
use crate::text::{
    to_chars, chars_to_string, chars_start_with, str_eq, strip_cr, is_prefix, views_of, words,
    join_sp, split_ws,
};

verus! {

/// The concatenation of a sequence of texts, in order.
pub open spec fn concat_all(cs: Seq<Seq<char>>) -> Seq<char>
    decreases cs.len(),
{
    if cs.len() == 0 {
        Seq::empty()
    } else {
        concat_all(cs.drop_last()) + cs.last()
    }
}

/// One progress notification: the new delta and the accumulated text up
/// to and including it.
pub struct StreamChunk {
    pub delta: String,
    pub full_content: String,
}

/// The delta texts of a chunk list.
pub open spec fn deltas_of(cs: Seq<StreamChunk>) -> Seq<Seq<char>> {
    cs.map_values(|c: StreamChunk| c.delta@)
}

/// What an incremental stream payload holds.
///
/// Relies on `serde_json::from_str`: the payload is parsed as JSON and
/// the `choices[0].delta.content` string is read out of it. The result is
/// a function of the payload text alone.
pub uninterp spec fn stream_delta_of(payload: Seq<char>) -> Option<Seq<char>>;

/// Relies on `serde_json::from_str` to read the incremental delta out of
/// one `data: ` payload; `None` when the payload is not JSON of that
/// shape.
#[verifier::external_body]
fn extract_stream_delta(payload: &str) -> (r: Option<String>)
    ensures
        match r {
            Some(s) => stream_delta_of(payload@) == Some(s@),
            None => stream_delta_of(payload@) is None,
        },
{
    let parsed: serde_json::Value = match serde_json::from_str(payload) {
        Ok(value) => value,
        Err(_) => return None,
    };
    let delta = parsed.get("choices")?.get(0)?.get("delta")?.get("content")?;
    delta.as_str().map(|s| s.to_string())
}

/// The mathematical state of the stream reassembly: the buffered partial
/// line, the deltas emitted so far, and whether the terminator was seen.
pub struct SpecStream {
    pub pending: Seq<char>,
    pub deltas: Seq<Seq<char>>,
    pub done: bool,
}

/// How one complete line advances the state: a `data: ` payload either
/// ends the stream (the literal terminator) or contributes its delta;
/// anything else is ignored.
pub open spec fn apply_line(st: SpecStream, line: Seq<char>) -> SpecStream {
    if is_prefix("data: "@, line) {
        let payload = line.skip(6);
        if payload == "[DONE]"@ {
            SpecStream { done: true, ..st }
        } else {
            match stream_delta_of(payload) {
                Some(d) => SpecStream { deltas: st.deltas.push(d), ..st },
                None => st,
            }
        }
    } else {
        st
    }
}

/// How one character advances the state: once the stream is done nothing
/// changes; a newline completes the buffered line (less a trailing
/// carriage return) and applies it; any other character is buffered.
pub open spec fn feed_char(st: SpecStream, c: char) -> SpecStream {
    if st.done {
        st
    } else if c == '\n' {
        let stepped = apply_line(st, strip_cr(st.pending));
        SpecStream { pending: Seq::empty(), ..stepped }
    } else {
        SpecStream { pending: st.pending.push(c), ..st }
    }
}

/// How a whole text advances the state, character by character.
pub open spec fn feed_chars(st: SpecStream, s: Seq<char>) -> SpecStream
    decreases s.len(),
{
    if s.len() == 0 {
        st
    } else {
        feed_char(feed_chars(st, s.drop_last()), s.last())
    }
}

/// Reassembles a server-sent-event stream fed to it in arbitrary pieces.
pub struct StreamAssembler {
    pub pending: Vec<char>,
    pub content: String,
    pub chunks: Vec<String>,
    pub done: bool,
}

impl StreamAssembler {
    /// The mathematical state this assembler is in.
    pub open spec fn model(&self) -> SpecStream {
        SpecStream { pending: self.pending@, deltas: views_of(self.chunks@), done: self.done }
    }

    /// The accumulated content is exactly the concatenation of the
    /// emitted deltas, in emission order.
    pub open spec fn wf(&self) -> bool {
        self.content@ == concat_all(views_of(self.chunks@))
    }

    /// A fresh assembler: nothing buffered, nothing emitted.
    pub fn new() -> (r: StreamAssembler)
        ensures
            r.wf(),
            r.model() == (SpecStream {
                pending: Seq::<char>::empty(),
                deltas: Seq::<Seq<char>>::empty(),
                done: false,
            }),
    {
        let r = StreamAssembler {
            pending: Vec::new(),
            content: String::new(),
            chunks: Vec::new(),
            done: false,
        };
        proof {
            assert(views_of(r.chunks@) =~= Seq::<Seq<char>>::empty());
            assert(r.model() == (SpecStream {
                pending: Seq::<char>::empty(),
                deltas: Seq::<Seq<char>>::empty(),
                done: false,
            }));
        }
        r
    }

    /// Feeds one piece of transport text to the assembler and hands back
    /// the progress notifications it produced: one per recognized delta,
    /// each carrying the delta and the running accumulated content.
    pub fn push_text(&mut self, text: &str) -> (out: Vec<StreamChunk>)
        requires
            old(self).wf(),
        ensures
            final(self).wf(),
            final(self).model() == feed_chars(old(self).model(), text@),
            views_of(final(self).chunks@) == views_of(old(self).chunks@) + deltas_of(out@),
            forall|k: int|
                0 <= k < out@.len() ==> out@[k].full_content@ == concat_all(
                    views_of(final(self).chunks@).take(
                        old(self).chunks@.len() + k + 1,
                    ),
                ),
    {
        let v = to_chars(text);
        let n = v.len();
        let mut out: Vec<StreamChunk> = Vec::new();
        let ghost base_len = self.chunks@.len() as int;
        let mut i: usize = 0;
        proof {
            assert(v@.subrange(0, 0) =~= Seq::<char>::empty());
            assert(feed_chars(old(self).model(), v@.subrange(0, 0)) == old(self).model());
            assert(views_of(self.chunks@) + deltas_of(out@) =~= views_of(self.chunks@));
        }
        while i < n
            invariant
                n == v@.len(),
                i <= n,
                v@ == text@,
                self.wf(),
                base_len == old(self).chunks@.len(),
                self.model() == feed_chars(old(self).model(), v@.subrange(0, i as int)),
                views_of(self.chunks@) == views_of(old(self).chunks@) + deltas_of(out@),
                out@.len() == self.chunks@.len() - base_len,
                forall|k: int|
                    0 <= k < out@.len() ==> out@[k].full_content@ == concat_all(
                        views_of(self.chunks@).take(base_len + k + 1),
                    ),
            decreases n - i,
        {
            let ghost st_pre = self.model();
            let c = v[i];
            proof {
                assert(v@.subrange(0, i + 1 as int).drop_last() =~= v@.subrange(0, i as int));
                assert(feed_chars(old(self).model(), v@.subrange(0, i + 1 as int)) == feed_char(
                    st_pre,
                    v@[i as int],
                ));
            }
            if self.done {
                // end of stream already seen: everything further is ignored
            } else if c == '\n' {
                let plen = self.pending.len();
                let end = if plen > 0 && self.pending[plen - 1] == '\r' {
                    plen - 1
                } else {
                    plen
                };
                let ghost line = strip_cr(self.pending@);
                proof {
                    reveal_strlit("data: ");
                    assert("data: "@.len() == 6);
                    assert(self.pending@.subrange(0, end as int) =~= line);
                    if end >= 6 {
                        assert(line.subrange(0, 6) =~= self.pending@.subrange(0, 6));
                    }
                }
                let data_prefix = to_chars("data: ");
                let starts = end >= 6 && chars_start_with(&self.pending, &data_prefix);
                proof {
                    if end >= 6 {
                        assert(self.pending@.subrange(0, 6) =~= self.pending@.subrange(
                            0,
                            "data: "@.len() as int,
                        ));
                    }
                    assert(starts == is_prefix("data: "@, line));
                }
                if starts {
                    let payload = chars_to_string(&self.pending, 6, end);
                    proof {
                        assert(payload@ =~= strip_cr(self.pending@).skip(6));
                    }
                    if str_eq(payload.as_str(), "[DONE]") {
                        self.done = true;
                    } else {
                        match extract_stream_delta(payload.as_str()) {
                            Some(d) => {
                                let ghost chunks_pre = self.chunks@;
                                self.content.append(d.as_str());
                                let full_content = self.content.clone();
                                let delta_copy = d.clone();
                                self.chunks.push(d);
                                proof {
                                    assert(views_of(self.chunks@) =~= views_of(chunks_pre).push(
                                        self.chunks@.last()@,
                                    ));
                                    assert(views_of(self.chunks@).drop_last() =~= views_of(
                                        chunks_pre,
                                    ));
                                    assert(self.content@ == concat_all(views_of(self.chunks@)));
                                    assert(views_of(self.chunks@).take(
                                        self.chunks@.len() as int,
                                    ) =~= views_of(self.chunks@));
                                }
                                out.push(StreamChunk { delta: delta_copy, full_content });
                                proof {
                                    assert(deltas_of(out@) =~= deltas_of(out@.drop_last()).push(
                                        out@.last().delta@,
                                    ));
                                    assert(views_of(old(self).chunks@) + deltas_of(out@)
                                        =~= (views_of(old(self).chunks@) + deltas_of(
                                        out@.drop_last(),
                                    )).push(out@.last().delta@));
                                    assert forall|k: int| 0 <= k < out@.len() - 1 implies
                                        #[trigger] views_of(self.chunks@).take(base_len + k + 1)
                                        =~= views_of(chunks_pre).take(base_len + k + 1) by {}
                                }
                            },
                            None => {},
                        }
                    }
                }
                self.pending = Vec::new();
            } else {
                self.pending.push(c);
            }
            proof {
                assert(self.model() == feed_char(st_pre, v@[i as int]));
            }
            i += 1;
        }
        proof {
            assert(v@.subrange(0, n as int) =~= v@);
        }
        out
    }

    /// The final accumulated content: what the completion event carries
    /// and what the streaming call returns.
    pub fn content(&self) -> (r: String)
        ensures
            r@ == self.content@,
    {
        self.content.clone()
    }
}

/// Streaming reconstruction law: concatenating all emitted deltas, in
/// emission order, is exactly the accumulated content that the completion
/// event carries.
pub proof fn lemma_stream_reconstruction(a: StreamAssembler)
    requires
        a.wf(),
    ensures
        a.content@ == concat_all(deltas_of_strings(a.chunks@)),
{
}

/// The views of emitted delta strings.
pub open spec fn deltas_of_strings(cs: Seq<String>) -> Seq<Seq<char>> {
    views_of(cs)
}

/// Fabricates a chunked delivery out of a finished text: one chunk per
/// whitespace-separated word, each chunk carrying the separating space,
/// so that the concatenation of all chunks equals the accumulated
/// content — the words joined with single spaces — which is also what
/// the completion event carries.
pub fn simulate_stream(text: &str) -> (r: (Vec<StreamChunk>, String))
    ensures
        r.1@ == join_sp(words(text@)),
        concat_all(deltas_of(r.0@)) == r.1@,
        forall|k: int|
            0 <= k < r.0@.len() ==> r.0@[k].full_content@ == concat_all(
                deltas_of(r.0@).take(k + 1),
            ),
{
    let v = to_chars(text);
    let ws = split_ws(&v);
    let n = ws.len();
    let mut content = String::new();
    let mut out: Vec<StreamChunk> = Vec::new();
    let mut i: usize = 0;
    proof {
        assert(join_sp(words(text@).take(0)) =~= Seq::<char>::empty());
        assert(concat_all(deltas_of(out@)) =~= Seq::<char>::empty());
    }
    while i < n
        invariant
            n == ws@.len(),
            i <= n,
            views_of(ws@) == words(text@),
            content@ == join_sp(views_of(ws@).take(i as int)),
            concat_all(deltas_of(out@)) == content@,
            out@.len() == i,
            forall|k: int|
                0 <= k < out@.len() ==> out@[k].full_content@ == concat_all(
                    deltas_of(out@).take(k + 1),
                ),
        decreases n - i,
    {
        let ghost deltas_pre = deltas_of(out@);
        let mut delta = String::new();
        if i > 0 {
            delta.append(" ");
        }
        delta.append(ws[i].as_str());
        content.append(delta.as_str());
        let full_content = content.clone();
        proof {
            reveal_strlit(" ");
            assert(views_of(ws@).take(i + 1 as int).drop_last() =~= views_of(ws@).take(i as int));
            assert(views_of(ws@).take(i + 1 as int).last() == ws@[i as int]@);
            if i == 0 {
                assert(views_of(ws@).take(1) =~= seq![ws@[0]@]);
                assert(content@ =~= join_sp(views_of(ws@).take(1)));
            } else {
                assert(content@ =~= join_sp(views_of(ws@).take(i + 1 as int)));
            }
        }
        out.push(StreamChunk { delta, full_content });
        proof {
            assert(deltas_of(out@) =~= deltas_pre.push(out@.last().delta@));
            assert(deltas_of(out@).drop_last() =~= deltas_pre);
            assert(concat_all(deltas_of(out@)) == content@);
            assert(deltas_of(out@).take(out@.len() as int) =~= deltas_of(out@));
            assert forall|k: int| 0 <= k < out@.len() - 1 implies #[trigger] deltas_of(out@).take(
                k + 1,
            ) =~= deltas_pre.take(k + 1) by {}
        }
        i += 1;
    }
    proof {
        assert(views_of(ws@).take(n as int) =~= views_of(ws@));
    }
    (out, content)
}

} // verus!
