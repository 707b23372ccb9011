//! Accumulation of a streamed reply: the content fragments of the first
//! choice, in arrival order, up to and including the first chunk that ends
//! the reply with a known reason.
use vstd::prelude::*;
use crate::api::{FinishReason, ResponseBody, TokenUsage};

verus! {

/// Whether a chunk ends the reply: its first choice carries a finish reason
/// other than `Unknown`.
pub open spec fn is_terminal(c: ResponseBody) -> bool {
    c.choices@.len() > 0 && (c.choices@[0].finish_reason matches Some(r) && r != FinishReason::Unknown)
}

/// The content fragment of a chunk's first choice, or nothing.
pub open spec fn fragment(c: ResponseBody) -> Seq<char> {
    if c.choices@.len() > 0 && c.choices@[0].delta.content is Some {
        c.choices@[0].delta.content.unwrap()@
    } else {
        Seq::empty()
    }
}

/// The text gathered from `cs` and whether the reply has ended.
pub open spec fn streamed(cs: Seq<ResponseBody>) -> (Seq<char>, bool)
    decreases cs.len(),
{
    if cs.len() == 0 {
        (Seq::empty(), false)
    } else {
        let (text, done) = streamed(cs.drop_last());
        if done {
            (text, done)
        } else {
            (text + fragment(cs.last()), is_terminal(cs.last()))
        }
    }
}

/// The last usage report among `cs`, if any.
pub open spec fn last_usage(cs: Seq<ResponseBody>) -> Option<TokenUsage>
    decreases cs.len(),
{
    if cs.len() == 0 {
        None
    } else if cs.last().usage is Some {
        cs.last().usage
    } else {
        last_usage(cs.drop_last())
    }
}

/// A streamed reply, as far as it has arrived.
pub struct StreamState {
    pub text: String,
    pub finished: bool,
    pub usage: Option<TokenUsage>,
}

/// Whether a chunk ends the reply.
pub fn ends_stream(c: &ResponseBody) -> (r: bool)
    ensures
        r == is_terminal(*c),
{
    if c.choices.len() == 0 {
        return false;
    }
    match c.choices[0].finish_reason {
        Some(FinishReason::Unknown) => false,
        Some(_) => true,
        None => false,
    }
}

impl StreamState {
    /// Nothing received yet.
    pub fn new() -> (r: Self)
        ensures
            r.text@ == Seq::<char>::empty(),
            !r.finished,
            r.usage is None,
    {
        StreamState { text: String::new(), finished: false, usage: None }
    }

    /// Takes in the next chunk. Content after the end of the reply is
    /// ignored; a usage report is kept wherever it comes.
    pub fn push_chunk(&mut self, c: &ResponseBody)
        ensures
            old(self).finished ==> final(self).text@ == old(self).text@ && final(self).finished,
            !old(self).finished ==> final(self).text@ == old(self).text@ + fragment(*c)
                && final(self).finished == is_terminal(*c),
            final(self).usage == (if c.usage is Some { c.usage } else { old(self).usage }),
    {
        if c.usage.is_some() {
            self.usage = c.usage;
        }
        if self.finished {
            return;
        }
        if c.choices.len() > 0 {
            match &c.choices[0].delta.content {
                Some(t) => self.text.append(t.as_str()),
                None => {
                    assert(fragment(*c) =~= Seq::<char>::empty());
                },
            }
        } else {
            assert(fragment(*c) =~= Seq::<char>::empty());
        }
        self.finished = ends_stream(c);
    }
}

/// The reply that a sequence of chunks makes: the text gathered up to the
/// first chunk that ends it, whether one did, and the last usage report.
pub fn accumulate(chunks: &Vec<ResponseBody>) -> (r: StreamState)
    ensures
        (r.text@, r.finished) == streamed(chunks@),
        r.usage == last_usage(chunks@),
{
    let mut st = StreamState::new();
    let mut i: usize = 0;
    while i < chunks.len()
        invariant
            i <= chunks@.len(),
            (st.text@, st.finished) == streamed(chunks@.subrange(0, i as int)),
            st.usage == last_usage(chunks@.subrange(0, i as int)),
        decreases chunks@.len() - i,
    {
        st.push_chunk(&chunks[i]);
        assert(chunks@.subrange(0, i + 1).drop_last() =~= chunks@.subrange(0, i as int));
        i = i + 1;
    }
    assert(chunks@.subrange(0, i as int) =~= chunks@);
    st
}

} // verus!
