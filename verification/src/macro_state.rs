//! Scanner state for the embedded substitution mini-language: the open
//! delimiters being tracked, the span being collected, and the scanner's
//! three states.
use vstd::prelude::*;
use vstd::string::StringExecFns;

verus! {

/// An open delimiter the scanner still has to close: a bracketed
/// substitution, or a naked one that a space ends.
#[derive(Debug, Clone)]
pub enum Trace {
    BRACKET(usize),
    NAKED(usize),
}

impl Trace {
    /// Whether this character closes the delimiter.
    pub open spec fn spec_consume(&self, c: char) -> bool {
        match self {
            Trace::BRACKET(_) => c == ')',
            Trace::NAKED(_) => c == ' ',
        }
    }

    pub fn consume(&self, c: &char) -> (r: bool)
        ensures
            r == self.spec_consume(*c),
    {
        match self {
            Trace::BRACKET(_) => match c {
                ')' => true,
                _ => false,
            },
            Trace::NAKED(_) => match c {
                ' ' => true,
                _ => false,
            },
        }
    }
}

/// A span being collected: its text so far, where it starts, and where
/// it ended once it has.
#[derive(Debug, Clone)]
pub struct Content {
    pub value: String,
    pub start: usize,
    pub end: Option<usize>,
}

impl Content {
    pub fn new(content: String, start: usize) -> (c: Content)
        ensures
            c.value@ == content@,
            c.start == start,
            c.end is None,
    {
        Content { value: content, start, end: None }
    }

    /// Appends more text to the collected span.
    pub fn merge_content(&mut self, content: String)
        ensures
            final (self).value@ == old(self).value@ + content@,
            final (self).start == old(self).start,
            final (self).end == old(self).end,
    {
        self.value.append(content.as_str());
    }
}

/// The scanner's state: scanning plain text, collecting a substitution
/// span, or holding a finished one.
#[derive(Debug, Clone)]
pub enum State {
    NORMAL { block_traces: Vec<Trace> },
    MATCHING { current: Content, block_traces: Vec<Trace>, content_traces: Vec<Trace> },
    MATCHED(Content),
}

impl State {
    /// The plain-text state, with nothing open.
    pub fn normal() -> (s: State)
        ensures
            s matches State::NORMAL { block_traces } && block_traces@.len() == 0,
    {
        State::NORMAL { block_traces: Vec::new() }
    }

    /// The collecting state: goes on with the given span, or opens an
    /// empty one at the given position.
    pub fn matching(index: usize, block_traces: Vec<Trace>, content: Option<Content>) -> (s: State)
        ensures
            s matches State::MATCHING { current, block_traces: b, content_traces } && b
                == block_traces && content_traces@.len() == 0 && (match content {
                Some(c) => current == c,
                None => current.value@.len() == 0 && current.start == index && current.end is None,
            }),
    {
        let current = match content {
            Some(c) => c,
            None => Content::new(String::new(), index),
        };
        State::MATCHING { block_traces, current, content_traces: Vec::new() }
    }
}

} // verus!
