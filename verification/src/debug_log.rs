//! The activity log shared by the servers and the front end: levels,
//! messages, and a history that keeps only the latest ones.
use vstd::prelude::*;
use crate::cloud::UtcTime;

verus! {

/// How important a message is.
#[derive(Debug, Clone, Copy, PartialEq, Eq, Structural)]
pub enum LogLevel {
    Info,
    Warning,
    Error,
    Debug,
}

/// The label printed for a level.
pub open spec fn level_label(l: LogLevel) -> Seq<char> {
    match l {
        LogLevel::Info => "INFO"@,
        LogLevel::Warning => "WARN"@,
        LogLevel::Error => "ERROR"@,
        LogLevel::Debug => "DEBUG"@,
    }
}

impl LogLevel {
    /// The label printed for this level.
    pub fn label(&self) -> (res: &'static str)
        ensures
            res@ == level_label(*self),
    {
        match self {
            LogLevel::Info => "INFO",
            LogLevel::Warning => "WARN",
            LogLevel::Error => "ERROR",
            LogLevel::Debug => "DEBUG",
        }
    }
}

/// One logged message.
#[derive(Debug, Clone)]
pub struct DebugMessage {
    pub timestamp: UtcTime,
    pub level: LogLevel,
    pub source: String,
    pub message: String,
}

/// The latest messages, oldest first, at most `max_messages` of them.
pub struct MessageHistory {
    messages: Vec<DebugMessage>,
    max_messages: usize,
}

impl MessageHistory {
    /// The messages, oldest first.
    pub closed spec fn contents(&self) -> Seq<DebugMessage> {
        self.messages@
    }

    /// How many messages are kept.
    pub closed spec fn limit(&self) -> nat {
        self.max_messages as nat
    }

    #[verifier::type_invariant]
    closed spec fn within_limit(&self) -> bool {
        self.messages@.len() <= self.max_messages
    }

    /// An empty history keeping up to `max_messages` messages.
    pub fn new(max_messages: usize) -> (res: MessageHistory)
        ensures
            res.contents().len() == 0,
            res.limit() == max_messages,
    {
        MessageHistory { messages: Vec::new(), max_messages }
    }

    /// How many messages are kept.
    pub fn max_messages(&self) -> (res: usize)
        ensures
            res == self.limit(),
    {
        self.max_messages
    }

    /// Appends a message; when that goes over the limit the oldest ones go.
    pub fn push(&mut self, msg: DebugMessage)
        ensures
            final(self).limit() == old(self).limit(),
            final(self).contents() == keep_last(old(self).contents().push(msg), old(self).limit()),
            final(self).contents().len() <= final(self).limit(),
    {
        proof {
            use_type_invariant(&*self);
        }
        let mut messages: Vec<DebugMessage> = Vec::new();
        std::mem::swap(&mut messages, &mut self.messages);
        messages.push(msg);
        if messages.len() > self.max_messages {
            let excess = messages.len() - self.max_messages;
            messages = messages.split_off(excess);
        }
        self.messages = messages;
    }

    /// All messages, oldest first.
    pub fn get_history(&self) -> (res: &Vec<DebugMessage>)
        ensures
            res@ == self.contents(),
    {
        &self.messages
    }

    /// The last `count` messages (all of them when there are fewer).
    pub fn get_recent(&self, count: usize) -> (res: &[DebugMessage])
        ensures
            res@ == keep_last(self.contents(), count as nat),
    {
        let n = self.messages.len();
        let start = if n > count {
            n - count
        } else {
            0
        };
        vstd::slice::slice_subrange(self.messages.as_slice(), start, n)
    }

    /// Forgets every message.
    pub fn clear_history(&mut self)
        ensures
            final(self).contents().len() == 0,
            final(self).limit() == old(self).limit(),
    {
        self.messages = Vec::new();
    }
}

/// The last `n` elements of `s` (all of it when it is shorter).
pub open spec fn keep_last<A>(s: Seq<A>, n: nat) -> Seq<A> {
    if s.len() > n {
        s.subrange(s.len() - n, s.len() as int)
    } else {
        s
    }
}

} // verus!
