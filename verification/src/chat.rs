//! The in-game chat log.
use vstd::prelude::*;

verus! {

/// One line of chat: who wrote it and what they wrote.
pub struct Message {
    pub author: String,
    pub content: String,
}

/// The chat log shared by every client, oldest message first.
pub struct Chat {
    pub messages: Vec<Message>,
}

impl Chat {
    /// Appends a message written by `author` at the end of the log.
    pub fn add_message(&mut self, author: String, content: String)
        ensures
            final(self).messages@.len() == old(self).messages@.len() + 1,
            final(self).messages@.drop_last() == old(self).messages@,
            final(self).messages@.last() == (Message { author, content }),
    {
        self.messages.push(Message { author, content });
        proof {
            assert(self.messages@.drop_last() =~= old(self).messages@);
        }
    }

    /// An empty chat log.
    pub fn new() -> (chat: Self)
        ensures
            chat.messages@.len() == 0,
    {
        Self { messages: Vec::new() }
    }
}

} // verus!
