//! The game log: the most recent messages, oldest first, up to a cap.

use vstd::prelude::*;

use crate::text::owned;

verus! {

/// The text of each message of a list.
pub open spec fn texts(v: Seq<String>) -> Seq<Seq<char>> {
    v.map_values(|s: String| s@)
}

/// Messages after logging `m` with cap `max`: appended, and the oldest
/// dropped when the list grows past the cap.
pub open spec fn logged(msgs: Seq<Seq<char>>, m: Seq<char>, max: nat) -> Seq<Seq<char>> {
    if msgs.len() + 1 > max {
        msgs.push(m).drop_first()
    } else {
        msgs.push(m)
    }
}

/// Resource for storing game log messages.
#[derive(Debug)]
pub struct GameLog {
    pub messages: Vec<String>,
    pub max_messages: usize,
}

impl Default for GameLog {
    fn default() -> (l: Self)
        ensures
            l.messages@.len() == 0,
            l.max_messages == 0,
    {
        Self { messages: Vec::new(), max_messages: 0 }
    }
}

impl GameLog {
    pub fn new(max_messages: usize) -> (l: Self)
        ensures
            l.messages@.len() == 0,
            l.max_messages == max_messages,
    {
        Self { messages: Vec::new(), max_messages }
    }

    /// Append a message, dropping the oldest once past the cap.
    pub fn add(&mut self, message: &str)
        ensures
            texts(final(self).messages@) == logged(
                texts(old(self).messages@),
                message@,
                old(self).max_messages as nat,
            ),
            final(self).max_messages == old(self).max_messages,
    {
        let ghost before = texts(self.messages@);
        self.messages.push(owned(message));
        assert(texts(self.messages@) =~= before.push(message@));
        if self.messages.len() > self.max_messages {
            self.messages.remove(0);
            assert(texts(self.messages@) =~= before.push(message@).drop_first());
        }
    }

    /// The `count` most recent messages, newest first.
    pub fn recent(&self, count: usize) -> (r: Vec<&String>)
        ensures
            r@.len() == if count < self.messages@.len() {
                count as int
            } else {
                self.messages@.len() as int
            },
            forall|i: int|
                0 <= i < r@.len() ==> *r@[i] == self.messages@[self.messages@.len() - 1 - i],
    {
        let n = self.messages.len();
        let mut r: Vec<&String> = Vec::new();
        let mut i: usize = 0;
        while i < count && i < n
            invariant
                n == self.messages@.len(),
                i <= n,
                i <= count,
                r@.len() == i,
                forall|k: int| 0 <= k < i ==> *r@[k] == self.messages@[n - 1 - k],
            decreases n - i,
        {
            r.push(&self.messages[n - 1 - i]);
            i = i + 1;
        }
        r
    }
}

/// The log never holds more messages than its cap, and the newest
/// message is last whenever the cap allows any.
pub proof fn lemma_log_capped(msgs: Seq<Seq<char>>, m: Seq<char>, max: nat)
    requires
        msgs.len() <= max,
    ensures
        logged(msgs, m, max).len() <= max,
        max > 0 ==> logged(msgs, m, max).last() == m,
{
}

} // verus!
