//! A scripted event source.
//!
//! The source yields each of its events exactly once, oldest first, and then
//! `None` forever. It is not restartable and never replays an event: each
//! pull either consumes the head of the remaining script or reports that the
//! script is exhausted, which is terminal.

use vstd::prelude::*;

use crate::keys::KeyEvent;

verus! {

/// A finite source of key events, consumed one pull at a time.
#[derive(Clone)]
pub struct KeyboardEvents {
    events: Vec<KeyEvent>,
    cursor: usize,
}

impl KeyboardEvents {
    /// The source never points past the end of its script.
    pub closed spec fn wf(self) -> bool {
        self.cursor <= self.events@.len()
    }

    /// The events not yet yielded, oldest first.
    pub closed spec fn remaining(self) -> Seq<KeyEvent> {
        self.events@.skip(self.cursor as int)
    }

    /// A source that will yield the given events in order.
    pub fn new(events: Vec<KeyEvent>) -> (source: KeyboardEvents)
        ensures
            source.wf(),
            source.remaining() == events@,
    {
        let source = KeyboardEvents { events, cursor: 0 };
        proof {
            assert(source.remaining() =~= source.events@);
        }
        source
    }

    /// Pulls the next event. Yields the head of the remaining script and
    /// drops it — no event is ever replayed — or `None` once the script is
    /// exhausted, from which point every further pull yields `None` again.
    pub fn next(&mut self) -> (event: Option<KeyEvent>)
        requires
            old(self).wf(),
        ensures
            final(self).wf(),
            old(self).remaining().len() == 0 ==> event is None
                && final(self).remaining() == old(self).remaining(),
            old(self).remaining().len() > 0 ==> event == Option::Some(old(self).remaining()[0])
                && final(self).remaining() == old(self).remaining().skip(1),
    {
        if self.cursor < self.events.len() {
            let k = self.events[self.cursor];
            self.cursor = self.cursor + 1;
            proof {
                assert(self.remaining() =~= old(self).remaining().skip(1));
            }
            Option::Some(k)
        } else {
            Option::None
        }
    }
}

} // verus!
