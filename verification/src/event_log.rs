//! A bounded, newest-first log of formatted movement-event timestamps.
//!
//! The log keeps at most [`EVENT_LOG_CAPACITY`] entries: a push inserts at
//! the front and, when the log is full, evicts the oldest (back) entry.
//! Sharing between the listener thread and the render path is left to the
//! embedding program (a lock held per operation); every operation here is a
//! plain value operation.

use vstd::prelude::*;

verus! {

/// Maximum number of movement events kept.
pub const EVENT_LOG_CAPACITY: usize = 6;

/// Contents of the log after pushing `s`: `s` in front, and the oldest entry
/// dropped if the log would otherwise exceed its capacity.
pub open spec fn push_spec(log: Seq<Seq<char>>, s: Seq<char>) -> Seq<Seq<char>> {
    let grown = seq![s] + log;
    if grown.len() <= EVENT_LOG_CAPACITY {
        grown
    } else {
        grown.take(EVENT_LOG_CAPACITY as int)
    }
}

/// Law: a push puts the new entry in front, keeps the earlier entries in
/// order, and never grows the log past its capacity — so any run of pushes
/// leaves exactly the most recent entries, newest first.
pub proof fn lemma_push_newest_first(log: Seq<Seq<char>>, s: Seq<char>)
    requires
        log.len() <= EVENT_LOG_CAPACITY,
    ensures
        push_spec(log, s).len() == if log.len() < EVENT_LOG_CAPACITY {
            log.len() + 1
        } else {
            EVENT_LOG_CAPACITY as nat
        },
        push_spec(log, s)[0] == s,
        forall|i: int| 1 <= i < push_spec(log, s).len() ==> push_spec(log, s)[i] == log[i - 1],
{
}

/// A bounded queue of display-formatted timestamps, newest first.
pub struct EventLog {
    entries: Vec<String>,
}

impl View for EventLog {
    type V = Seq<Seq<char>>;

    closed spec fn view(&self) -> Seq<Seq<char>> {
        self.entries.deep_view()
    }
}

impl EventLog {
    #[verifier::type_invariant]
    closed spec fn inv(self) -> bool {
        self.entries@.len() <= EVENT_LOG_CAPACITY
    }

    /// An empty log.
    pub fn new() -> (r: EventLog)
        ensures
            r@ == Seq::<Seq<char>>::empty(),
    {
        let entries: Vec<String> = Vec::new();
        assert(entries.deep_view() =~= Seq::<Seq<char>>::empty());
        EventLog { entries }
    }

    /// Number of entries currently held.
    pub fn len(&self) -> (n: usize)
        ensures
            n == self@.len(),
    {
        self.entries.len()
    }

    /// Inserts a formatted timestamp at the front, evicting the oldest entry
    /// when the log is full.
    pub fn push(&mut self, formatted_time: String)
        ensures
            final(self)@ == push_spec(old(self)@, formatted_time@),
    {
        proof {
            use_type_invariant(&*self);
        }
        let ghost old_view = self@;
        let ghost pushed = formatted_time@;
        let mut entries: Vec<String> = Vec::new();
        core::mem::swap(&mut entries, &mut self.entries);
        entries.insert(0, formatted_time);
        assert(entries.deep_view() =~= seq![pushed] + old_view);
        if entries.len() > EVENT_LOG_CAPACITY {
            let ghost before = entries.deep_view();
            let _ = entries.pop();
            assert(entries.deep_view() =~= before.take(EVENT_LOG_CAPACITY as int));
        }
        self.entries = entries;
    }

    /// A copy of the current contents, newest first.
    pub fn snapshot(&self) -> (r: Vec<String>)
        ensures
            r.deep_view() == self@,
    {
        let mut r: Vec<String> = Vec::new();
        let mut i: usize = 0;
        while i < self.entries.len()
            invariant
                i <= self.entries@.len(),
                r.deep_view() =~~= self.entries.deep_view().take(i as int),
            decreases self.entries@.len() - i,
        {
            assert(r.deep_view().len() == i as int);
            assert(r@.len() == i as int);
            r.push(self.entries[i].clone());
            i = i + 1;
        }
        assert(r.deep_view() =~~= self.entries.deep_view());
        r
    }
}

} // verus!
