//! An in-memory log ring for the UI: a bounded list of recent messages.

use vstd::prelude::*;

verus! {

/// Keeps the most recent messages, evicting the oldest past the bound.
#[derive(Debug)]
pub struct Logger {
    logs: Vec<String>,
    max_logs: usize,
}

impl Logger {
    /// The retained messages, oldest first.
    pub closed spec fn view(self) -> Seq<String> {
        self.logs@
    }

    pub closed spec fn bound(self) -> nat {
        self.max_logs as nat
    }

    pub closed spec fn wf(self) -> bool {
        self.logs@.len() <= self.max_logs
    }

    /// An empty log keeping at most `max_logs` messages.
    pub fn new(max_logs: usize) -> (l: Self)
        ensures
            l.wf(),
            l@ == Seq::<String>::empty(),
            l.bound() == max_logs,
    {
        Logger { logs: Vec::new(), max_logs }
    }

    /// Append a message, evicting the oldest one when the bound is
    /// reached.
    pub fn add_log(&mut self, message: String)
        requires
            old(self).wf(),
        ensures
            final(self).wf(),
            final(self).bound() == old(self).bound(),
            old(self)@.len() < old(self).bound() ==> final(self)@ == old(self)@.push(message),
            old(self)@.len() == old(self).bound() && old(self).bound() >= 1 ==> final(self)@ == old(
                self,
            )@.drop_first().push(message),
            old(self).bound() == 0 ==> final(self)@ == Seq::<String>::empty(),
    {
        self.logs.push(message);
        if self.logs.len() > self.max_logs {
            self.logs.remove(0);
            proof {
                if old(self).bound() >= 1 {
                    assert(self.logs@ =~= old(self)@.drop_first().push(message));
                } else {
                    assert(self.logs@ =~= Seq::<String>::empty());
                }
            }
        }
    }

    /// The retained messages, oldest first.
    pub fn get_logs(&self) -> (r: &Vec<String>)
        ensures
            r@ == self@,
    {
        &self.logs
    }

    /// Drop every retained message.
    pub fn clear(&mut self)
        ensures
            final(self).wf(),
            final(self)@ == Seq::<String>::empty(),
            final(self).bound() == old(self).bound(),
    {
        self.logs.clear();
    }
}

} // verus!
