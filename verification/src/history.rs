use vstd::prelude::*;
use crate::platform::new_uuid_string;
use crate::platform::now_unix;
use crate::text::str_eq;

verus! {

/// One recorded send: what was sent, to which kind of target, and how it
/// went, stamped with a fresh id and the time of the attempt.
pub struct HistoryEntry {
    pub id: String,
    pub timestamp: i64,
    pub message_type: String,
    pub title: String,
    pub body: String,
    pub success: bool,
    pub details: String,
}

impl Clone for HistoryEntry {
    fn clone(&self) -> (r: Self)
        ensures
            r == *self,
    {
        HistoryEntry {
            id: self.id.clone(),
            timestamp: self.timestamp,
            message_type: self.message_type.clone(),
            title: self.title.clone(),
            body: self.body.clone(),
            success: self.success,
            details: self.details.clone(),
        }
    }
}

impl HistoryEntry {
    /// A fresh entry around the given send, with a new random id and the
    /// current time.
    pub fn new(message_type: &str, title: &str, body: &str, success: bool, details: &str) -> (e:
        Self)
        ensures
            e.id@.len() == 36,
            e.message_type@ == message_type@,
            e.title@ == title@,
            e.body@ == body@,
            e.success == success,
            e.details@ == details@,
    {
        HistoryEntry {
            id: new_uuid_string(),
            timestamp: now_unix(),
            message_type: message_type.to_owned(),
            title: title.to_owned(),
            body: body.to_owned(),
            success,
            details: details.to_owned(),
        }
    }
}

/// How many entries a list keeps when it does not say otherwise.
pub fn default_max_size() -> (r: u32)
    ensures
        r == 100,
{
    100
}

/// The newest-first send history, kept to a bounded length.
pub struct HistoryList {
    pub entries: Vec<HistoryEntry>,
    pub max_size: u32,
}

impl Default for HistoryList {
    /// An empty history; a zero bound stands for the default.
    fn default() -> (h: Self)
        ensures
            h.entries@.len() == 0,
            h.max_size == 0,
    {
        HistoryList { entries: Vec::new(), max_size: 0 }
    }
}

impl HistoryList {
    /// The bound in force: `max_size`, or the default where it is zero.
    pub open spec fn bound(&self) -> int {
        if self.max_size == 0 {
            100
        } else {
            self.max_size as int
        }
    }

    /// Puts `entry` first and drops the oldest entries beyond the bound.
    pub fn add(&mut self, entry: HistoryEntry)
        ensures
            final(self).max_size == old(self).max_size,
            final(self).entries@ == ({
                let all = seq![entry] + old(self).entries@;
                if all.len() <= old(self).bound() {
                    all
                } else {
                    all.take(old(self).bound())
                }
            }),
    {
        self.entries.insert(0, entry);
        let max_u32 = if self.max_size == 0 {
            100
        } else {
            self.max_size
        };
        let max = max_u32 as usize;
        if self.entries.len() > max {
            self.entries.truncate(max);
        }
        proof {
            let all = seq![entry] + old(self).entries@;
            assert(all =~= old(self).entries@.insert(0, entry));
            if all.len() > old(self).bound() {
                assert(self.entries@ =~= all.take(old(self).bound()));
            }
        }
    }

    /// Empties the history.
    pub fn clear(&mut self)
        ensures
            final(self).max_size == old(self).max_size,
            final(self).entries@.len() == 0,
    {
        self.entries.clear();
    }

    /// The first entry with the given id, if any.
    pub fn get(&self, id: &str) -> (r: Option<&HistoryEntry>)
        ensures
            match r {
                Some(e) => exists|i: int|
                    0 <= i < self.entries@.len() && (#[trigger] self.entries@[i]).id@ == id@ && *e
                        == self.entries@[i] && (forall|j: int|
                        0 <= j < i ==> (#[trigger] self.entries@[j]).id@ != id@),
                None => forall|i: int|
                    0 <= i < self.entries@.len() ==> (#[trigger] self.entries@[i]).id@ != id@,
            },
    {
        let n = self.entries.len();
        let mut i: usize = 0;
        while i < n
            invariant
                i <= n,
                n == self.entries@.len(),
                forall|j: int| 0 <= j < i ==> (#[trigger] self.entries@[j]).id@ != id@,
            decreases n - i,
        {
            let e = &self.entries[i];
            if str_eq(e.id.as_str(), id) {
                return Some(e);
            }
            i += 1;
        }
        None
    }
}

} // verus!
