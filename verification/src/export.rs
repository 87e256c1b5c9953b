//! One export run: routing each message of a day to the log of its channel and
//! counting what each channel received.
use vstd::prelude::*;
use crate::messages::Model;
use crate::rollup::{format_message, get_text_log_file_name, line_of, log_name};
use crate::table::{entries_of, entry, keys, new_table, no_entries, set_entry};
use crate::text::{distinct, texts};
use ahash::AHashMap;

verus! {

/// A count raised by one, unless it is at the largest value already.
pub open spec fn bump(n: usize) -> usize {
    if n < usize::MAX {
        (n + 1) as usize
    } else {
        n
    }
}

/// What to do with one message of the run.
#[derive(Debug)]
pub struct Routed {
    /// The position of the message's log among the logs of the run.
    pub file: usize,
    /// Whether this message is the first for its log, which is to be created.
    pub opened: bool,
    /// The line to append to the log.
    pub line: String,
}

/// The state of one export run: the logs opened so far, in the order in which
/// they were opened, and the number of messages each channel received.
#[derive(Debug)]
pub struct ExportRun {
    files: Vec<String>,
    slots: AHashMap<String, usize>,
    counts: AHashMap<String, usize>,
}

/// A count raised by one, unless it is at the largest value already.
pub fn raised(n: usize) -> (r: usize)
    ensures
        r == bump(n),
{
    if n < usize::MAX {
        n + 1
    } else {
        n
    }
}

impl ExportRun {
    /// The names of the logs opened so far, in opening order.
    pub closed spec fn names(&self) -> Seq<Seq<char>> {
        texts(self.files@)
    }

    /// The channels that received a message, each with the number of its
    /// messages.
    pub closed spec fn counts(&self) -> Map<Seq<char>, usize> {
        entries_of(self.counts)
    }

    /// The number of messages routed for `channel`, which stops growing at the
    /// largest value of its type.
    pub open spec fn tally(&self, channel: Seq<char>) -> usize {
        if self.counts().contains_key(channel) {
            self.counts()[channel]
        } else {
            0
        }
    }

    /// Each log is found under its name at its position, and nothing else is.
    pub closed spec fn wf(&self) -> bool {
        &&& forall|i: int|
            0 <= i < self.files.len() ==> entries_of(self.slots).contains_key(
                #[trigger] self.files[i]@,
            ) && entries_of(self.slots)[self.files[i]@] == i
        &&& forall|k: Seq<char>| #[trigger]
            entries_of(self.slots).contains_key(k) ==> entries_of(self.slots)[k]
                < self.files.len() && self.files[entries_of(self.slots)[k] as int]@ == k
    }

    /// No log is opened twice.
    pub proof fn lemma_names_distinct(&self)
        requires
            self.wf(),
        ensures
            distinct(self.names()),
    {
        assert forall|i: int, j: int| 0 <= i < j < self.names().len() implies self.names()[i]
            != self.names()[j] by {
            assert(entries_of(self.slots)[self.files[i]@] == i);
            assert(entries_of(self.slots)[self.files[j]@] == j);
        }
    }

    /// A run that has routed nothing yet.
    pub fn new() -> (r: ExportRun)
        ensures
            r.wf(),
            r.names() == Seq::<Seq<char>>::empty(),
            r.counts() == no_entries(),
    {
        let r = ExportRun { files: Vec::new(), slots: new_table(), counts: new_table() };
        assert(r.names() =~= Seq::<Seq<char>>::empty());
        r
    }

    /// Routes one message: names its log, opening it if this is its first
    /// message, renders its line and counts it for its channel.
    pub fn route(&mut self, message: &Model) -> (r: Routed)
        requires
            old(self).wf(),
        ensures
            final(self).wf(),
            r.line@ == line_of(message@),
            r.opened == !old(self).names().contains(
                log_name(message@.channel, message@.timestamp),
            ),
            r.opened ==> final(self).names() == old(self).names().push(
                log_name(message@.channel, message@.timestamp),
            ) && r.file == old(self).names().len(),
            !r.opened ==> final(self).names() == old(self).names(),
            r.file < final(self).names().len(),
            final(self).names()[r.file as int] == log_name(message@.channel, message@.timestamp),
            final(self).counts() == old(self).counts().insert(
                message@.channel,
                bump(old(self).tally(message@.channel)),
            ),
    {
        let name = get_text_log_file_name(message.channel.as_str(), message.timestamp);
        let line = format_message(message);
        self.assign(name, &message.channel, line)
    }

    /// Routes one line of `channel` to the log called `name`: the log is
    /// opened if this is its first line, and the line is counted for the
    /// channel.
    pub fn assign(&mut self, name: String, channel: &String, line: String) -> (r: Routed)
        requires
            old(self).wf(),
        ensures
            final(self).wf(),
            r.line@ == line@,
            r.opened == !old(self).names().contains(name@),
            r.opened ==> final(self).names() == old(self).names().push(name@) && r.file == old(
                self,
            ).names().len(),
            !r.opened ==> final(self).names() == old(self).names(),
            r.file < final(self).names().len(),
            final(self).names()[r.file as int] == name@,
            final(self).counts() == old(self).counts().insert(
                channel@,
                bump(old(self).tally(channel@)),
            ),
    {
        let ghost wanted = name@;
        let ghost before = *self;
        let (file, opened) = match entry(&self.slots, name.as_str()) {
            Some(i) => {
                assert(texts(before.files@)[i as int] == wanted);
                (i, false)
            },
            None => {
                assert(!texts(before.files@).contains(wanted)) by {
                    if texts(before.files@).contains(wanted) {
                        let j = choose|j: int|
                            0 <= j < before.files.len() && texts(before.files@)[j] == wanted;
                        assert(before.files[j]@ == wanted);
                    }
                }
                let i = self.files.len();
                set_entry(&mut self.slots, name.clone(), i);
                self.files.push(name);
                assert(texts(self.files@) =~= texts(before.files@).push(wanted));
                assert forall|j: int| 0 <= j < self.files.len() implies entries_of(
                    self.slots,
                ).contains_key(#[trigger] self.files[j]@) && entries_of(
                    self.slots,
                )[self.files[j]@] == j by {
                    if j < i {
                        assert(self.files[j]@ == before.files[j]@);
                        assert(texts(before.files@)[j] == before.files[j]@);
                    }
                }
                assert forall|k: Seq<char>| #[trigger]
                    entries_of(self.slots).contains_key(k) implies entries_of(self.slots)[k]
                    < self.files.len() && self.files[entries_of(self.slots)[k] as int]@ == k by {
                    if k != wanted {
                        assert(entries_of(before.slots).contains_key(k));
                        let at = entries_of(before.slots)[k] as int;
                        assert(self.files[at]@ == before.files[at]@);
                    }
                }
                (i, true)
            },
        };
        let count = match entry(&self.counts, channel.as_str()) {
            Some(n) => raised(n),
            None => 1,
        };
        set_entry(&mut self.counts, channel.clone(), count);
        Routed { file, opened, line }
    }

    /// The name of the log at position `file`.
    pub fn file_name(&self, file: usize) -> (r: String)
        requires
            file < self.names().len(),
        ensures
            r@ == self.names()[file as int],
    {
        self.files[file].clone()
    }

    /// How many logs the run has opened.
    pub fn file_count(&self) -> (r: usize)
        ensures
            r == self.names().len(),
    {
        self.files.len()
    }

    /// How many messages the run has routed for `channel`.
    pub fn count_for(&self, channel: &str) -> (r: usize)
        ensures
            r == self.tally(channel@),
    {
        match entry(&self.counts, channel) {
            Some(n) => n,
            None => 0,
        }
    }

    /// The channels that received a message, each once, in no particular
    /// order.
    pub fn channels(&self) -> (r: Vec<String>)
        ensures
            distinct(texts(r@)),
            forall|c: Seq<char>| texts(r@).contains(c) <==> self.counts().contains_key(c),
    {
        keys(&self.counts)
    }
}

} // verus!
