//! The error log: descriptions of failed device operations, kept in the
//! order in which they were logged until a query drains them.

use vstd::prelude::*;

verus! {

/// Descriptions of failed device operations since the last drain, oldest first.
pub struct ErrorLog {
    entries: Vec<String>,
}

impl View for ErrorLog {
    type V = Seq<Seq<char>>;

    closed spec fn view(&self) -> Seq<Seq<char>> {
        self.entries.deep_view()
    }
}

/// The log that holds `log` followed by `added`, in that order.
pub open spec fn logged(log: Seq<Seq<char>>, added: Seq<Seq<char>>) -> Seq<Seq<char>> {
    log + added
}

/// What a drain hands out of `log`: all of it.
pub open spec fn drained(log: Seq<Seq<char>>) -> Seq<Seq<char>> {
    log
}

/// What a drain leaves of `log`: nothing.
pub open spec fn left_by_drain(log: Seq<Seq<char>>) -> Seq<Seq<char>> {
    Seq::empty()
}

impl ErrorLog {
    /// The empty log.
    pub fn new() -> (log: ErrorLog)
        ensures
            log@ == Seq::<Seq<char>>::empty(),
    {
        let log = ErrorLog { entries: Vec::new() };
        assert(log@ =~= Seq::<Seq<char>>::empty());
        log
    }

    /// The number of entries that wait to be drained.
    pub fn len(&self) -> (len: usize)
        ensures
            len == self@.len(),
    {
        self.entries.len()
    }

    /// Appends `entry` behind what the log holds.
    pub fn push(&mut self, entry: String)
        ensures
            final(self)@ == old(self)@.push(entry@),
            final(self)@ == logged(old(self)@, seq![entry@]),
    {
        self.entries.push(entry);
        assert(self@ =~= old(self)@.push(entry@));
        assert(old(self)@.push(entry@) =~= logged(old(self)@, seq![entry@]));
    }

    /// Hands out every entry, oldest first, and leaves the log empty: no
    /// entry is both returned and kept, and none is lost.
    pub fn drain(&mut self) -> (entries: Vec<String>)
        ensures
            entries.deep_view() == drained(old(self)@),
            final(self)@ == left_by_drain(old(self)@),
    {
        let mut entries: Vec<String> = Vec::new();
        core::mem::swap(&mut self.entries, &mut entries);
        assert(self@ =~= Seq::<Seq<char>>::empty());
        entries
    }
}

/// A drain returns exactly what was logged since the drain before it.
/// Whatever the log held, after a drain and the entries `added`, logged one
/// by one in their order, the next drain returns `added`, in that order,
/// each entry once.
pub proof fn lemma_drain_returns_what_was_logged_since(
    log: Seq<Seq<char>>,
    added: Seq<Seq<char>>,
)
    ensures
        drained(logged(left_by_drain(log), added)) == added,
        left_by_drain(logged(left_by_drain(log), added)) == Seq::<Seq<char>>::empty(),
{
    assert(Seq::<Seq<char>>::empty() + added =~= added);
}

/// A drain that follows a drain with nothing logged in between returns the
/// empty list.
pub proof fn lemma_drain_after_drain_is_empty(log: Seq<Seq<char>>)
    ensures
        drained(left_by_drain(log)) == Seq::<Seq<char>>::empty(),
        drained(left_by_drain(log)).len() == 0,
{
}

/// Logging entries one by one is logging them all at once: the order of
/// the entries is the order in which they were logged.
pub proof fn lemma_logged_one_by_one(
    log: Seq<Seq<char>>,
    added: Seq<Seq<char>>,
    entry: Seq<char>,
)
    ensures
        logged(logged(log, added), seq![entry]) == logged(log, added.push(entry)),
{
    assert(logged(logged(log, added), seq![entry]) =~= logged(log, added.push(entry)));
}

} // verus!
