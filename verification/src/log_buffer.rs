//! A bounded, order-preserving store of log lines with oldest-first eviction.

use std::collections::VecDeque;
use vstd::prelude::*;

verus! {

/// Capacity of the buffer that holds the launcher's own diagnostic lines.
pub const APP_LOG_CAPACITY: usize = 100;

/// Capacity of the buffer that holds the supervised process's output.
pub const RUSTFS_LOG_CAPACITY: usize = 1000;

/// The last `n` elements of `s`, or all of `s` where it has fewer.
pub open spec fn last_n<T>(s: Seq<T>, n: nat) -> Seq<T> {
    if s.len() <= n {
        s
    } else {
        s.subrange(s.len() - n, s.len() as int)
    }
}

/// What a buffer of capacity `capacity` holding `contents` holds after `line`
/// was appended.
pub open spec fn appended<T>(contents: Seq<T>, capacity: nat, line: T) -> Seq<T> {
    last_n(contents.push(line), capacity)
}

/// What a buffer of capacity `capacity` holding `contents` holds after each of
/// `lines` was appended in order.
pub open spec fn appended_all<T>(contents: Seq<T>, capacity: nat, lines: Seq<T>) -> Seq<T>
    decreases lines.len(),
{
    if lines.len() == 0 {
        contents
    } else {
        appended(appended_all(contents, capacity, lines.drop_last()), capacity, lines.last())
    }
}

/// The views of a sequence of strings.
pub open spec fn line_views(lines: Seq<String>) -> Seq<Seq<char>> {
    lines.map_values(|s: String| s@)
}

/// Whether a sequence is cut to its last `n` elements before an element is
/// added makes no difference to the last `n` elements afterwards.
pub proof fn lemma_last_n_of_push<T>(s: Seq<T>, n: nat, x: T)
    ensures
        last_n(last_n(s, n).push(x), n) == last_n(s.push(x), n),
{
}

/// Appending line after line to a buffer keeps exactly the last `capacity`
/// elements of everything the buffer has ever been given, in call order.
pub proof fn lemma_appended_all_keeps_tail<T>(contents: Seq<T>, capacity: nat, lines: Seq<T>)
    requires
        contents.len() <= capacity,
    ensures
        appended_all(contents, capacity, lines) == last_n(contents + lines, capacity),
    decreases lines.len(),
{
    if lines.len() > 0 {
        let front = lines.drop_last();
        lemma_appended_all_keeps_tail(contents, capacity, front);
    }
}

/// After at least `capacity` appends a buffer holds exactly `capacity` lines:
/// the last `capacity` values appended, in call order, whatever it held before.
pub proof fn lemma_full_after_capacity_appends<T>(contents: Seq<T>, capacity: nat, lines: Seq<T>)
    requires
        contents.len() <= capacity,
        lines.len() >= capacity,
    ensures
        appended_all(contents, capacity, lines).len() == capacity,
        appended_all(contents, capacity, lines) == lines.subrange(
            lines.len() - capacity,
            lines.len() as int,
        ),
{
    lemma_appended_all_keeps_tail(contents, capacity, lines);
}

/// A fixed-capacity, insertion-ordered store of lines. Once full, every
/// append evicts the oldest line.
pub struct LogBuffer {
    lines: VecDeque<String>,
    capacity: usize,
}

impl View for LogBuffer {
    type V = Seq<Seq<char>>;

    /// The lines held, oldest first.
    closed spec fn view(&self) -> Seq<Seq<char>> {
        line_views(self.lines@)
    }
}

impl LogBuffer {
    #[verifier::type_invariant]
    spec fn within_capacity(&self) -> bool {
        self.lines@.len() <= self.capacity
    }

    /// The largest number of lines the buffer ever holds.
    pub closed spec fn spec_capacity(&self) -> usize {
        self.capacity
    }

    /// An empty buffer that keeps at most `capacity` lines.
    pub fn new(capacity: usize) -> (buffer: LogBuffer)
        ensures
            buffer@ == Seq::<Seq<char>>::empty(),
            buffer.spec_capacity() == capacity,
    {
        let buffer = LogBuffer { lines: VecDeque::new(), capacity };
        buffer
    }

    /// The largest number of lines the buffer ever holds.
    #[verifier::when_used_as_spec(spec_capacity)]
    pub fn capacity(&self) -> (capacity: usize)
        ensures
            capacity == self.spec_capacity(),
    {
        self.capacity
    }

    /// The number of lines held.
    pub fn len(&self) -> (len: usize)
        ensures
            len == self@.len(),
            len <= self.spec_capacity(),
    {
        proof {
            use_type_invariant(self);
        }
        self.lines.len()
    }

    /// Whether no line is held.
    pub fn is_empty(&self) -> (empty: bool)
        ensures
            empty == (self@.len() == 0),
    {
        self.lines.len() == 0
    }

    /// Appends `line` as the newest entry and evicts from the front until the
    /// buffer is within its capacity again.
    pub fn append(&mut self, line: String)
        ensures
            final(self)@ == appended(old(self)@, old(self).spec_capacity() as nat, line@),
            final(self).spec_capacity() == old(self).spec_capacity(),
            final(self)@.len() <= final(self).spec_capacity(),
    {
        proof {
            use_type_invariant(&*self);
        }
        let mut lines = VecDeque::new();
        std::mem::swap(&mut lines, &mut self.lines);
        push_log(&mut lines, line, self.capacity);
        self.lines = lines;
    }

    /// The lines held, oldest first. The buffer is left as it is.
    pub fn snapshot(&self) -> (lines: Vec<String>)
        ensures
            line_views(lines@) == self@,
            lines@.len() <= self.spec_capacity(),
    {
        proof {
            use_type_invariant(self);
        }
        let mut out: Vec<String> = Vec::new();
        let n: usize = self.lines.len();
        let mut i: usize = 0;
        while i < n
            invariant
                n == self.lines@.len(),
                i <= n,
                out@.len() == i,
                forall|k: int| 0 <= k < i ==> out@[k]@ == #[trigger] self.lines@[k]@,
            decreases n - i,
        {
            out.push(self.lines[i].clone());
            i = i + 1;
        }
        out
    }

    /// Drops every line. The capacity stays.
    pub fn clear(&mut self)
        ensures
            final(self)@ == Seq::<Seq<char>>::empty(),
            final(self).spec_capacity() == old(self).spec_capacity(),
    {
        self.lines = VecDeque::new();
    }
}

/// Appends `msg` to `logs` and evicts from the front until at most `capacity`
/// lines are left.
pub fn push_log(logs: &mut VecDeque<String>, msg: String, capacity: usize)
    ensures
        line_views(final(logs)@) == appended(line_views(old(logs)@), capacity as nat, msg@),
        old(logs)@.len() <= capacity ==> final(logs)@.len() <= capacity,
{
    logs.push_back(msg);
    let ghost pushed = logs@;
    while logs.len() > capacity
        invariant
            logs@.len() <= pushed.len(),
            pushed.len() <= capacity ==> logs@.len() == pushed.len(),
            pushed.len() > capacity ==> logs@.len() >= capacity,
            logs@ == pushed.subrange(pushed.len() - logs@.len(), pushed.len() as int),
        decreases logs@.len(),
    {
        let _ = logs.pop_front();
    }
}

} // verus!
