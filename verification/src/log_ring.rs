//! A bounded ring of formatted log lines. New lines go in at the front (most
//! recent first); once the fixed capacity is exceeded the oldest lines fall
//! off the back. The renderer reads a snapshot of it once per frame.
use vstd::prelude::*;

verus! {

/// What a ring of capacity `cap` holds after the lines in `hist` were emitted
/// in order: the most recent `cap` of them, newest first.
pub open spec fn ring_of(hist: Seq<Seq<char>>, cap: nat) -> Seq<Seq<char>> {
    Seq::new(
        if hist.len() <= cap { hist.len() } else { cap },
        |i: int| hist[hist.len() - 1 - i],
    )
}

/// The bounded log ring. `hist` records every line ever emitted, so that the
/// capacity invariant can be stated against the full insertion history.
pub struct LogRing {
    entries: std::collections::VecDeque<String>,
    capacity: usize,
    hist: Ghost<Seq<Seq<char>>>,
}

impl View for LogRing {
    type V = Seq<Seq<char>>;

    closed spec fn view(&self) -> Seq<Seq<char>> {
        Seq::new(self.entries@.len(), |i: int| self.entries@[i]@)
    }
}

impl LogRing {
    /// The fixed capacity the ring was created with.
    pub closed spec fn spec_capacity(&self) -> nat {
        self.capacity as nat
    }

    /// Every line ever emitted to this ring, oldest first.
    pub closed spec fn history(&self) -> Seq<Seq<char>> {
        self.hist@
    }

    /// The ring never exceeds its capacity, and always holds exactly the most
    /// recent lines of its insertion history, newest first.
    pub open spec fn well_formed(&self) -> bool {
        &&& self.spec_capacity() >= 1
        &&& self@.len() <= self.spec_capacity()
        &&& self@ == ring_of(self.history(), self.spec_capacity())
    }

    /// An empty ring of capacity `capacity`.
    pub fn new(capacity: usize) -> (r: LogRing)
        requires
            capacity >= 1,
        ensures
            r.well_formed(),
            r.spec_capacity() == capacity,
            r.history() == Seq::<Seq<char>>::empty(),
            r@ == Seq::<Seq<char>>::empty(),
    {
        let r = LogRing {
            entries: std::collections::VecDeque::new(),
            capacity,
            hist: Ghost(Seq::empty()),
        };
        proof {
            assert(r@ =~= Seq::<Seq<char>>::empty());
            assert(ring_of(r.hist@, r.spec_capacity()) =~= Seq::<Seq<char>>::empty());
        }
        r
    }

    /// How many lines the ring holds now.
    pub fn len(&self) -> (n: usize)
        ensures
            n == self@.len(),
    {
        self.entries.len()
    }

    /// Append one formatted line at the front and trim the back to capacity.
    /// The ring afterwards holds the most recent lines of the grown history.
    pub fn emit(&mut self, line: String)
        requires
            old(self).well_formed(),
        ensures
            final(self).well_formed(),
            final(self).spec_capacity() == old(self).spec_capacity(),
            final(self).history() == old(self).history().push(line@),
            final(self)@.len() <= final(self).spec_capacity(),
            final(self)@[0] == line@,
    {
        self.entries.push_front(line);
        if self.entries.len() > self.capacity {
            self.entries.truncate(self.capacity);
        }
        proof {
            self.hist@ = self.hist@.push(line@);
            let oldv = old(self)@;
            let oldh = old(self).history();
            let cap = self.spec_capacity();
            assert(oldv == ring_of(oldh, cap));
            assert forall|i: int| 1 <= i < self@.len()
                implies self@[i] == self.hist@[self.hist@.len() - 1 - i] by {
                assert(self@[i] == oldv[i - 1]);
                assert(oldv[i - 1] == oldh[oldh.len() - 1 - (i - 1)]);
            }
            assert(self@ =~= ring_of(self.hist@, cap));
        }
    }

    /// A copy of the ring's lines, newest first, for one render frame.
    pub fn read_snapshot(&self) -> (r: Vec<String>)
        ensures
            r@.len() == self@.len(),
            forall|i: int| 0 <= i < r@.len() ==> r@[i]@ == self@[i],
    {
        let mut out: Vec<String> = Vec::new();
        let n = self.entries.len();
        let mut k: usize = 0;
        while k < n
            invariant
                n == self.entries@.len(),
                k <= n,
                out@.len() == k,
                forall|i: int| 0 <= i < k ==> out@[i]@ == self@[i],
            decreases n - k,
        {
            out.push(self.entries[k].clone());
            k = k + 1;
        }
        out
    }
}

/// After any sequence of emits, a well-formed ring holds no more than its
/// capacity, and its contents are exactly the most recent lines of the
/// insertion history, newest first.
pub proof fn lemma_ring_holds_recent_history(r: &LogRing)
    requires
        r.well_formed(),
    ensures
        r@.len() <= r.spec_capacity(),
        r@.len() == if r.history().len() <= r.spec_capacity() {
            r.history().len()
        } else {
            r.spec_capacity()
        },
        forall|i: int| 0 <= i < r@.len() ==> r@[i] == r.history()[r.history().len() - 1 - i],
{
}

} // verus!
