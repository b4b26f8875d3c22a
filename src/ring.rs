//! A short history of time-stamped values, oldest first.
use vstd::prelude::*;

verus! {

/// An entry `(value, t_ms)` is fresh at `now` when it is at most `span` ms old.
pub open spec fn fresh(e: (u32, u64), now: u64, span: u64) -> bool {
    now <= e.1 || now - e.1 <= span
}

/// `i` is where the entries to keep begin after dropping stale entries from
/// the front: everything before `i` is stale, and the entry at `i` is fresh.
pub open spec fn is_prune_start(s: Seq<(u32, u64)>, i: int, now: u64, span: u64) -> bool {
    &&& 0 <= i <= s.len()
    &&& forall|j: int| 0 <= j < i ==> !fresh(#[trigger] s[j], now, span)
    &&& i < s.len() ==> fresh(s[i], now, span)
}

/// `i` is where the longest run of fresh entries at the back begins.
pub open spec fn is_recent_start(s: Seq<(u32, u64)>, i: int, now: u64, span: u64) -> bool {
    &&& 0 <= i <= s.len()
    &&& forall|j: int| i <= j < s.len() ==> fresh(#[trigger] s[j], now, span)
    &&& i > 0 ==> !fresh(s[i - 1], now, span)
}

pub open spec fn near(v: u32, center: u32, tol: u32) -> bool {
    if v >= center {
        v - center <= tol
    } else {
        center - v <= tol
    }
}

/// How many entries of `s` hold a value within `tol` of `center`.
pub open spec fn count_near(s: Seq<(u32, u64)>, center: u32, tol: u32) -> nat
    decreases s.len(),
{
    if s.len() == 0 {
        0
    } else {
        count_near(s.drop_last(), center, tol) + if near(s.last().0, center, tol) {
            1nat
        } else {
            0nat
        }
    }
}

/// How many entries of `s` hold the value `v`.
pub open spec fn count_val(s: Seq<(u32, u64)>, v: u32) -> nat
    decreases s.len(),
{
    if s.len() == 0 {
        0
    } else {
        count_val(s.drop_last(), v) + if s.last().0 == v {
            1nat
        } else {
            0nat
        }
    }
}

/// `(v, c)` is a most frequent value of `s` with its count.
pub open spec fn is_mode(s: Seq<(u32, u64)>, v: u32, c: nat) -> bool {
    &&& exists|j: int| 0 <= j < s.len() && s[j].0 == v
    &&& c == count_val(s, v)
    &&& forall|j: int| 0 <= j < s.len() ==> count_val(s, #[trigger] s[j].0) <= c
}

/// Where the entries kept by pruning `s` begin (see `is_prune_start`).
pub open spec fn prune_start(s: Seq<(u32, u64)>, now: u64, span: u64) -> int {
    choose|i: int| is_prune_start(s, i, now, span)
}

/// `s` with the stale entries at its front dropped.
pub open spec fn pruned(s: Seq<(u32, u64)>, now: u64, span: u64) -> Seq<(u32, u64)> {
    s.subrange(prune_start(s, now, span), s.len() as int)
}

/// Where the trailing run of fresh entries of `s` begins.
pub open spec fn recent_start_of(s: Seq<(u32, u64)>, now: u64, span: u64) -> int {
    choose|i: int| is_recent_start(s, i, now, span)
}

/// The trailing run of entries of `s` fresh at `now`.
pub open spec fn recent_of(s: Seq<(u32, u64)>, now: u64, span: u64) -> Seq<(u32, u64)> {
    s.subrange(recent_start_of(s, now, span), s.len() as int)
}

/// The most frequent value among the entries of `s` from index `i` on, with
/// its count; among equally frequent values the newest wins.
pub open spec fn mode_from(s: Seq<(u32, u64)>, i: int) -> Option<(u32, nat)>
    decreases s.len() - i,
{
    if i < 0 || i >= s.len() {
        None
    } else {
        let c = count_val(s, s[i].0);
        match mode_from(s, i + 1) {
            Some(m) => if c > m.1 {
                Some((s[i].0, c))
            } else {
                Some(m)
            },
            None => Some((s[i].0, c)),
        }
    }
}

pub proof fn lemma_prune_start_unique(s: Seq<(u32, u64)>, i: int, j: int, now: u64, span: u64)
    requires
        is_prune_start(s, i, now, span),
        is_prune_start(s, j, now, span),
    ensures
        i == j,
{
    if i < j {
        assert(!fresh(s[i], now, span));
    } else if j < i {
        assert(!fresh(s[j], now, span));
    }
}

pub proof fn lemma_recent_start_unique(s: Seq<(u32, u64)>, i: int, j: int, now: u64, span: u64)
    requires
        is_recent_start(s, i, now, span),
        is_recent_start(s, j, now, span),
    ensures
        i == j,
{
    if i < j {
        assert(fresh(s[j - 1], now, span));
    } else if j < i {
        assert(fresh(s[i - 1], now, span));
    }
}

/// The values of the entries of `s`, in order.
pub open spec fn ring_values(s: Seq<(u32, u64)>) -> Seq<u32> {
    s.map_values(|e: (u32, u64)| e.0)
}

pub struct TimedRing {
    pub items: Vec<(u32, u64)>,
}

impl View for TimedRing {
    type V = Seq<(u32, u64)>;

    open spec fn view(&self) -> Seq<(u32, u64)> {
        self.items@
    }
}

fn is_fresh(e: (u32, u64), now: u64, span: u64) -> (r: bool)
    ensures
        r == fresh(e, now, span),
{
    now <= e.1 || now - e.1 <= span
}

fn is_near(v: u32, center: u32, tol: u32) -> (r: bool)
    ensures
        r == near(v, center, tol),
{
    if v >= center {
        v - center <= tol
    } else {
        center - v <= tol
    }
}

impl TimedRing {
    pub fn new() -> (r: TimedRing)
        ensures
            r@ == Seq::<(u32, u64)>::empty(),
    {
        TimedRing { items: Vec::new() }
    }

    pub fn clear(&mut self)
        ensures
            final(self)@ == Seq::<(u32, u64)>::empty(),
    {
        self.items = Vec::new();
    }

    /// The values of the entries, oldest first.
    pub fn values(&self) -> (r: Vec<u32>)
        ensures
            r@ == ring_values(self@),
    {
        let mut out: Vec<u32> = Vec::new();
        let mut i: usize = 0;
        while i < self.items.len()
            invariant
                i <= self@.len(),
                out@ == ring_values(self@.subrange(0, i as int)),
            decreases self@.len() - i,
        {
            out.push(self.items[i].0);
            i = i + 1;
            assert(ring_values(self@.subrange(0, i as int)) =~= out@);
        }
        assert(self@.subrange(0, self@.len() as int) =~= self@);
        out
    }

    pub fn len(&self) -> (r: usize)
        ensures
            r == self@.len(),
    {
        self.items.len()
    }

    /// Appends `(v, now)`, then drops entries older than `span` ms from the
    /// front, stopping at the first fresh one.
    pub fn push_prune(&mut self, v: u32, now: u64, span: u64)
        ensures
            final(self)@ == pruned(old(self)@.push((v, now)), now, span),
            final(self)@.len() >= 1,
            exists|i: int|
                is_prune_start(old(self)@.push((v, now)), i, now, span) && final(self)@
                    == old(self)@.push((v, now)).subrange(i, old(self)@.len() + 1int),
    {
        let ghost s0 = self@;
        self.items.push((v, now));
        let ghost s = self@;
        assert(s == s0.push((v, now)));
        let mut k: usize = 0;
        while k < self.items.len() && !is_fresh(self.items[k], now, span)
            invariant
                s == self@,
                0 <= k <= s.len(),
                forall|j: int| 0 <= j < k ==> !fresh(#[trigger] s[j], now, span),
            decreases s.len() - k,
        {
            k = k + 1;
        }
        assert(fresh(s[s.len() - 1], now, span));
        assert(k < s.len());
        let mut kept: Vec<(u32, u64)> = Vec::new();
        let mut i: usize = k;
        while i < self.items.len()
            invariant
                s == self@,
                k <= i <= s.len(),
                kept@ == s.subrange(k as int, i as int),
            decreases s.len() - i,
        {
            kept.push(self.items[i]);
            i = i + 1;
            assert(kept@ =~= s.subrange(k as int, i as int));
        }
        self.items = kept;
        assert(is_prune_start(s, k as int, now, span));
        assert(self@ == s.subrange(k as int, s.len() as int));
        assert(s.len() == s0.len() + 1);
        proof {
            lemma_prune_start_unique(s, k as int, prune_start(s, now, span), now, span);
        }
    }

    /// Index where the longest run of entries fresh at `now` begins.
    pub fn recent_start(&self, now: u64, span: u64) -> (r: usize)
        ensures
            is_recent_start(self@, r as int, now, span),
            r as int == recent_start_of(self@, now, span),
    {
        let mut i: usize = self.items.len();
        while i > 0 && is_fresh(self.items[i - 1], now, span)
            invariant
                0 <= i <= self@.len(),
                forall|j: int| i <= j < self@.len() ==> fresh(#[trigger] self@[j], now, span),
            decreases i,
        {
            i = i - 1;
        }
        proof {
            assert(is_recent_start(self@, i as int, now, span));
            lemma_recent_start_unique(self@, i as int, recent_start_of(self@, now, span), now, span);
        }
        i
    }

    /// Among the entries at most `span` ms old (the trailing run), how many
    /// hold a value within `tol` of `center`.
    pub fn count_recent_near(&self, now: u64, span: u64, center: u32, tol: u32) -> (r: usize)
        ensures
            r == count_near(recent_of(self@, now, span), center, tol),
    {
        let start = self.recent_start(now, span);
        let mut n: usize = 0;
        let mut i: usize = start;
        while i < self.items.len()
            invariant
                start <= i <= self@.len(),
                n == count_near(self@.subrange(start as int, i as int), center, tol),
                n <= i - start,
            decreases self@.len() - i,
        {
            let ghost prev = self@.subrange(start as int, i as int);
            if is_near(self.items[i].0, center, tol) {
                n = n + 1;
            }
            i = i + 1;
            assert(self@.subrange(start as int, i as int).drop_last() =~= prev);
        }
        n
    }

    /// How many entries from index `start` on hold the value `v`.
    fn count_from(&self, start: usize, v: u32) -> (r: usize)
        requires
            start <= self@.len(),
        ensures
            r == count_val(self@.subrange(start as int, self@.len() as int), v),
    {
        let mut n: usize = 0;
        let mut i: usize = start;
        while i < self.items.len()
            invariant
                start <= i <= self@.len(),
                n == count_val(self@.subrange(start as int, i as int), v),
                n <= i - start,
            decreases self@.len() - i,
        {
            let ghost prev = self@.subrange(start as int, i as int);
            if self.items[i].0 == v {
                n = n + 1;
            }
            i = i + 1;
            assert(self@.subrange(start as int, i as int).drop_last() =~= prev);
        }
        n
    }

    /// The most frequent value among the entries at most `span` ms old (the
    /// trailing run) with its count, or `None` when there are none. Among
    /// equally frequent values the newest wins.
    pub fn recent_mode(&self, now: u64, span: u64) -> (r: Option<(u32, usize)>)
        ensures
            r is None ==> mode_from(recent_of(self@, now, span), 0) is None,
            r matches Some(m) ==> mode_from(recent_of(self@, now, span), 0) == Some((m.0, m.1 as nat)),
            r matches Some(m) ==> is_mode(recent_of(self@, now, span), m.0, m.1 as nat),
            is_recent_start(self@, recent_start_of(self@, now, span), now, span),
    {
        let start = self.recent_start(now, span);
        let ghost suf = self@.subrange(start as int, self@.len() as int);
        let mut best: Option<(u32, usize)> = None;
        let mut i: usize = self.items.len();
        while i > start
            invariant
                start <= i <= self@.len(),
                suf == self@.subrange(start as int, self@.len() as int),
                best is None <==> i == self@.len(),
                best is None ==> mode_from(suf, i - start) is None,
                best matches Some(m) ==> mode_from(suf, i - start) == Some((m.0, m.1 as nat)),
                best matches Some(m) ==> {
                    &&& exists|j: int| 0 <= j < suf.len() && suf[j].0 == m.0
                    &&& m.1 == count_val(suf, m.0)
                    &&& forall|j: int|
                        i - start <= j < suf.len() ==> count_val(suf, #[trigger] suf[j].0)
                            <= m.1
                },
            decreases i,
        {
            i = i - 1;
            let v = self.items[i].0;
            let c = self.count_from(start, v);
            assert(suf[i - start].0 == v);
            match best {
                Some(m) => {
                    if c > m.1 {
                        best = Some((v, c));
                    }
                },
                None => {
                    best = Some((v, c));
                },
            }
        }
        best
    }
}

} // verus!
