use vstd::prelude::*;

verus! {

use vstd::arithmetic::div_mod::{lemma_div_by_multiple, lemma_div_is_ordered};

/// How many observations a window keeps for one (class, dimension) pair.
pub const SAMPLE_SIZE: usize = 10;

/// Index of the first smallest element of `s` (0 for an empty sequence).
pub open spec fn min_index(s: Seq<u64>) -> int
    decreases s.len(),
{
    if s.len() <= 1 {
        0
    } else {
        let k = min_index(s.drop_last());
        if s.last() < s[k] {
            s.len() - 1
        } else {
            k
        }
    }
}

/// Sum of the elements of `s`, as a mathematical integer.
pub open spec fn seq_sum(s: Seq<u64>) -> int
    decreases s.len(),
{
    if s.len() == 0 {
        0
    } else {
        seq_sum(s.drop_last()) + s.last()
    }
}

/// Truncated arithmetic mean of `s`; 0 for an empty sequence.
pub open spec fn mean_of(s: Seq<u64>) -> int {
    if s.len() == 0 {
        0
    } else {
        seq_sum(s) / (s.len() as int)
    }
}

/// Whether the window `s` admits the observation `x`: it has room,
/// or `x` strictly exceeds its smallest element.
pub open spec fn window_accepts(s: Seq<u64>, x: u64) -> bool {
    s.len() < SAMPLE_SIZE || x > s[min_index(s)]
}

/// The window after observing `x`: appended while there is room, else
/// written over the first smallest element when it exceeds it.
pub open spec fn window_update(s: Seq<u64>, x: u64) -> Seq<u64> {
    if s.len() < SAMPLE_SIZE {
        s.push(x)
    } else if x > s[min_index(s)] {
        s.update(min_index(s), x)
    } else {
        s
    }
}

/// The window reached from `start` by observing each element of `xs` in turn.
pub open spec fn window_after(start: Seq<u64>, xs: Seq<u64>) -> Seq<u64>
    decreases xs.len(),
{
    if xs.len() == 0 {
        start
    } else {
        window_update(window_after(start, xs.drop_last()), xs.last())
    }
}

/// `min_index` points at an element no larger than any other.
pub proof fn lemma_min_index(s: Seq<u64>)
    requires
        s.len() > 0,
    ensures
        0 <= min_index(s) < s.len(),
        forall|j: int| 0 <= j < s.len() ==> s[min_index(s)] <= #[trigger] s[j],
    decreases s.len(),
{
    if s.len() > 1 {
        let t = s.drop_last();
        lemma_min_index(t);
        assert forall|j: int| 0 <= j < s.len() implies s[min_index(s)] <= #[trigger] s[j] by {
            if j < s.len() - 1 {
                assert(t[j] == s[j]);
            }
        }
    }
}

/// Whatever sequence of observations a window goes through, it never holds
/// more than `SAMPLE_SIZE` values.
pub proof fn lemma_window_bounded(start: Seq<u64>, xs: Seq<u64>)
    requires
        start.len() <= SAMPLE_SIZE,
    ensures
        window_after(start, xs).len() <= SAMPLE_SIZE,
    decreases xs.len(),
{
    if xs.len() > 0 {
        lemma_window_bounded(start, xs.drop_last());
        let w = window_after(start, xs.drop_last());
        if w.len() >= SAMPLE_SIZE {
            lemma_min_index(w);
        }
    }
}

/// In a full window, an observation strictly above the minimum is accepted
/// and takes the place of a minimal element; any other observation is
/// rejected and leaves the window unchanged.
pub proof fn lemma_full_window(s: Seq<u64>, x: u64)
    requires
        s.len() == SAMPLE_SIZE,
    ensures
        0 <= min_index(s) < s.len(),
        forall|j: int| 0 <= j < s.len() ==> s[min_index(s)] <= #[trigger] s[j],
        x > s[min_index(s)] ==> window_accepts(s, x) && window_update(s, x) == s.update(
            min_index(s),
            x,
        ),
        x <= s[min_index(s)] ==> !window_accepts(s, x) && window_update(s, x) == s,
{
    lemma_min_index(s);
}

/// `n` copies of `v`.
pub open spec fn repeated(v: u64, n: nat) -> Seq<u64> {
    Seq::new(n, |i: int| v)
}

/// The sum of `n` copies of `v` is `n * v`.
proof fn lemma_sum_repeated(v: u64, n: nat)
    ensures
        seq_sum(repeated(v, n)) == n * v,
    decreases n,
{
    if n > 0 {
        let s = repeated(v, n);
        let t = repeated(v, (n - 1) as nat);
        lemma_sum_repeated(v, (n - 1) as nat);
        assert(s.drop_last() =~= t);
        assert(s.last() == v);
        assert(seq_sum(t) == ((n - 1) as nat) * v);
        assert(seq_sum(s) == seq_sum(t) + v);
        assert(n * v == ((n - 1) as nat) * v + v) by (nonlinear_arith)
            requires
                n > 0,
        ;
        assert(seq_sum(s) == n * v);
    } else {
        assert(repeated(v, n).len() == 0);
    }
}

/// The mean of an empty window is 0, and the mean of a window holding only
/// copies of one value is that value.
pub proof fn lemma_mean_of_constant(v: u64, n: nat)
    ensures
        mean_of(Seq::<u64>::empty()) == 0,
        n > 0 ==> mean_of(repeated(v, n)) == v,
{
    if n > 0 {
        lemma_sum_repeated(v, n);
        lemma_div_by_multiple(v as int, n as int);
        assert((v as int) * (n as int) == (n as int) * (v as int)) by (nonlinear_arith);
    }
}

/// The highest observations seen for one (class, dimension) pair: at most
/// `SAMPLE_SIZE` values, in no particular order.
#[derive(Debug)]
pub struct Samples {
    items: Vec<u64>,
}

impl View for Samples {
    type V = Seq<u64>;

    closed spec fn view(&self) -> Seq<u64> {
        self.items@
    }
}

/// Position of the first smallest element of `v`.
fn first_min_index(v: &Vec<u64>) -> (r: usize)
    requires
        v.len() > 0,
    ensures
        r as int == min_index(v@),
{
    let mut m: usize = 0;
    let mut i: usize = 1;
    while i < v.len()
        invariant
            1 <= i <= v.len(),
            m < i,
            m as int == min_index(v@.take(i as int)),
        decreases v.len() - i,
    {
        assert(v@.take(i as int + 1).drop_last() =~= v@.take(i as int));
        if v[i] < v[m] {
            m = i;
        }
        i = i + 1;
    }
    assert(v@.take(v.len() as int) =~= v@);
    m
}

impl Samples {
    /// A window holds at most `SAMPLE_SIZE` values.
    pub open spec fn wf(&self) -> bool {
        self@.len() <= SAMPLE_SIZE
    }

    /// The empty window.
    pub fn new() -> (r: Samples)
        ensures
            r.wf(),
            r@ == Seq::<u64>::empty(),
    {
        Samples { items: Vec::new() }
    }

    /// A window holding exactly `items`, or `None` when there are more of
    /// them than a window keeps.
    pub fn from_items(items: Vec<u64>) -> (r: Option<Samples>)
        ensures
            items@.len() <= SAMPLE_SIZE <==> r is Some,
            r matches Some(w) ==> w.wf() && w@ == items@,
    {
        if items.len() <= SAMPLE_SIZE {
            Some(Samples { items })
        } else {
            None
        }
    }

    /// The values held, in storage order.
    pub fn items(&self) -> (r: &Vec<u64>)
        ensures
            r@ == self@,
    {
        &self.items
    }

    /// Offers `sample` to the window. While the window has room the sample
    /// is appended; once it is full the sample replaces the first smallest
    /// value if it is strictly larger, and is rejected otherwise. Returns
    /// whether the sample was kept.
    pub fn update_with(&mut self, sample: u64) -> (accepted: bool)
        requires
            old(self).wf(),
        ensures
            final(self).wf(),
            accepted == window_accepts(old(self)@, sample),
            final(self)@ == window_update(old(self)@, sample),
    {
        if self.items.len() < SAMPLE_SIZE {
            self.items.push(sample);
            return true;
        }
        let m = first_min_index(&self.items);
        proof {
            lemma_min_index(self.items@);
        }
        if sample > self.items[m] {
            self.items.set(m, sample);
            true
        } else {
            false
        }
    }

    /// Truncated integer mean of the window, 0 when it is empty. The sum is
    /// taken exactly, so no rounding error arises.
    pub fn mean(&self) -> (r: u64)
        requires
            self.wf(),
        ensures
            r as int == mean_of(self@),
    {
        let n = self.items.len();
        if n == 0 {
            return 0;
        }
        let mut total: u128 = 0;
        let mut i: usize = 0;
        while i < n
            invariant
                n == self.items.len(),
                n <= SAMPLE_SIZE,
                i <= n,
                total as int == seq_sum(self.items@.take(i as int)),
                total <= i * 0xffff_ffff_ffff_ffffu128,
            decreases n - i,
        {
            assert(self.items@.take(i as int + 1).drop_last() =~= self.items@.take(i as int));
            total = total + self.items[i] as u128;
            i = i + 1;
        }
        assert(self.items@.take(n as int) =~= self.items@);
        proof {
            lemma_div_is_ordered(
                total as int,
                (n as int) * 0xffff_ffff_ffff_ffff,
                n as int,
            );
            lemma_div_by_multiple(0xffff_ffff_ffff_ffff, n as int);
            assert((n as int) * 0xffff_ffff_ffff_ffff == 0xffff_ffff_ffff_ffff * (n as int))
                by (nonlinear_arith);
        }
        (total / (n as u128)) as u64
    }
}

} // verus!
