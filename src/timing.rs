use vstd::prelude::*;

verus! {

/// The sum of the samples.
pub open spec fn total(s: Seq<u64>) -> int
    decreases s.len(),
{
    if s.len() == 0 {
        0
    } else {
        total(s.drop_last()) + s.last()
    }
}

/// Each call returned a value of the requested length.
pub open spec fn all_match(lengths: Seq<u64>, expected: u64) -> bool {
    forall|i: int| 0 <= i < lengths.len() ==> #[trigger] lengths[i] == expected
}

/// Durations, in nanoseconds, and result lengths of repeated calls that
/// each ask for a value of one length.
pub struct CallTimings {
    expected_len: u64,
    total_nanos: u128,
    count: u64,
    lengths_ok: bool,
    samples: Ghost<Seq<u64>>,
    lengths: Ghost<Seq<u64>>,
}

impl CallTimings {
    pub closed spec fn samples(&self) -> Seq<u64> {
        self.samples@
    }

    pub closed spec fn lengths(&self) -> Seq<u64> {
        self.lengths@
    }

    pub closed spec fn expected_len_spec(&self) -> u64 {
        self.expected_len
    }

    pub closed spec fn wf(&self) -> bool {
        &&& self.samples@.len() == self.count
        &&& self.lengths@.len() == self.count
        &&& self.total_nanos == total(self.samples@)
        &&& self.lengths_ok == all_match(self.lengths@, self.expected_len)
    }

    /// No calls yet; each is to return `expected_len` values.
    pub fn new(expected_len: u64) -> (r: CallTimings)
        ensures
            r.wf(),
            r.samples() == Seq::<u64>::empty(),
            r.lengths() == Seq::<u64>::empty(),
            r.expected_len_spec() == expected_len,
    {
        CallTimings {
            expected_len,
            total_nanos: 0,
            count: 0,
            lengths_ok: true,
            samples: Ghost(Seq::empty()),
            lengths: Ghost(Seq::empty()),
        }
    }

    /// Records one call that took `nanos` and returned `len` values.
    pub fn record(&mut self, nanos: u64, len: u64)
        requires
            old(self).wf(),
            old(self).samples().len() < u64::MAX,
        ensures
            final(self).wf(),
            final(self).samples() == old(self).samples().push(nanos),
            final(self).lengths() == old(self).lengths().push(len),
            final(self).expected_len_spec() == old(self).expected_len_spec(),
    {
        proof {
            lemma_total_bound(self.samples@);
            let c = self.count as int;
            assert(c * u64::MAX + u64::MAX <= u64::MAX * u64::MAX) by (nonlinear_arith)
                requires
                    c < u64::MAX,
            ;
            assert(self.samples@.push(nanos).drop_last() =~= self.samples@);
        }
        let ghost l0 = self.lengths@;
        self.total_nanos = self.total_nanos + nanos as u128;
        self.count = self.count + 1;
        self.lengths_ok = self.lengths_ok && len == self.expected_len;
        self.samples = Ghost(self.samples@.push(nanos));
        self.lengths = Ghost(self.lengths@.push(len));
        proof {
            let l1 = self.lengths@;
            assert(l1[l0.len() as int] == len);
            assert forall|i: int| 0 <= i < l0.len() implies l1[i] == l0[i] by {}
            if all_match(l1, self.expected_len) {
                assert forall|i: int| 0 <= i < l0.len() implies #[trigger] l0[i]
                    == self.expected_len by {
                    assert(l1[i] == self.expected_len);
                }
            }
        }
    }

    /// How many calls were recorded.
    pub fn count(&self) -> (r: u64)
        requires
            self.wf(),
        ensures
            r == self.samples().len(),
    {
        self.count
    }

    /// Whether every call returned the requested length.
    pub fn all_lengths_match(&self) -> (r: bool)
        requires
            self.wf(),
        ensures
            r == all_match(self.lengths(), self.expected_len_spec()),
    {
        self.lengths_ok
    }

    /// The mean duration per call, rounded down; `None` before any call.
    pub fn mean_nanos(&self) -> (r: Option<u64>)
        requires
            self.wf(),
        ensures
            self.samples().len() == 0 ==> r is None,
            self.samples().len() > 0 ==> r == Some((total(self.samples()) / self.samples().len() as int) as u64),
    {
        if self.count == 0 {
            None
        } else {
            proof {
                lemma_total_bound(self.samples@);
                lemma_mean_bound(total(self.samples@), self.count as int);
            }
            Some((self.total_nanos / (self.count as u128)) as u64)
        }
    }
}

proof fn lemma_total_bound(s: Seq<u64>)
    ensures
        0 <= total(s) <= s.len() * u64::MAX,
    decreases s.len(),
{
    if s.len() > 0 {
        lemma_total_bound(s.drop_last());
        assert(total(s) <= s.len() * u64::MAX) by (nonlinear_arith)
            requires
                total(s) == total(s.drop_last()) + s.last(),
                total(s.drop_last()) <= (s.len() - 1) * u64::MAX,
                s.last() <= u64::MAX,
        ;
    }
}

proof fn lemma_mean_bound(t: int, n: int)
    requires
        0 <= t <= n * u64::MAX,
        n > 0,
    ensures
        0 <= t / n <= u64::MAX,
{
    assert(t / n <= u64::MAX) by (nonlinear_arith)
        requires
            0 <= t <= n * u64::MAX,
            n > 0,
    ;
}

/// When every call took some time, the mean per call is positive.
pub proof fn lemma_mean_positive(samples: Seq<u64>)
    requires
        samples.len() > 0,
        forall|i: int| 0 <= i < samples.len() ==> #[trigger] samples[i] > 0,
    ensures
        total(samples) / samples.len() as int >= 1,
{
    lemma_total_at_least_len(samples);
    let t = total(samples);
    let n = samples.len() as int;
    assert(t / n >= 1) by (nonlinear_arith)
        requires
            t >= n,
            n > 0,
    ;
}

proof fn lemma_total_at_least_len(s: Seq<u64>)
    requires
        forall|i: int| 0 <= i < s.len() ==> #[trigger] s[i] > 0,
    ensures
        total(s) >= s.len(),
    decreases s.len(),
{
    if s.len() > 0 {
        let d = s.drop_last();
        assert forall|i: int| 0 <= i < d.len() implies #[trigger] d[i] > 0 by {
            assert(d[i] == s[i]);
        }
        lemma_total_at_least_len(d);
    }
}

} // verus!
