use vstd::prelude::*;

verus! {

/// Captured samples, accumulated as they arrive and read back in
/// consecutive windows of a fixed length. Samples are never dropped: a
/// partial window at the end waits for the samples that complete it.
pub struct SampleWindows<T> {
    samples: Vec<T>,
    window: usize,
}

impl<T> View for SampleWindows<T> {
    type V = Seq<T>;

    closed spec fn view(&self) -> Seq<T> {
        self.samples@
    }
}

impl<T: Copy> SampleWindows<T> {
    /// The length of one analysis window.
    pub closed spec fn window_len(&self) -> nat {
        self.window as nat
    }

    /// An empty accumulator for windows of `window` samples.
    pub fn new(window: usize) -> (r: SampleWindows<T>)
        requires
            window > 0,
        ensures
            r@ == Seq::<T>::empty(),
            r.window_len() == window,
    {
        SampleWindows { samples: Vec::new(), window }
    }

    /// The length of one analysis window.
    pub fn window_size(&self) -> (r: usize)
        ensures
            r == self.window_len(),
    {
        self.window
    }

    /// The number of samples held.
    pub fn len(&self) -> (r: usize)
        ensures
            r == self@.len(),
    {
        self.samples.len()
    }

    /// Appends a chunk of captured samples.
    pub fn extend(&mut self, data: &[T])
        requires
            old(self)@.len() + data@.len() <= usize::MAX,
        ensures
            final(self)@ == old(self)@ + data@,
            final(self).window_len() == old(self).window_len(),
    {
        let mut i: usize = 0;
        while i < data.len()
            invariant
                i <= data@.len(),
                self@ == old(self)@ + data@.subrange(0, i as int),
                self.window_len() == old(self).window_len(),
            decreases data@.len() - i,
        {
            self.samples.push(data[i]);
            i = i + 1;
            assert(data@.subrange(0, i as int) == data@.subrange(0, i - 1 as int).push(data@[i - 1]));
        }
        assert(data@.subrange(0, data@.len() as int) == data@);
    }

    /// The number of complete windows held.
    pub fn window_count(&self) -> (r: usize)
        requires
            self.window_len() > 0,
        ensures
            r == self@.len() / self.window_len(),
    {
        self.samples.len() / self.window
    }

    /// Window `k`: the samples `k * window .. (k + 1) * window`.
    pub fn window(&self, k: usize) -> (r: &[T])
        requires
            self.window_len() > 0,
            k < self@.len() / self.window_len(),
        ensures
            r@ == self@.subrange(
                k * self.window_len() as int,
                (k + 1) * self.window_len() as int,
            ),
    {
        let w = self.window;
        let n = self.samples.len();
        proof {
            vstd::arithmetic::div_mod::lemma_fundamental_div_mod(n as int, w as int);
            vstd::arithmetic::div_mod::lemma_mod_pos_bound(n as int, w as int);
            let q = n as int / w as int;
            assert((k + 1) * w <= q * w) by (nonlinear_arith)
                requires
                    k + 1 <= q,
                    0 < w,
            ;
            assert(w * q == q * w) by (nonlinear_arith);
            assert(k * w + w == (k + 1) * w) by (nonlinear_arith);
        }
        let start = k * w;
        let end = start + w;
        &self.samples.as_slice()[start..end]
    }
}

} // verus!
