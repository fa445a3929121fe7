use vstd::prelude::*;
use vstd::slice::slice_subrange;

verus! {

/// x264's `NAL_PRIORITY_DISPOSABLE` reference-importance code.
pub const NAL_PRIORITY_DISPOSABLE: i32 = 0;

/// x264's `NAL_PRIORITY_LOW` reference-importance code.
pub const NAL_PRIORITY_LOW: i32 = 1;

/// x264's `NAL_PRIORITY_HIGH` reference-importance code.
pub const NAL_PRIORITY_HIGH: i32 = 2;

/// Used to represent how careful you have to be when sending a unit.
#[derive(Debug, Copy, Clone, Hash, PartialEq, Eq, Structural)]
pub enum Priority {
    /// So unimportant that it could be dropped with barely a trace.
    Disposable,
    /// Not very important.
    Low,
    /// Pretty important.
    High,
    /// Must be delivered.
    Highest,
}

/// The priority that the engine's reference-importance code stands for;
/// codes that are not recognised are treated as the most important.
pub open spec fn priority_of(code: i32) -> Priority {
    if code == NAL_PRIORITY_DISPOSABLE {
        Priority::Disposable
    } else if code == NAL_PRIORITY_LOW {
        Priority::Low
    } else if code == NAL_PRIORITY_HIGH {
        Priority::High
    } else {
        Priority::Highest
    }
}

impl Priority {
    /// Classifies an engine reference-importance code.
    pub fn from_ref_idc(code: i32) -> (r: Priority)
        ensures
            r == priority_of(code),
    {
        if code == NAL_PRIORITY_DISPOSABLE {
            Priority::Disposable
        } else if code == NAL_PRIORITY_LOW {
            Priority::Low
        } else if code == NAL_PRIORITY_HIGH {
            Priority::High
        } else {
            Priority::Highest
        }
    }
}

/// A unit of data, which corresponds to a NAL.
pub struct Unit<'a> {
    priority: Priority,
    payload: &'a [u8],
}

impl<'a> View for Unit<'a> {
    type V = (Priority, Seq<u8>);

    closed spec fn view(&self) -> (Priority, Seq<u8>) {
        (self.priority, self.payload@)
    }
}

impl<'a> Unit<'a> {
    /// How important the unit is when it comes to decoding the video.
    pub fn priority(&self) -> (r: Priority)
        ensures
            r == self@.0,
    {
        self.priority
    }

    /// The bytes of the unit.
    pub fn payload(&self) -> (r: &'a [u8])
        ensures
            r@ == self@.1,
    {
        self.payload
    }
}

impl<'a> AsRef<[u8]> for Unit<'a> {
    fn as_ref(&self) -> &[u8] {
        self.payload
    }
}

/// The bytes of all the units of a sequence, one after another.
pub open spec fn flatten(units: Seq<(Priority, Seq<u8>)>) -> Seq<u8>
    decreases units.len(),
{
    if units.len() == 0 {
        Seq::empty()
    } else {
        flatten(units.drop_last()) + units.last().1
    }
}

/// The result of one encoder call: a sequence of units whose payloads lie one
/// after another in a single chunk of bytes.
pub struct Data {
    chunk: Vec<u8>,
    codes: Vec<i32>,
    ends: Vec<usize>,
}

impl Data {
    /// Where the `i`th unit's payload starts in the chunk.
    pub closed spec fn start(&self, i: int) -> int {
        if i == 0 {
            0
        } else {
            self.ends@[i - 1] as int
        }
    }

    /// The units lie in the chunk in order, without gaps, and cover it.
    pub closed spec fn wf(&self) -> bool {
        &&& self.codes@.len() == self.ends@.len()
        &&& forall|i: int| 0 <= i < self.ends@.len() ==> self.start(i) <= #[trigger] self.ends@[i]
        &&& if self.ends@.len() == 0 {
            self.chunk@.len() == 0
        } else {
            self.ends@.last() == self.chunk@.len()
        }
    }

    pub closed spec fn unit_at(&self, i: int) -> (Priority, Seq<u8>) {
        (priority_of(self.codes@[i]), self.chunk@.subrange(self.start(i), self.ends@[i] as int))
    }
}

/// The sum of the first `k` sizes.
pub open spec fn size_sum(sizes: Seq<usize>, k: int) -> int
    decreases k,
{
    if k <= 0 {
        0
    } else {
        size_sum(sizes, k - 1) + sizes[k - 1]
    }
}

/// Sums of more sizes are no smaller.
proof fn lemma_size_sum_grows(sizes: Seq<usize>, j: int, k: int)
    requires
        0 <= j <= k,
    ensures
        size_sum(sizes, j) <= size_sum(sizes, k),
    decreases k - j,
{
    if j < k {
        lemma_size_sum_grows(sizes, j, k - 1);
    }
}

/// The units that a chunk holds when cut into pieces of the given sizes, in
/// order, each with the priority of its code.
pub open spec fn cut(chunk: Seq<u8>, codes: Seq<i32>, sizes: Seq<usize>) -> Seq<
    (Priority, Seq<u8>),
> {
    Seq::new(
        sizes.len(),
        |i: int| (priority_of(codes[i]), chunk.subrange(size_sum(sizes, i), size_sum(sizes, i + 1))),
    )
}

impl View for Data {
    type V = Seq<(Priority, Seq<u8>)>;

    closed spec fn view(&self) -> Seq<(Priority, Seq<u8>)> {
        Seq::new(self.ends@.len(), |i: int| self.unit_at(i))
    }
}

impl Data {
    /// A sequence of no units.
    pub fn new() -> (r: Data)
        ensures
            r.wf(),
            r@ == Seq::<(Priority, Seq<u8>)>::empty(),
    {
        let r = Data { chunk: Vec::new(), codes: Vec::new(), ends: Vec::new() };
        assert(r@ =~= Seq::<(Priority, Seq<u8>)>::empty());
        r
    }

    /// The units that lie one after another in `chunk`, the `i`th with the
    /// reference-importance code `codes[i]` and `sizes[i]` bytes long. There
    /// are none unless there is a code for each size and the sizes add up to
    /// the chunk's length.
    pub fn from_raw_parts(chunk: Vec<u8>, codes: Vec<i32>, sizes: &[usize]) -> (r: Option<Data>)
        ensures
            r is Some <==> codes@.len() == sizes@.len() && size_sum(sizes@, sizes@.len() as int)
                == chunk@.len(),
            r matches Some(d) ==> d.wf() && d@ == cut(chunk@, codes@, sizes@),
    {
        if codes.len() != sizes.len() {
            return None;
        }
        let n = sizes.len();
        let mut ends: Vec<usize> = Vec::new();
        let mut acc: usize = 0;
        let mut i: usize = 0;
        while i < n
            invariant
                n == sizes@.len(),
                i <= n,
                acc == size_sum(sizes@, i as int),
                acc <= chunk@.len(),
                ends@.len() == i,
                forall|j: int| 0 <= j < i ==> #[trigger] ends@[j] == size_sum(sizes@, j + 1),
            decreases n - i,
        {
            if sizes[i] > chunk.len() - acc {
                proof {
                    lemma_size_sum_grows(sizes@, i + 1, n as int);
                }
                return None;
            }
            acc = acc + sizes[i];
            ends.push(acc);
            i = i + 1;
        }
        if acc != chunk.len() {
            return None;
        }
        let d = Data { chunk, codes, ends };
        proof {
            assert forall|j: int| 0 <= j < n implies d.start(j) == size_sum(sizes@, j) by {}
            assert forall|j: int| 0 <= j < n implies d.start(j) <= #[trigger] d.ends@[j] by {
                assert(d.start(j) == size_sum(sizes@, j));
            }
            if n > 0 {
                assert(d.ends@.last() == d.ends@[n - 1]);
            }
            assert(d@ =~= cut(d.chunk@, d.codes@, sizes@)) by {
                assert forall|j: int| 0 <= j < n implies d.unit_at(j) == cut(
                    d.chunk@,
                    d.codes@,
                    sizes@,
                )[j] by {
                    assert(d.start(j) == size_sum(sizes@, j));
                }
            }
        }
        Some(d)
    }

    /// Appends one unit, given its engine reference-importance code and its
    /// bytes.
    pub fn push(&mut self, ref_idc: i32, payload: &[u8])
        requires
            old(self).wf(),
            flatten(old(self)@).len() + payload@.len() <= usize::MAX,
        ensures
            final(self).wf(),
            final(self)@ == old(self)@.push((priority_of(ref_idc), payload@)),
    {
        proof {
            self.lemma_flatten_prefix(self@.len() as int);
        }
        let ghost prev = *self;
        self.chunk.extend_from_slice(payload);
        assert(self.chunk@ =~= prev.chunk@ + payload@) by {
            assert forall|k: int| 0 <= k < self.chunk@.len() implies self.chunk@[k] == (prev.chunk@
                + payload@)[k] by {
                if k >= prev.chunk@.len() {
                    assert(vstd::pervasive::cloned::<u8>(
                        payload@[k - prev.chunk@.len()],
                        self.chunk@[k],
                    ));
                }
            }
        }
        let end = self.chunk.len();
        self.codes.push(ref_idc);
        self.ends.push(end);
        proof {
            let n = prev.ends@.len() as int;
            assert(self.start(n) == prev.chunk@.len());
            assert forall|i: int| 0 <= i < n implies self.start(i) == prev.start(i) by {}
            assert(self@ =~= prev@.push((priority_of(ref_idc), payload@))) by {
                assert forall|i: int| 0 <= i < n implies self.unit_at(i) == prev.unit_at(i) by {
                    prev.lemma_ends_bounded(i);
                    assert(prev.start(i) <= prev.ends@[i]);
                    assert(self.chunk@.subrange(self.start(i), self.ends@[i] as int)
                        =~= prev.chunk@.subrange(prev.start(i), prev.ends@[i] as int));
                }
                assert(self.chunk@.subrange(self.start(n), self.ends@[n] as int) =~= payload@);
            }
        }
    }

    /// The number of units in this data sequence.
    pub fn len(&self) -> (r: usize)
        ensures
            r == self@.len(),
    {
        self.ends.len()
    }

    /// The `i`th unit, which is only defined for `i` less than `len`.
    pub fn unit(&self, i: usize) -> (r: Unit<'_>)
        requires
            self.wf(),
            i < self@.len(),
        ensures
            r@ == self@[i as int],
    {
        let code = self.codes[i];
        let start: usize = if i == 0 {
            0
        } else {
            self.ends[i - 1]
        };
        let end = self.ends[i];
        proof {
            assert(self.start(i as int) <= end);
            if i > 0 {
                assert(self.start(i - 1) <= self.ends@[i - 1]);
            }
            self.lemma_ends_bounded(i as int);
        }
        let payload = slice_subrange(self.chunk.as_slice(), start, end);
        Unit { priority: Priority::from_ref_idc(code), payload }
    }

    /// The entire chunk of data, as one contiguous byte slice: the payloads of
    /// all the units, one after another.
    pub fn entirety(&self) -> (r: &[u8])
        requires
            self.wf(),
        ensures
            r@ == flatten(self@),
    {
        proof {
            self.lemma_flatten_prefix(self@.len() as int);
        }
        self.chunk.as_slice()
    }

    /// Every unit ends within the chunk.
    proof fn lemma_ends_bounded(&self, i: int)
        requires
            self.wf(),
            0 <= i < self.ends@.len(),
        ensures
            self.ends@[i] <= self.chunk@.len(),
        decreases self.ends@.len() - i,
    {
        if i + 1 < self.ends@.len() {
            assert(self.start(i + 1) <= self.ends@[i + 1]);
            self.lemma_ends_bounded(i + 1);
        }
    }

    /// The first `k` units, flattened, are the chunk up to the end of the
    /// `k`th; all of them are the whole chunk.
    proof fn lemma_flatten_prefix(&self, k: int)
        requires
            self.wf(),
            0 <= k <= self@.len(),
        ensures
            flatten(self@.take(k)) == self.chunk@.subrange(0, self.start(k)),
            k == self@.len() ==> flatten(self@) == self.chunk@,
        decreases k,
    {
        if k > 0 {
            self.lemma_flatten_prefix(k - 1);
            self.lemma_ends_bounded(k - 1);
            assert(self.start(k - 1) <= self.ends@[k - 1]);
            assert(self@.take(k).drop_last() =~= self@.take(k - 1));
            assert(self.chunk@.subrange(0, self.start(k)) =~= self.chunk@.subrange(
                0,
                self.start(k - 1),
            ) + self.chunk@.subrange(self.start(k - 1), self.ends@[k - 1] as int));
        }
        if k == self@.len() {
            assert(self@.take(k) =~= self@);
            if k > 0 {
                assert(self.chunk@.subrange(0, self.start(k)) =~= self.chunk@);
            } else {
                assert(self.chunk@.subrange(0, 0) =~= self.chunk@);
            }
        }
    }
}

} // verus!

verus! {

/// A unit index past the view's length is out of range, and a view of no
/// units holds nothing that any index could reach.
pub proof fn lemma_unit_index_range(d: &Data, i: int)
    ensures
        i >= d@.len() ==> !(0 <= i < d@.len()),
        d@.len() == 0 ==> d@ == Seq::<(Priority, Seq<u8>)>::empty(),
{
    if d@.len() == 0 {
        assert(d@ =~= Seq::<(Priority, Seq<u8>)>::empty());
    }
}

/// The entirety of no units is empty, and that of one unit is its payload.
pub proof fn lemma_entirety_of_few(units: Seq<(Priority, Seq<u8>)>)
    ensures
        units.len() == 0 ==> flatten(units) == Seq::<u8>::empty(),
        units.len() == 1 ==> flatten(units) == units[0].1,
{
    if units.len() == 1 {
        reveal_with_fuel(flatten, 2);
        assert(units.drop_last().len() == 0);
        assert(Seq::<u8>::empty() + units[0].1 =~= units[0].1);
    }
}

} // verus!
