//! The game's array list: a pair of addresses, the first element and the end
//! of the elements, with the elements laid out one after another.
use vstd::prelude::*;

use core::marker::PhantomData;

use crate::api::AnnoPtr;
use crate::memory::{read_each_u64, spec_read_each_u64, MemoryImage, ReadError};

verus! {

/// Elements of `stride` bytes from `first` up to `last` fit exactly: `last`
/// is reached after a whole number of strides.
pub open spec fn strided_span(first: u64, last: u64, stride: u64) -> bool {
    &&& stride > 0
    &&& first <= last
    &&& (last - first) % (stride as int) == 0
}

/// The number of `stride`-byte elements from `first` up to `last`.
pub open spec fn strided_count(first: u64, last: u64, stride: u64) -> int {
    (last - first) / (stride as int)
}

/// `v` holds, in order, the objects at `first`, `first + stride`, ... up to
/// but not including `last`.
pub open spec fn strided_objects<T: AnnoPtr>(v: Seq<T>, first: u64, last: u64, stride: u64) -> bool {
    &&& v.len() == strided_count(first, last, stride)
    &&& forall|i: int| 0 <= i < v.len() ==> #[trigger] v[i].spec_address() == first + stride * i
}

/// Whether `stride`-byte elements from `first` up to `last` fit exactly.
pub fn strided_span_holds(first: u64, last: u64, stride: u64) -> (b: bool)
    ensures
        b == strided_span(first, last, stride),
{
    stride > 0 && first <= last && (last - first) % stride == 0
}

/// In a span that fits, an element that starts before the end is one of the
/// span's elements, and the next one starts no later than the end.
pub proof fn lemma_stride_step(first: u64, last: u64, stride: u64, i: int)
    requires
        strided_span(first, last, stride),
        0 <= i,
        first + stride * i < last,
    ensures
        i < strided_count(first, last, stride),
        first + stride * (i + 1) <= last,
        first + stride * (i + 1) == first + stride * i + stride,
{
    let q = (last - first) / (stride as int);
    assert(last - first == stride * q) by (nonlinear_arith)
        requires
            (last - first) % (stride as int) == 0,
            stride > 0,
            q == (last - first) / (stride as int),
    ;
    assert(i < q) by (nonlinear_arith)
        requires
            stride * i < stride * q,
            stride > 0,
    ;
    assert(stride * (i + 1) <= stride * q) by (nonlinear_arith)
        requires
            i + 1 <= q,
            stride > 0,
    ;
    assert(stride * (i + 1) == stride * i + stride) by (nonlinear_arith);
}

/// In a span that fits, element `k` starts `k` strides after the first
/// address, before the end, and the span has `strided_count` addresses.
pub proof fn lemma_strided_element(first: u64, last: u64, stride: u64, k: int)
    requires
        strided_span(first, last, stride),
        0 <= k < strided_count(first, last, stride),
    ensures
        first + stride * k < last,
        strided_addrs(first, last, stride).len() == strided_count(first, last, stride),
        strided_addrs(first, last, stride)[k] == first + stride * k,
{
    let q = strided_count(first, last, stride);
    assert(last - first == stride * q) by (nonlinear_arith)
        requires
            (last - first) % (stride as int) == 0,
            stride > 0,
            q == (last - first) / (stride as int),
    ;
    assert(stride * k < stride * q) by (nonlinear_arith)
        requires
            0 <= k < q,
            stride > 0,
    ;
}

/// In a span that fits, the end is reached after as many strides as the span
/// has elements.
pub proof fn lemma_stride_end(first: u64, last: u64, stride: u64, i: int)
    requires
        strided_span(first, last, stride),
        first + stride * i == last,
    ensures
        i == strided_count(first, last, stride),
{
    assert(i == (last - first) / (stride as int)) by (nonlinear_arith)
        requires
            last - first == stride * i,
            stride > 0,
    ;
}

/// The objects at `first`, `first + stride`, ... up to but not including `last`.
pub fn collect_strided<T: AnnoPtr>(first: u64, last: u64, stride: u64) -> (v: Vec<T>)
    requires
        strided_span(first, last, stride),
    ensures
        strided_objects(v@, first, last, stride),
{
    let mut elements: Vec<T> = Vec::new();
    let mut current = first;
    let ghost mut i: int = 0;
    assert(first + stride * 0 == first) by (nonlinear_arith);
    while current != last
        invariant
            strided_span(first, last, stride),
            0 <= i,
            current == first + stride * i,
            current <= last,
            elements@.len() == i,
            forall|j: int| 0 <= j < i ==> #[trigger] elements@[j].spec_address() == first + stride * j,
        decreases last - current,
    {
        proof {
            lemma_stride_step(first, last, stride, i);
        }
        elements.push(T::new(current));
        current = current + stride;
        proof {
            i = i + 1;
        }
    }
    proof {
        lemma_stride_end(first, last, stride, i);
    }
    elements
}

/// Where the two addresses at `first_at` and `last_at` can be read, the
/// `stride`-byte elements between them fit exactly (else the walk over them
/// would not end).
pub open spec fn span_fits(mem: &MemoryImage, first_at: int, last_at: int, stride: u64) -> bool {
    (mem.spec_read_u64(first_at) is Ok && mem.spec_read_u64(last_at) is Ok) ==> strided_span(
        mem.spec_read_u64(first_at)->Ok_0,
        mem.spec_read_u64(last_at)->Ok_0,
        stride,
    )
}

/// `r` is the outcome of reading the first and the end address at
/// `first_at` and `last_at`, then taking the objects between them.
pub open spec fn span_read<T: AnnoPtr>(
    mem: &MemoryImage,
    first_at: int,
    last_at: int,
    stride: u64,
    r: Result<Vec<T>, ReadError>,
) -> bool {
    match (mem.spec_read_u64(first_at), mem.spec_read_u64(last_at)) {
        (Err(e), _) => r == Err::<Vec<T>, ReadError>(e),
        (Ok(_), Err(e)) => r == Err::<Vec<T>, ReadError>(e),
        (Ok(first), Ok(last)) => r matches Ok(v) && strided_objects(v@, first, last, stride),
    }
}

/// Reads the first and the end address at `base + first_off` and
/// `base + last_off`, and gives the `stride`-byte objects between them.
pub fn read_span<T: AnnoPtr>(mem: &MemoryImage, base: u64, first_off: u64, last_off: u64, stride: u64) -> (r:
    Result<Vec<T>, ReadError>)
    requires
        span_fits(mem, base + first_off, base + last_off, stride),
    ensures
        span_read(mem, base + first_off, base + last_off, stride, r),
{
    let first = mem.read_u64(base, first_off)?;
    let last = mem.read_u64(base, last_off)?;
    Ok(collect_strided(first, last, stride))
}

/// `v` holds, in order, the objects at the addresses `s`.
pub open spec fn pointed_objects<T: AnnoPtr>(v: Seq<T>, s: Seq<u64>) -> bool {
    &&& v.len() == s.len()
    &&& forall|i: int| 0 <= i < v.len() ==> #[trigger] v[i].spec_address() == s[i]
}

/// The objects at the addresses `addrs`, in order.
pub fn objects_at<T: AnnoPtr>(addrs: &Vec<u64>) -> (v: Vec<T>)
    ensures
        pointed_objects(v@, addrs@),
{
    let mut v: Vec<T> = Vec::new();
    let mut i: usize = 0;
    while i < addrs.len()
        invariant
            i <= addrs@.len(),
            v@.len() == i,
            forall|j: int| 0 <= j < i ==> #[trigger] v@[j].spec_address() == addrs@[j],
        decreases addrs@.len() - i,
    {
        v.push(T::new(addrs[i]));
        i = i + 1;
    }
    v
}

/// The addresses `first`, `first + stride`, ... up to but not including `last`.
pub open spec fn strided_addrs(first: u64, last: u64, stride: u64) -> Seq<u64> {
    Seq::new(strided_count(first, last, stride) as nat, |i: int| (first + stride * i) as u64)
}

/// Reading the first and the end address at `first_at` and `last_at`: the
/// addresses of the `stride`-byte elements between them.
pub open spec fn spec_span(mem: &MemoryImage, first_at: int, last_at: int, stride: u64) -> Result<
    Seq<u64>,
    ReadError,
> {
    match (mem.spec_read_u64(first_at), mem.spec_read_u64(last_at)) {
        (Err(e), _) => Err(e),
        (Ok(_), Err(e)) => Err(e),
        (Ok(first), Ok(last)) => Ok(strided_addrs(first, last, stride)),
    }
}

/// The objects a span read gives are those at the addresses `spec_span`
/// gives.
pub proof fn lemma_span_read_addrs<T: AnnoPtr>(
    mem: &MemoryImage,
    first_at: int,
    last_at: int,
    stride: u64,
    r: Result<Vec<T>, ReadError>,
)
    requires
        span_read(mem, first_at, last_at, stride, r),
    ensures
        match spec_span(mem, first_at, last_at, stride) {
            Ok(s) => r matches Ok(v) && pointed_objects(v@, s),
            Err(e) => r == Err::<Vec<T>, ReadError>(e),
        },
{
    if let (Ok(first), Ok(last)) = (mem.spec_read_u64(first_at), mem.spec_read_u64(last_at)) {
        let v = r->Ok_0;
        let s = strided_addrs(first, last, stride);
        assert forall|i: int| 0 <= i < v@.len() implies #[trigger] v@[i].spec_address() == s[i] by {
            assert(v@[i].spec_address() == first + stride * i);
        }
    }
}

/// Reading the first and the end address at `first_at` and `last_at`, then
/// the address held in each word between them.
pub open spec fn spec_span_deref(mem: &MemoryImage, first_at: int, last_at: int) -> Result<
    Seq<u64>,
    ReadError,
> {
    match (mem.spec_read_u64(first_at), mem.spec_read_u64(last_at)) {
        (Err(e), _) => Err(e),
        (Ok(_), Err(e)) => Err(e),
        (Ok(first), Ok(last)) => spec_read_each_u64(mem, strided_addrs(first, last, 8)),
    }
}

/// `r` holds the objects at the addresses `spec_span_deref` gives, or its
/// error.
pub open spec fn span_deref_read<T: AnnoPtr>(
    mem: &MemoryImage,
    first_at: int,
    last_at: int,
    r: Result<Vec<T>, ReadError>,
) -> bool {
    match spec_span_deref(mem, first_at, last_at) {
        Ok(s) => r matches Ok(v) && pointed_objects(v@, s),
        Err(e) => r == Err::<Vec<T>, ReadError>(e),
    }
}

/// Reads the first and the end address at `base + first_off` and
/// `base + last_off`, then the address in each word between them, and gives
/// the objects at those addresses.
pub fn read_span_deref<T: AnnoPtr>(mem: &MemoryImage, base: u64, first_off: u64, last_off: u64) -> (r:
    Result<Vec<T>, ReadError>)
    requires
        span_fits(mem, base + first_off, base + last_off, 8),
    ensures
        span_deref_read(mem, base + first_off, base + last_off, r),
{
    let slots: Vec<u64> = read_span(mem, base, first_off, last_off, 8)?;
    proof {
        let first = mem.spec_read_u64(base + first_off)->Ok_0;
        let last = mem.spec_read_u64(base + last_off)->Ok_0;
        assert(slots@ =~= strided_addrs(first, last, 8)) by {
            assert forall|i: int| 0 <= i < slots@.len() implies slots@[i] == strided_addrs(
                first,
                last,
                8,
            )[i] by {
                assert(slots@[i].spec_address() == first + 8 * i);
            }
        }
    }
    let addrs = read_each_u64(mem, &slots)?;
    Ok(objects_at(&addrs))
}

/// A plain address stands for the object at that address.
impl AnnoPtr for u64 {
    open spec fn spec_address(&self) -> u64 {
        *self
    }

    fn new(address: u64) -> (r: Self) {
        address
    }

    fn get_address(&self) -> (a: u64) {
        *self
    }
}

/// An array list whose elements are 8-byte words, each standing for a `T`.
pub struct ArrayListPtr<T: AnnoPtr> {
    pub address: u64,
    pub phantom: PhantomData<T>,
}

impl<T: AnnoPtr> AnnoPtr for ArrayListPtr<T> {
    open spec fn spec_address(&self) -> u64 {
        self.address
    }

    fn new(address: u64) -> (r: Self) {
        ArrayListPtr { address, phantom: PhantomData }
    }

    fn get_address(&self) -> (a: u64) {
        self.address
    }
}

impl<T: AnnoPtr> ArrayListPtr<T> {
    /// The address of the first element.
    pub fn get_first_box(&self, mem: &MemoryImage) -> (r: Result<u64, ReadError>)
        ensures
            r == mem.spec_read_u64(self.address + 0x00),
    {
        mem.read_u64(self.address, 0x00)
    }

    /// The address just past the last element.
    pub fn get_last_box(&self, mem: &MemoryImage) -> (r: Result<u64, ReadError>)
        ensures
            r == mem.spec_read_u64(self.address + 0x08),
    {
        mem.read_u64(self.address, 0x08)
    }

    /// Where the list's two addresses can be read, the words between them
    /// fit exactly (else the walk over them would not end).
    pub open spec fn words_fit(&self, mem: &MemoryImage) -> bool {
        (mem.spec_read_u64(self.address + 0x00) is Ok && mem.spec_read_u64(self.address + 0x08) is Ok)
            ==> strided_span(
            mem.spec_read_u64(self.address + 0x00)->Ok_0,
            mem.spec_read_u64(self.address + 0x08)->Ok_0,
            8,
        )
    }

    /// One `T` for each word of the list, standing at the word's address.
    pub fn get_all_words(&self, mem: &MemoryImage) -> (r: Result<Vec<T>, ReadError>)
        requires
            self.words_fit(mem),
        ensures
            match (mem.spec_read_u64(self.address + 0x00), mem.spec_read_u64(self.address + 0x08)) {
                (Err(e), _) => r == Err::<Vec<T>, ReadError>(e),
                (Ok(_), Err(e)) => r == Err::<Vec<T>, ReadError>(e),
                (Ok(first), Ok(last)) => r matches Ok(v) && strided_objects(v@, first, last, 8),
            },
    {
        let first = self.get_first_box(mem)?;
        let last = self.get_last_box(mem)?;
        Ok(collect_strided(first, last, 8))
    }
}

} // verus!
