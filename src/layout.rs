//! Field offsets and sizes of `#[repr(C)]` structs, for vertex attribute layouts.

use vstd::prelude::*;

verus! {

/// One field of a `#[repr(C)]` struct: its size and alignment in bytes.
#[derive(Clone, Copy, Debug, PartialEq, Eq, Structural)]
pub struct Field {
    pub size: usize,
    pub align: usize,
}

/// `n` rounded up to a multiple of `align`.
pub open spec fn round_up(n: int, align: int) -> int {
    if n % align == 0 {
        n
    } else {
        n + align - n % align
    }
}

/// The offset of field `i` under the C layout rules: each field starts at the
/// first multiple of its alignment after the end of the previous one.
pub open spec fn c_offset(fields: Seq<Field>, i: int) -> int
    decreases i,
{
    if i <= 0 {
        0
    } else {
        round_up(c_offset(fields, i - 1) + fields[i - 1].size, fields[i].align as int)
    }
}

/// The largest alignment among the first `n` fields, and at least one.
pub open spec fn c_align(fields: Seq<Field>, n: int) -> int
    decreases n,
{
    if n <= 0 {
        1
    } else {
        let a = c_align(fields, n - 1);
        if fields[n - 1].align > a {
            fields[n - 1].align as int
        } else {
            a
        }
    }
}

/// The size of the struct: the end of its last field, rounded up to its alignment.
pub open spec fn c_size(fields: Seq<Field>) -> int {
    if fields.len() == 0 {
        0
    } else {
        let last = fields.len() - 1;
        round_up(c_offset(fields, last) + fields[last].size, c_align(fields, fields.len() as int))
    }
}

pub open spec fn aligned(fields: Seq<Field>) -> bool {
    forall|i: int| 0 <= i < fields.len() ==> (#[trigger] fields[i]).align > 0
}

/// An integer type an offset can be given in.
pub trait OffsetType: Sized {
    spec fn spec_value(&self) -> int;

    spec fn fits(n: int) -> bool;

    proof fn lemma_fits_bounded(n: int)
        requires
            Self::fits(n),
        ensures
            0 <= n <= usize::MAX,
    ;

    fn from_usize(n: usize) -> (r: Option<Self>)
        ensures
            r is Some <==> Self::fits(n as int),
            r matches Some(v) ==> v.spec_value() == n,
    ;
}

impl OffsetType for usize {
    open spec fn spec_value(&self) -> int {
        *self as int
    }

    open spec fn fits(n: int) -> bool {
        0 <= n <= usize::MAX
    }

    proof fn lemma_fits_bounded(n: int) {
    }

    fn from_usize(n: usize) -> (r: Option<usize>) {
        Some(n)
    }
}

impl OffsetType for isize {
    open spec fn spec_value(&self) -> int {
        *self as int
    }

    open spec fn fits(n: int) -> bool {
        0 <= n <= isize::MAX
    }

    proof fn lemma_fits_bounded(n: int) {
    }

    fn from_usize(n: usize) -> (r: Option<isize>) {
        if n <= isize::MAX as usize {
            Some(n as isize)
        } else {
            None
        }
    }
}

impl OffsetType for u32 {
    open spec fn spec_value(&self) -> int {
        *self as int
    }

    open spec fn fits(n: int) -> bool {
        0 <= n <= u32::MAX
    }

    proof fn lemma_fits_bounded(n: int) {
    }

    fn from_usize(n: usize) -> (r: Option<u32>) {
        if n as u128 <= u32::MAX as u128 {
            Some(n as u32)
        } else {
            None
        }
    }
}

impl OffsetType for i32 {
    open spec fn spec_value(&self) -> int {
        *self as int
    }

    open spec fn fits(n: int) -> bool {
        0 <= n <= i32::MAX
    }

    proof fn lemma_fits_bounded(n: int) {
    }

    fn from_usize(n: usize) -> (r: Option<i32>) {
        if n as u128 <= i32::MAX as u128 {
            Some(n as i32)
        } else {
            None
        }
    }
}

fn checked_round_up(n: usize, align: usize) -> (r: Option<usize>)
    requires
        align > 0,
    ensures
        r is Some <==> round_up(n as int, align as int) <= usize::MAX,
        r matches Some(v) ==> v == round_up(n as int, align as int),
{
    let rem = n % align;
    if rem == 0 {
        Some(n)
    } else {
        n.checked_add(align - rem)
    }
}

proof fn lemma_round_up_grows(n: int, align: int)
    requires
        align > 0,
        n >= 0,
    ensures
        n <= round_up(n, align),
{
}

proof fn lemma_offsets_grow(fields: Seq<Field>, i: int, j: int)
    requires
        aligned(fields),
        0 <= i <= j < fields.len(),
    ensures
        c_offset(fields, i) + fields[i].size <= c_offset(fields, j) + fields[j].size,
        0 <= c_offset(fields, i),
    decreases j - i,
{
    lemma_offset_nonneg(fields, i);
    if i < j {
        lemma_offsets_grow(fields, i, j - 1);
        lemma_offset_nonneg(fields, j - 1);
        assert(fields[j].align > 0);
        lemma_round_up_grows(c_offset(fields, j - 1) + fields[j - 1].size, fields[j].align as int);
    }
}

proof fn lemma_offset_nonneg(fields: Seq<Field>, i: int)
    requires
        aligned(fields),
        0 <= i < fields.len(),
    ensures
        0 <= c_offset(fields, i),
    decreases i,
{
    if i > 0 {
        lemma_offset_nonneg(fields, i - 1);
        assert(fields[i].align > 0);
        lemma_round_up_grows(c_offset(fields, i - 1) + fields[i - 1].size, fields[i].align as int);
    }
}

/// The offsets of the first `n` fields; `None` when one does not fit in `usize`.
fn offsets_up_to(fields: &[Field], n: usize) -> (r: Option<Vec<usize>>)
    requires
        aligned(fields@),
        n <= fields@.len(),
    ensures
        r is Some <==> forall|i: int| 0 <= i < n ==> c_offset(fields@, i) <= usize::MAX,
        r matches Some(v) ==> v@.len() == n && forall|i: int|
            0 <= i < n ==> v@[i] == c_offset(fields@, i),
{
    let mut offsets: Vec<usize> = Vec::new();
    let mut i: usize = 0;
    while i < n
        invariant
            i <= n <= fields@.len(),
            aligned(fields@),
            offsets@.len() == i,
            forall|k: int| 0 <= k < i ==> offsets@[k] == c_offset(fields@, k),
        decreases n - i,
    {
        let next = if i == 0 {
            Some(0usize)
        } else {
            let prev = offsets[i - 1];
            match prev.checked_add(fields[i - 1].size) {
                Some(end) => {
                    assert(fields@[i as int].align > 0);
                    checked_round_up(end, fields[i].align)
                },
                None => None,
            }
        };
        match next {
            Some(offset) => {
                offsets.push(offset);
            },
            None => {
                proof {
                    // The offset of field `i` does not fit, and nothing before it
                    // overflowed, so this is the first one that does not fit.
                    assert(c_offset(fields@, i as int) > usize::MAX) by {
                        lemma_round_up_grows(
                            c_offset(fields@, i - 1) + fields@[i - 1].size,
                            fields@[i as int].align as int,
                        );
                        lemma_offset_nonneg(fields@, i - 1);
                    }
                }
                return None;
            },
        }
        i = i + 1;
    }
    Some(offsets)
}

/// The offset of field `index` in a `#[repr(C)]` struct with these fields,
/// given in the integer type `O`; `None` when it does not fit there.
pub fn field_offset<O: OffsetType>(fields: &[Field], index: usize) -> (r: Option<O>)
    requires
        aligned(fields@),
        index < fields@.len(),
    ensures
        r is Some <==> O::fits(c_offset(fields@, index as int)),
        r matches Some(v) ==> v.spec_value() == c_offset(fields@, index as int),
{
    let count = fields.len();
    assert(index < count);
    match offsets_up_to(fields, index + 1) {
        Some(offsets) => O::from_usize(offsets[index]),
        None => {
            proof {
                if O::fits(c_offset(fields@, index as int)) {
                    O::lemma_fits_bounded(c_offset(fields@, index as int));
                    assert forall|i: int| 0 <= i < index + 1 implies c_offset(fields@, i) <= usize::MAX by {
                        if i < index {
                            lemma_offsets_grow(fields@, i, index - 1);
                            lemma_offset_nonneg(fields@, i);
                            assert(fields@[index as int].align > 0);
                            lemma_round_up_grows(
                                c_offset(fields@, index - 1) + fields@[index - 1].size,
                                fields@[index as int].align as int,
                            );
                        }
                    }
                }
            }
            None
        },
    }
}

proof fn lemma_align_positive(fields: Seq<Field>, n: int)
    ensures
        c_align(fields, n) >= 1,
    decreases n,
{
    if n > 0 {
        lemma_align_positive(fields, n - 1);
    }
}

/// The size of a `#[repr(C)]` struct with these fields; `None` when it does
/// not fit in `usize`.
pub fn struct_size(fields: &[Field]) -> (r: Option<usize>)
    requires
        aligned(fields@),
    ensures
        r is Some <==> c_size(fields@) <= usize::MAX,
        r matches Some(v) ==> v == c_size(fields@),
{
    let n = fields.len();
    if n == 0 {
        return Some(0);
    }
    let mut align: usize = 1;
    let mut i: usize = 0;
    while i < n
        invariant
            n == fields@.len(),
            i <= n,
            align == c_align(fields@, i as int),
        decreases n - i,
    {
        if fields[i].align > align {
            align = fields[i].align;
        }
        i = i + 1;
    }
    proof {
        lemma_align_positive(fields@, n as int);
    }
    let ghost last = n - 1;
    let ghost end = c_offset(fields@, last) + fields@[last].size;
    match offsets_up_to(fields, n) {
        Some(offsets) => match offsets[n - 1].checked_add(fields[n - 1].size) {
            Some(e) => checked_round_up(e, align),
            None => {
                proof {
                    lemma_round_up_grows(end, align as int);
                }
                None
            },
        },
        None => {
            proof {
                let k = choose|k: int| 0 <= k < n && c_offset(fields@, k) > usize::MAX;
                lemma_offsets_grow(fields@, k, last);
                lemma_offset_nonneg(fields@, k);
                lemma_round_up_grows(end, align as int);
            }
            None
        },
    }
}

} // verus!
