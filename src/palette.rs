//! Deduplication of a sequence into distinct representatives and indices.

use vstd::prelude::*;

verus! {

/// An unsigned integer type that palette indices are stored in.
pub trait PaletteIndex: Sized {
    spec fn spec_index(&self) -> int;

    /// The largest index the type holds.
    spec fn max_index() -> int;

    proof fn lemma_zero_fits()
        ensures
            0 <= Self::max_index(),
    ;

    /// The index `n`, when the type can hold it.
    fn from_usize(n: usize) -> (r: Option<Self>)
        ensures
            r is Some <==> n <= Self::max_index(),
            r matches Some(i) ==> i.spec_index() == n,
    ;
}

impl PaletteIndex for u8 {
    open spec fn spec_index(&self) -> int {
        *self as int
    }

    open spec fn max_index() -> int {
        u8::MAX as int
    }

    proof fn lemma_zero_fits() {
    }

    fn from_usize(n: usize) -> (r: Option<u8>) {
        if n as u128 <= u8::MAX as u128 {
            Some(n as u8)
        } else {
            None
        }
    }
}

impl PaletteIndex for u16 {
    open spec fn spec_index(&self) -> int {
        *self as int
    }

    open spec fn max_index() -> int {
        u16::MAX as int
    }

    proof fn lemma_zero_fits() {
    }

    fn from_usize(n: usize) -> (r: Option<u16>) {
        if n as u128 <= u16::MAX as u128 {
            Some(n as u16)
        } else {
            None
        }
    }
}

impl PaletteIndex for u32 {
    open spec fn spec_index(&self) -> int {
        *self as int
    }

    open spec fn max_index() -> int {
        u32::MAX as int
    }

    proof fn lemma_zero_fits() {
    }

    fn from_usize(n: usize) -> (r: Option<u32>) {
        if n as u128 <= u32::MAX as u128 {
            Some(n as u32)
        } else {
            None
        }
    }
}

impl PaletteIndex for u64 {
    open spec fn spec_index(&self) -> int {
        *self as int
    }

    open spec fn max_index() -> int {
        u64::MAX as int
    }

    proof fn lemma_zero_fits() {
    }

    fn from_usize(n: usize) -> (r: Option<u64>) {
        if n as u128 <= u64::MAX as u128 {
            Some(n as u64)
        } else {
            None
        }
    }
}

impl PaletteIndex for usize {
    open spec fn spec_index(&self) -> int {
        *self as int
    }

    open spec fn max_index() -> int {
        usize::MAX as int
    }

    proof fn lemma_zero_fits() {
    }

    fn from_usize(n: usize) -> (r: Option<usize>) {
        if true {
            Some(n)
        } else {
            None
        }
    }
}

/// The distinct values of a sequence, and for each value the position of
/// its representative.
pub struct Palette<E, I> {
    pub elements: Vec<E>,
    pub indices: Vec<I>,
}

pub open spec fn index_values<I: PaletteIndex>(indices: Seq<I>) -> Seq<int> {
    indices.map_values(|i: I| i.spec_index())
}

/// `elements` and `indices` are what a first-fit scan of `values` produces:
/// each value is compared, in order, with the representatives found so far;
/// it takes the first one the predicate accepts, or becomes a new one (a
/// clone of it) when none does. `origin[k]` is the value representative `k`
/// was cloned from.
pub open spec fn first_fit<E: Clone, P: Fn(&E, &E) -> bool>(
    values: Seq<E>,
    predicate: P,
    elements: Seq<E>,
    indices: Seq<int>,
    origin: Seq<int>,
) -> bool {
    &&& indices.len() == values.len()
    &&& origin.len() == elements.len()
    &&& forall|k: int|
        0 <= k < elements.len() ==> 0 <= #[trigger] origin[k] < values.len() && indices[origin[k]] == k
            && cloned(values[origin[k]], elements[k])
    &&& forall|k1: int, k2: int| 0 <= k1 < k2 < elements.len() ==> origin[k1] < origin[k2]
    &&& forall|i: int|
        0 <= i < values.len() ==> {
            let k = #[trigger] indices[i];
            &&& 0 <= k < elements.len()
            &&& origin[k] <= i
            &&& forall|j: int| 0 <= j < k ==> predicate.ensures((&values[i], &elements[j]), false)
            &&& origin[k] == i || predicate.ensures((&values[i], &elements[k]), true)
        }
}

/// Some choice of origins makes `elements` and `indices` a first-fit scan of `values`.
pub open spec fn is_first_fit<E: Clone, P: Fn(&E, &E) -> bool>(
    values: Seq<E>,
    predicate: P,
    elements: Seq<E>,
    indices: Seq<int>,
) -> bool {
    exists|origin: Seq<int>| #[trigger] first_fit(values, predicate, elements, indices, origin)
}

impl<E: Clone, I: PaletteIndex> Palette<E, I> {
    /// Finds the distinct values of a slice by comparing each value with the
    /// representatives found so far. `None` when there are more distinct
    /// values than `I` can number.
    pub fn naive<P: Fn(&E, &E) -> bool>(values: &[E], predicate: P) -> (r: Option<Self>)
        requires
            forall|a: &E, b: &E| predicate.requires((a, b)),
        ensures
            values@.len() <= I::max_index() + 1 ==> r is Some,
            r matches Some(p) ==> is_first_fit(values@, predicate, p.elements@, index_values(p.indices@)),
            r is None ==> exists|k: int, elements: Seq<E>, indices: Seq<int>|
                0 <= k <= values@.len() && #[trigger] is_first_fit(
                    values@.take(k),
                    predicate,
                    elements,
                    indices,
                ) && elements.len() == I::max_index() + 2,
    {
        proof {
            I::lemma_zero_fits();
        }
        let mut elements: Vec<E> = Vec::new();
        let mut indices: Vec<I> = Vec::new();
        let ghost mut origin: Seq<int> = Seq::empty();
        let mut i: usize = 0;
        while i < values.len()
            invariant
                i <= values@.len(),
                forall|a: &E, b: &E| predicate.requires((a, b)),
                elements@.len() <= i,
                elements@.len() <= I::max_index() + 1,
                first_fit(values@.take(i as int), predicate, elements@, index_values(indices@), origin),
            decreases values@.len() - i,
        {
            let ghost prefix = values@.take(i as int);
            let ghost old_elements = elements@;
            let ghost old_indices = index_values(indices@);
            let ghost old_origin = origin;
            let value = &values[i];
            let mut j: usize = 0;
            let mut found = false;
            while j < elements.len() && !found
                invariant
                    j <= elements@.len(),
                        elements@ == old_elements,
                    forall|a: &E, b: &E| predicate.requires((a, b)),
                    *value == values@[i as int],
                    found ==> j < elements@.len() && predicate.ensures(
                        (value, &elements@[j as int]),
                        true,
                    ),
                    forall|jj: int|
                        0 <= jj < j ==> predicate.ensures((value, &elements@[jj]), false),
                decreases elements@.len() - j + if found { 0int } else { 1int },
            {
                if predicate(value, &elements[j]) {
                    found = true;
                } else {
                    j = j + 1;
                }
            }
            let index = if found {
                j
            } else {
                let copy = value.clone();
                elements.push(copy);
                proof {
                    origin = origin.push(i as int);
                }
                elements.len() - 1
            };
            let ghost new_indices = old_indices.push(index as int);
            let ghost next = values@.take(i + 1);
            assert(next.take(i as int) =~= prefix);
            assert(next[i as int] == values@[i as int]);
            assert forall|jj: int| 0 <= jj < index implies predicate.ensures(
                (&next[i as int], &elements@[jj]),
                false,
            ) by {
                assert(elements@[jj] == old_elements[jj]);
            }
            assert(first_fit(next, predicate, elements@, new_indices, origin)) by {
                assert forall|k: int| 0 <= k < elements@.len() implies 0 <= #[trigger] origin[k]
                    < next.len() && new_indices[origin[k]] == k && cloned(
                    next[origin[k]],
                    elements@[k],
                ) by {
                    if k < old_elements.len() {
                        assert(origin[k] == old_origin[k]);
                        assert(elements@[k] == old_elements[k]);
                        assert(next[origin[k]] == prefix[origin[k]]);
                    }
                }
                assert forall|ii: int| 0 <= ii < next.len() implies {
                    let k = #[trigger] new_indices[ii];
                    &&& 0 <= k < elements@.len()
                    &&& origin[k] <= ii
                    &&& forall|jj: int|
                        0 <= jj < k ==> predicate.ensures((&next[ii], &elements@[jj]), false)
                    &&& origin[k] == ii || predicate.ensures((&next[ii], &elements@[k]), true)
                } by {
                    if ii < i {
                        let k = old_indices[ii];
                        assert(new_indices[ii] == k);
                        assert(next[ii] == prefix[ii]);
                        assert(origin[k] == old_origin[k]);
                        assert forall|jj: int| 0 <= jj < k implies predicate.ensures(
                            (&next[ii], &elements@[jj]),
                            false,
                        ) by {
                            assert(elements@[jj] == old_elements[jj]);
                        }
                        assert(elements@[k] == old_elements[k]);
                    }
                }
            }
            match I::from_usize(index) {
                Some(x) => {
                    indices.push(x);
                    assert(index_values(indices@) =~= new_indices);
                },
                None => {
                    assert(first_fit(values@.take(i + 1), predicate, elements@, new_indices, origin));
                    assert(0 <= i + 1 <= values@.len() && is_first_fit(
                        values@.take(i + 1),
                        predicate,
                        elements@,
                        new_indices,
                    ) && elements@.len() == I::max_index() + 2);
                    return None;
                },
            }
            i = i + 1;
        }
        assert(values@.take(i as int) =~= values@);
        assert(first_fit(values@, predicate, elements@, index_values(indices@), origin));
        let palette = Palette { elements, indices };
        assert(is_first_fit(values@, predicate, palette.elements@, index_values(palette.indices@)));
        Some(palette)
    }
}

} // verus!
