//! The vertex references of Wavefront OBJ face lines.

use vstd::prelude::*;

verus! {

/// One corner of a face: zero-based indices into the position, texture
/// coordinate and normal lists.
#[derive(Clone, Copy, Debug, PartialEq, Eq, Structural)]
pub struct FaceVertex {
    pub position: u32,
    pub texture: u32,
    pub normal: u32,
}

pub open spec fn is_digit(b: u8) -> bool {
    48 <= b <= 57
}

/// The value of a string of decimal digits.
pub open spec fn decimal(s: Seq<u8>) -> int
    decreases s.len(),
{
    if s.len() == 0 {
        0
    } else {
        decimal(s.drop_last()) * 10 + (s.last() - 48)
    }
}

pub open spec fn is_number(s: Seq<u8>) -> bool {
    s.len() > 0 && forall|i: int| 0 <= i < s.len() ==> is_digit(#[trigger] s[i])
}

/// The pieces of `s` between the slashes.
pub open spec fn slash_parts(s: Seq<u8>) -> Seq<Seq<u8>>
    decreases s.len(),
{
    if s.len() == 0 {
        seq![Seq::empty()]
    } else {
        let before = slash_parts(s.drop_last());
        if s.last() == 47 {
            before.push(Seq::empty())
        } else {
            before.update(before.len() - 1, before.last().push(s.last()))
        }
    }
}

/// A one-based index as written, taken to zero-based.
pub open spec fn index_of(s: Seq<u8>) -> Option<u32> {
    if is_number(s) && 1 <= decimal(s) <= u32::MAX {
        Some((decimal(s) - 1) as u32)
    } else {
        None
    }
}

/// What a face-vertex token `p/t/n` reads as.
pub open spec fn face_vertex_of(token: Seq<u8>) -> Option<FaceVertex> {
    let parts = slash_parts(token);
    if parts.len() == 3 && index_of(parts[0]) is Some && index_of(parts[1]) is Some && index_of(
        parts[2],
    ) is Some {
        Some(
            FaceVertex {
                position: index_of(parts[0])->Some_0,
                texture: index_of(parts[1])->Some_0,
                normal: index_of(parts[2])->Some_0,
            },
        )
    } else {
        None
    }
}

proof fn lemma_decimal_grows(s: Seq<u8>, k: int)
    requires
        0 <= k <= s.len(),
        forall|i: int| 0 <= i < s.len() ==> is_digit(#[trigger] s[i]),
    ensures
        decimal(s.take(k)) <= decimal(s),
        0 <= decimal(s.take(k)),
    decreases s.len(),
{
    if s.len() > 0 {
        let before = s.drop_last();
        assert forall|i: int| 0 <= i < before.len() implies is_digit(#[trigger] before[i]) by {
            assert(before[i] == s[i]);
        }
        if k == s.len() {
            assert(s.take(k) =~= s);
            lemma_decimal_grows(before, before.len() as int);
            assert(before.take(before.len() as int) =~= before);
        } else {
            lemma_decimal_grows(before, k);
            assert(before.take(k) =~= s.take(k));
            lemma_decimal_grows(before, before.len() as int);
            assert(before.take(before.len() as int) =~= before);
        }
        assert(is_digit(s[s.len() - 1]));
    }
}

/// Reads a one-based index; `None` unless `s` is all digits with a value from
/// one to `u32::MAX`.
fn parse_index(s: &[u8]) -> (r: Option<u32>)
    ensures
        r == index_of(s@),
{
    if s.len() == 0 {
        return None;
    }
    let mut value: u64 = 0;
    let mut i: usize = 0;
    while i < s.len()
        invariant
            i <= s@.len(),
            forall|j: int| 0 <= j < i ==> is_digit(#[trigger] s@[j]),
            value == decimal(s@.take(i as int)),
            value <= u32::MAX,
        decreases s@.len() - i,
    {
        let b = s[i];
        if b < 48 || b > 57 {
            assert(!is_digit(s@[i as int]));
            return None;
        }
        assert(s@.take(i + 1).drop_last() =~= s@.take(i as int));
        value = value * 10 + (b - 48) as u64;
        i = i + 1;
        if value > u32::MAX as u64 {
            proof {
                if is_number(s@) {
                    lemma_decimal_grows(s@, i as int);
                }
            }
            return None;
        }
    }
    assert(s@.take(i as int) =~= s@);
    if value == 0 {
        None
    } else {
        Some((value - 1) as u32)
    }
}

proof fn lemma_parts_nonempty(s: Seq<u8>)
    ensures
        slash_parts(s).len() >= 1,
    decreases s.len(),
{
    if s.len() > 0 {
        lemma_parts_nonempty(s.drop_last());
    }
}

/// Reads a face-vertex token such as `3/1/2`: three one-based indices
/// separated by slashes, given back zero-based.
pub fn parse_face_vertex(token: &[u8]) -> (r: Option<FaceVertex>)
    ensures
        r == face_vertex_of(token@),
{
    let mut done: Vec<Vec<u8>> = Vec::new();
    let mut current: Vec<u8> = Vec::new();
    let mut i: usize = 0;
    while i < token.len()
        invariant
            i <= token@.len(),
            done@.map_values(|p: Vec<u8>| p@).push(current@) == slash_parts(token@.take(i as int)),
        decreases token@.len() - i,
    {
        let ghost before = token@.take(i as int);
        let ghost after = token@.take(i + 1);
        assert(after.drop_last() =~= before);
        proof {
            lemma_parts_nonempty(before);
        }
        if token[i] == 47 {
            let finished = current;
            done.push(finished);
            current = Vec::new();
            assert(done@.map_values(|p: Vec<u8>| p@).push(current@) =~= slash_parts(after));
        } else {
            current.push(token[i]);
            assert(done@.map_values(|p: Vec<u8>| p@).push(current@) =~= slash_parts(after));
        }
        i = i + 1;
    }
    assert(token@.take(i as int) =~= token@);
    if done.len() != 2 {
        return None;
    }
    let ghost parts = slash_parts(token@);
    assert(parts[0] == done@[0]@);
    assert(parts[1] == done@[1]@);
    assert(parts[2] == current@);
    let position = parse_index(done[0].as_slice());
    let texture = parse_index(done[1].as_slice());
    let normal = parse_index(current.as_slice());
    match (position, texture, normal) {
        (Some(position), Some(texture), Some(normal)) => Some(FaceVertex { position, texture, normal }),
        _ => None,
    }
}

/// Space, tab, and the other ASCII whitespace bytes.
pub open spec fn is_space(b: u8) -> bool {
    b == 32 || (9 <= b <= 13)
}

/// The words of `s`: its longest runs of non-whitespace bytes, in order.
pub open spec fn words(s: Seq<u8>) -> Seq<Seq<u8>>
    decreases s.len(),
{
    if s.len() == 0 {
        Seq::empty()
    } else {
        let before = words(s.drop_last());
        let b = s.last();
        if is_space(b) {
            before
        } else if s.len() >= 2 && !is_space(s[s.len() - 2]) {
            before.update(before.len() - 1, before.last().push(b))
        } else {
            before.push(seq![b])
        }
    }
}

/// What a face line reads as: the word `f` and at least three face-vertex
/// words, of which the first three are taken.
pub open spec fn face_of(line: Seq<u8>) -> Option<Seq<FaceVertex>> {
    let w = words(line);
    if w.len() >= 4 && w[0] == seq![102u8] && face_vertex_of(w[1]) is Some && face_vertex_of(w[2]) is Some
        && face_vertex_of(w[3]) is Some {
        Some(
            seq![
                face_vertex_of(w[1])->Some_0,
                face_vertex_of(w[2])->Some_0,
                face_vertex_of(w[3])->Some_0,
            ],
        )
    } else {
        None
    }
}

/// Splits a line into its words.
fn split_words(line: &[u8]) -> (r: Vec<Vec<u8>>)
    ensures
        r@.map_values(|w: Vec<u8>| w@) == words(line@),
{
    let mut done: Vec<Vec<u8>> = Vec::new();
    let mut current: Vec<u8> = Vec::new();
    let mut i: usize = 0;
    while i < line.len()
        invariant
            i <= line@.len(),
            current@.len() > 0 ==> i > 0 && !is_space(line@[i - 1]),
            current@.len() == 0 ==> i == 0 || is_space(line@[i - 1]),
            current@.len() == 0 ==> done@.map_values(|w: Vec<u8>| w@) == words(line@.take(i as int)),
            current@.len() > 0 ==> done@.map_values(|w: Vec<u8>| w@).push(current@) == words(
                line@.take(i as int),
            ),
        decreases line@.len() - i,
    {
        let ghost before = line@.take(i as int);
        let ghost after = line@.take(i + 1);
        assert(after.drop_last() =~= before);
        assert(after.last() == line@[i as int]);
        let b = line[i];
        if b == 32 || (9 <= b && b <= 13) {
            if current.len() > 0 {
                let finished = current;
                done.push(finished);
                current = Vec::new();
            }
            assert(done@.map_values(|w: Vec<u8>| w@) =~= words(after));
        } else {
            if i > 0 {
                assert(after[i - 1] == line@[i - 1]);
            }
            let ghost old_current = current@;
            let ghost done_words = done@.map_values(|w: Vec<u8>| w@);
            let was_empty = current.len() == 0;
            current.push(b);
            proof {
                if was_empty {
                    assert(current@ =~= seq![b]);
                    assert(words(after) == words(before).push(seq![b]));
                } else {
                    let wb = words(before);
                    assert(wb == done_words.push(old_current));
                    assert(words(after) == wb.update(wb.len() - 1, old_current.push(b)));
                    assert(wb.update(wb.len() - 1, old_current.push(b)) =~= done_words.push(
                        current@,
                    ));
                }
            }
            assert(done@.map_values(|w: Vec<u8>| w@).push(current@) =~= words(after));
        }
        i = i + 1;
    }
    assert(line@.take(i as int) =~= line@);
    if current.len() > 0 {
        done.push(current);
    }
    assert(done@.map_values(|w: Vec<u8>| w@) =~= words(line@));
    done
}

/// Reads a face line such as `f 1/1/1 2/2/1 3/3/1`: the corners of one
/// triangle. Words past the third corner are not read.
pub fn parse_face(line: &[u8]) -> (r: Option<Vec<FaceVertex>>)
    ensures
        r matches Some(v) ==> face_of(line@) == Some(v@),
        r is None <==> face_of(line@) is None,
{
    let w = split_words(line);
    let ghost spec_words = words(line@);
    assert(w@.len() == spec_words.len());
    if w.len() < 4 {
        return None;
    }
    assert(spec_words[0] == w@[0]@);
    let first = w[0].as_slice();
    if first.len() != 1 || first[0] != 102 {
        assert(spec_words[0] != seq![102u8]) by {
            if first@.len() == 1 {
                assert(spec_words[0][0] != 102u8);
            }
        }
        return None;
    }
    assert(spec_words[0] =~= seq![102u8]);
    assert(spec_words[1] == w@[1]@);
    assert(spec_words[2] == w@[2]@);
    assert(spec_words[3] == w@[3]@);
    let a = parse_face_vertex(w[1].as_slice());
    let b = parse_face_vertex(w[2].as_slice());
    let c = parse_face_vertex(w[3].as_slice());
    match (a, b, c) {
        (Some(a), Some(b), Some(c)) => {
            let mut corners: Vec<FaceVertex> = Vec::new();
            corners.push(a);
            corners.push(b);
            corners.push(c);
            assert(corners@ =~= seq![a, b, c]);
            Some(corners)
        },
        _ => None,
    }
}

} // verus!
