//! Byte strings: searching, splitting on a separator and joining.
//!
//! Stored lists and event records are separator-joined UTF-8 text. A
//! separator is matched byte by byte, which for valid UTF-8 finds exactly
//! the occurrences a character-wise search finds.

use vstd::prelude::*;

verus! {

/// `needle` occurs in `hay` starting at index `at`.
pub open spec fn occurs_at(hay: Seq<u8>, needle: Seq<u8>, at: int) -> bool {
    &&& 0 <= at
    &&& at + needle.len() <= hay.len()
    &&& hay.subrange(at, at + needle.len()) == needle
}

/// Index of the first occurrence of `needle` in `hay` at or after `from`,
/// or -1 when there is none.
pub open spec fn find_from(hay: Seq<u8>, needle: Seq<u8>, from: int) -> int
    decreases hay.len() - from + 1,
{
    if from < 0 || from + needle.len() > hay.len() {
        -1
    } else if occurs_at(hay, needle, from) {
        from
    } else {
        find_from(hay, needle, from + 1)
    }
}

/// Index of the first occurrence of `needle` in `hay`, or -1.
pub open spec fn index_of(hay: Seq<u8>, needle: Seq<u8>) -> int {
    find_from(hay, needle, 0)
}

/// What `find_from` returns is the least occurrence at or after `from`.
pub proof fn lemma_find_from(hay: Seq<u8>, needle: Seq<u8>, from: int)
    requires
        0 <= from,
    ensures
        find_from(hay, needle, from) == -1 ==> forall|j: int|
            from <= j ==> !occurs_at(hay, needle, j),
        find_from(hay, needle, from) != -1 ==> {
            &&& from <= find_from(hay, needle, from)
            &&& occurs_at(hay, needle, find_from(hay, needle, from))
            &&& forall|j: int|
                from <= j < find_from(hay, needle, from) ==> !occurs_at(hay, needle, j)
        },
    decreases hay.len() - from + 1,
{
    if from + needle.len() > hay.len() {
    } else if occurs_at(hay, needle, from) {
    } else {
        lemma_find_from(hay, needle, from + 1);
    }
}

/// Whether two byte strings are equal.
pub fn bytes_eq(a: &[u8], b: &[u8]) -> (r: bool)
    ensures
        r == (a@ == b@),
{
    if a.len() != b.len() {
        return false;
    }
    let mut i: usize = 0;
    while i < a.len()
        invariant
            i <= a.len(),
            a.len() == b.len(),
            forall|j: int| 0 <= j < i ==> a@[j] == b@[j],
        decreases a.len() - i,
    {
        if a[i] != b[i] {
            return false;
        }
        i += 1;
    }
    assert(a@ =~= b@);
    true
}

/// Whether `needle` occurs in `hay` at index `at`.
pub fn matches_at(hay: &[u8], needle: &[u8], at: usize) -> (r: bool)
    ensures
        r == occurs_at(hay@, needle@, at as int),
{
    if needle.len() > hay.len() || at > hay.len() - needle.len() {
        return false;
    }
    let mut i: usize = 0;
    while i < needle.len()
        invariant
            i <= needle.len(),
            at + needle.len() <= hay.len(),
            forall|j: int| 0 <= j < i ==> hay@[at + j] == needle@[j],
        decreases needle.len() - i,
    {
        if hay[at + i] != needle[i] {
            assert(hay@.subrange(at as int, at + needle.len())[i as int] == hay@[at + i]);
            return false;
        }
        i += 1;
    }
    assert(hay@.subrange(at as int, at + needle.len()) =~= needle@);
    true
}

/// Index of the first occurrence of `needle` in `hay` at or after `from`.
pub fn find(hay: &[u8], needle: &[u8], from: usize) -> (r: Option<usize>)
    ensures
        match r {
            Some(i) => i as int == find_from(hay@, needle@, from as int),
            None => find_from(hay@, needle@, from as int) == -1,
        },
{
    if needle.len() > hay.len() {
        return None;
    }
    let last: usize = hay.len() - needle.len();
    if from > last {
        return None;
    }
    let mut i: usize = from;
    loop
        invariant
            from <= i <= last,
            last == hay.len() - needle.len(),
            find_from(hay@, needle@, from as int) == find_from(hay@, needle@, i as int),
        decreases last - i,
    {
        if matches_at(hay, needle, i) {
            return Some(i);
        }
        if i == last {
            assert(find_from(hay@, needle@, i + 1) == -1);
            return None;
        }
        i += 1;
    }
}

/// The byte strings that a vector of byte vectors holds, in order.
pub open spec fn views(v: Seq<Vec<u8>>) -> Seq<Seq<u8>> {
    Seq::new(v.len(), |i: int| v[i]@)
}

/// The pieces of `s` between the occurrences of `sep`, scanning from the
/// left. A text without the separator is one piece; an empty trailing piece
/// counts; an empty separator never splits.
pub open spec fn split(s: Seq<u8>, sep: Seq<u8>) -> Seq<Seq<u8>>
    decreases s.len(),
{
    let i = index_of(s, sep);
    if sep.len() == 0 || i < 0 || i + sep.len() > s.len() {
        seq![s]
    } else {
        seq![s.take(i)] + split(s.skip(i + sep.len()), sep)
    }
}

/// The pieces joined again, with `sep` between neighbours.
pub open spec fn join(parts: Seq<Seq<u8>>, sep: Seq<u8>) -> Seq<u8>
    decreases parts.len(),
{
    if parts.len() == 0 {
        Seq::<u8>::empty()
    } else if parts.len() == 1 {
        parts[0]
    } else {
        join(parts.drop_last(), sep) + sep + parts.last()
    }
}

/// Searching the tail of a text finds what searching the text from that
/// offset finds, shifted by the offset.
pub proof fn lemma_find_in_tail(hay: Seq<u8>, needle: Seq<u8>, from: int, k: int)
    requires
        0 <= from <= hay.len(),
        0 <= k,
    ensures
        find_from(hay.skip(from), needle, k) == -1 <==> find_from(hay, needle, from + k) == -1,
        find_from(hay, needle, from + k) != -1 ==> find_from(hay, needle, from + k) == from
            + find_from(hay.skip(from), needle, k),
    decreases hay.len() - from - k + 1,
{
    let tail = hay.skip(from);
    if k + needle.len() > tail.len() {
    } else {
        assert(tail.subrange(k, k + needle.len()) =~= hay.subrange(
            from + k,
            from + k + needle.len(),
        ));
        if occurs_at(tail, needle, k) {
        } else {
            lemma_find_in_tail(hay, needle, from, k + 1);
        }
    }
}

/// A copy of the bytes of `s` from index `a` up to `b`.
pub fn copy_range(s: &[u8], a: usize, b: usize) -> (v: Vec<u8>)
    requires
        a <= b <= s.len(),
    ensures
        v@ == s@.subrange(a as int, b as int),
{
    let mut v: Vec<u8> = Vec::new();
    let mut i: usize = a;
    while i < b
        invariant
            a <= i <= b <= s.len(),
            v@ == s@.subrange(a as int, i as int),
        decreases b - i,
    {
        v.push(s[i]);
        i += 1;
        assert(v@ =~= s@.subrange(a as int, i as int));
    }
    v
}

/// Splits `s` on `sep` into its pieces.
pub fn split_bytes(s: &[u8], sep: &[u8]) -> (parts: Vec<Vec<u8>>)
    ensures
        views(parts@) == split(s@, sep@),
{
    let mut parts: Vec<Vec<u8>> = Vec::new();
    let mut pos: usize = 0;
    if sep.len() == 0 {
        parts.push(copy_range(s, 0, s.len()));
        assert(s@.subrange(0, s@.len() as int) =~= s@);
        assert(views(parts@) =~= seq![s@]);
        return parts;
    }
    assert(s@.skip(0) =~= s@);
    assert(views(parts@) + split(s@, sep@) =~= split(s@, sep@));
    loop
        invariant
            pos <= s.len(),
            sep.len() > 0,
            split(s@, sep@) == views(parts@) + split(s@.skip(pos as int), sep@),
        decreases s.len() - pos,
    {
        let ghost before = views(parts@);
        let ghost rest = s@.skip(pos as int);
        proof {
            lemma_find_in_tail(s@, sep@, pos as int, 0);
            lemma_find_from(s@, sep@, pos as int);
        }
        match find(s, sep, pos) {
            None => {
                parts.push(copy_range(s, pos, s.len()));
                assert(s@.subrange(pos as int, s@.len() as int) =~= rest);
                assert(views(parts@) =~= before + seq![rest]);
                return parts;
            },
            Some(i) => {
                parts.push(copy_range(s, pos, i));
                assert(s@.subrange(pos as int, i as int) =~= rest.take(i - pos));
                assert(rest.skip(i - pos + sep@.len()) =~= s@.skip(i + sep@.len()));
                assert(views(parts@) =~= before + seq![rest.take(i - pos)]);
                pos = i + sep.len();
            },
        }
    }
}

/// Joins the pieces with `sep` between neighbours.
pub fn join_bytes(parts: &Vec<Vec<u8>>, sep: &[u8]) -> (out: Vec<u8>)
    ensures
        out@ == join(views(parts@), sep@),
{
    let mut out: Vec<u8> = Vec::new();
    let mut i: usize = 0;
    while i < parts.len()
        invariant
            i <= parts.len(),
            out@ == join(views(parts@).take(i as int), sep@),
        decreases parts.len() - i,
    {
        let ghost sofar = views(parts@).take(i as int);
        let ghost next = views(parts@).take(i + 1);
        if i > 0 {
            out.extend_from_slice(sep);
        }
        out.extend_from_slice(parts[i].as_slice());
        proof {
            assert(next.drop_last() =~= sofar);
            assert(next.last() == parts@[i as int]@);
            if i == 0 {
                assert(out@ =~= next[0]);
            } else {
                assert(out@ =~= join(sofar, sep@) + sep@ + next.last());
            }
        }
        i += 1;
    }
    assert(views(parts@).take(parts@.len() as int) =~= views(parts@));
    out
}

/// No byte of `s` is `b`.
pub open spec fn free_of(s: Seq<u8>, b: u8) -> bool {
    forall|i: int| 0 <= i < s.len() ==> s[i] != b
}

/// Joining a piece in front: the piece, the separator, and the rest joined.
pub proof fn lemma_join_front(first: Seq<u8>, rest: Seq<Seq<u8>>, sep: Seq<u8>)
    requires
        rest.len() >= 1,
    ensures
        join(seq![first] + rest, sep) == first + sep + join(rest, sep),
    decreases rest.len(),
{
    let all = seq![first] + rest;
    assert(all.last() == rest.last());
    if rest.len() == 1 {
        assert(all.drop_last() =~= seq![first]);
        assert(join(seq![first], sep) == first);
        assert(join(rest, sep) == rest[0]);
        assert(join(all, sep) == join(all.drop_last(), sep) + sep + all.last());
        assert(join(all, sep) =~= first + sep + join(rest, sep));
    } else {
        lemma_join_front(first, rest.drop_last(), sep);
        assert(all.drop_last() =~= seq![first] + rest.drop_last());
        assert(join(all, sep) == join(all.drop_last(), sep) + sep + all.last());
        assert(join(rest, sep) == join(rest.drop_last(), sep) + sep + rest.last());
        assert(join(all, sep) =~= first + sep + join(rest, sep));
    }
}

/// After a piece that is free of the separator's first byte, the separator
/// is first found right behind the piece.
pub proof fn lemma_index_behind_piece(first: Seq<u8>, sep: Seq<u8>, tail: Seq<u8>)
    requires
        sep.len() > 0,
        free_of(first, sep[0]),
    ensures
        index_of(first + sep + tail, sep) == first.len(),
{
    let s = first + sep + tail;
    lemma_find_from(s, sep, 0);
    assert(s.subrange(first.len() as int, (first.len() + sep.len()) as int) =~= sep);
    assert(occurs_at(s, sep, first.len() as int));
    assert forall|j: int| 0 <= j < first.len() implies !occurs_at(s, sep, j) by {
        if occurs_at(s, sep, j) {
            assert(s.subrange(j, j + sep.len())[0] == s[j]);
            assert(s[j] == first[j]);
        }
    }
}

/// Splitting undoes joining, where no piece holds the separator's first
/// byte.
pub proof fn lemma_split_join(parts: Seq<Seq<u8>>, sep: Seq<u8>)
    requires
        parts.len() >= 1,
        sep.len() > 0,
        forall|i: int| 0 <= i < parts.len() ==> free_of(#[trigger] parts[i], sep[0]),
    ensures
        split(join(parts, sep), sep) == parts,
    decreases parts.len(),
{
    let first = parts[0];
    if parts.len() == 1 {
        lemma_find_from(first, sep, 0);
        assert forall|j: int| 0 <= j implies !occurs_at(first, sep, j) by {
            if occurs_at(first, sep, j) {
                assert(first.subrange(j, j + sep.len())[0] == first[j]);
            }
        }
        assert(split(first, sep) =~= parts);
    } else {
        let rest = parts.skip(1);
        assert(parts =~= seq![first] + rest);
        lemma_join_front(first, rest, sep);
        let tail = join(rest, sep);
        let s = first + sep + tail;
        lemma_index_behind_piece(first, sep, tail);
        assert(s.take(first.len() as int) =~= first);
        assert(s.skip((first.len() + sep.len()) as int) =~= tail);
        assert forall|i: int| 0 <= i < rest.len() implies free_of(#[trigger] rest[i], sep[0]) by {
            assert(rest[i] == parts[i + 1]);
        }
        lemma_split_join(rest, sep);
        assert(split(s, sep) =~= seq![first] + rest);
    }
}

} // verus!
