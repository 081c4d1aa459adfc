//! Value-level marshalling for the symmetric shapes: text buffers, dynamic arrays and
//! optional values.
use vstd::prelude::*;

verus! {

/// The text a null-terminated buffer holds: everything before the first null byte.
pub open spec fn until_nul(b: Seq<u8>) -> Seq<u8>
    decreases b.len(),
{
    if b.len() == 0 {
        Seq::empty()
    } else if b[0] == 0 {
        Seq::empty()
    } else {
        seq![b[0]] + until_nul(b.drop_first())
    }
}

/// Whether the text holds no null byte.
pub open spec fn no_nul(b: Seq<u8>) -> bool {
    forall|i: int| 0 <= i < b.len() ==> b[i] != 0
}

/// Encodes text as a null-terminated buffer.
pub fn text_to_foreign(text: &Vec<u8>) -> (r: Vec<u8>)
    ensures
        r@ == text@.push(0),
{
    let mut r: Vec<u8> = Vec::new();
    let mut i: usize = 0;
    while i < text.len()
        invariant
            i <= text.len(),
            r@ == text@.take(i as int),
        decreases text.len() - i,
    {
        r.push(text[i]);
        assert(text@.take(i + 1) =~= text@.take(i as int).push(text@[i as int]));
        i += 1;
    }
    assert(text@.take(text.len() as int) =~= text@);
    r.push(0);
    r
}

proof fn lemma_until_nul_take(b: Seq<u8>, i: int)
    requires
        0 <= i <= b.len(),
        no_nul(b.take(i)),
    ensures
        i < b.len() && b[i] == 0 ==> until_nul(b) == b.take(i),
        i < b.len() && b[i] != 0 ==> no_nul(b.take(i + 1)),
        i == b.len() ==> until_nul(b) == b,
    decreases i,
{
    if i > 0 {
        let t = b.drop_first();
        assert(no_nul(t.take(i - 1))) by {
            assert forall|k: int| 0 <= k < i - 1 implies #[trigger] t.take(i - 1)[k] != 0 by {
                assert(t.take(i - 1)[k] == b.take(i)[k + 1]);
            }
        }
        lemma_until_nul_take(t, i - 1);
        assert(b.take(i)[0] != 0);
        if i < b.len() && b[i] == 0 {
            assert(t[i - 1] == b[i]);
            assert(b.take(i) =~= seq![b[0]] + t.take(i - 1));
        }
        if i == b.len() {
            assert(b =~= seq![b[0]] + t);
        }
    } else {
        if b.len() == 0 {
            assert(b =~= Seq::<u8>::empty());
        }
    }
    if i < b.len() && b[i] != 0 {
        assert forall|k: int| 0 <= k < i + 1 implies #[trigger] b.take(i + 1)[k] != 0 by {
            if k < i {
                assert(b.take(i + 1)[k] == b.take(i)[k]);
            }
        }
    }
}

/// Decodes a null-terminated buffer: the bytes before the first null byte, or all of them.
pub fn text_from_foreign(buf: &Vec<u8>) -> (r: Vec<u8>)
    ensures
        r@ == until_nul(buf@),
{
    let mut r: Vec<u8> = Vec::new();
    let mut i: usize = 0;
    while i < buf.len()
        invariant
            i <= buf.len(),
            r@ == buf@.take(i as int),
            no_nul(buf@.take(i as int)),
        decreases buf.len() - i,
    {
        proof {
            lemma_until_nul_take(buf@, i as int);
        }
        if buf[i] == 0 {
            return r;
        }
        r.push(buf[i]);
        assert(buf@.take(i + 1) =~= buf@.take(i as int).push(buf@[i as int]));
        i += 1;
    }
    proof {
        lemma_until_nul_take(buf@, i as int);
    }
    r
}

/// Splits a dynamic array into its elements and their count.
pub fn array_to_foreign<T>(v: Vec<T>) -> (r: (Vec<T>, usize))
    ensures
        r.0@ == v@,
        r.1 == v@.len(),
{
    let n = v.len();
    (v, n)
}

/// Rebuilds a dynamic array from the first `count` elements of a buffer.
pub fn array_from_foreign<T>(buf: Vec<T>, count: usize) -> (r: Vec<T>)
    requires
        count <= buf@.len(),
    ensures
        r@ == buf@.take(count as int),
{
    let ghost before = buf@;
    let mut buf = buf;
    buf.truncate(count);
    assert(buf@ =~= before.take(count as int));
    buf
}

/// Rebuilds an optional value from its presence flag; the slot is read only when present.
pub fn option_from_foreign<T: Copy>(present: bool, slot: &Option<T>) -> (r: Option<T>)
    requires
        present ==> slot is Some,
    ensures
        present ==> r == *slot,
        !present ==> r is None,
{
    if present {
        *slot
    } else {
        None
    }
}

} // verus!
