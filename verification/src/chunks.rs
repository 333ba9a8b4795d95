//! Concatenation and splitting of fixed-size chunks.
//!
//! A sequence value travels as a count followed by its elements back to
//! back; every element has the byte size the element type dictates.  These
//! functions relate the flat byte string to the sequence of elements.

use vstd::prelude::*;

verus! {

/// All elements of `elems` are exactly `elem` bytes long.
pub open spec fn uniform(elems: Seq<Seq<u8>>, elem: int) -> bool {
    forall|i: int| 0 <= i < elems.len() ==> (#[trigger] elems[i]).len() == elem
}

/// The elements of `elems` laid back to back.
pub open spec fn concat_elems(elems: Seq<Seq<u8>>) -> Seq<u8>
    decreases elems.len(),
{
    if elems.len() == 0 {
        Seq::empty()
    } else {
        elems[0] + concat_elems(elems.drop_first())
    }
}

/// `s` cut into `n` chunks of `elem` bytes each.
pub open spec fn split_elems(s: Seq<u8>, elem: int, n: int) -> Seq<Seq<u8>>
    recommends
        0 <= n,
        0 <= elem,
        s.len() == n * elem,
{
    Seq::new(n as nat, |i: int| s.subrange(i * elem, (i + 1) * elem))
}

/// Concatenation distributes over appending element sequences.
pub proof fn lemma_concat_append(a: Seq<Seq<u8>>, b: Seq<Seq<u8>>)
    ensures
        concat_elems(a + b) == concat_elems(a) + concat_elems(b),
    decreases a.len(),
{
    if a.len() == 0 {
        assert(a + b =~= b);
        assert(concat_elems(a) + concat_elems(b) =~= concat_elems(b));
    } else {
        assert((a + b).drop_first() =~= a.drop_first() + b);
        lemma_concat_append(a.drop_first(), b);
        assert(concat_elems(a + b) =~= concat_elems(a) + concat_elems(b));
    }
}

/// Appending one element appends its bytes.
pub proof fn lemma_concat_push(elems: Seq<Seq<u8>>, i: int)
    requires
        0 <= i < elems.len(),
    ensures
        concat_elems(elems.take(i + 1)) == concat_elems(elems.take(i)) + elems[i],
{
    assert(elems.take(i + 1) =~= elems.take(i) + seq![elems[i]]);
    lemma_concat_append(elems.take(i), seq![elems[i]]);
    assert(seq![elems[i]].drop_first() =~= Seq::<Seq<u8>>::empty());
    assert(concat_elems(Seq::<Seq<u8>>::empty()) =~= Seq::<u8>::empty());
    assert(concat_elems(seq![elems[i]]) =~= elems[i]);
    assert(concat_elems(elems.take(i)) + concat_elems(seq![elems[i]]) =~= concat_elems(
        elems.take(i),
    ) + elems[i]);
}

/// A uniform sequence of `n` chunks of `elem` bytes concatenates to
/// `n * elem` bytes, and splitting recovers the chunks.
pub proof fn lemma_split_concat(elems: Seq<Seq<u8>>, elem: int)
    requires
        0 <= elem,
        uniform(elems, elem),
    ensures
        concat_elems(elems).len() == elems.len() * elem,
        split_elems(concat_elems(elems), elem, elems.len() as int) == elems,
    decreases elems.len(),
{
    let n = elems.len() as int;
    let c = concat_elems(elems);
    if n == 0 {
        assert(split_elems(c, elem, 0) =~= elems);
    } else {
        let rest = elems.drop_first();
        assert(uniform(rest, elem)) by {
            assert forall|i: int| 0 <= i < rest.len() implies (#[trigger] rest[i]).len()
                == elem by {
                assert(rest[i] == elems[i + 1]);
            }
        }
        lemma_split_concat(rest, elem);
        let cr = concat_elems(rest);
        assert(c == elems[0] + cr);
        assert(cr.len() == (n - 1) * elem);
        assert(elem + (n - 1) * elem == n * elem) by (nonlinear_arith);
        assert(c.len() == n * elem);
        let sp = split_elems(c, elem, n);
        assert forall|i: int| 0 <= i < n implies sp[i] == elems[i] by {
            assert(0 <= i * elem && (i + 1) * elem <= n * elem) by (nonlinear_arith)
                requires
                    0 <= i < n,
                    0 <= elem,
            ;
            assert(0 * elem == 0 && 1 * elem == elem) by (nonlinear_arith);
            if i == 0 {
                assert(sp[0] == c.subrange(0 * elem, 1 * elem));
                assert(c.subrange(0, elem) =~= elems[0]);
            } else {
                let spr = split_elems(cr, elem, n - 1);
                assert(spr[i - 1] == rest[i - 1]);
                assert(spr[i - 1] == cr.subrange((i - 1) * elem, ((i - 1) + 1) * elem));
                assert(0 <= (i - 1) * elem && i * elem <= (n - 1) * elem) by (nonlinear_arith)
                    requires
                        1 <= i < n,
                        0 <= elem,
                ;
                assert(cr.subrange((i - 1) * elem, i * elem) == rest[i - 1]);
                assert((i - 1) * elem + elem == i * elem && i * elem + elem == (i + 1) * elem)
                    by (nonlinear_arith);
                assert(c.subrange(i * elem, (i + 1) * elem) =~= cr.subrange(
                    (i - 1) * elem,
                    i * elem,
                ));
                assert(elems[i] == rest[i - 1]);
            }
        }
        assert(sp =~= elems);
    }
}

} // verus!
