//! Laws of the pipeline's output, proved over the run model.
//!
//! The digest of a unit is a function of the algorithm and the content
//! bytes alone, so the same content carries the same digest text wherever
//! it is met; and the multiset of output lines is determined by the
//! multiset of units, so a worker pool that completes jobs out of order,
//! with any worker count, can only reorder the run's lines, never change
//! them.

use crate::format::PrintFormat;
use crate::hasher::Algorithm;
use crate::pipeline::{lines_of, unit_digest, unit_line, Unit};
use vstd::multiset::Multiset;
use vstd::prelude::*;

verus! {

/// Law: the rendered digest of a unit depends on the algorithm and the
/// content bytes alone. A file hashed directly and the same content met as
/// the sole entry of an archive of any container kind carry the same
/// digest text, whatever their labels; each output line opens with exactly
/// that shared text.
pub proof fn lemma_content_identity(fmt: PrintFormat, alg: Algorithm, u1: Unit, u2: Unit)
    requires
        u1.data@ == u2.data@,
    ensures
        unit_digest(alg, u1) == unit_digest(alg, u2),
        unit_line(fmt, alg, u1).take(unit_digest(alg, u1).len() as int) == unit_line(
            fmt,
            alg,
            u2,
        ).take(unit_digest(alg, u2).len() as int),
{
    assert(unit_line(fmt, alg, u1).take(unit_digest(alg, u1).len() as int) =~= unit_digest(
        alg,
        u1,
    ));
    assert(unit_line(fmt, alg, u2).take(unit_digest(alg, u2).len() as int) =~= unit_digest(
        alg,
        u2,
    ));
}

/// Law: hashing the same unit twice in one run yields the same output line
/// at both positions; in particular the digest values are identical both
/// times.
pub proof fn lemma_idempotent(fmt: PrintFormat, alg: Algorithm, us: Seq<Unit>, i: int, j: int)
    requires
        0 <= i < us.len(),
        0 <= j < us.len(),
        us[i] == us[j],
    ensures
        lines_of(fmt, alg, us)[i] == lines_of(fmt, alg, us)[j],
{
}

/// Law: output lines split over any partition of the units. Workers that
/// process disjoint slices of the unit sequence together produce exactly
/// the lines of the whole sequence.
pub proof fn lemma_lines_split(fmt: PrintFormat, alg: Algorithm, a: Seq<Unit>, b: Seq<Unit>)
    ensures
        lines_of(fmt, alg, a + b) == lines_of(fmt, alg, a) + lines_of(fmt, alg, b),
{
    assert(lines_of(fmt, alg, a + b) =~= lines_of(fmt, alg, a) + lines_of(fmt, alg, b));
}

/// Law: the multiset of output lines is determined by the multiset of
/// units alone. Two runs over the same units, however the units are
/// ordered — one worker or many, completing out of order — yield the same
/// multiset of lines.
pub proof fn lemma_lines_permutation(fmt: PrintFormat, alg: Algorithm, a: Seq<Unit>, b: Seq<Unit>)
    requires
        a.to_multiset() == b.to_multiset(),
    ensures
        lines_of(fmt, alg, a).to_multiset() == lines_of(fmt, alg, b).to_multiset(),
    decreases a.len(),
{
    broadcast use vstd::seq_lib::group_to_multiset_ensures;
    broadcast use vstd::multiset::group_multiset_axioms;

    if a.len() == 0 {
        assert(a.to_multiset().len() == a.len());
        assert(b.to_multiset().len() == b.len());
        assert(lines_of(fmt, alg, a) =~= lines_of(fmt, alg, b));
    } else {
        let x = a[0];
        assert(a.contains(x));
        assert(a.to_multiset().count(x) > 0);
        assert(b.contains(x));
        let j = choose|j: int| 0 <= j < b.len() && b[j] == x;
        let a2 = a.remove(0);
        let b2 = b.remove(j);
        assert(a2.to_multiset() == a.to_multiset().remove(x));
        assert(b2.to_multiset() == b.to_multiset().remove(x));
        lemma_lines_permutation(fmt, alg, a2, b2);

        let la = lines_of(fmt, alg, a);
        let lb = lines_of(fmt, alg, b);
        let l = unit_line(fmt, alg, x);
        assert(lines_of(fmt, alg, a2) =~= la.remove(0));
        assert(lines_of(fmt, alg, b2) =~= lb.remove(j));
        assert(la.remove(0).to_multiset() == la.to_multiset().remove(la[0]));
        assert(lb.remove(j).to_multiset() == lb.to_multiset().remove(lb[j]));
        assert(la[0] == l);
        assert(lb[j] == l);
        assert(la.contains(l));
        assert(lb.contains(l));
        assert(la.to_multiset().count(l) > 0);
        assert(lb.to_multiset().count(l) > 0);
        assert(la.to_multiset().remove(l) == lb.to_multiset().remove(l));
        assert forall|y: Seq<char>| la.to_multiset().count(y) == lb.to_multiset().count(y) by {
            if y == l {
                assert(la.to_multiset().remove(l).count(l) + 1 == la.to_multiset().count(l));
                assert(lb.to_multiset().remove(l).count(l) + 1 == lb.to_multiset().count(l));
            } else {
                assert(la.to_multiset().remove(l).count(y) == la.to_multiset().count(y));
                assert(lb.to_multiset().remove(l).count(y) == lb.to_multiset().count(y));
            }
        }
        assert(la.to_multiset() =~= lb.to_multiset());
    }
}

/// The units of all workers' queues, one worker's slice after the next.
pub open spec fn concat_units(parts: Seq<Seq<Unit>>) -> Seq<Unit>
    decreases parts.len(),
{
    if parts.len() == 0 {
        Seq::empty()
    } else {
        parts.first() + concat_units(parts.drop_first())
    }
}

/// The lines a whole pool emits, as a multiset: each worker renders its
/// own slice of units in order, and the shared output only interleaves
/// whole lines.
pub open spec fn pool_lines(fmt: PrintFormat, alg: Algorithm, parts: Seq<Seq<Unit>>) -> Multiset<
    Seq<char>,
>
    decreases parts.len(),
{
    if parts.len() == 0 {
        Multiset::empty()
    } else {
        lines_of(fmt, alg, parts.first()).to_multiset().add(
            pool_lines(fmt, alg, parts.drop_first()),
        )
    }
}

/// The pool's multiset of lines is the lines of all slices laid end to
/// end.
proof fn lemma_pool_lines_concat(fmt: PrintFormat, alg: Algorithm, parts: Seq<Seq<Unit>>)
    ensures
        pool_lines(fmt, alg, parts) == lines_of(fmt, alg, concat_units(parts)).to_multiset(),
    decreases parts.len(),
{
    broadcast use vstd::seq_lib::group_to_multiset_ensures;
    broadcast use vstd::multiset::group_multiset_axioms;

    if parts.len() == 0 {
        let l = lines_of(fmt, alg, concat_units(parts));
        assert(l =~= Seq::<Seq<char>>::empty());
        assert(l.to_multiset().len() == l.len());
        assert(l.to_multiset() =~= Multiset::<Seq<char>>::empty());
    } else {
        lemma_pool_lines_concat(fmt, alg, parts.drop_first());
        lemma_lines_split(fmt, alg, parts.first(), concat_units(parts.drop_first()));
        vstd::seq_lib::lemma_multiset_commutative(
            lines_of(fmt, alg, parts.first()),
            lines_of(fmt, alg, concat_units(parts.drop_first())),
        );
    }
}

/// Law: a pool of any number of workers, splitting the run's units among
/// them in any way and completing them in any order, emits together
/// exactly the multiset of lines that one worker hashing all units in
/// sequence emits. Output order is the only freedom a pool has.
pub proof fn lemma_pool_output(
    fmt: PrintFormat,
    alg: Algorithm,
    us: Seq<Unit>,
    parts: Seq<Seq<Unit>>,
)
    requires
        concat_units(parts).to_multiset() == us.to_multiset(),
    ensures
        pool_lines(fmt, alg, parts) == lines_of(fmt, alg, us).to_multiset(),
{
    lemma_pool_lines_concat(fmt, alg, parts);
    lemma_lines_permutation(fmt, alg, concat_units(parts), us);
}

} // verus!
