use vstd::prelude::*;
use crate::assembly::{finished_as, first_missing, lemma_first_missing, missing, slot_items, FieldValue, Slot};
use crate::plan::{all_classify, field_outcome, Finish};
use crate::schema::{
    classify_model, each_word, entry_outcome, group_entries, scan_entries,
    DirectiveEntry, FieldSpec,
};

verus! {

/// Classifying the same written type with the same directives gives the same
/// shape, and fails on the same directive entry, whatever the field is named.
pub proof fn lemma_classification_deterministic(f1: FieldSpec, f2: FieldSpec)
    requires
        f1.ty == f2.ty,
        f1.directives@ == f2.directives@,
    ensures
        field_outcome(f1) is Ok <==> field_outcome(f2) is Ok,
        field_outcome(f1) is Ok ==> field_outcome(f1) == field_outcome(f2),
        classify_model(f1.ty, f1.directives@) == classify_model(f2.ty, f2.directives@),
{
}

/// The slots of a builder of which the first `vs.len()` slots were set, in
/// order, to the values of `vs`.
pub open spec fn set_in_order<T>(ss: Seq<Slot<T>>, vs: Seq<T>) -> Seq<Slot<T>>
    decreases vs.len(),
{
    if vs.len() == 0 {
        ss
    } else {
        set_in_order(ss, vs.drop_last()).update(vs.len() - 1, Slot::Value(vs.last()))
    }
}

proof fn lemma_set_in_order<T>(ss: Seq<Slot<T>>, vs: Seq<T>)
    requires
        vs.len() <= ss.len(),
    ensures
        set_in_order(ss, vs).len() == ss.len(),
        forall|i: int| 0 <= i < vs.len() ==> #[trigger] set_in_order(ss, vs)[i] == Slot::Value(vs[i]),
        forall|i: int| vs.len() <= i < ss.len() ==> #[trigger] set_in_order(ss, vs)[i] == ss[i],
    decreases vs.len(),
{
    if vs.len() > 0 {
        lemma_set_in_order(ss, vs.drop_last());
    }
}

/// When every field is required and each is set once, finalizing succeeds
/// and gives back exactly the values supplied.
pub proof fn lemma_all_required_round_trip<T>(
    fs: Seq<Finish>,
    ss: Seq<Slot<T>>,
    vs: Seq<T>,
    out: Seq<FieldValue<T>>,
)
    requires
        fs.len() == ss.len(),
        vs.len() == ss.len(),
        forall|i: int| 0 <= i < fs.len() ==> #[trigger] fs[i] == Finish::Require,
        out.len() == ss.len(),
        forall|i: int|
            0 <= i < out.len() ==> finished_as(#[trigger] out[i], fs[i], set_in_order(ss, vs)[i]),
    ensures
        first_missing(fs, set_in_order(ss, vs), ss.len() as int) is None,
        forall|i: int| 0 <= i < out.len() ==> #[trigger] out[i] == FieldValue::Value(vs[i]),
{
    let done = set_in_order(ss, vs);
    lemma_set_in_order(ss, vs);
    lemma_first_missing(fs, done, ss.len() as int);
    if first_missing(fs, done, ss.len() as int) is Some {
        let i = first_missing(fs, done, ss.len() as int)->Some_0;
        assert(done[i] == Slot::Value(vs[i]));
    }
    assert forall|i: int| 0 <= i < out.len() implies #[trigger] out[i] == FieldValue::Value(vs[i]) by {
        assert(done[i] == Slot::Value(vs[i]));
        assert(finished_as(out[i], fs[i], done[i]));
    }
}

/// With two required fields of which only the first was set, finalizing
/// names the second.
pub proof fn lemma_fail_fast<T>(a: T)
    ensures
        first_missing(
            seq![Finish::Require, Finish::Require],
            seq![Slot::Value(a), Slot::<T>::Absent],
            2,
        ) == Some(1int),
{
    let fs = seq![Finish::Require, Finish::Require];
    let ss = seq![Slot::Value(a), Slot::<T>::Absent];
    assert(!missing(fs, ss, 0));
    assert(missing(fs, ss, 1));
    assert(first_missing(fs, ss, 0) is None);
    assert(first_missing(fs, ss, 1) is None);
}

/// The first missing required field is reported, whatever follows it.
pub proof fn lemma_first_missing_wins<T>(fs: Seq<Finish>, ss: Seq<Slot<T>>, i: int)
    requires
        fs.len() == ss.len(),
        0 <= i < ss.len(),
        missing(fs, ss, i),
        forall|k: int| 0 <= k < i ==> !#[trigger] missing(fs, ss, k),
    ensures
        first_missing(fs, ss, ss.len() as int) == Some(i),
{
    lemma_first_missing(fs, ss, ss.len() as int);
    if first_missing(fs, ss, ss.len() as int) is Some {
        let j = first_missing(fs, ss, ss.len() as int)->Some_0;
        assert(!(j < i));
        assert(!(j > i));
    }
}

/// A record of one optional field, never set, finalizes to its absence.
pub proof fn lemma_optional_defaults<T>(r: FieldValue<T>)
    requires
        finished_as(r, Finish::Keep, Slot::<T>::Absent),
    ensures
        first_missing(seq![Finish::Keep], seq![Slot::<T>::Absent], 1) is None,
        r == FieldValue::<T>::Maybe(None),
{
    assert(!missing(seq![Finish::Keep], seq![Slot::<T>::Absent], 0));
    assert(first_missing(seq![Finish::Keep], seq![Slot::<T>::Absent], 0) is None);
}

/// A repeated field is never missing; after appending `vs` one by one to an
/// absent slot it finalizes to exactly `vs`, and to an empty sequence when
/// nothing was appended.
pub proof fn lemma_repeated_accumulation<T>(ss: Seq<Slot<T>>, vs: Seq<T>, r: FieldValue<T>)
    requires
        ss.len() == vs.len() + 1,
        ss[0] is Absent,
        forall|j: int| 0 <= j < vs.len() ==> slot_items(#[trigger] ss[j + 1]) == slot_items(ss[j]).push(
            vs[j],
        ),
        finished_as(r, Finish::Collect, ss.last()),
    ensures
        !missing(seq![Finish::Collect], seq![ss.last()], 0),
        r matches FieldValue::Items(items) && items@ == vs,
{
    assert forall|j: int| 0 <= j <= vs.len() implies slot_items(#[trigger] ss[j]) == vs.take(j) by {
        lemma_items_prefix(ss, vs, j);
    }
    assert(vs.take(vs.len() as int) == vs);
}

proof fn lemma_items_prefix<T>(ss: Seq<Slot<T>>, vs: Seq<T>, j: int)
    requires
        ss.len() == vs.len() + 1,
        ss[0] is Absent,
        forall|k: int| 0 <= k < vs.len() ==> slot_items(#[trigger] ss[k + 1]) == slot_items(ss[k]).push(
            vs[k],
        ),
        0 <= j <= vs.len(),
    ensures
        slot_items(ss[j]) == vs.take(j),
    decreases j,
{
    if j == 0 {
        assert(vs.take(0) =~= Seq::<T>::empty());
    } else {
        lemma_items_prefix(ss, vs, j - 1);
        assert(slot_items(ss[(j - 1) + 1]) == slot_items(ss[j - 1]).push(vs[j - 1]));
        assert(vs.take(j) =~= vs.take(j - 1).push(vs[j - 1]));
    }
}

/// Once any entry read is malformed, reading more entries still fails.
proof fn lemma_scan_fails(es: Seq<DirectiveEntry>, j: int)
    requires
        0 <= j < es.len(),
        entry_outcome(es[j]) is Err,
    ensures
        scan_entries(es) matches Some(Err(_)),
    decreases es.len(),
{
    if j < es.len() - 1 {
        lemma_scan_fails(es.drop_last(), j);
    }
}

/// A field whose builder directive holds an entry with an unrecognized key
/// fails to classify, whatever its type, and so does any record that has it.
pub proof fn lemma_unknown_key_rejected(f: FieldSpec, j: int, fs: Seq<FieldSpec>, i: int)
    requires
        0 <= j < group_entries(f.directives@).len(),
        group_entries(f.directives@)[j].key@ != each_word(),
        0 <= i < fs.len(),
        fs[i] == f,
    ensures
        field_outcome(f) is Err,
        !all_classify(fs),
{
    lemma_scan_fails(group_entries(f.directives@), j);
    assert(field_outcome(fs[i]) is Err);
}

} // verus!
