use vstd::prelude::*;
use vstd::string::*;
use crate::plan::{Finish, Plan};

verus! {

/// What a builder holds for one field.
pub enum Slot<T> {
    /// Never set.
    Absent,
    /// Set to this value.
    Value(T),
    /// Accumulated these elements, in order.
    Items(Vec<T>),
}

/// One field of a finalized record.
#[derive(PartialEq, Eq, Debug)]
pub enum FieldValue<T> {
    /// A required field's value.
    Value(T),
    /// An optional field's value, or its absence.
    Maybe(Option<T>),
    /// A repeated field's elements.
    Items(Vec<T>),
}

/// A builder for a record whose fields follow a plan: one slot per field,
/// each starting absent.
pub struct RecordBuilder<T> {
    pub finishes: Vec<Finish>,
    pub names: Vec<String>,
    pub slots: Vec<Slot<T>>,
}

/// The elements a repeated field holds: none while it is absent.
pub open spec fn slot_items<T>(s: Slot<T>) -> Seq<T> {
    match s {
        Slot::Items(v) => v@,
        _ => Seq::empty(),
    }
}

/// The finalized value of field `s` under finish `f`, for a field that is
/// not missing; sequences compare by content.
pub open spec fn finished_as<T>(r: FieldValue<T>, f: Finish, s: Slot<T>) -> bool {
    match f {
        Finish::Require => s matches Slot::Value(v) && r == FieldValue::Value(v),
        Finish::Keep => r == FieldValue::Maybe(
            match s {
                Slot::Value(v) => Some(v),
                _ => None,
            },
        ),
        Finish::Collect => r matches FieldValue::Items(v) && v@ == slot_items(s),
    }
}

/// Whether the field at `i` is required and was never set.
pub open spec fn missing<T>(fs: Seq<Finish>, ss: Seq<Slot<T>>, i: int) -> bool {
    fs[i] == Finish::Require && ss[i] is Absent
}

/// The first missing field among the first `n`, if any.
pub open spec fn first_missing<T>(fs: Seq<Finish>, ss: Seq<Slot<T>>, n: int) -> Option<int>
    decreases n,
{
    if n <= 0 {
        None
    } else {
        match first_missing(fs, ss, n - 1) {
            Some(i) => Some(i),
            None => if missing(fs, ss, n - 1) {
                Some(n - 1)
            } else {
                None
            },
        }
    }
}

/// `first_missing` finds the least missing index, and finds none only when no
/// field is missing.
pub proof fn lemma_first_missing<T>(fs: Seq<Finish>, ss: Seq<Slot<T>>, n: int)
    requires
        0 <= n,
    ensures
        first_missing(fs, ss, n) matches Some(i) ==> 0 <= i < n && missing(fs, ss, i) && forall|
            k: int,
        | 0 <= k < i ==> !#[trigger] missing(fs, ss, k),
        first_missing(fs, ss, n) is None ==> forall|k: int| 0 <= k < n ==> !#[trigger] missing(fs, ss, k),
    decreases n,
{
    if n > 0 {
        lemma_first_missing(fs, ss, n - 1);
    }
}

/// The error of a finalize operation: the first required field left unset.
#[derive(Debug, PartialEq, Eq)]
pub struct MissingField {
    pub field: String,
}

impl MissingField {
    /// The failure's text, naming the field.
    pub fn message(&self) -> (r: String)
        ensures
            r@ == "field "@ + self.field@ + " isn't set"@,
    {
        let mut out = String::from_str("field ");
        out.append(self.field.as_str());
        out.append(" isn't set");
        out
    }
}

/// Once a missing field is found among the first `m`, it stays the first
/// among any longer prefix.
pub proof fn lemma_first_missing_extends<T>(fs: Seq<Finish>, ss: Seq<Slot<T>>, m: int, n: int)
    requires
        0 <= m <= n,
        first_missing(fs, ss, m) is Some,
    ensures
        first_missing(fs, ss, n) == first_missing(fs, ss, m),
    decreases n - m,
{
    if m < n {
        lemma_first_missing_extends(fs, ss, m, n - 1);
    }
}

impl<T: Copy> RecordBuilder<T> {
    /// One finish, name and slot per field, and each slot of the kind its
    /// finish expects.
    pub open spec fn wf(&self) -> bool {
        &&& self.finishes@.len() == self.slots@.len()
        &&& self.names@.len() == self.slots@.len()
        &&& forall|i: int| 0 <= i < self.slots@.len() ==> match #[trigger] self.slots@[i] {
            Slot::Absent => true,
            Slot::Value(_) => self.finishes@[i] != Finish::Collect,
            Slot::Items(_) => self.finishes@[i] == Finish::Collect,
        }
    }

    /// A builder for the record that `p` describes, with every field absent.
    pub fn new(p: &Plan) -> (b: Self)
        ensures
            b.wf(),
            b.slots@.len() == p.fields@.len(),
            forall|i: int| 0 <= i < p.fields@.len() ==> #[trigger] b.slots@[i] is Absent,
            forall|i: int| 0 <= i < p.fields@.len() ==> #[trigger] b.finishes@[i] == p.fields@[i].finish,
            forall|i: int| 0 <= i < p.fields@.len() ==> #[trigger] b.names@[i]@ == p.fields@[i].name@,
    {
        let mut finishes: Vec<Finish> = Vec::new();
        let mut names: Vec<String> = Vec::new();
        let mut slots: Vec<Slot<T>> = Vec::new();
        let mut i: usize = 0;
        while i < p.fields.len()
            invariant
                i <= p.fields@.len(),
                finishes@.len() == i,
                names@.len() == i,
                slots@.len() == i,
                forall|k: int| 0 <= k < i ==> #[trigger] slots@[k] is Absent,
                forall|k: int| 0 <= k < i ==> #[trigger] finishes@[k] == p.fields@[k].finish,
                forall|k: int| 0 <= k < i ==> #[trigger] names@[k]@ == p.fields@[k].name@,
            decreases p.fields@.len() - i,
        {
            finishes.push(p.fields[i].finish);
            names.push(p.fields[i].name.clone());
            slots.push(Slot::Absent);
            i = i + 1;
        }
        RecordBuilder { finishes, names, slots }
    }

    /// What finalizing this builder gives: the first missing required field
    /// by name, or else every field's value.
    pub open spec fn finalized(&self, r: Result<Vec<FieldValue<T>>, MissingField>) -> bool {
        match first_missing(self.finishes@, self.slots@, self.slots@.len() as int) {
            Some(i) => r matches Err(e) && e.field@ == self.names@[i]@,
            None => match r {
                Ok(vals) => vals@.len() == self.slots@.len() && forall|i: int|
                    0 <= i < vals@.len() ==> finished_as(
                        #[trigger] vals@[i],
                        self.finishes@[i],
                        self.slots@[i],
                    ),
                Err(_) => false,
            },
        }
    }

    /// Finalizes: fails naming the first required field, in declaration
    /// order, that was never set; otherwise gives every field's value.
    /// The builder is left as it was.
    pub fn build(&self) -> (r: Result<Vec<FieldValue<T>>, MissingField>)
        requires
            self.wf(),
        ensures
            self.finalized(r),
    {
        let mut vals: Vec<FieldValue<T>> = Vec::new();
        let mut i: usize = 0;
        while i < self.slots.len()
            invariant
                self.wf(),
                i <= self.slots@.len(),
                vals@.len() == i,
                first_missing(self.finishes@, self.slots@, i as int) is None,
                forall|k: int|
                    0 <= k < i ==> finished_as(#[trigger] vals@[k], self.finishes@[k], self.slots@[k]),
            decreases self.slots@.len() - i,
        {
            let v: FieldValue<T> = match self.finishes[i] {
                Finish::Require => match &self.slots[i] {
                    Slot::Value(x) => FieldValue::Value(*x),
                    _ => {
                        proof {
                            lemma_first_missing(self.finishes@, self.slots@, self.slots@.len() as int);
                            lemma_first_missing(self.finishes@, self.slots@, i as int);
                            lemma_first_missing(self.finishes@, self.slots@, i + 1);
                            assert(first_missing(self.finishes@, self.slots@, i + 1) == Some(i as int));
                            lemma_first_missing_extends(self.finishes@, self.slots@, i + 1, self.slots@.len() as int);
                        }
                        return Err(MissingField { field: self.names[i].clone() });
                    },
                },
                Finish::Keep => match &self.slots[i] {
                    Slot::Value(x) => FieldValue::Maybe(Some(*x)),
                    _ => FieldValue::Maybe(None),
                },
                Finish::Collect => {
                    let mut items: Vec<T> = Vec::new();
                    match &self.slots[i] {
                        Slot::Items(src) => {
                            let mut j: usize = 0;
                            while j < src.len()
                                invariant
                                    j <= src@.len(),
                                    items@ == src@.take(j as int),
                                decreases src@.len() - j,
                            {
                                items.push(src[j]);
                                assert(src@.take(j + 1) == src@.take(j as int).push(src@[j as int]));
                                j = j + 1;
                            }
                            assert(src@.take(src@.len() as int) == src@);
                        },
                        _ => {},
                    }
                    FieldValue::Items(items)
                },
            };
            vals.push(v);
            i = i + 1;
        }
        Ok(vals)
    }

    /// Sets a required or optional field, and returns the builder for the
    /// next call.
    pub fn set(&mut self, i: usize, v: T) -> (r: &mut Self)
        requires
            old(self).wf(),
            i < old(self).slots@.len(),
            old(self).finishes@[i as int] != Finish::Collect,
        ensures
            r.wf(),
            r.finishes == old(self).finishes,
            r.names == old(self).names,
            r.slots@ == old(self).slots@.update(i as int, Slot::Value(v)),
            *final(self) == *final(r),
    {
        let mut cur: Slot<T> = Slot::Value(v);
        core::mem::swap(&mut cur, &mut self.slots[i]);
        self
    }

    /// Appends an element to a repeated field, which starts empty the first
    /// time, and returns the builder for the next call.
    pub fn push(&mut self, i: usize, v: T) -> (r: &mut Self)
        requires
            old(self).wf(),
            i < old(self).slots@.len(),
            old(self).finishes@[i as int] == Finish::Collect,
        ensures
            r.wf(),
            r.finishes == old(self).finishes,
            r.names == old(self).names,
            r.slots@.len() == old(self).slots@.len(),
            r.slots@[i as int] is Items,
            slot_items(r.slots@[i as int]) == slot_items(old(self).slots@[i as int]).push(v),
            forall|k: int| 0 <= k < r.slots@.len() && k != i ==> r.slots@[k] == old(self).slots@[k],
            *final(self) == *final(r),
    {
        let mut cur: Slot<T> = Slot::Absent;
        core::mem::swap(&mut cur, &mut self.slots[i]);
        let mut items: Vec<T> = match cur {
            Slot::Items(v) => v,
            _ => Vec::new(),
        };
        items.push(v);
        let mut next: Slot<T> = Slot::Items(items);
        core::mem::swap(&mut next, &mut self.slots[i]);
        self
    }

    /// Appends each element of `items` in turn to a repeated field, as
    /// repeated calls of `push` would, and returns the builder for the next
    /// call.
    pub fn push_all(&mut self, i: usize, items: &Vec<T>) -> (r: &mut Self)
        requires
            old(self).wf(),
            i < old(self).slots@.len(),
            old(self).finishes@[i as int] == Finish::Collect,
        ensures
            r.wf(),
            r.finishes == old(self).finishes,
            r.names == old(self).names,
            r.slots@.len() == old(self).slots@.len(),
            slot_items(r.slots@[i as int]) == slot_items(old(self).slots@[i as int]) + items@,
            items@.len() > 0 ==> r.slots@[i as int] is Items,
            forall|k: int| 0 <= k < r.slots@.len() && k != i ==> r.slots@[k] == old(self).slots@[k],
            *final(self) == *final(r),
    {
        let ghost start = *self;
        let mut j: usize = 0;
        while j < items.len()
            invariant
                self.wf(),
                self.finishes == start.finishes,
                self.names == start.names,
                self.slots@.len() == start.slots@.len(),
                i < start.slots@.len(),
                start.finishes@[i as int] == Finish::Collect,
                j <= items@.len(),
                slot_items(self.slots@[i as int]) == slot_items(start.slots@[i as int]) + items@.take(j as int),
                j > 0 ==> self.slots@[i as int] is Items,
                forall|k: int| 0 <= k < self.slots@.len() && k != i ==> self.slots@[k] == start.slots@[k],
            decreases items@.len() - j,
        {
            self.push(i, items[j]);
            assert(items@.take(j + 1) == items@.take(j as int).push(items@[j as int]));
            j = j + 1;
        }
        assert(items@.take(items@.len() as int) == items@);
        self
    }
}

} // verus!
