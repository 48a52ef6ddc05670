use vstd::prelude::*;
use vstd::string::*;
use crate::text::{is_ident, same_text, valid_ident};

verus! {

/// The first path segment of a written type, when it carries angle-bracketed
/// generic arguments: `Option<u8>` has the head `Option` with first argument `u8`.
pub struct TypeHead {
    pub name: String,
    /// The first generic argument, when that argument is a type.
    pub first_arg: Option<String>,
}

/// A field's declared type as written: its text, and its head if it has one.
pub struct DeclaredType {
    pub text: String,
    pub head: Option<TypeHead>,
}

/// One `key = value` entry inside a directive group.
pub struct DirectiveEntry {
    pub key: String,
    /// The value as written (a string literal keeps its quotes), if any.
    pub value: Option<String>,
}

/// A directive group attached to a field, `group(key = value, ...)`.
pub struct Directive {
    pub group: String,
    pub entries: Vec<DirectiveEntry>,
}

/// One field of a record: its name, declared type and directives.
pub struct FieldSpec {
    pub name: String,
    pub ty: DeclaredType,
    pub directives: Vec<Directive>,
}

/// The body of a declaration handed to the generator.
pub enum DeclBody {
    /// A record with named fields, in declaration order.
    Named(Vec<FieldSpec>),
    /// A tuple-style record.
    Tuple,
    /// A record without fields or braces.
    Unit,
    /// An enum.
    Enum,
    /// A union.
    Union,
}

/// A declaration as the host hands it over, its parts written as text and
/// passed through unchanged: `impl_generics` is the parameter list with its
/// bounds (`<T: Clone>`), `type_generics` the same parameters as arguments
/// (`<T>`), and `where_clause` the written `where` clause, or empty.
pub struct Declaration {
    pub name: String,
    pub vis: String,
    pub impl_generics: String,
    pub type_generics: String,
    pub where_clause: String,
    pub body: DeclBody,
}

/// The shape of one field.
#[derive(Debug, PartialEq, Eq)]
pub enum Classification {
    /// Must be set before finalizing; holds the declared type.
    Required(String),
    /// May stay absent; holds the wrapped type.
    Optional(String),
    /// Filled one element at a time; holds the element type and the
    /// accumulator's name.
    Repeated(String, String),
}

/// A field's shape over character sequences.
pub enum ShapeModel {
    Required(Seq<char>),
    Optional(Seq<char>),
    Repeated(Seq<char>, Seq<char>),
}

impl View for Classification {
    type V = ShapeModel;

    open spec fn view(&self) -> ShapeModel {
        match self {
            Classification::Required(t) => ShapeModel::Required(t@),
            Classification::Optional(t) => ShapeModel::Optional(t@),
            Classification::Repeated(t, a) => ShapeModel::Repeated(t@, a@),
        }
    }
}

/// A reason for which no builder can be generated.
#[derive(Debug, PartialEq, Eq)]
pub enum GenError {
    /// The declaration is not a record with named fields.
    Shape,
    /// The directive entry with this key, on the field of this name, is
    /// unrecognized or its value does not give an identifier.
    Directive { field: String, key: String },
}

pub enum GenErrorModel {
    Shape,
    Directive(Seq<char>, Seq<char>),
}

impl View for GenError {
    type V = GenErrorModel;

    open spec fn view(&self) -> GenErrorModel {
        match self {
            GenError::Shape => GenErrorModel::Shape,
            GenError::Directive { field, key } => GenErrorModel::Directive(field@, key@),
        }
    }
}

pub open spec fn error_text(e: GenErrorModel) -> Seq<char> {
    match e {
        GenErrorModel::Shape => "Builder derive only works on structs with named fields"@,
        GenErrorModel::Directive(_, _) => "expected `builder(each = \"...\")`"@,
    }
}

impl GenError {
    /// The diagnostic reported for this error.
    pub fn message(&self) -> (r: String)
        ensures
            r@ == error_text(self@),
    {
        match self {
            GenError::Shape => String::from_str("Builder derive only works on structs with named fields"),
            GenError::Directive { .. } => String::from_str("expected `builder(each = \"...\")`"),
        }
    }
}

pub open spec fn optional_word() -> Seq<char> {
    seq!['O', 'p', 't', 'i', 'o', 'n']
}

pub open spec fn sequence_word() -> Seq<char> {
    seq!['V', 'e', 'c']
}

pub open spec fn group_word() -> Seq<char> {
    seq!['b', 'u', 'i', 'l', 'd', 'e', 'r']
}

pub open spec fn each_word() -> Seq<char> {
    seq!['e', 'a', 'c', 'h']
}

/// The entries of every directive of the builder group, in order.
pub open spec fn group_entries(ds: Seq<Directive>) -> Seq<DirectiveEntry>
    decreases ds.len(),
{
    if ds.len() == 0 {
        Seq::empty()
    } else {
        let last = ds.last();
        group_entries(ds.drop_last()) + if last.group@ == group_word() {
            last.entries@
        } else {
            Seq::empty()
        }
    }
}

/// The content of `token` when it is exactly one string literal, as syn
/// reads it.
pub uninterp spec fn lit_str_value(token: Seq<char>) -> Option<Seq<char>>;

/// Relies on `syn::parse_str::<syn::LitStr>` and `syn::LitStr::value`: the
/// result depends on the text alone, and is absent unless the text is a
/// string literal.
#[verifier::external_body]
fn string_literal(token: &str) -> (r: Option<String>)
    ensures
        match r {
            Some(s) => lit_str_value(token@) == Some(s@),
            None => lit_str_value(token@) is None,
        },
{
    match syn::parse_str::<syn::LitStr>(token) {
        Ok(lit) => Some(lit.value()),
        Err(_) => None,
    }
}

/// What an entry with key `key` says, given the content of its value when
/// that value is a string literal: `Ok` with the accumulator name, or `Err`
/// with its key.
pub open spec fn entry_verdict(key: Seq<char>, content: Option<Seq<char>>) -> Result<Seq<char>, Seq<char>> {
    if key == each_word() {
        match content {
            Some(s) => if is_ident(s) {
                Ok(s)
            } else {
                Err(key)
            },
            None => Err(key),
        }
    } else {
        Err(key)
    }
}

/// What one entry says, reading its value with syn.
pub open spec fn entry_outcome(e: DirectiveEntry) -> Result<Seq<char>, Seq<char>> {
    entry_verdict(
        e.key@,
        match e.value {
            Some(t) => lit_str_value(t@),
            None => None,
        },
    )
}

pub open spec fn verdict_model(r: Result<String, String>) -> Result<Seq<char>, Seq<char>> {
    match r {
        Ok(n) => Ok(n@),
        Err(k) => Err(k@),
    }
}

/// Judges one entry from its key and the content of its string-literal
/// value: only the accumulator key with an identifier is accepted.
pub fn judge_entry(key: &String, content: Option<String>) -> (r: Result<String, String>)
    ensures
        verdict_model(r) == entry_verdict(
            key@,
            match content {
                Some(s) => Some(s@),
                None => None,
            },
        ),
{
    proof {
        reveal_strlit("each");
        assert("each"@ =~= each_word());
    }
    if same_text(key.as_str(), "each") {
        match content {
            Some(s) => if valid_ident(s.as_str()) {
                Ok(s)
            } else {
                Err(key.clone())
            },
            None => Err(key.clone()),
        }
    } else {
        Err(key.clone())
    }
}

/// Reading entries in order: a malformed entry sticks (the last one is
/// reported); otherwise the last accumulator name wins.
pub open spec fn scan_entries(es: Seq<DirectiveEntry>) -> Option<Result<Seq<char>, Seq<char>>>
    decreases es.len(),
{
    if es.len() == 0 {
        None
    } else {
        let before = scan_entries(es.drop_last());
        match entry_outcome(es.last()) {
            Ok(n) => match before {
                Some(Err(k)) => Some(Err(k)),
                _ => Some(Ok(n)),
            },
            Err(k) => Some(Err(k)),
        }
    }
}

/// The accumulator directive of a field: absent, a name, or the key of the
/// malformed entry that is reported.
pub open spec fn accumulator_of(ds: Seq<Directive>) -> Option<Result<Seq<char>, Seq<char>>> {
    scan_entries(group_entries(ds))
}

/// How a field of this written type with these directives is classified, or
/// the key of the malformed directive entry that stops it. A malformed
/// directive fails the field whatever its type; a well-formed accumulator
/// name only matters on a sequence.
pub open spec fn classify_model(t: DeclaredType, ds: Seq<Directive>) -> Result<ShapeModel, Seq<char>> {
    match accumulator_of(ds) {
        Some(Err(k)) => Err(k),
        acc => match t.head {
            Some(h) => if h.name@ == optional_word() && h.first_arg is Some {
                Ok(ShapeModel::Optional(h.first_arg->0@))
            } else if h.name@ == sequence_word() && h.first_arg is Some && acc is Some {
                Ok(ShapeModel::Repeated(h.first_arg->0@, acc->0->Ok_0))
            } else {
                Ok(ShapeModel::Required(t.text@))
            },
            None => Ok(ShapeModel::Required(t.text@)),
        },
    }
}

pub open spec fn acc_model(acc: Option<Result<String, String>>) -> Option<Result<Seq<char>, Seq<char>>> {
    match acc {
        Some(Ok(n)) => Some(Ok(n@)),
        Some(Err(k)) => Some(Err(k@)),
        None => None,
    }
}

/// Reads the accumulator directive of a field.
pub fn accumulator(ds: &Vec<Directive>) -> (r: Option<Result<String, String>>)
    ensures
        acc_model(r) == accumulator_of(ds@),
{
    let mut acc: Option<Result<String, String>> = None;
    let mut i: usize = 0;
    while i < ds.len()
        invariant
            i <= ds@.len(),
            acc_model(acc) == scan_entries(group_entries(ds@.take(i as int))),
        decreases ds@.len() - i,
    {
        let d = &ds[i];
        proof {
            reveal_strlit("builder");
            assert("builder"@ =~= group_word());
            assert(ds@.take(i + 1).drop_last() == ds@.take(i as int));
            assert(ds@.take(i + 1).last() == *d);
        }
        if same_text(d.group.as_str(), "builder") {
            let mut j: usize = 0;
            while j < d.entries.len()
                invariant
                    i < ds@.len(),
                    d == ds@[i as int],
                    j <= d.entries@.len(),
                    acc_model(acc) == scan_entries(
                        group_entries(ds@.take(i as int)) + d.entries@.take(j as int),
                    ),
                decreases d.entries@.len() - j,
            {
                let e = &d.entries[j];
                let ghost pre = group_entries(ds@.take(i as int)) + d.entries@.take(j as int);
                let ghost post = group_entries(ds@.take(i as int)) + d.entries@.take(j + 1);
                assert(post.drop_last() == pre);
                assert(post.last() == *e);
                let content = match &e.value {
                    Some(t) => string_literal(t.as_str()),
                    None => None,
                };
                let outcome = judge_entry(&e.key, content);
                acc = match outcome {
                    Ok(n) => match acc {
                        Some(Err(k)) => Some(Err(k)),
                        _ => Some(Ok(n)),
                    },
                    Err(k) => Some(Err(k)),
                };
                assert(acc_model(acc) == scan_entries(post));
                j = j + 1;
            }
            assert(d.entries@.take(d.entries@.len() as int) == d.entries@);
            assert(group_entries(ds@.take(i + 1)) == group_entries(ds@.take(i as int)) + d.entries@);
        } else {
            assert(group_entries(ds@.take(i + 1)) =~= group_entries(ds@.take(i as int)));
        }
        i = i + 1;
    }
    assert(ds@.take(ds@.len() as int) == ds@);
    acc
}

} // verus!
