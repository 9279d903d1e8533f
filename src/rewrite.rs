//! Folding a configuration over a struct declaration: every field that the
//! configuration names and whose type is `String` gets the fixed-capacity
//! type; everything else is carried through unchanged.
use vstd::prelude::*;

use crate::args::{is_word, Args, ArgsView};

verus! {

/// The declared type of a field, as far as the rewriter reads it.
#[derive(Debug, PartialEq, Eq)]
pub enum FieldType {
    /// A type written as a path (`String`, `std::string::String`, `Vec<u8>`):
    /// the identifiers of its segments, in order.
    Path(Vec<String>),
    /// `typ::<size>`: the fixed-capacity type `typ` with the capacity literal `size`.
    Sized { typ: String, size: String },
    /// Any other type (a reference, a tuple, an array, ...).
    Other,
}

/// One field of a struct.
#[derive(Debug, PartialEq, Eq)]
pub struct Field<S> {
    /// The field's name; `None` in a tuple struct.
    pub name: Option<String>,
    /// The declared type.
    pub ty: FieldType,
    /// Everything else about the field as written (attributes, visibility,
    /// the type's own syntax); the rewriter never reads or changes it.
    pub source: S,
}

/// A struct declaration: its name and its fields in order.
#[derive(Debug, PartialEq, Eq)]
pub struct StructDecl<S> {
    pub name: String,
    pub fields: Vec<Field<S>>,
}

/// `ty` is the growable string type: a path whose last segment is `String`
/// (so `String` and `std::string::String` both are).
pub open spec fn is_var_string(ty: FieldType) -> bool {
    ty matches FieldType::Path(segs) && segs@.len() > 0 && segs@.last()@ == "String"@
}

/// The configuration `a` replaces the type of field `f`.
pub open spec fn replaces<S>(a: ArgsView, f: Field<S>) -> bool {
    f.name matches Some(n) && a.sizes.contains_key(n@) && is_var_string(f.ty)
}

/// `out` is the field `f` after folding `a` over it: the type becomes
/// `a.typ::<size>` where `a` replaces it, and nothing else changes.
pub open spec fn folded_field<S>(a: ArgsView, f: Field<S>, out: Field<S>) -> bool {
    if replaces(a, f) {
        &&& out.name == f.name
        &&& out.source == f.source
        &&& out.ty matches FieldType::Sized { typ, size }
        &&& typ@ == a.typ
        &&& size@ == a.sizes[f.name->Some_0@]
    } else {
        out == f
    }
}

/// `out` is the declaration `d` after folding `a` over each of its fields, in order.
pub open spec fn folded_struct<S>(a: ArgsView, d: StructDecl<S>, out: StructDecl<S>) -> bool {
    &&& out.name == d.name
    &&& out.fields@.len() == d.fields@.len()
    &&& forall|i: int| 0 <= i < d.fields@.len() ==> folded_field(a, #[trigger] d.fields@[i], out.fields@[i])
}

/// Whether `ty` is the growable string type.
fn type_is_var_string(ty: &FieldType) -> (r: bool)
    ensures
        r == is_var_string(*ty),
{
    match ty {
        FieldType::Path(segs) => segs.len() > 0 && is_word(&segs[segs.len() - 1], "String"),
        _ => false,
    }
}

impl Args {
    /// Gives `field` the fixed-capacity type if this configuration names it
    /// and it is declared `String`; leaves it alone otherwise.
    fn rewrite_field<S>(&self, field: &mut Field<S>)
        ensures
            folded_field(self@, *old(field), *final(field)),
    {
        if let Some(key) = &field.name {
            if let Some(num) = self.size_of(key) {
                if type_is_var_string(&field.ty) {
                    field.ty = FieldType::Sized { typ: self.typ().clone(), size: num.clone() };
                }
            }
        }
    }

    /// The field after folding this configuration over it.
    pub fn fold_field<S>(&self, input: Field<S>) -> (r: Field<S>)
        ensures
            folded_field(self@, input, r),
    {
        let mut field = input;
        self.rewrite_field(&mut field);
        field
    }

    /// The declaration after folding this configuration over each of its
    /// fields; the name and the order of the fields are kept.
    pub fn fold_struct<S>(&self, input: StructDecl<S>) -> (r: StructDecl<S>)
        ensures
            folded_struct(self@, input, r),
    {
        let mut decl = input;
        let n = decl.fields.len();
        let mut i: usize = 0;
        while i < n
            invariant
                i <= n,
                n == input.fields@.len(),
                decl.name == input.name,
                decl.fields@.len() == n,
                forall|j: int| 0 <= j < i ==> folded_field(self@, #[trigger] input.fields@[j], decl.fields@[j]),
                forall|j: int| i <= j < n ==> #[trigger] decl.fields@[j] == input.fields@[j],
            decreases n - i,
        {
            self.rewrite_field(&mut decl.fields[i]);
            i = i + 1;
        }
        decl
    }
}

/// With no sizes given, folding leaves a declaration as it is.
pub proof fn lemma_empty_sizes_identity<S>(a: ArgsView, d: StructDecl<S>, out: StructDecl<S>)
    requires
        a.sizes == Map::<Seq<char>, Seq<char>>::empty(),
        folded_struct(a, d, out),
    ensures
        out.name == d.name,
        out.fields@ == d.fields@,
{
    assert forall|i: int| 0 <= i < d.fields@.len() implies out.fields@[i] == d.fields@[i] by {
        assert(folded_field(a, d.fields@[i], out.fields@[i]));
    }
    assert(out.fields@ =~= d.fields@);
}

/// When no size is given for any field of a declaration, folding leaves it as it is.
pub proof fn lemma_unnamed_fields_identity<S>(a: ArgsView, d: StructDecl<S>, out: StructDecl<S>)
    requires
        forall|i: int|
            0 <= i < d.fields@.len() ==> ((#[trigger] d.fields@[i]).name matches Some(n) ==> !a.sizes.contains_key(n@)),
        folded_struct(a, d, out),
    ensures
        out.name == d.name,
        out.fields@ == d.fields@,
{
    assert forall|i: int| 0 <= i < d.fields@.len() implies out.fields@[i] == d.fields@[i] by {
        assert(folded_field(a, d.fields@[i], out.fields@[i]));
    }
    assert(out.fields@ =~= d.fields@);
}

/// A `String` field named `f`, with the size `n` given for `f` alone, gets the
/// type `a.typ::<n>` and keeps its name, its other syntax and its place; every
/// other field and the declaration's name stay as they are.
pub proof fn lemma_exact_substitution<S>(
    a: ArgsView,
    d: StructDecl<S>,
    out: StructDecl<S>,
    i: int,
    f: Seq<char>,
    n: Seq<char>,
)
    requires
        a.sizes == Map::<Seq<char>, Seq<char>>::empty().insert(f, n),
        0 <= i < d.fields@.len(),
        d.fields@[i].name matches Some(name) && name@ == f,
        is_var_string(d.fields@[i].ty),
        forall|j: int|
            0 <= j < d.fields@.len() && j != i ==> ((#[trigger] d.fields@[j]).name matches Some(m) ==> m@ != f),
        folded_struct(a, d, out),
    ensures
        out.name == d.name,
        out.fields@.len() == d.fields@.len(),
        out.fields@[i].name == d.fields@[i].name,
        out.fields@[i].source == d.fields@[i].source,
        out.fields@[i].ty matches FieldType::Sized { typ, size } && typ@ == a.typ && size@ == n,
        forall|j: int| 0 <= j < d.fields@.len() && j != i ==> out.fields@[j] == d.fields@[j],
{
    assert(folded_field(a, d.fields@[i], out.fields@[i]));
    assert forall|j: int| 0 <= j < d.fields@.len() && j != i implies out.fields@[j] == d.fields@[j] by {
        assert(folded_field(a, d.fields@[j], out.fields@[j]));
    }
}

/// A field whose declared type is not `String` is never changed, whatever size
/// is given for it.
pub proof fn lemma_type_mismatch_skipped<S>(a: ArgsView, d: StructDecl<S>, out: StructDecl<S>, i: int)
    requires
        0 <= i < d.fields@.len(),
        !is_var_string(d.fields@[i].ty),
        folded_struct(a, d, out),
    ensures
        out.fields@[i] == d.fields@[i],
{
    assert(folded_field(a, d.fields@[i], out.fields@[i]));
}

} // verus!
