//! The structure extractor: the ordered fields of a plain structure.
use vstd::prelude::*;
use crate::syntax::{Data, DeriveInput, Field};

verus! {

/// The fields that a declaration contributes: those of a plain structure, in
/// order, and none for any other shape.
pub open spec fn declared_fields(input: DeriveInput) -> Seq<Field> {
    match input.data {
        Data::Struct(fields) => fields@,
        _ => Seq::empty(),
    }
}

/// The fields of a structure declaration, in declaration order; an empty list
/// when the declaration is an enum or a union.
pub fn extract_fields(input: &DeriveInput) -> (r: Vec<Field>)
    ensures
        r@ == declared_fields(*input),
{
    match &input.data {
        Data::Struct(fields) => {
            let mut out: Vec<Field> = Vec::new();
            let mut i: usize = 0;
            while i < fields.len()
                invariant
                    i <= fields@.len(),
                    out@ == fields@.subrange(0, i as int),
                decreases fields@.len() - i,
            {
                out.push(fields[i].duplicate());
                i += 1;
                proof {
                    assert(out@ =~= fields@.subrange(0, i as int));
                }
            }
            proof {
                assert(fields@.subrange(0, fields@.len() as int) =~= fields@);
            }
            out
        },
        _ => Vec::new(),
    }
}

/// A plain structure yields exactly its field list, in order, with each
/// field's name and type as declared.
pub proof fn lemma_struct_fields_kept(input: DeriveInput, fields: Vec<Field>)
    requires
        input.data == Data::Struct(fields),
    ensures
        declared_fields(input) == fields@,
        forall|i: int|
            0 <= i < fields@.len() ==> (#[trigger] declared_fields(input)[i]).ident == fields@[i].ident
                && declared_fields(input)[i].ty == fields@[i].ty,
{
}

/// A declaration that is not a plain structure yields no fields.
pub proof fn lemma_other_shapes_empty(input: DeriveInput)
    requires
        !(input.data is Struct),
    ensures
        declared_fields(input).len() == 0,
{
}

} // verus!
