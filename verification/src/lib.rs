//! Accessor synthesis for record types.
//!
//! Given a description of a record with named fields, each field carrying an
//! optional `cons` attribute, the library computes the effective per-field
//! configuration and the block of getters and setters to be emitted for the
//! record. Every function is stated over sequences of characters and proved
//! against that statement.

pub mod text;
pub mod attr;
pub mod record;
pub mod config;
pub mod emit;
pub mod guarantees;

use vstd::prelude::*;
use crate::config::{field_attr, field_config, FieldAttr, FieldAttrModel};
use crate::emit::{configs_view, emit, methods, ImplBlock, ImplBlockModel};
use crate::record::{
    fields_view, named_fields, supported, ConstructError, Declaration, DeclarationModel, Field,
    FieldModel,
};

verus! {

/// The effective configurations of a list of fields, in field order.
pub open spec fn field_attrs(fields: Seq<FieldModel>) -> Seq<FieldAttrModel> {
    Seq::new(fields.len(), |i: int| field_attr(fields[i]))
}

/// The block generated for a supported declaration: named after it, with
/// the methods that its fields' configurations ask for.
pub open spec fn generated(d: DeclarationModel) -> ImplBlockModel {
    ImplBlockModel { ident: d.ident, methods: methods(field_attrs(d.shape->Named_0)) }
}

/// What generation gives for a declaration: the block for a supported one,
/// a refusal for any other.
pub open spec fn outcome(d: DeclarationModel) -> Result<ImplBlockModel, ConstructError> {
    if supported(d) {
        Ok(generated(d))
    } else {
        Err(ConstructError::NotSupport)
    }
}

/// A result of generation, the block by its view.
pub open spec fn result_view(r: Result<ImplBlock, ConstructError>) -> Result<
    ImplBlockModel,
    ConstructError,
> {
    match r {
        Ok(b) => Ok(b@),
        Err(e) => Err(e),
    }
}

/// Computes the effective configuration of each field, in field order.
pub fn field_configs(fields: &Vec<Field>) -> (r: Vec<FieldAttr>)
    ensures
        configs_view(r@) == field_attrs(fields_view(fields@)),
{
    let mut out: Vec<FieldAttr> = Vec::new();
    let mut i: usize = 0;
    while i < fields.len()
        invariant
            i <= fields.len(),
            out@.len() == i,
            forall|k: int| 0 <= k < i ==> (#[trigger] out@[k])@ == field_attr(fields@[k]@),
        decreases fields.len() - i,
    {
        out.push(field_config(&fields[i]));
        i += 1;
    }
    assert(configs_view(out@) =~= field_attrs(fields_view(fields@)));
    out
}

/// Generates the accessors of a declaration.
///
/// A record with at least one named field gets its block of getters and
/// setters; any other declaration is refused with
/// [`ConstructError::NotSupport`].
pub fn construct(input: &Declaration) -> (r: Result<ImplBlock, ConstructError>)
    ensures
        result_view(r) == outcome(input@),
{
    match named_fields(input) {
        Ok(fields) => {
            let attrs = field_configs(fields);
            Ok(emit(input.ident.as_str(), &attrs))
        },
        Err(e) => Err(e),
    }
}

} // verus!
