//! The effective configuration of a field: which accessors it gets and what
//! they are called.

use vstd::prelude::*;
use vstd::string::*;
use crate::attr::{entries, entries_view, get, lookup, read_entries, Entry};
use crate::record::{attrs_view, Attribute, AttributeModel, Field, FieldModel};
use crate::text::{same_text, trim, trimmed};

verus! {

/// The effective configuration of one field.
#[derive(Debug, Clone, PartialEq, Eq)]
pub struct FieldAttr {
    /// Whether a setter is emitted.
    pub setter: bool,
    /// Whether a getter is emitted.
    pub getter: bool,
    /// The field's declared type, as written.
    pub ty: String,
    /// The field's identifier.
    pub name: String,
    /// The name of the setter.
    pub setter_name: String,
    /// The name of the getter.
    pub getter_name: String,
}

/// What a [`FieldAttr`] holds, as sequences of characters.
pub struct FieldAttrModel {
    pub setter: bool,
    pub getter: bool,
    pub ty: Seq<char>,
    pub name: Seq<char>,
    pub setter_name: Seq<char>,
    pub getter_name: Seq<char>,
}

impl View for FieldAttr {
    type V = FieldAttrModel;

    open spec fn view(&self) -> FieldAttrModel {
        FieldAttrModel {
            setter: self.setter,
            getter: self.getter,
            ty: self.ty@,
            name: self.name@,
            setter_name: self.setter_name@,
            getter_name: self.getter_name@,
        }
    }
}

/// Whether `a` is an attribute of this generator: its path is the single
/// identifier `cons`.
pub open spec fn is_cons(a: AttributeModel) -> bool {
    a.ident == Some("cons"@)
}

/// Index of the first `cons` attribute at or after `i`, or the length of
/// `attrs` if there is none.
pub open spec fn first_cons(attrs: Seq<AttributeModel>, i: int) -> int
    decreases attrs.len() - i,
{
    if 0 <= i < attrs.len() && !is_cons(attrs[i]) {
        first_cons(attrs, i + 1)
    } else {
        i
    }
}

/// Whether no attribute of `attrs` is a `cons` attribute.
pub open spec fn no_cons(attrs: Seq<AttributeModel>) -> bool {
    forall|i: int| 0 <= i < attrs.len() ==> !is_cons(#[trigger] attrs[i])
}

/// A switch is on unless its value is exactly `false`.
pub open spec fn enabled(value: Option<Seq<char>>) -> bool {
    value != Some("false"@)
}

/// A rename is honoured where it is present and not blank; otherwise the
/// accessor keeps its default name.
pub open spec fn chosen_name(value: Option<Seq<char>>, default: Seq<char>) -> Seq<char> {
    match value {
        Some(n) => if trim(n).len() > 0 {
            n
        } else {
            default
        },
        None => default,
    }
}

/// The default name of the setter of a field.
pub open spec fn default_setter_name(name: Seq<char>) -> Seq<char> {
    "set_"@ + name
}

/// The configuration that the entries `es` give to the field `f`.
pub open spec fn configure(f: FieldModel, es: Seq<(Seq<char>, Seq<char>)>) -> FieldAttrModel {
    FieldAttrModel {
        setter: enabled(lookup(es, "setter"@)),
        getter: enabled(lookup(es, "getter"@)),
        ty: f.ty,
        name: f.name,
        setter_name: chosen_name(lookup(es, "rename_setter"@), default_setter_name(f.name)),
        getter_name: chosen_name(lookup(es, "rename_getter"@), f.name),
    }
}

/// The configuration of a field without a `cons` attribute.
pub open spec fn defaults(f: FieldModel) -> FieldAttrModel {
    FieldAttrModel {
        setter: true,
        getter: true,
        ty: f.ty,
        name: f.name,
        setter_name: default_setter_name(f.name),
        getter_name: f.name,
    }
}

/// The effective configuration of the field `f`: that of its first `cons`
/// attribute, or the defaults if it has none.
pub open spec fn field_attr(f: FieldModel) -> FieldAttrModel {
    let i = first_cons(f.attrs, 0);
    if 0 <= i < f.attrs.len() {
        configure(f, entries(f.attrs[i].tokens))
    } else {
        defaults(f)
    }
}

/// Tells whether `a` is a `cons` attribute.
pub fn is_cons_attribute(a: &Attribute) -> (r: bool)
    ensures
        r == is_cons(a@),
{
    match &a.ident {
        Some(s) => same_text(s.as_str(), "cons"),
        None => false,
    }
}

/// Finds the first `cons` attribute of a list.
pub fn find_cons(attrs: &Vec<Attribute>) -> (r: Option<usize>)
    ensures
        match r {
            Some(i) => i < attrs@.len() && i == first_cons(attrs_view(attrs@), 0),
            None => first_cons(attrs_view(attrs@), 0) == attrs@.len(),
        },
{
    let ghost all = attrs_view(attrs@);
    let mut i: usize = 0;
    while i < attrs.len()
        invariant
            i <= attrs.len(),
            all == attrs_view(attrs@),
            first_cons(all, 0) == first_cons(all, i as int),
        decreases attrs.len() - i,
    {
        if is_cons_attribute(&attrs[i]) {
            return Some(i);
        }
        i += 1;
    }
    None
}

/// Reads a switch: on unless the value is exactly `false`.
pub fn switch(value: &Option<String>) -> (r: bool)
    ensures
        r == enabled(
            match *value {
                Some(s) => Some(s@),
                None => None,
            },
        ),
{
    match value {
        Some(s) => !same_text(s.as_str(), "false"),
        None => true,
    }
}

/// Picks the name of an accessor: the rename where it is present and not
/// blank, the default otherwise.
pub fn pick_name(value: Option<String>, default: String) -> (r: String)
    ensures
        r@ == chosen_name(
            match value {
                Some(s) => Some(s@),
                None => None,
            },
            default@,
        ),
{
    match value {
        Some(s) => {
            if trimmed(s.as_str()).unicode_len() > 0 {
                s
            } else {
                default
            }
        },
        None => default,
    }
}

/// Builds the default name of the setter of the field `name`.
pub fn setter_name_of(name: &str) -> (r: String)
    ensures
        r@ == default_setter_name(name@),
{
    String::from_str("set_").concat(name)
}

/// Computes the configuration that the entries `es` give to `field`.
pub fn configured(field: &Field, es: &Vec<Entry>) -> (r: FieldAttr)
    ensures
        r@ == configure(field@, entries_view(es@)),
{
    let setter = switch(&get(es, "setter"));
    let getter = switch(&get(es, "getter"));
    let setter_name = pick_name(get(es, "rename_setter"), setter_name_of(field.name.as_str()));
    let getter_name = pick_name(get(es, "rename_getter"), field.name.clone());
    FieldAttr {
        setter,
        getter,
        ty: field.ty.clone(),
        name: field.name.clone(),
        setter_name,
        getter_name,
    }
}

/// Computes the effective configuration of `field`.
pub fn field_config(field: &Field) -> (r: FieldAttr)
    ensures
        r@ == field_attr(field@),
{
    match find_cons(&field.attrs) {
        Some(i) => {
            let es = read_entries(field.attrs[i].tokens.as_str());
            configured(field, &es)
        },
        None => FieldAttr {
            setter: true,
            getter: true,
            ty: field.ty.clone(),
            name: field.name.clone(),
            setter_name: setter_name_of(field.name.as_str()),
            getter_name: field.name.clone(),
        },
    }
}

} // verus!
