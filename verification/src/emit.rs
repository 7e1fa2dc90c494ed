//! The accessors emitted for a record, and their text.

use vstd::prelude::*;
use vstd::string::*;
use crate::config::{FieldAttr, FieldAttrModel};

verus! {

/// Which accessor a method is.
#[derive(Debug, Clone, Copy, PartialEq, Eq)]
pub enum Accessor {
    /// Reads the field through a shared reference.
    Getter,
    /// Writes the field through an exclusive reference.
    Setter,
}

/// One emitted method.
#[derive(Debug, Clone, PartialEq, Eq)]
pub struct Method {
    /// Getter or setter.
    pub kind: Accessor,
    /// The method's name.
    pub name: String,
    /// The field that the method reads or writes. A setter's argument
    /// carries this name too.
    pub field: String,
    /// The field's declared type, as written.
    pub ty: String,
}

/// What a [`Method`] holds, as sequences of characters.
pub struct MethodModel {
    pub kind: Accessor,
    pub name: Seq<char>,
    pub field: Seq<char>,
    pub ty: Seq<char>,
}

impl View for Method {
    type V = MethodModel;

    open spec fn view(&self) -> MethodModel {
        MethodModel { kind: self.kind, name: self.name@, field: self.field@, ty: self.ty@ }
    }
}

/// The block of methods emitted for one record.
#[derive(Debug, Clone, PartialEq, Eq)]
pub struct ImplBlock {
    /// The record's type name.
    pub ident: String,
    /// The methods, getters first.
    pub methods: Vec<Method>,
}

/// What an [`ImplBlock`] holds, as sequences.
pub struct ImplBlockModel {
    pub ident: Seq<char>,
    pub methods: Seq<MethodModel>,
}

/// The methods of a list, each by its view.
pub open spec fn methods_view(v: Seq<Method>) -> Seq<MethodModel> {
    Seq::new(v.len(), |i: int| v[i]@)
}

/// The configurations of a list, each by its view.
pub open spec fn configs_view(v: Seq<FieldAttr>) -> Seq<FieldAttrModel> {
    Seq::new(v.len(), |i: int| v[i]@)
}

impl View for ImplBlock {
    type V = ImplBlockModel;

    open spec fn view(&self) -> ImplBlockModel {
        ImplBlockModel { ident: self.ident@, methods: methods_view(self.methods@) }
    }
}

/// The getter of a field.
pub open spec fn getter_of(a: FieldAttrModel) -> MethodModel {
    MethodModel { kind: Accessor::Getter, name: a.getter_name, field: a.name, ty: a.ty }
}

/// The setter of a field.
pub open spec fn setter_of(a: FieldAttrModel) -> MethodModel {
    MethodModel { kind: Accessor::Setter, name: a.setter_name, field: a.name, ty: a.ty }
}

/// The getters of the fields that have one, in field order.
pub open spec fn getters(attrs: Seq<FieldAttrModel>) -> Seq<MethodModel>
    decreases attrs.len(),
{
    if attrs.len() == 0 {
        Seq::empty()
    } else if attrs.last().getter {
        getters(attrs.drop_last()).push(getter_of(attrs.last()))
    } else {
        getters(attrs.drop_last())
    }
}

/// The setters of the fields that have one, in field order.
pub open spec fn setters(attrs: Seq<FieldAttrModel>) -> Seq<MethodModel>
    decreases attrs.len(),
{
    if attrs.len() == 0 {
        Seq::empty()
    } else if attrs.last().setter {
        setters(attrs.drop_last()).push(setter_of(attrs.last()))
    } else {
        setters(attrs.drop_last())
    }
}

/// The methods emitted for a list of fields: all getters, then all setters.
pub open spec fn methods(attrs: Seq<FieldAttrModel>) -> Seq<MethodModel> {
    getters(attrs) + setters(attrs)
}

/// The text of one method.
pub open spec fn method_text(m: MethodModel) -> Seq<char> {
    match m.kind {
        Accessor::Getter => "pub fn "@ + m.name + "(&self) -> &"@ + m.ty + " { &self."@ + m.field
            + " } "@,
        Accessor::Setter => "pub fn "@ + m.name + "(&mut self, "@ + m.field + ": "@ + m.ty
            + ") { self."@ + m.field + " = "@ + m.field + "; } "@,
    }
}

/// The texts of a list of methods, one after the other.
pub open spec fn methods_text(ms: Seq<MethodModel>) -> Seq<char>
    decreases ms.len(),
{
    if ms.len() == 0 {
        Seq::empty()
    } else {
        methods_text(ms.drop_last()) + method_text(ms.last())
    }
}

/// The text of an implementation block.
pub open spec fn block_text(b: ImplBlockModel) -> Seq<char> {
    "impl "@ + b.ident + " { "@ + methods_text(b.methods) + "}"@
}

/// Emits the methods for the record `ident` whose fields are configured by
/// `attrs`: the getters in field order, then the setters in field order.
pub fn emit(ident: &str, attrs: &Vec<FieldAttr>) -> (r: ImplBlock)
    ensures
        r@.ident == ident@,
        r@.methods == methods(configs_view(attrs@)),
{
    let ghost all = configs_view(attrs@);
    let mut out: Vec<Method> = Vec::new();
    let mut i: usize = 0;
    while i < attrs.len()
        invariant
            i <= attrs.len(),
            all == configs_view(attrs@),
            methods_view(out@) == getters(all.take(i as int)),
        decreases attrs.len() - i,
    {
        assert(all.take(i + 1).drop_last() =~= all.take(i as int));
        assert(all.take(i + 1).last() == attrs@[i as int]@);
        let a = &attrs[i];
        if a.getter {
            out.push(
                Method {
                    kind: Accessor::Getter,
                    name: a.getter_name.clone(),
                    field: a.name.clone(),
                    ty: a.ty.clone(),
                },
            );
            assert(methods_view(out@) =~= getters(all.take(i as int)).push(getter_of(a@)));
        }
        i += 1;
    }
    assert(all.take(i as int) =~= all);
    assert(methods_view(out@) =~= getters(all) + setters(all.take(0)));
    i = 0;
    while i < attrs.len()
        invariant
            i <= attrs.len(),
            all == configs_view(attrs@),
            methods_view(out@) == getters(all) + setters(all.take(i as int)),
        decreases attrs.len() - i,
    {
        assert(all.take(i + 1).drop_last() =~= all.take(i as int));
        assert(all.take(i + 1).last() == attrs@[i as int]@);
        let a = &attrs[i];
        let ghost before = methods_view(out@);
        if a.setter {
            out.push(
                Method {
                    kind: Accessor::Setter,
                    name: a.setter_name.clone(),
                    field: a.name.clone(),
                    ty: a.ty.clone(),
                },
            );
            assert(methods_view(out@) =~= before.push(setter_of(a@)));
            assert(before.push(setter_of(a@)) =~= getters(all) + setters(all.take(i as int)).push(
                setter_of(a@),
            ));
        }
        i += 1;
    }
    assert(all.take(i as int) =~= all);
    ImplBlock { ident: String::from_str(ident), methods: out }
}

/// Writes one method as text.
pub fn render_method(m: &Method) -> (r: String)
    ensures
        r@ == method_text(m@),
{
    let mut s = String::from_str("pub fn ");
    s.append(m.name.as_str());
    match m.kind {
        Accessor::Getter => {
            s.append("(&self) -> &");
            s.append(m.ty.as_str());
            s.append(" { &self.");
            s.append(m.field.as_str());
            s.append(" } ");
        },
        Accessor::Setter => {
            s.append("(&mut self, ");
            s.append(m.field.as_str());
            s.append(": ");
            s.append(m.ty.as_str());
            s.append(") { self.");
            s.append(m.field.as_str());
            s.append(" = ");
            s.append(m.field.as_str());
            s.append("; } ");
        },
    }
    s
}

/// Writes an implementation block as text.
pub fn render(b: &ImplBlock) -> (r: String)
    ensures
        r@ == block_text(b@),
{
    let ghost ms = methods_view(b.methods@);
    let mut s = String::from_str("impl ");
    s.append(b.ident.as_str());
    s.append(" { ");
    let mut i: usize = 0;
    while i < b.methods.len()
        invariant
            i <= b.methods.len(),
            ms == methods_view(b.methods@),
            s@ == "impl "@ + b.ident@ + " { "@ + methods_text(ms.take(i as int)),
        decreases b.methods.len() - i,
    {
        assert(ms.take(i + 1).drop_last() =~= ms.take(i as int));
        assert(ms.take(i + 1).last() == b.methods@[i as int]@);
        let t = render_method(&b.methods[i]);
        s.append(t.as_str());
        assert(s@ =~= "impl "@ + b.ident@ + " { "@ + methods_text(ms.take(i + 1)));
        i += 1;
    }
    assert(ms.take(i as int) =~= ms);
    s.append("}");
    s
}

} // verus!
