//! What holds of every generated block, proved from the definitions.

use vstd::prelude::*;
use vstd::string::*;
use crate::attr::{entries, lookup};
use crate::config::{
    configure, default_setter_name, defaults, field_attr, first_cons, no_cons, FieldAttrModel,
};
use crate::emit::{
    block_text, getter_of, getters, setter_of, setters, Accessor, ImplBlockModel, MethodModel,
};
use crate::record::{
    supported, AttributeModel, ConstructError, Declaration, DeclarationModel, FieldModel,
    ShapeModel,
};
use crate::text::{
    drop_spaces, is_space, lemma_drop_spaces, lemma_skip_spaces, skip_spaces, trim,
};
use crate::{field_attrs, generated, outcome};

verus! {

/// Whether no two fields of `fields` share a name.
pub open spec fn distinct_names(fields: Seq<FieldModel>) -> bool {
    forall|i: int, j: int|
        0 <= i < fields.len() && 0 <= j < fields.len() && i != j ==> fields[i].name != fields[j].name
}

/// The entries that configure `f`, where it has a `cons` attribute: those of
/// the first one.
pub open spec fn cons_entries(f: FieldModel) -> Option<Seq<(Seq<char>, Seq<char>)>> {
    let i = first_cons(f.attrs, 0);
    if 0 <= i < f.attrs.len() {
        Some(entries(f.attrs[i].tokens))
    } else {
        None
    }
}

/// Every getter in the list stems from a field that has its getter on, and
/// every such field has its getter in the list.
pub proof fn lemma_getters(attrs: Seq<FieldAttrModel>)
    ensures
        getters(attrs).len() <= attrs.len(),
        forall|k: int|
            0 <= k < getters(attrs).len() ==> exists|i: int|
                0 <= i < attrs.len() && attrs[i].getter && #[trigger] getters(attrs)[k]
                    == getter_of(attrs[i]),
        forall|i: int|
            0 <= i < attrs.len() && attrs[i].getter ==> getters(attrs).contains(
                getter_of(#[trigger] attrs[i]),
            ),
    decreases attrs.len(),
{
    if attrs.len() > 0 {
        let rest = attrs.drop_last();
        lemma_getters(rest);
        let g = getters(attrs);
        assert forall|k: int| 0 <= k < g.len() implies exists|i: int|
            0 <= i < attrs.len() && attrs[i].getter && #[trigger] g[k] == getter_of(attrs[i]) by {
            if k < getters(rest).len() {
                let i = choose|i: int|
                    0 <= i < rest.len() && rest[i].getter && getters(rest)[k] == getter_of(rest[i]);
                assert(attrs[i] == rest[i]);
            } else {
                assert(g[k] == getter_of(attrs[attrs.len() - 1]));
            }
        }
        assert forall|i: int| 0 <= i < attrs.len() && attrs[i].getter implies g.contains(
            getter_of(#[trigger] attrs[i]),
        ) by {
            if i < rest.len() {
                assert(attrs[i] == rest[i]);
                let k = choose|k: int|
                    0 <= k < getters(rest).len() && getters(rest)[k] == getter_of(rest[i]);
                assert(g[k] == getter_of(attrs[i]));
            } else {
                assert(g[g.len() - 1] == getter_of(attrs[i]));
            }
        }
    }
}

/// Every setter in the list stems from a field that has its setter on, and
/// every such field has its setter in the list.
pub proof fn lemma_setters(attrs: Seq<FieldAttrModel>)
    ensures
        setters(attrs).len() <= attrs.len(),
        forall|k: int|
            0 <= k < setters(attrs).len() ==> exists|i: int|
                0 <= i < attrs.len() && attrs[i].setter && #[trigger] setters(attrs)[k]
                    == setter_of(attrs[i]),
        forall|i: int|
            0 <= i < attrs.len() && attrs[i].setter ==> setters(attrs).contains(
                setter_of(#[trigger] attrs[i]),
            ),
    decreases attrs.len(),
{
    if attrs.len() > 0 {
        let rest = attrs.drop_last();
        lemma_setters(rest);
        let g = setters(attrs);
        assert forall|k: int| 0 <= k < g.len() implies exists|i: int|
            0 <= i < attrs.len() && attrs[i].setter && #[trigger] g[k] == setter_of(attrs[i]) by {
            if k < setters(rest).len() {
                let i = choose|i: int|
                    0 <= i < rest.len() && rest[i].setter && setters(rest)[k] == setter_of(rest[i]);
                assert(attrs[i] == rest[i]);
            } else {
                assert(g[k] == setter_of(attrs[attrs.len() - 1]));
            }
        }
        assert forall|i: int| 0 <= i < attrs.len() && attrs[i].setter implies g.contains(
            setter_of(#[trigger] attrs[i]),
        ) by {
            if i < rest.len() {
                assert(attrs[i] == rest[i]);
                let k = choose|k: int|
                    0 <= k < setters(rest).len() && setters(rest)[k] == setter_of(rest[i]);
                assert(g[k] == setter_of(attrs[i]));
            } else {
                assert(g[g.len() - 1] == setter_of(attrs[i]));
            }
        }
    }
}

/// Where every field has both accessors on, the getters are those of the
/// fields one by one, and so are the setters.
pub proof fn lemma_all_on(attrs: Seq<FieldAttrModel>)
    requires
        forall|i: int| 0 <= i < attrs.len() ==> (#[trigger] attrs[i]).getter && attrs[i].setter,
    ensures
        getters(attrs) == Seq::new(attrs.len(), |i: int| getter_of(attrs[i])),
        setters(attrs) == Seq::new(attrs.len(), |i: int| setter_of(attrs[i])),
    decreases attrs.len(),
{
    if attrs.len() > 0 {
        let rest = attrs.drop_last();
        assert forall|i: int| 0 <= i < rest.len() implies (#[trigger] rest[i]).getter
            && rest[i].setter by {
            assert(rest[i] == attrs[i]);
        }
        lemma_all_on(rest);
        assert(attrs.last() == attrs[attrs.len() - 1]);
    }
    assert(getters(attrs) =~= Seq::new(attrs.len(), |i: int| getter_of(attrs[i])));
    assert(setters(attrs) =~= Seq::new(attrs.len(), |i: int| setter_of(attrs[i])));
}

/// A field without a `cons` attribute has the default configuration.
pub proof fn lemma_no_cons_gives_defaults(f: FieldModel)
    requires
        no_cons(f.attrs),
    ensures
        field_attr(f) == defaults(f),
{
    lemma_first_cons_absent(f.attrs, 0);
}

proof fn lemma_first_cons_absent(attrs: Seq<AttributeModel>, i: int)
    requires
        no_cons(attrs),
        0 <= i <= attrs.len(),
    ensures
        first_cons(attrs, i) == attrs.len(),
    decreases attrs.len() - i,
{
    if i < attrs.len() {
        lemma_first_cons_absent(attrs, i + 1);
    }
}

/// A field has both accessors switched off only where its
/// `cons` attribute sets both `getter` and `setter` to `false`; and each
/// accessor that is on is among the methods of the generated block.
pub proof fn enabled_accessors_are_emitted(d: DeclarationModel, i: int)
    requires
        supported(d),
        0 <= i < d.shape->Named_0.len(),
    ensures
        ({
            let f = d.shape->Named_0[i];
            let a = field_attr(f);
            &&& a.getter ==> generated(d).methods.contains(getter_of(a))
            &&& a.setter ==> generated(d).methods.contains(setter_of(a))
            &&& !a.getter && !a.setter <==> cons_entries(f) is Some && lookup(
                cons_entries(f)->0,
                "getter"@,
            ) == Some("false"@) && lookup(cons_entries(f)->0, "setter"@) == Some("false"@)
        }),
{
    let attrs = field_attrs(d.shape->Named_0);
    let a = field_attr(d.shape->Named_0[i]);
    assert(attrs[i] == a);
    lemma_getters(attrs);
    lemma_setters(attrs);
    let ms = generated(d).methods;
    if a.getter {
        let k = choose|k: int| 0 <= k < getters(attrs).len() && getters(attrs)[k] == getter_of(a);
        assert(ms[k] == getter_of(a));
    }
    if a.setter {
        let k = choose|k: int| 0 <= k < setters(attrs).len() && setters(attrs)[k] == setter_of(a);
        assert(ms[getters(attrs).len() + k] == setter_of(a));
    }
}

/// Where no field carries a `cons` attribute, the block holds for
/// each field `f: T` the getter `f` that returns `&T` and the setter `set_f`
/// that takes `f: T`: the getters in field order, then the setters in field
/// order, and nothing else.
pub proof fn plain_fields_get_default_accessors(d: DeclarationModel)
    requires
        supported(d),
        forall|i: int| 0 <= i < d.shape->Named_0.len() ==> no_cons(#[trigger] d.shape->Named_0[i].attrs),
    ensures
        ({
            let fs = d.shape->Named_0;
            let ms = generated(d).methods;
            &&& ms.len() == 2 * fs.len()
            &&& forall|i: int|
                0 <= i < fs.len() ==> #[trigger] ms[i] == (MethodModel {
                    kind: Accessor::Getter,
                    name: fs[i].name,
                    field: fs[i].name,
                    ty: fs[i].ty,
                })
            &&& forall|i: int|
                0 <= i < fs.len() ==> #[trigger] ms[fs.len() + i] == (MethodModel {
                    kind: Accessor::Setter,
                    name: "set_"@ + fs[i].name,
                    field: fs[i].name,
                    ty: fs[i].ty,
                })
        }),
{
    let fs = d.shape->Named_0;
    let attrs = field_attrs(fs);
    assert forall|i: int| 0 <= i < attrs.len() implies #[trigger] attrs[i] == defaults(fs[i]) by {
        lemma_no_cons_gives_defaults(fs[i]);
    }
    lemma_all_on(attrs);
}

/// A field's configuration carries its name and its declared
/// type unchanged, and every method of the generated block reads or writes a
/// field of the record and carries that field's declared type.
pub proof fn methods_carry_declared_types(d: DeclarationModel)
    requires
        supported(d),
    ensures
        forall|i: int|
            0 <= i < d.shape->Named_0.len() ==> field_attr(#[trigger] d.shape->Named_0[i]).ty
                == d.shape->Named_0[i].ty && field_attr(d.shape->Named_0[i]).name
                == d.shape->Named_0[i].name,
        forall|k: int|
            0 <= k < generated(d).methods.len() ==> exists|i: int|
                0 <= i < d.shape->Named_0.len() && (#[trigger] generated(d).methods[k]).field
                    == d.shape->Named_0[i].name && generated(d).methods[k].ty
                    == d.shape->Named_0[i].ty,
{
    let fs = d.shape->Named_0;
    let attrs = field_attrs(fs);
    let ms = generated(d).methods;
    lemma_getters(attrs);
    lemma_setters(attrs);
    assert forall|k: int| 0 <= k < ms.len() implies exists|i: int|
        0 <= i < fs.len() && (#[trigger] ms[k]).field == fs[i].name && ms[k].ty == fs[i].ty by {
        if k < getters(attrs).len() {
            let i = choose|i: int|
                0 <= i < attrs.len() && attrs[i].getter && getters(attrs)[k] == getter_of(attrs[i]);
            assert(ms[k].field == fs[i].name && ms[k].ty == fs[i].ty);
        } else {
            let j = k - getters(attrs).len();
            let i = choose|i: int|
                0 <= i < attrs.len() && attrs[i].setter && setters(attrs)[j] == setter_of(attrs[i]);
            assert(ms[k] == setters(attrs)[j]);
            assert(ms[k].field == fs[i].name && ms[k].ty == fs[i].ty);
        }
    }
}

/// `setter = false` switches the setter
/// off and `getter = false` the getter, each whatever the other says.
pub proof fn false_switches_off(f: FieldModel, es: Seq<(Seq<char>, Seq<char>)>)
    ensures
        lookup(es, "setter"@) == Some("false"@) <==> !configure(f, es).setter,
        lookup(es, "getter"@) == Some("false"@) <==> !configure(f, es).getter,
{
}

/// In a record whose fields have distinct names,
/// a field with its setter off has no setter among the methods, and a field
/// with its getter off has no getter.
pub proof fn disabled_accessors_are_absent(d: DeclarationModel, i: int)
    requires
        supported(d),
        distinct_names(d.shape->Named_0),
        0 <= i < d.shape->Named_0.len(),
    ensures
        !field_attr(d.shape->Named_0[i]).setter ==> forall|k: int|
            0 <= k < generated(d).methods.len() ==> !((#[trigger] generated(d).methods[k]).kind
                == Accessor::Setter && generated(d).methods[k].field == d.shape->Named_0[i].name),
        !field_attr(d.shape->Named_0[i]).getter ==> forall|k: int|
            0 <= k < generated(d).methods.len() ==> !((#[trigger] generated(d).methods[k]).kind
                == Accessor::Getter && generated(d).methods[k].field == d.shape->Named_0[i].name),
{
    lemma_methods_of_field(d, i);
}

/// In a record whose fields have distinct names, every method for the field
/// `i` is that field's own getter or setter, and that accessor is on.
pub proof fn lemma_methods_of_field(d: DeclarationModel, i: int)
    requires
        supported(d),
        distinct_names(d.shape->Named_0),
        0 <= i < d.shape->Named_0.len(),
    ensures
        forall|k: int|
            0 <= k < generated(d).methods.len() && (#[trigger] generated(d).methods[k]).field
                == d.shape->Named_0[i].name ==> {
                let a = field_attr(d.shape->Named_0[i]);
                let m = generated(d).methods[k];
                (a.getter && m == getter_of(a)) || (a.setter && m == setter_of(a))
            },
{
    let fs = d.shape->Named_0;
    let attrs = field_attrs(fs);
    let ms = generated(d).methods;
    let a = field_attr(fs[i]);
    lemma_getters(attrs);
    lemma_setters(attrs);
    assert forall|k: int| 0 <= k < ms.len() && (#[trigger] ms[k]).field == fs[i].name implies (
    a.getter && ms[k] == getter_of(a)) || (a.setter && ms[k] == setter_of(a)) by {
        if k < getters(attrs).len() {
            let j = choose|j: int|
                0 <= j < attrs.len() && attrs[j].getter && getters(attrs)[k] == getter_of(attrs[j]);
            assert(attrs[j].name == fs[j].name);
            assert(j == i);
        } else {
            let q = k - getters(attrs).len();
            let j = choose|j: int|
                0 <= j < attrs.len() && attrs[j].setter && setters(attrs)[q] == setter_of(attrs[j]);
            assert(ms[k] == setters(attrs)[q]);
            assert(attrs[j].name == fs[j].name);
            assert(j == i);
        }
    }
}

/// A rename that is present and not blank is
/// the accessor's name, as written.
pub proof fn rename_is_taken_as_written(f: FieldModel, es: Seq<(Seq<char>, Seq<char>)>, n: Seq<char>)
    requires
        trim(n).len() > 0,
    ensures
        lookup(es, "rename_getter"@) == Some(n) ==> configure(f, es).getter_name == n,
        lookup(es, "rename_setter"@) == Some(n) ==> configure(f, es).setter_name == n,
{
}

/// In a record whose fields have distinct names, every
/// getter of a field bears the getter name of the field's configuration and
/// every setter its setter name, so a renamed accessor is not emitted under
/// its default name as well.
pub proof fn accessors_bear_configured_names(d: DeclarationModel, i: int)
    requires
        supported(d),
        distinct_names(d.shape->Named_0),
        0 <= i < d.shape->Named_0.len(),
    ensures
        forall|k: int|
            0 <= k < generated(d).methods.len() && (#[trigger] generated(d).methods[k]).field
                == d.shape->Named_0[i].name ==> generated(d).methods[k].name == (
            match generated(d).methods[k].kind {
                Accessor::Getter => field_attr(d.shape->Named_0[i]).getter_name,
                Accessor::Setter => field_attr(d.shape->Named_0[i]).setter_name,
            }),
{
    lemma_methods_of_field(d, i);
}

/// A rename whose value is blank leaves the accessor with the
/// name that it has without the rename.
pub proof fn blank_rename_is_ignored(f: FieldModel, es: Seq<(Seq<char>, Seq<char>)>)
    ensures
        lookup(es, "rename_getter"@) is Some && trim(lookup(es, "rename_getter"@)->0).len() == 0
            ==> configure(f, es).getter_name == defaults(f).getter_name,
        lookup(es, "rename_setter"@) is Some && trim(lookup(es, "rename_setter"@)->0).len() == 0
            ==> configure(f, es).setter_name == defaults(f).setter_name,
        lookup(es, "rename_getter"@) is None ==> configure(f, es).getter_name == defaults(
            f,
        ).getter_name,
        lookup(es, "rename_setter"@) is None ==> configure(f, es).setter_name == defaults(
            f,
        ).setter_name,
{
}

/// The setter's name is never blank, and the getter's name is blank only
/// where the field's own name is.
pub proof fn accessor_names_are_not_blank(f: FieldModel)
    ensures
        trim(field_attr(f).setter_name).len() > 0,
        trim(f.name).len() > 0 ==> trim(field_attr(f).getter_name).len() > 0,
{
    let s = default_setter_name(f.name);
    reveal_strlit("set_");
    assert(s[0] == 's');
    lemma_skip_spaces(s, 0);
    lemma_drop_spaces(s, 0, s.len() as int);
    assert(skip_spaces(s, 0) == 0);
    assert(!is_space(s[0]));
    assert(drop_spaces(s, 0, s.len() as int) > 0);
}

/// Declarations that hold the same text have the same outcome,
/// and blocks that hold the same text are written alike.
pub proof fn same_input_same_output(a: Declaration, b: Declaration)
    requires
        a@ == b@,
    ensures
        outcome(a@) == outcome(b@),
        outcome(a@) is Ok ==> block_text(outcome(a@)->Ok_0) == block_text(outcome(b@)->Ok_0),
{
}

/// A record with positional fields, one without fields, a sum
/// type and a union are refused, and so is nothing else.
pub proof fn other_shapes_are_refused(d: DeclarationModel)
    ensures
        outcome(d) == Err::<ImplBlockModel, ConstructError>(ConstructError::NotSupport)
            <==> (d.shape is Tuple || d.shape is Unit || d.shape is Enum || d.shape is Union
            || d.shape == ShapeModel::Named(Seq::empty())),
{
    if d.shape is Named && d.shape->Named_0.len() == 0 {
        assert(d.shape->Named_0 =~= Seq::empty());
    }
}

} // verus!
