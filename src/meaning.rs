use crate::shape::{
    distinct, fields_wf, shape_wf, DeclarationV, DescriptorV, FieldsV, GenError, VariantV,
};
use crate::synth::{arm_of, build_of, generated, named_inits, plan_of, positions, Arm, Body, Build, Pat, Sel};
use vstd::prelude::*;

verus! {

/// The fields of a value: named, positional, or none. `L` stands for the
/// values held in fields.
pub enum Payload<L> {
    Named(Seq<(Seq<char>, L)>),
    Positional(Seq<L>),
    Empty,
}

/// A struct value (tagged with the type's name) or an enum value (tagged with
/// its variant's name), with its fields.
pub struct Value<L> {
    pub tag: Seq<char>,
    pub payload: Payload<L>,
}

pub open spec fn field_names<L>(fs: Seq<(Seq<char>, L)>) -> Seq<Seq<char>> {
    fs.map_values(|x: (Seq<char>, L)| x.0)
}

/// The payload has exactly the declared fields, in declaration order.
pub open spec fn conforms<L>(p: Payload<L>, f: FieldsV) -> bool {
    match f {
        FieldsV::Named(names) => p matches Payload::Named(fs) && field_names(fs) == names,
        FieldsV::Tuple(k) => p matches Payload::Positional(xs) && xs.len() == k,
        FieldsV::Unit => p is Empty,
    }
}

/// Each field converted by `conv`, each selector kept.
pub open spec fn map_payload<L>(p: Payload<L>, conv: spec_fn(L) -> L) -> Payload<L> {
    match p {
        Payload::Named(fs) => Payload::Named(
            fs.map_values(|x: (Seq<char>, L)| (x.0, conv(x.1))),
        ),
        Payload::Positional(xs) => Payload::Positional(xs.map_values(|x: L| conv(x))),
        Payload::Empty => Payload::Empty,
    }
}

/// The value a selector reads from a payload: a named field by its name, a
/// positional one by its index.
pub open spec fn read<L>(p: Payload<L>, s: Sel) -> Option<L> {
    match s {
        Sel::Name(n) => match p {
            Payload::Named(fs) => if exists|i: int| 0 <= i < fs.len() && fs[i].0 == n {
                Some(fs[choose|i: int| 0 <= i < fs.len() && fs[i].0 == n].1)
            } else {
                None
            },
            _ => None,
        },
        Sel::Pos(i) => match p {
            Payload::Positional(xs) => if i < xs.len() {
                Some(xs[i as int])
            } else {
                None
            },
            _ => None,
        },
    }
}

/// The selectors a build reads.
pub open spec fn reads(b: Build) -> Seq<Sel> {
    match b {
        Build::Named(inits) => inits.map_values(|x: (Seq<char>, Sel)| x.1),
        Build::Tuple(ss) => ss,
        Build::Unit => Seq::empty(),
    }
}

/// The value a build produces under `tag` from the fields of `p`; `None` if
/// it reads a field that `p` does not have.
pub open spec fn build_value<L>(b: Build, tag: Seq<char>, p: Payload<L>, conv: spec_fn(L) -> L) -> Option<Value<L>> {
    if forall|i: int| 0 <= i < reads(b).len() ==> read(p, #[trigger] reads(b)[i]) is Some {
        match b {
            Build::Named(inits) => Some(Value {
                tag,
                payload: Payload::Named(
                    inits.map_values(|x: (Seq<char>, Sel)| (x.0, conv(read(p, x.1)->Some_0))),
                ),
            }),
            Build::Tuple(ss) => Some(Value {
                tag,
                payload: Payload::Positional(ss.map_values(|s: Sel| conv(read(p, s)->Some_0))),
            }),
            Build::Unit => Some(Value { tag, payload: Payload::Empty }),
        }
    } else {
        None
    }
}

/// A pattern matches a payload of its own form (and arity).
pub open spec fn pat_fits<L>(pat: Pat, p: Payload<L>) -> bool {
    match pat {
        Pat::Named(_) => p is Named,
        Pat::Tuple(k) => p matches Payload::Positional(xs) && xs.len() == k,
        Pat::Unit => p is Empty,
    }
}

/// A pattern binds the variable through which a selector is read.
pub open spec fn binds(pat: Pat, s: Sel) -> bool {
    match pat {
        Pat::Named(names) => s matches Sel::Name(n) && names.contains(n),
        Pat::Tuple(k) => s matches Sel::Pos(i) && i < k,
        Pat::Unit => false,
    }
}

/// What an arm yields for a value it was selected for; `None` if its pattern
/// does not fit or its build reads a variable the pattern does not bind.
pub open spec fn eval_arm<L>(a: Arm, v: Value<L>, conv: spec_fn(L) -> L) -> Option<Value<L>> {
    if pat_fits(a.pat, v.payload) && forall|i: int|
        0 <= i < reads(a.build).len() ==> binds(a.pat, #[trigger] reads(a.build)[i]) {
        build_value(a.build, a.variant, v.payload, conv)
    } else {
        None
    }
}

/// What the generated body returns for `v`, when each field conversion is
/// `conv`; `None` where the body has no answer (no arm for the value's tag).
pub open spec fn eval<L>(b: Body, name: Seq<char>, v: Value<L>, conv: spec_fn(L) -> L) -> Option<Value<L>> {
    match b {
        Body::Construct(build) => build_value(build, name, v.payload, conv),
        Body::Match(arms) => if exists|i: int| 0 <= i < arms.len() && arms[i].variant == v.tag {
            eval_arm(arms[choose|i: int| 0 <= i < arms.len() && arms[i].variant == v.tag], v, conv)
        } else {
            None
        },
    }
}

proof fn lemma_read_named<L>(fs: Seq<(Seq<char>, L)>, i: int)
    requires
        distinct(field_names(fs)),
        0 <= i < fs.len(),
    ensures
        read(Payload::Named(fs), Sel::Name(fs[i].0)) == Some(fs[i].1),
{
    let n = fs[i].0;
    assert(field_names(fs)[i] == n);
    let j = choose|j: int| 0 <= j < fs.len() && fs[j].0 == n;
    assert(field_names(fs)[j] == n);
}

/// The build generated for a field list rebuilds a conforming payload with
/// every field converted in place.
proof fn lemma_build_fieldwise<L>(f: FieldsV, tag: Seq<char>, p: Payload<L>, conv: spec_fn(L) -> L)
    requires
        fields_wf(f),
        conforms(p, f),
    ensures
        build_value(build_of(f), tag, p, conv) == Some(Value { tag, payload: map_payload(p, conv) }),
{
    match f {
        FieldsV::Named(names) => {
            let fs = p->Named_0;
            let b = build_of(f);
            assert forall|i: int| 0 <= i < fs.len() implies read(p, #[trigger] named_inits(names)[i].1) == Some(fs[i].1) by {
                assert(field_names(fs)[i] == names[i]);
                lemma_read_named(fs, i);
            }
            assert forall|i: int| 0 <= i < reads(b).len() implies read(p, #[trigger] reads(b)[i]) is Some by {
                assert(reads(b)[i] == named_inits(names)[i].1);
            }
            let out = named_inits(names).map_values(|x: (Seq<char>, Sel)| (x.0, conv(read(p, x.1)->Some_0)));
            assert forall|i: int| 0 <= i < fs.len() implies out[i] == (fs[i].0, conv(fs[i].1)) by {
                assert(field_names(fs)[i] == names[i]);
            }
            assert(out =~= fs.map_values(|x: (Seq<char>, L)| (x.0, conv(x.1))));
        },
        FieldsV::Tuple(k) => {
            let xs = p->Positional_0;
            let b = build_of(f);
            assert forall|i: int| 0 <= i < reads(b).len() implies read(p, #[trigger] reads(b)[i]) is Some by {
                assert(reads(b)[i] == Sel::Pos(i as nat));
            }
            let out = positions(k).map_values(|s: Sel| conv(read(p, s)->Some_0));
            assert(out =~= xs.map_values(|x: L| conv(x)));
        },
        FieldsV::Unit => {},
    }
}

/// Field-wise decomposition: the implementation generated for a struct turns
/// `S { f1, .., fn }` into `S { convert(f1), .., convert(fn) }`, each field
/// under its own selector and in declaration order; a unit struct comes back
/// as it is.
pub proof fn lemma_struct_fieldwise<L>(d: DescriptorV, v: Value<L>, conv: spec_fn(L) -> L)
    requires
        d.shape is Struct,
        shape_wf(d.shape),
        conforms(v.payload, d.shape->Struct_0),
        v.tag == d.name,
    ensures
        eval(plan_of(d).body, d.name, v, conv) == Some(
            Value { tag: v.tag, payload: map_payload(v.payload, conv) },
        ),
        v.payload is Empty ==> eval(plan_of(d).body, d.name, v, conv) == Some(v),
{
    lemma_build_fieldwise(d.shape->Struct_0, d.name, v.payload, conv);
}

/// Variant preservation: the implementation generated for an enum turns a
/// value of variant `V` into a value of variant `V` whose payload is the
/// field-wise conversion of the given one; a variant without fields comes
/// back as it is.
pub proof fn lemma_variant_preserved<L>(d: DescriptorV, v: Value<L>, conv: spec_fn(L) -> L, k: int)
    requires
        d.shape is Enum,
        shape_wf(d.shape),
        0 <= k < d.shape->Enum_0.len(),
        d.shape->Enum_0[k].name == v.tag,
        conforms(v.payload, d.shape->Enum_0[k].fields),
    ensures
        eval(plan_of(d).body, d.name, v, conv) == Some(
            Value { tag: v.tag, payload: map_payload(v.payload, conv) },
        ),
        v.payload is Empty ==> eval(plan_of(d).body, d.name, v, conv) == Some(v),
{
    let vs = d.shape->Enum_0;
    let arms = vs.map_values(|x: VariantV| arm_of(x));
    assert(arms[k].variant == v.tag);
    let i = choose|i: int| 0 <= i < arms.len() && arms[i].variant == v.tag;
    assert(vs.map_values(|x: VariantV| x.name)[i] == vs.map_values(|x: VariantV| x.name)[k]);
    assert(i == k);
    let f = vs[k].fields;
    assert(fields_wf(vs[k].fields));
    let a = arm_of(vs[k]);
    match f {
        FieldsV::Named(names) => {
            assert forall|j: int| 0 <= j < reads(a.build).len() implies binds(a.pat, #[trigger] reads(a.build)[j]) by {
                assert(reads(a.build)[j] == Sel::Name(names[j]));
            }
        },
        FieldsV::Tuple(n) => {
            assert forall|j: int| 0 <= j < reads(a.build).len() implies binds(a.pat, #[trigger] reads(a.build)[j]) by {
                assert(reads(a.build)[j] == Sel::Pos(j as nat));
            }
        },
        FieldsV::Unit => {},
    }
    lemma_build_fieldwise(f, v.tag, v.payload, conv);
}

/// Exhaustiveness: the generated match has one arm per declared variant, in
/// declaration order, and no arm for any other name; so a value of any
/// declared variant finds exactly its own arm.
pub proof fn lemma_every_variant_matched(d: DescriptorV)
    requires
        d.shape is Enum,
        shape_wf(d.shape),
    ensures
        plan_of(d).body is Match,
        plan_of(d).body->Match_0.len() == d.shape->Enum_0.len(),
        forall|i: int| 0 <= i < d.shape->Enum_0.len()
            ==> #[trigger] plan_of(d).body->Match_0[i].variant == d.shape->Enum_0[i].name,
        forall|i: int, j: int| 0 <= i < d.shape->Enum_0.len() && 0 <= j < d.shape->Enum_0.len()
            && plan_of(d).body->Match_0[j].variant == d.shape->Enum_0[i].name ==> i == j,
{
    let vs = d.shape->Enum_0;
    assert forall|i: int, j: int| 0 <= i < vs.len() && 0 <= j < vs.len()
        && plan_of(d).body->Match_0[j].variant == vs[i].name implies i == j by {
        let names = vs.map_values(|x: VariantV| x.name);
        assert(names[i] == vs[i].name);
        assert(names[j] == vs[j].name);
    }
}

/// Rejection determinism: a declaration (other than a union) with a const
/// generic parameter is refused with `UnsupportedFeature`, whatever its shape,
/// and no text is produced.
pub proof fn lemma_const_param_refused(d: DeclarationV, path: Seq<char>)
    requires
        d.const_params.len() > 0,
        !(d.data is Union),
    ensures
        generated(d, path) == Err::<Seq<char>, GenError>(GenError::UnsupportedFeature),
{
}

} // verus!
