use crate::markers::{erase_markers, erased_spec, marker_text, Marker};
use crate::shape::{
    extract, extract_spec, params_view, texts, variants_view, Declaration, DescriptorV, Fields,
    FieldsV, GenError, Shape, ShapeV, TypeDescriptor, TypeParam, TypeParamV, Variant, VariantV,
};
use crate::text::{
    concat_map, decimal, lemma_concat_map_compose, lemma_concat_map_step, write_decimal,
};
use vstd::prelude::*;

verus! {

/// Where a converted value is read from: a named field or a positional one.
pub enum Sel {
    Name(Seq<char>),
    Pos(nat),
}

/// How a value is rebuilt: each output field from the conversion of a read.
pub enum Build {
    /// `{ out: <read>.into_static(), .. }`
    Named(Seq<(Seq<char>, Sel)>),
    /// `( <read>.into_static(), .. )`
    Tuple(Seq<Sel>),
    Unit,
}

/// What a match arm binds: field names, `x0 .. x(n-1)`, or nothing.
pub enum Pat {
    Named(Seq<Seq<char>>),
    Tuple(nat),
    Unit,
}

/// One arm of the generated match: `Self::V <pat> => Self::OwnedSelf::V <build>`.
pub struct Arm {
    pub variant: Seq<char>,
    pub pat: Pat,
    pub build: Build,
}

/// The body of the generated `into_static`.
pub enum Body {
    /// Rebuild the struct from the fields of `self`.
    Construct(Build),
    /// Match on `self`, one arm per listed variant.
    Match(Seq<Arm>),
}

/// The generated implementation: impl parameters, the markers of the borrowed
/// and of the owned type, and the body.
pub struct ImplPlan {
    pub name: Seq<char>,
    pub params: Seq<TypeParamV>,
    pub self_markers: Seq<Marker>,
    pub owned_markers: Seq<Marker>,
    pub body: Body,
}

pub open spec fn named_inits(names: Seq<Seq<char>>) -> Seq<(Seq<char>, Sel)> {
    names.map_values(|n: Seq<char>| (n, Sel::Name(n)))
}

pub open spec fn positions(k: nat) -> Seq<Sel> {
    Seq::new(k, |i: int| Sel::Pos(i as nat))
}

/// Every field is rebuilt, under its own selector, from its own conversion.
pub open spec fn build_of(f: FieldsV) -> Build {
    match f {
        FieldsV::Named(names) => Build::Named(named_inits(names)),
        FieldsV::Tuple(k) => Build::Tuple(positions(k)),
        FieldsV::Unit => Build::Unit,
    }
}

pub open spec fn pat_of(f: FieldsV) -> Pat {
    match f {
        FieldsV::Named(names) => Pat::Named(names),
        FieldsV::Tuple(k) => Pat::Tuple(k),
        FieldsV::Unit => Pat::Unit,
    }
}

pub open spec fn arm_of(v: VariantV) -> Arm {
    Arm { variant: v.name, pat: pat_of(v.fields), build: build_of(v.fields) }
}

pub open spec fn body_of(s: ShapeV) -> Body {
    match s {
        ShapeV::Struct(f) => Body::Construct(build_of(f)),
        ShapeV::Enum(vs) => Body::Match(vs.map_values(|v: VariantV| arm_of(v))),
    }
}

/// The implementation generated for a descriptor.
pub open spec fn plan_of(d: DescriptorV) -> ImplPlan {
    ImplPlan {
        name: d.name,
        params: d.type_params,
        self_markers: erased_spec(d.scope_markers).0,
        owned_markers: erased_spec(d.scope_markers).1,
        body: body_of(d.shape),
    }
}

/// The text that reads a selector: `self.f` / `self.0` from `self`, or the
/// binding `f` / `x0` inside a match arm.
pub open spec fn read_text(s: Sel, on_self: bool) -> Seq<char> {
    match s {
        Sel::Name(n) => if on_self { "self."@ + n } else { n },
        Sel::Pos(i) => if on_self { "self."@ + decimal(i) } else { "x"@ + decimal(i) },
    }
}

pub open spec fn init_text(on_self: bool) -> spec_fn((Seq<char>, Sel)) -> Seq<char> {
    |x: (Seq<char>, Sel)| x.0 + ": "@ + read_text(x.1, on_self) + ".into_static(), "@
}

pub open spec fn positional_text(on_self: bool) -> spec_fn(Sel) -> Seq<char> {
    |s: Sel| read_text(s, on_self) + ".into_static(), "@
}

pub open spec fn build_text(b: Build, on_self: bool) -> Seq<char> {
    match b {
        Build::Named(inits) => " { "@ + concat_map(inits, init_text(on_self)) + "}"@,
        Build::Tuple(ss) => " ( "@ + concat_map(ss, positional_text(on_self)) + ")"@,
        Build::Unit => Seq::empty(),
    }
}

pub open spec fn binding_text() -> spec_fn(Seq<char>) -> Seq<char> {
    |n: Seq<char>| n + ", "@
}

pub open spec fn position_binding_text() -> spec_fn(Sel) -> Seq<char> {
    |s: Sel| read_text(s, false) + ", "@
}

pub open spec fn pat_text(p: Pat) -> Seq<char> {
    match p {
        Pat::Named(names) => " { "@ + concat_map(names, binding_text()) + "}"@,
        Pat::Tuple(k) => " ( "@ + concat_map(positions(k), position_binding_text()) + ")"@,
        Pat::Unit => Seq::empty(),
    }
}

pub open spec fn arm_text() -> spec_fn(Arm) -> Seq<char> {
    |a: Arm|
        "Self::"@ + a.variant + pat_text(a.pat) + " => Self::OwnedSelf::"@ + a.variant
            + build_text(a.build, false) + ", "@
}

pub open spec fn body_text(name: Seq<char>, b: Body) -> Seq<char> {
    match b {
        Body::Construct(build) => name + build_text(build, true),
        Body::Match(arms) => "match self { "@ + concat_map(arms, arm_text()) + "}"@,
    }
}

pub open spec fn bound_text() -> spec_fn(Seq<char>) -> Seq<char> {
    |b: Seq<char>| b + " + "@
}

/// `T: B1 + B2 + 'static, `: each parameter keeps its bounds and must hold
/// no borrow.
pub open spec fn param_text() -> spec_fn(TypeParamV) -> Seq<char> {
    |p: TypeParamV| p.name + ": "@ + concat_map(p.bounds, bound_text()) + "'static, "@
}

pub open spec fn arg_text() -> spec_fn(TypeParamV) -> Seq<char> {
    |p: TypeParamV| p.name + ", "@
}

pub open spec fn marker_arg_text() -> spec_fn(Marker) -> Seq<char> {
    |m: Marker| marker_text(m) + ", "@
}

/// `Name<markers.., params..>`
pub open spec fn type_text(name: Seq<char>, markers: Seq<Marker>, params: Seq<TypeParamV>) -> Seq<
    char,
> {
    name + "<"@ + concat_map(markers, marker_arg_text()) + concat_map(params, arg_text()) + ">"@
}

/// The source text of a generated implementation of the trait at `path`.
///
/// A unit struct can declare no lifetime or type parameter (none could be
/// used), so its implementation has no generic list and its body, which
/// returns the value itself, needs no trait in scope.
pub open spec fn impl_text(p: ImplPlan, path: Seq<char>) -> Seq<char> {
    if p.body == Body::Construct(Build::Unit) {
        "impl "@ + path + " for "@ + p.name + " { type OwnedSelf = "@ + p.name
            + "; fn into_static(self) -> Self::OwnedSelf { "@ + p.name + " } }"@
    } else {
        "impl<"@ + concat_map(p.params, param_text()) + "> "@ + path + " for "@ + type_text(
            p.name,
            p.self_markers,
            p.params,
        ) + " { type OwnedSelf = "@ + type_text(p.name, p.owned_markers, p.params)
            + "; fn into_static(self) -> Self::OwnedSelf { use "@ + path + "; "@ + body_text(
            p.name,
            p.body,
        ) + " } }"@
    }
}

fn write_read(out: &mut String, name: &String, on_self: bool)
    ensures
        final(out)@ == old(out)@ + read_text(Sel::Name(name@), on_self),
{
    if on_self {
        out.append("self.");
    }
    out.append(name.as_str());
    assert(final(out)@ =~= old(out)@ + read_text(Sel::Name(name@), on_self));
}

fn write_position(out: &mut String, i: usize, on_self: bool)
    ensures
        final(out)@ == old(out)@ + read_text(Sel::Pos(i as nat), on_self),
{
    if on_self {
        out.append("self.");
    } else {
        out.append("x");
    }
    write_decimal(out, i);
    assert(final(out)@ =~= old(out)@ + read_text(Sel::Pos(i as nat), on_self));
}

fn write_build(out: &mut String, f: &Fields, on_self: bool)
    ensures
        final(out)@ == old(out)@ + build_text(build_of(f@), on_self),
{
    let ghost start = out@;
    match f {
        Fields::Named(names) => {
            let ghost s = named_inits(texts(names@));
            out.append(" { ");
            let mut i: usize = 0;
            while i < names.len()
                invariant
                    i <= names.len(),
                    s == named_inits(texts(names@)),
                    out@ == start + " { "@ + concat_map(s.take(i as int), init_text(on_self)),
                decreases names.len() - i,
            {
                proof {
                    lemma_concat_map_step(s, init_text(on_self), i as int);
                }
                let ghost before = out@;
                out.append(names[i].as_str());
                out.append(": ");
                write_read(out, &names[i], on_self);
                out.append(".into_static(), ");
                assert(out@ =~= before + init_text(on_self)(s[i as int]));
                i = i + 1;
            }
            out.append("}");
            assert(s.take(names.len() as int) =~= s);
            assert(out@ =~= start + build_text(build_of(f@), on_self));
        },
        Fields::Tuple(k) => {
            let ghost s = positions(*k as nat);
            out.append(" ( ");
            let mut i: usize = 0;
            while i < *k
                invariant
                    i <= *k,
                    s == positions(*k as nat),
                    out@ == start + " ( "@ + concat_map(s.take(i as int), positional_text(on_self)),
                decreases *k - i,
            {
                proof {
                    lemma_concat_map_step(s, positional_text(on_self), i as int);
                }
                let ghost before = out@;
                write_position(out, i, on_self);
                out.append(".into_static(), ");
                assert(out@ =~= before + positional_text(on_self)(s[i as int]));
                i = i + 1;
            }
            out.append(")");
            assert(s.take(*k as int) =~= s);
            assert(out@ =~= start + build_text(build_of(f@), on_self));
        },
        Fields::Unit => {
            assert(out@ =~= start + build_text(build_of(f@), on_self));
        },
    }
}

fn write_pat(out: &mut String, f: &Fields)
    ensures
        final(out)@ == old(out)@ + pat_text(pat_of(f@)),
{
    let ghost start = out@;
    match f {
        Fields::Named(names) => {
            let ghost s = texts(names@);
            out.append(" { ");
            let mut i: usize = 0;
            while i < names.len()
                invariant
                    i <= names.len(),
                    s == texts(names@),
                    out@ == start + " { "@ + concat_map(s.take(i as int), binding_text()),
                decreases names.len() - i,
            {
                proof {
                    lemma_concat_map_step(s, binding_text(), i as int);
                }
                let ghost before = out@;
                out.append(names[i].as_str());
                out.append(", ");
                assert(out@ =~= before + binding_text()(s[i as int]));
                i = i + 1;
            }
            out.append("}");
            assert(s.take(names.len() as int) =~= s);
            assert(out@ =~= start + pat_text(pat_of(f@)));
        },
        Fields::Tuple(k) => {
            let ghost s = positions(*k as nat);
            out.append(" ( ");
            let mut i: usize = 0;
            while i < *k
                invariant
                    i <= *k,
                    s == positions(*k as nat),
                    out@ == start + " ( "@ + concat_map(s.take(i as int), position_binding_text()),
                decreases *k - i,
            {
                proof {
                    lemma_concat_map_step(s, position_binding_text(), i as int);
                }
                let ghost before = out@;
                write_position(out, i, false);
                out.append(", ");
                assert(out@ =~= before + position_binding_text()(s[i as int]));
                i = i + 1;
            }
            out.append(")");
            assert(s.take(*k as int) =~= s);
            assert(out@ =~= start + pat_text(pat_of(f@)));
        },
        Fields::Unit => {
            assert(out@ =~= start + pat_text(pat_of(f@)));
        },
    }
}

/// `n: n.into_static(), `: a bound field rebuilt under its own name.
pub open spec fn converted_field_text() -> spec_fn(Seq<char>) -> Seq<char> {
    |n: Seq<char>| n + ": "@ + n + ".into_static(), "@
}

/// `xi, `: the binder of the `i`-th positional field.
pub open spec fn positional_binder_text() -> spec_fn(nat) -> Seq<char> {
    |i: nat| "x"@ + decimal(i) + ", "@
}

/// `xi.into_static(), `: the `i`-th positional field, converted.
pub open spec fn converted_positional_text() -> spec_fn(nat) -> Seq<char> {
    |i: nat| "x"@ + decimal(i) + ".into_static(), "@
}

/// `0, 1, .., k-1`
pub open spec fn indices(k: nat) -> Seq<nat> {
    Seq::new(k, |i: int| i as nat)
}

/// The arm generated for a variant. Named fields are bound under their own
/// names (`n, ` each) and rebuilt under them, in declaration order, each
/// converted once. Positional fields are bound as `x0 .. x(k-1)` and rebuilt
/// in that order, each converted once. A variant without fields passes
/// through with no conversion at all.
pub proof fn lemma_arm_text(v: VariantV)
    ensures
        v.fields matches FieldsV::Named(names) ==> arm_text()(arm_of(v)) == "Self::"@ + v.name
            + " { "@ + concat_map(names, binding_text()) + "}"@ + " => Self::OwnedSelf::"@ + v.name
            + " { "@ + concat_map(names, converted_field_text()) + "}"@ + ", "@,
        v.fields matches FieldsV::Tuple(k) ==> arm_text()(arm_of(v)) == "Self::"@ + v.name
            + " ( "@ + concat_map(indices(k), positional_binder_text())
            + ")"@ + " => Self::OwnedSelf::"@ + v.name + " ( "@ + concat_map(
            indices(k),
            converted_positional_text(),
        ) + ")"@ + ", "@,
        v.fields is Unit ==> arm_text()(arm_of(v)) == "Self::"@ + v.name
            + " => Self::OwnedSelf::"@ + v.name + ", "@,
{
    match v.fields {
        FieldsV::Named(names) => {
            let by_name = |n: Seq<char>| (n, Sel::Name(n));
            assert(named_inits(names) =~= names.map_values(by_name));
            lemma_concat_map_compose(
                names,
                by_name,
                init_text(false),
                converted_field_text(),
            );
            assert(arm_text()(arm_of(v)) =~= "Self::"@ + v.name + " { "@ + concat_map(
                names,
                binding_text(),
            ) + "}"@ + " => Self::OwnedSelf::"@ + v.name + " { "@ + concat_map(
                names,
                converted_field_text(),
            ) + "}"@ + ", "@);
        },
        FieldsV::Tuple(k) => {
            let at = |i: nat| Sel::Pos(i);
            assert(positions(k) =~= indices(k).map_values(at));
            lemma_concat_map_compose(
                indices(k),
                at,
                position_binding_text(),
                positional_binder_text(),
            );
            lemma_concat_map_compose(
                indices(k),
                at,
                positional_text(false),
                converted_positional_text(),
            );
            assert(arm_text()(arm_of(v)) =~= "Self::"@ + v.name + " ( "@ + concat_map(
                indices(k),
                positional_binder_text(),
            ) + ")"@ + " => Self::OwnedSelf::"@ + v.name + " ( "@ + concat_map(
                indices(k),
                converted_positional_text(),
            ) + ")"@ + ", "@);
        },
        FieldsV::Unit => {
            assert(arm_text()(arm_of(v)) =~= "Self::"@ + v.name + " => Self::OwnedSelf::"@
                + v.name + ", "@);
        },
    }
}

/// Writes the match arm generated for `v`.
pub fn write_arm(out: &mut String, v: &Variant)
    ensures
        final(out)@ == old(out)@ + arm_text()(arm_of(v@)),
{
    let ghost start = out@;
    out.append("Self::");
    out.append(v.name.as_str());
    write_pat(out, &v.fields);
    out.append(" => Self::OwnedSelf::");
    out.append(v.name.as_str());
    write_build(out, &v.fields, false);
    out.append(", ");
    assert(out@ =~= start + arm_text()(arm_of(v@)));
}

fn write_body(out: &mut String, name: &String, shape: &Shape)
    ensures
        final(out)@ == old(out)@ + body_text(name@, body_of(shape@)),
{
    let ghost start = out@;
    match shape {
        Shape::Struct(f) => {
            out.append(name.as_str());
            write_build(out, f, true);
            assert(out@ =~= start + body_text(name@, body_of(shape@)));
        },
        Shape::Enum(vs) => {
            let ghost s = variants_view(vs@).map_values(|v: VariantV| arm_of(v));
            out.append("match self { ");
            let mut i: usize = 0;
            while i < vs.len()
                invariant
                    i <= vs.len(),
                    s == variants_view(vs@).map_values(|v: VariantV| arm_of(v)),
                    out@ == start + "match self { "@ + concat_map(s.take(i as int), arm_text()),
                decreases vs.len() - i,
            {
                proof {
                    lemma_concat_map_step(s, arm_text(), i as int);
                }
                let ghost before = out@;
                write_arm(out, &vs[i]);
                assert(out@ =~= before + arm_text()(s[i as int]));
                i = i + 1;
            }
            out.append("}");
            assert(s.take(vs.len() as int) =~= s);
            assert(out@ =~= start + body_text(name@, body_of(shape@)));
        },
    }
}

fn write_param(out: &mut String, p: &TypeParam)
    ensures
        final(out)@ == old(out)@ + param_text()(p@),
{
    let ghost start = out@;
    let ghost s = texts(p.bounds@);
    out.append(p.name.as_str());
    out.append(": ");
    let mut i: usize = 0;
    while i < p.bounds.len()
        invariant
            i <= p.bounds.len(),
            s == texts(p.bounds@),
            out@ == start + p.name@ + ": "@ + concat_map(s.take(i as int), bound_text()),
        decreases p.bounds.len() - i,
    {
        proof {
            lemma_concat_map_step(s, bound_text(), i as int);
        }
        let ghost before = out@;
        out.append(p.bounds[i].as_str());
        out.append(" + ");
        assert(out@ =~= before + bound_text()(s[i as int]));
        i = i + 1;
    }
    out.append("'static, ");
    assert(s.take(p.bounds.len() as int) =~= s);
    assert(out@ =~= start + param_text()(p@));
}

fn write_params(out: &mut String, params: &Vec<TypeParam>)
    ensures
        final(out)@ == old(out)@ + concat_map(params_view(params@), param_text()),
{
    let ghost start = out@;
    let ghost s = params_view(params@);
    let mut i: usize = 0;
    while i < params.len()
        invariant
            i <= params.len(),
            s == params_view(params@),
            out@ == start + concat_map(s.take(i as int), param_text()),
        decreases params.len() - i,
    {
        proof {
            lemma_concat_map_step(s, param_text(), i as int);
        }
        let ghost before = out@;
        write_param(out, &params[i]);
        assert(out@ =~= before + param_text()(s[i as int]));
        i = i + 1;
    }
    assert(s.take(params.len() as int) =~= s);
}

fn write_type(out: &mut String, name: &String, markers: &Vec<Marker>, params: &Vec<TypeParam>)
    ensures
        final(out)@ == old(out)@ + type_text(name@, markers@, params_view(params@)),
{
    let ghost start = out@;
    out.append(name.as_str());
    out.append("<");
    let ghost mid = out@;
    let mut i: usize = 0;
    while i < markers.len()
        invariant
            i <= markers.len(),
            out@ == mid + concat_map(markers@.take(i as int), marker_arg_text()),
        decreases markers.len() - i,
    {
        proof {
            lemma_concat_map_step(markers@, marker_arg_text(), i as int);
        }
        let ghost before = out@;
        match markers[i] {
            Marker::Inferred => out.append("'_"),
            Marker::Unbounded => out.append("'static"),
        }
        out.append(", ");
        assert(out@ =~= before + marker_arg_text()(markers@[i as int]));
        i = i + 1;
    }
    assert(markers@.take(markers.len() as int) =~= markers@);
    let ghost after_markers = out@;
    let ghost s = params_view(params@);
    let mut j: usize = 0;
    while j < params.len()
        invariant
            j <= params.len(),
            s == params_view(params@),
            out@ == after_markers + concat_map(s.take(j as int), arg_text()),
        decreases params.len() - j,
    {
        proof {
            lemma_concat_map_step(s, arg_text(), j as int);
        }
        let ghost before = out@;
        out.append(params[j].name.as_str());
        out.append(", ");
        assert(out@ =~= before + arg_text()(s[j as int]));
        j = j + 1;
    }
    assert(s.take(params.len() as int) =~= s);
    out.append(">");
    assert(out@ =~= start + type_text(name@, markers@, params_view(params@)));
}

/// Writes the implementation generated for `d`, of the trait at `path`.
pub fn render_impl(d: &TypeDescriptor, path: &str) -> (r: String)
    ensures
        r@ == impl_text(plan_of(d@), path@),
{
    let mut out = String::new();
    if let Shape::Struct(Fields::Unit) = &d.shape {
        out.append("impl ");
        out.append(path);
        out.append(" for ");
        out.append(d.name.as_str());
        out.append(" { type OwnedSelf = ");
        out.append(d.name.as_str());
        out.append("; fn into_static(self) -> Self::OwnedSelf { ");
        out.append(d.name.as_str());
        out.append(" } }");
        assert(out@ =~= impl_text(plan_of(d@), path@));
        return out;
    }
    assert(plan_of(d@).body != Body::Construct(Build::Unit));
    let (borrowed, owned) = erase_markers(d.scope_markers);
    out.append("impl<");
    write_params(&mut out, &d.type_params);
    out.append("> ");
    out.append(path);
    out.append(" for ");
    write_type(&mut out, &d.name, &borrowed, &d.type_params);
    out.append(" { type OwnedSelf = ");
    write_type(&mut out, &d.name, &owned, &d.type_params);
    out.append("; fn into_static(self) -> Self::OwnedSelf { use ");
    out.append(path);
    out.append("; ");
    write_body(&mut out, &d.name, &d.shape);
    out.append(" } }");
    assert(out@ =~= impl_text(plan_of(d@), path@));
    out
}

/// What generation yields for a declaration: the refusal of extraction, or
/// the text of the implementation generated for its descriptor.
pub open spec fn generated(d: crate::shape::DeclarationV, path: Seq<char>) -> Result<Seq<char>, GenError> {
    match extract_spec(d) {
        Ok(t) => Ok(impl_text(plan_of(t), path)),
        Err(e) => Err(e),
    }
}

fn generate(decl: Declaration, path: &str) -> (r: Result<String, GenError>)
    ensures
        match r {
            Ok(s) => generated(decl@, path@) == Ok::<Seq<char>, GenError>(s@),
            Err(e) => generated(decl@, path@) == Err::<Seq<char>, GenError>(e),
        },
{
    match extract(decl) {
        Ok(t) => Ok(render_impl(&t, path)),
        Err(e) => Err(e),
    }
}

/// Generates the source of an `Ownit` implementation for a declaration, or
/// refuses it: a union with `UnsupportedKind`, a declaration with a const
/// parameter with `UnsupportedFeature`. Nothing is emitted on refusal.
pub fn derive_ownit(decl: Declaration) -> (r: Result<String, GenError>)
    ensures
        match r {
            Ok(s) => generated(decl@, "::ownit::Ownit"@) == Ok::<Seq<char>, GenError>(s@),
            Err(e) => generated(decl@, "::ownit::Ownit"@) == Err::<Seq<char>, GenError>(e),
        },
{
    generate(decl, "::ownit::Ownit")
}

/// The same generation as `derive_ownit`, for the trait under its other name
/// `Burrow`.
pub fn derive_burrow(decl: Declaration) -> (r: Result<String, GenError>)
    ensures
        match r {
            Ok(s) => generated(decl@, "::ownit::Burrow"@) == Ok::<Seq<char>, GenError>(s@),
            Err(e) => generated(decl@, "::ownit::Burrow"@) == Err::<Seq<char>, GenError>(e),
        },
{
    generate(decl, "::ownit::Burrow")
}

} // verus!
