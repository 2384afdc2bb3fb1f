use ownit::markers::{erase_markers, Marker};
use ownit::shape::{extract, Data, Declaration, Fields, GenError, Shape, TypeParam, Variant};
use ownit::synth::{render_impl, write_arm};
use ownit::text::write_decimal;
use ownit::{derive_burrow, derive_ownit};

fn names(list: &[&str]) -> Vec<String> {
    list.iter().map(|s| s.to_string()).collect()
}

fn clone_param() -> Vec<TypeParam> {
    vec![TypeParam { name: "T".to_string(), bounds: names(&["Clone"]) }]
}

fn decl(name: &str, lifetimes: usize, params: Vec<TypeParam>, consts: &[&str], data: Data) -> Declaration {
    Declaration {
        name: name.to_string(),
        lifetimes,
        type_params: params,
        const_params: names(consts),
        data,
    }
}

fn enumeration() -> Data {
    Data::Enum(vec![
        Variant { name: "A".to_string(), fields: Fields::Tuple(1) },
        Variant { name: "B".to_string(), fields: Fields::Unit },
        Variant { name: "C".to_string(), fields: Fields::Tuple(2) },
        Variant { name: "D".to_string(), fields: Fields::Named(names(&["foo", "bar"])) },
    ])
}

#[test]
fn named_struct_text() {
    let d = decl(
        "Foo",
        2,
        clone_param(),
        &[],
        Data::Struct(Fields::Named(names(&["view_a", "view_b", "n", "owned"]))),
    );
    assert_eq!(
        derive_ownit(d).unwrap(),
        "impl<T: Clone + 'static, > ::ownit::Ownit for Foo<'_, '_, T, > { \
         type OwnedSelf = Foo<'static, 'static, T, >; \
         fn into_static(self) -> Self::OwnedSelf { use ::ownit::Ownit; \
         Foo { view_a: self.view_a.into_static(), view_b: self.view_b.into_static(), \
         n: self.n.into_static(), owned: self.owned.into_static(), } } }"
    );
}

#[test]
fn tuple_struct_text() {
    let d = decl("Bar", 2, clone_param(), &[], Data::Struct(Fields::Tuple(4)));
    assert_eq!(
        derive_ownit(d).unwrap(),
        "impl<T: Clone + 'static, > ::ownit::Ownit for Bar<'_, '_, T, > { \
         type OwnedSelf = Bar<'static, 'static, T, >; \
         fn into_static(self) -> Self::OwnedSelf { use ::ownit::Ownit; \
         Bar ( self.0.into_static(), self.1.into_static(), self.2.into_static(), \
         self.3.into_static(), ) } }"
    );
}

#[test]
fn unit_struct_text() {
    let d = decl("Unit", 0, vec![], &[], Data::Struct(Fields::Unit));
    assert_eq!(
        derive_ownit(d).unwrap(),
        "impl ::ownit::Ownit for Unit { type OwnedSelf = Unit; \
         fn into_static(self) -> Self::OwnedSelf { Unit } }"
    );
}

#[test]
fn enum_text_has_one_arm_per_variant() {
    let d = decl("Enumeration", 2, clone_param(), &[], enumeration());
    assert_eq!(
        derive_ownit(d).unwrap(),
        "impl<T: Clone + 'static, > ::ownit::Ownit for Enumeration<'_, '_, T, > { \
         type OwnedSelf = Enumeration<'static, 'static, T, >; \
         fn into_static(self) -> Self::OwnedSelf { use ::ownit::Ownit; match self { \
         Self::A ( x0, ) => Self::OwnedSelf::A ( x0.into_static(), ), \
         Self::B => Self::OwnedSelf::B, \
         Self::C ( x0, x1, ) => Self::OwnedSelf::C ( x0.into_static(), x1.into_static(), ), \
         Self::D { foo, bar, } => Self::OwnedSelf::D { foo: foo.into_static(), bar: bar.into_static(), }, \
         } } }"
    );
}

#[test]
fn burrow_names_its_trait() {
    let d = decl("Unit", 0, vec![], &[], Data::Struct(Fields::Unit));
    assert_eq!(
        derive_burrow(d).unwrap(),
        "impl ::ownit::Burrow for Unit { type OwnedSelf = Unit; \
         fn into_static(self) -> Self::OwnedSelf { Unit } }"
    );
}

#[test]
fn const_parameter_is_refused() {
    let d = decl("Sized", 0, vec![], &["N"], Data::Struct(Fields::Tuple(1)));
    assert_eq!(derive_ownit(d), Err(GenError::UnsupportedFeature));
    let e = decl("E", 1, clone_param(), &["N"], enumeration());
    assert_eq!(derive_burrow(e), Err(GenError::UnsupportedFeature));
    let u = decl("Unit", 0, vec![], &["N"], Data::Struct(Fields::Unit));
    assert_eq!(derive_ownit(u), Err(GenError::UnsupportedFeature));
}

#[test]
fn union_is_refused() {
    let d = decl("Raw", 0, vec![], &[], Data::Union);
    assert_eq!(derive_ownit(d), Err(GenError::UnsupportedKind));
    let with_const = decl("Raw", 0, vec![], &["N"], Data::Union);
    assert_eq!(derive_ownit(with_const), Err(GenError::UnsupportedKind));
}

#[test]
fn extraction_keeps_shape_and_parameters() {
    let d = decl("Enumeration", 3, clone_param(), &[], enumeration());
    let t = extract(d).unwrap();
    assert_eq!(t.name, "Enumeration");
    assert_eq!(t.scope_markers, 3);
    assert_eq!(t.type_params.len(), 1);
    assert_eq!(t.type_params[0].name, "T");
    match t.shape {
        Shape::Enum(vs) => {
            assert_eq!(vs.len(), 4);
            assert_eq!(vs[3].name, "D");
        }
        Shape::Struct(_) => panic!("shape changed"),
    }
}

#[test]
fn markers_are_erased_position_by_position() {
    let (borrowed, owned) = erase_markers(3);
    assert_eq!(borrowed, vec![Marker::Inferred; 3]);
    assert_eq!(owned, vec![Marker::Unbounded; 3]);
    let (b0, o0) = erase_markers(0);
    assert!(b0.is_empty() && o0.is_empty());
}

#[test]
fn bounds_and_several_parameters_are_kept() {
    let params = vec![
        TypeParam { name: "K".to_string(), bounds: vec![] },
        TypeParam { name: "V".to_string(), bounds: names(&["Clone", "Default"]) },
    ];
    let d = decl("Pair", 1, params, &[], Data::Struct(Fields::Named(names(&["k", "v"]))));
    let t = extract(d).unwrap();
    assert_eq!(
        render_impl(&t, "Conv"),
        "impl<K: 'static, V: Clone + Default + 'static, > Conv for Pair<'_, K, V, > { \
         type OwnedSelf = Pair<'static, K, V, >; \
         fn into_static(self) -> Self::OwnedSelf { use Conv; \
         Pair { k: self.k.into_static(), v: self.v.into_static(), } } }"
    );
}

#[test]
fn positions_past_nine_are_decimal() {
    let d = decl("Wide", 0, vec![], &[], Data::Struct(Fields::Tuple(12)));
    let s = derive_ownit(d).unwrap();
    assert!(s.contains("self.9.into_static(), self.10.into_static(), self.11.into_static(), )"));
    let e = decl("W", 0, vec![], &[], Data::Enum(vec![Variant { name: "V".to_string(), fields: Fields::Tuple(11) }]));
    let s = derive_ownit(e).unwrap();
    assert!(s.contains("x9, x10, )"));
    assert!(s.contains("x10.into_static(), )"));
    let mut out = String::from(">");
    write_decimal(&mut out, 40321);
    assert_eq!(out, ">40321");
}

#[test]
fn empty_enum_has_empty_match() {
    let d = decl("Never", 0, vec![], &[], Data::Enum(vec![]));
    assert_eq!(
        derive_ownit(d).unwrap(),
        "impl<> ::ownit::Ownit for Never<> { type OwnedSelf = Never<>; \
         fn into_static(self) -> Self::OwnedSelf { use ::ownit::Ownit; match self { } } }"
    );
}

#[test]
fn arm_for_each_variant_shape() {
    let mut out = String::new();
    write_arm(&mut out, &Variant { name: "D".to_string(), fields: Fields::Named(names(&["foo", "bar"])) });
    assert_eq!(out, "Self::D { foo, bar, } => Self::OwnedSelf::D { foo: foo.into_static(), bar: bar.into_static(), }, ");
    let mut out = String::new();
    write_arm(&mut out, &Variant { name: "C".to_string(), fields: Fields::Tuple(2) });
    assert_eq!(out, "Self::C ( x0, x1, ) => Self::OwnedSelf::C ( x0.into_static(), x1.into_static(), ), ");
    let mut out = String::from("match self { ");
    write_arm(&mut out, &Variant { name: "B".to_string(), fields: Fields::Unit });
    assert_eq!(out, "match self { Self::B => Self::OwnedSelf::B, ");
    assert!(!out.contains("into_static"));
}
