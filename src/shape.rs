use vstd::prelude::*;

verus! {

/// How the fields of a struct or of an enum variant are declared.
pub enum Fields {
    /// `{ a: A, b: B }`: the field names, in declaration order.
    Named(Vec<String>),
    /// `(A, B)`: the number of positional fields.
    Tuple(usize),
    /// No fields at all.
    Unit,
}

/// One variant of an enum: its name and its fields.
pub struct Variant {
    pub name: String,
    pub fields: Fields,
}

/// A type parameter: its name and the text of each of its declared bounds.
pub struct TypeParam {
    pub name: String,
    pub bounds: Vec<String>,
}

/// What kind of type a declaration introduces.
pub enum Data {
    Struct(Fields),
    Enum(Vec<Variant>),
    /// Overlapping storage; no conversion can be generated for it.
    Union,
}

/// A type declaration as written: name, generic parameters and shape.
pub struct Declaration {
    pub name: String,
    /// Number of lifetime parameters.
    pub lifetimes: usize,
    pub type_params: Vec<TypeParam>,
    /// Names of the const generic parameters.
    pub const_params: Vec<String>,
    pub data: Data,
}

/// The shape of a type that a conversion can be generated for.
pub enum Shape {
    Struct(Fields),
    Enum(Vec<Variant>),
}

/// The structural description that the generator works from.
pub struct TypeDescriptor {
    pub name: String,
    pub shape: Shape,
    pub type_params: Vec<TypeParam>,
    /// Number of lifetime (scope marker) parameters.
    pub scope_markers: usize,
}

/// Why no conversion is generated for a declaration.
#[derive(Clone, Copy, Debug, PartialEq, Eq, Structural)]
pub enum GenError {
    /// The declaration is a union.
    UnsupportedKind,
    /// The declaration has a const generic parameter.
    UnsupportedFeature,
}

pub enum FieldsV {
    Named(Seq<Seq<char>>),
    Tuple(nat),
    Unit,
}

pub struct VariantV {
    pub name: Seq<char>,
    pub fields: FieldsV,
}

pub struct TypeParamV {
    pub name: Seq<char>,
    pub bounds: Seq<Seq<char>>,
}

pub enum DataV {
    Struct(FieldsV),
    Enum(Seq<VariantV>),
    Union,
}

pub struct DeclarationV {
    pub name: Seq<char>,
    pub lifetimes: nat,
    pub type_params: Seq<TypeParamV>,
    pub const_params: Seq<Seq<char>>,
    pub data: DataV,
}

pub enum ShapeV {
    Struct(FieldsV),
    Enum(Seq<VariantV>),
}

pub struct DescriptorV {
    pub name: Seq<char>,
    pub shape: ShapeV,
    pub type_params: Seq<TypeParamV>,
    pub scope_markers: nat,
}

pub open spec fn texts(v: Seq<String>) -> Seq<Seq<char>> {
    v.map_values(|s: String| s@)
}

impl View for Fields {
    type V = FieldsV;

    open spec fn view(&self) -> FieldsV {
        match self {
            Fields::Named(names) => FieldsV::Named(texts(names@)),
            Fields::Tuple(n) => FieldsV::Tuple(*n as nat),
            Fields::Unit => FieldsV::Unit,
        }
    }
}

impl View for Variant {
    type V = VariantV;

    open spec fn view(&self) -> VariantV {
        VariantV { name: self.name@, fields: self.fields@ }
    }
}

impl View for TypeParam {
    type V = TypeParamV;

    open spec fn view(&self) -> TypeParamV {
        TypeParamV { name: self.name@, bounds: texts(self.bounds@) }
    }
}

pub open spec fn variants_view(v: Seq<Variant>) -> Seq<VariantV> {
    v.map_values(|x: Variant| x@)
}

pub open spec fn params_view(v: Seq<TypeParam>) -> Seq<TypeParamV> {
    v.map_values(|p: TypeParam| p@)
}

impl View for Data {
    type V = DataV;

    open spec fn view(&self) -> DataV {
        match self {
            Data::Struct(f) => DataV::Struct(f@),
            Data::Enum(vs) => DataV::Enum(variants_view(vs@)),
            Data::Union => DataV::Union,
        }
    }
}

impl View for Declaration {
    type V = DeclarationV;

    open spec fn view(&self) -> DeclarationV {
        DeclarationV {
            name: self.name@,
            lifetimes: self.lifetimes as nat,
            type_params: params_view(self.type_params@),
            const_params: texts(self.const_params@),
            data: self.data@,
        }
    }
}

impl View for Shape {
    type V = ShapeV;

    open spec fn view(&self) -> ShapeV {
        match self {
            Shape::Struct(f) => ShapeV::Struct(f@),
            Shape::Enum(vs) => ShapeV::Enum(variants_view(vs@)),
        }
    }
}

impl View for TypeDescriptor {
    type V = DescriptorV;

    open spec fn view(&self) -> DescriptorV {
        DescriptorV {
            name: self.name@,
            shape: self.shape@,
            type_params: params_view(self.type_params@),
            scope_markers: self.scope_markers as nat,
        }
    }
}

/// No name occurs twice.
pub open spec fn distinct(names: Seq<Seq<char>>) -> bool {
    forall|i: int, j: int| 0 <= i < j < names.len() ==> names[i] != names[j]
}

/// Field names within one field list are distinct.
pub open spec fn fields_wf(f: FieldsV) -> bool {
    f matches FieldsV::Named(names) ==> distinct(names)
}

/// What a compiler guarantees of a declaration that it accepts: field names
/// are distinct, and so are variant names.
pub open spec fn shape_wf(s: ShapeV) -> bool {
    match s {
        ShapeV::Struct(f) => fields_wf(f),
        ShapeV::Enum(vs) => {
            &&& distinct(vs.map_values(|v: VariantV| v.name))
            &&& forall|i: int| 0 <= i < vs.len() ==> fields_wf(#[trigger] vs[i].fields)
        },
    }
}

/// What extraction yields: unions are refused first, then any const
/// parameter; otherwise the shape, the type parameters and the number of
/// lifetime parameters are kept as declared.
pub open spec fn extract_spec(d: DeclarationV) -> Result<DescriptorV, GenError> {
    match d.data {
        DataV::Union => Err(GenError::UnsupportedKind),
        DataV::Struct(f) => if d.const_params.len() > 0 {
            Err(GenError::UnsupportedFeature)
        } else {
            Ok(DescriptorV {
                name: d.name,
                shape: ShapeV::Struct(f),
                type_params: d.type_params,
                scope_markers: d.lifetimes,
            })
        },
        DataV::Enum(vs) => if d.const_params.len() > 0 {
            Err(GenError::UnsupportedFeature)
        } else {
            Ok(DescriptorV {
                name: d.name,
                shape: ShapeV::Enum(vs),
                type_params: d.type_params,
                scope_markers: d.lifetimes,
            })
        },
    }
}

/// Turns a declaration into the descriptor the generator works from, or
/// refuses it.
pub fn extract(decl: Declaration) -> (r: Result<TypeDescriptor, GenError>)
    ensures
        match r {
            Ok(t) => extract_spec(decl@) == Ok::<DescriptorV, GenError>(t@),
            Err(e) => extract_spec(decl@) == Err::<DescriptorV, GenError>(e),
        },
{
    let ghost d = decl@;
    let Declaration { name, lifetimes, type_params, const_params, data } = decl;
    let shape = match data {
        Data::Union => {
            return Err(GenError::UnsupportedKind);
        },
        Data::Struct(f) => Shape::Struct(f),
        Data::Enum(vs) => Shape::Enum(vs),
    };
    if const_params.len() > 0 {
        return Err(GenError::UnsupportedFeature);
    }
    let t = TypeDescriptor { name, shape, type_params, scope_markers: lifetimes };
    assert(t@ == extract_spec(d)->Ok_0);
    Ok(t)
}

} // verus!
