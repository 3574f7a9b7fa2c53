//! The declarations that the generator reads.
use vstd::prelude::*;

verus! {

/// A named, typed slot: a field of a record or a parameter of a method. The
/// type is kept as the source text that declares it.
#[derive(Debug, Clone)]
pub struct Field {
    pub name: String,
    pub ty: String,
}

/// How the fields of a record are written.
#[derive(Debug, Clone, Copy, PartialEq, Eq, Structural)]
pub enum FieldShape {
    /// `struct S { a: A }`
    Named,
    /// `struct S(A);`
    Unnamed,
    /// `struct S;`
    Unit,
}

/// A record declaration. `vis` is the source text of its visibility, empty
/// for a private record.
#[derive(Debug, Clone)]
pub struct RecordDecl {
    pub vis: String,
    pub name: String,
    pub shape: FieldShape,
    pub fields: Vec<Field>,
}

/// A parameter of a method. `name` is `None` where the parameter is bound
/// by a pattern other than a plain name.
#[derive(Debug, Clone)]
pub struct Param {
    pub name: Option<String>,
    pub ty: String,
}

/// A method of an impl block: its name, its parameters other than the
/// receiver, and whether it is flagged as a command.
#[derive(Debug, Clone)]
pub struct MethodDecl {
    pub name: String,
    pub params: Vec<Param>,
    pub is_command: bool,
}

/// An impl block: the name of the type it is for, and its methods in order.
#[derive(Debug, Clone)]
pub struct ImplDecl {
    pub owner: String,
    pub methods: Vec<MethodDecl>,
}

/// Why a declaration cannot be expanded. Nothing is generated then.
#[derive(Debug, Clone, Copy, PartialEq, Eq, Structural)]
pub enum GenError {
    /// The record does not use named fields.
    UnsupportedShape,
    /// A field of the record is named `id`, the slot that the generator adds.
    ReservedField,
    /// Two fields of the record share a name.
    DuplicateField,
    /// A parameter of a command is not a plain name, so it cannot become a
    /// field of the command's variant.
    UnsupportedParameter,
    /// Two commands map to the same variant name.
    DuplicateVariant,
}

/// The field that a named parameter becomes.
pub open spec fn param_field(p: Param) -> Field {
    Field { name: p.name->Some_0, ty: p.ty }
}

/// The fields that the parameters become.
pub open spec fn param_fields(ps: Seq<Param>) -> Seq<Field> {
    ps.map_values(|p: Param| param_field(p))
}

/// Whether one of the parameters is not a plain name.
pub open spec fn has_unnamed_param(ps: Seq<Param>) -> bool {
    exists|j: int| 0 <= j < ps.len() && (#[trigger] ps[j]).name is None
}

/// The fields that the parameters become, or `None` where one of them is not
/// a plain name.
pub fn fields_of_params(ps: &Vec<Param>) -> (r: Option<Vec<Field>>)
    ensures
        r is None <==> has_unnamed_param(ps@),
        r is Some ==> r->Some_0@ == param_fields(ps@),
{
    let mut r: Vec<Field> = Vec::new();
    let mut i: usize = 0;
    while i < ps.len()
        invariant
            i <= ps.len(),
            r@ == param_fields(ps@).take(i as int),
            forall|j: int| 0 <= j < i ==> (#[trigger] ps@[j]).name is Some,
        decreases ps.len() - i,
    {
        let p = &ps[i];
        match &p.name {
            Some(n) => {
                r.push(Field { name: n.clone(), ty: p.ty.clone() });
            },
            None => {
                assert(has_unnamed_param(ps@));
                return None;
            },
        }
        assert(param_fields(ps@).take(i as int + 1) =~= param_fields(ps@).take(i as int).push(
            param_field(ps@[i as int]),
        ));
        i = i + 1;
    }
    assert(param_fields(ps@).take(i as int) =~= param_fields(ps@));
    Some(r)
}

} // verus!
