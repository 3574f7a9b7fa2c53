//! The entity generator: from a record declaration, the tag type, the
//! identifier alias, the record with its identifier first, the constructor,
//! and the repository trait with its shared handle.
use vstd::prelude::*;
use crate::codegen::decl::{Field, FieldShape, GenError, RecordDecl};
use crate::codegen::naming::{handle_name, id_name, repository_name, suffixed, tag_name};
use crate::codegen::text::{append_fields, fields_text, lemma_fields_text_at, FieldForm};

verus! {

/// Whether one of the fields has the given name.
pub open spec fn has_field_named(fs: Seq<Field>, name: Seq<char>) -> bool {
    exists|i: int| 0 <= i < fs.len() && (#[trigger] fs[i]).name@ == name
}

/// Whether two of the fields share a name.
pub open spec fn has_duplicate_field(fs: Seq<Field>) -> bool {
    exists|i: int, j: int| 0 <= i < j < fs.len() && (#[trigger] fs[i]).name@ == (#[trigger] fs[j]).name@
}

/// Why the record cannot be expanded, checked in this order; `None` where it
/// can.
pub open spec fn record_error(d: RecordDecl) -> Option<GenError> {
    if d.shape != FieldShape::Named {
        Some(GenError::UnsupportedShape)
    } else if has_field_named(d.fields@, "id"@) {
        Some(GenError::ReservedField)
    } else if has_duplicate_field(d.fields@) {
        Some(GenError::DuplicateField)
    } else {
        None
    }
}

/// The tag type and the identifier alias.
pub open spec fn tag_and_id_text(d: RecordDecl) -> Seq<char> {
    "#[derive(Clone, Debug, Eq, PartialEq, Serialize, Deserialize)]\n"@ + d.vis@ + " enum "@
        + tag_name(d.name@) + " {}\n"@ + d.vis@ + " type "@ + id_name(d.name@)
        + " = RepositoryId<"@ + tag_name(d.name@) + ">;\n"@
}

/// The record: the identifier first, then the declared fields in order.
pub open spec fn record_text(d: RecordDecl) -> Seq<char> {
    "#[derive(Clone, Debug, PartialEq, Serialize, Deserialize)]\n"@ + d.vis@ + " struct "@
        + d.name@ + " {\n    pub id: "@ + id_name(d.name@) + ",\n"@ + fields_text(
        FieldForm::StructField,
        d.fields@,
    ) + "}\n"@
}

/// The constructor: the identifier, then each field as anything that
/// converts into its type, converted once, in order.
pub open spec fn constructor_text(d: RecordDecl) -> Seq<char> {
    "impl "@ + d.name@ + " {\n    /// A new record; each field is converted into its declared type.\n    pub fn new(id: "@
        + id_name(d.name@) + fields_text(FieldForm::ConstructorParam, d.fields@)
        + ") -> Self {\n        "@ + d.name@ + " { id"@ + fields_text(
        FieldForm::ConstructorInit,
        d.fields@,
    ) + " }\n    }\n}\n"@
}

/// The repository trait bound to the entity and its identifier, its blanket
/// impl, and the shared handle.
pub open spec fn repository_text(d: RecordDecl) -> Seq<char> {
    "pub trait "@ + repository_name(d.name@) + ": Repository<Entity = "@ + d.name@ + ", Id = "@
        + id_name(d.name@) + "> + Send + Sync {}\nimpl<T> "@ + repository_name(d.name@)
        + " for T where T: Repository<Entity = "@ + d.name@ + ", Id = "@ + id_name(d.name@)
        + "> + Send + Sync {}\n/// A shared handle to a repository of this entity.\npub type "@
        + handle_name(d.name@) + " = std::sync::Arc<dyn "@ + repository_name(d.name@) + ">;\n"@
}

/// The whole source generated for a record.
pub open spec fn entity_text(d: RecordDecl) -> Seq<char> {
    tag_and_id_text(d) + record_text(d) + constructor_text(d) + repository_text(d)
}

/// The generated constructor converts each declared field exactly once, in
/// declaration order: in its parameter list each field stands once, at its
/// place, as `f: impl Into<T>` of its declared type, and in its struct
/// literal, after the identifier as given, each field stands once, at its
/// place, as `f: f.into()`.
pub proof fn lemma_constructor_converts_each_field(d: RecordDecl, i: int)
    requires
        0 <= i < d.fields@.len(),
    ensures
        fields_text(FieldForm::ConstructorParam, d.fields@) == fields_text(
            FieldForm::ConstructorParam,
            d.fields@.take(i),
        ) + (", "@ + d.fields@[i].name@ + ": impl Into<"@ + d.fields@[i].ty@ + ">"@) + fields_text(
            FieldForm::ConstructorParam,
            d.fields@.skip(i + 1),
        ),
        fields_text(FieldForm::ConstructorInit, d.fields@) == fields_text(
            FieldForm::ConstructorInit,
            d.fields@.take(i),
        ) + (", "@ + d.fields@[i].name@ + ": "@ + d.fields@[i].name@ + ".into()"@) + fields_text(
            FieldForm::ConstructorInit,
            d.fields@.skip(i + 1),
        ),
{
    lemma_fields_text_at(FieldForm::ConstructorParam, d.fields@, i);
    lemma_fields_text_at(FieldForm::ConstructorInit, d.fields@, i);
}

/// Checks a record declaration.
pub fn check_record(d: &RecordDecl) -> (r: Result<(), GenError>)
    ensures
        r is Err <==> record_error(*d) is Some,
        r is Err ==> r->Err_0 == record_error(*d)->Some_0,
{
    match d.shape {
        FieldShape::Named => {},
        _ => {
            return Err(GenError::UnsupportedShape);
        },
    }
    let fs = &d.fields;
    let n = fs.len();
    let reserved = String::from_str("id");
    let mut k: usize = 0;
    while k < n
        invariant
            n == fs@.len(),
            fs@ == d.fields@,
            d.shape == FieldShape::Named,
            k <= n,
            reserved@ == "id"@,
            forall|a: int| 0 <= a < k ==> (#[trigger] fs@[a]).name@ != "id"@,
        decreases n - k,
    {
        if fs[k].name == reserved {
            assert(fs@[k as int].name@ == "id"@);
            assert(has_field_named(d.fields@, "id"@));
            return Err(GenError::ReservedField);
        }
        k = k + 1;
    }
    let mut i: usize = 0;
    while i < n
        invariant
            n == fs@.len(),
            fs@ == d.fields@,
            d.shape == FieldShape::Named,
            i <= n,
            !has_field_named(fs@, "id"@),
            forall|a: int, b: int|
                0 <= a < i && a < b < n ==> (#[trigger] fs@[a]).name@ != (#[trigger] fs@[b]).name@,
        decreases n - i,
    {
        let mut j: usize = i + 1;
        while j < n
            invariant
                n == fs@.len(),
                fs@ == d.fields@,
                d.shape == FieldShape::Named,
                i < n,
                i < j <= n,
                !has_field_named(fs@, "id"@),
                forall|a: int, b: int|
                    0 <= a < i && a < b < n ==> (#[trigger] fs@[a]).name@ != (#[trigger] fs@[b]).name@,
                forall|b: int| i < b < j ==> fs@[i as int].name@ != (#[trigger] fs@[b]).name@,
            decreases n - j,
        {
            if fs[i].name == fs[j].name {
                assert(fs@[i as int].name@ == fs@[j as int].name@);
                assert(has_duplicate_field(d.fields@));
                return Err(GenError::DuplicateField);
            }
            j = j + 1;
        }
        i = i + 1;
    }
    Ok(())
}

fn append_tag_and_id(out: &mut String, d: &RecordDecl, tag: &String, id: &String)
    requires
        tag@ == tag_name(d.name@),
        id@ == id_name(d.name@),
    ensures
        final(out)@ == old(out)@ + tag_and_id_text(*d),
{
    let ghost start = out@;
    out.append("#[derive(Clone, Debug, Eq, PartialEq, Serialize, Deserialize)]\n");
    out.append(d.vis.as_str());
    out.append(" enum ");
    out.append(tag.as_str());
    out.append(" {}\n");
    out.append(d.vis.as_str());
    out.append(" type ");
    out.append(id.as_str());
    out.append(" = RepositoryId<");
    out.append(tag.as_str());
    out.append(">;\n");
    assert(out@ =~= start + tag_and_id_text(*d));
}

fn append_record(out: &mut String, d: &RecordDecl, id: &String)
    requires
        id@ == id_name(d.name@),
    ensures
        final(out)@ == old(out)@ + record_text(*d),
{
    let ghost start = out@;
    out.append("#[derive(Clone, Debug, PartialEq, Serialize, Deserialize)]\n");
    out.append(d.vis.as_str());
    out.append(" struct ");
    out.append(d.name.as_str());
    out.append(" {\n    pub id: ");
    out.append(id.as_str());
    out.append(",\n");
    append_fields(out, FieldForm::StructField, &d.fields);
    out.append("}\n");
    assert(out@ =~= start + record_text(*d));
}

fn append_constructor(out: &mut String, d: &RecordDecl, id: &String)
    requires
        id@ == id_name(d.name@),
    ensures
        final(out)@ == old(out)@ + constructor_text(*d),
{
    let ghost start = out@;
    out.append("impl ");
    out.append(d.name.as_str());
    out.append(" {\n    /// A new record; each field is converted into its declared type.\n    pub fn new(id: ");
    out.append(id.as_str());
    append_fields(out, FieldForm::ConstructorParam, &d.fields);
    out.append(") -> Self {\n        ");
    out.append(d.name.as_str());
    out.append(" { id");
    append_fields(out, FieldForm::ConstructorInit, &d.fields);
    out.append(" }\n    }\n}\n");
    assert(out@ =~= start + constructor_text(*d));
}

fn append_repository(out: &mut String, d: &RecordDecl, id: &String, repo: &String, handle: &String)
    requires
        id@ == id_name(d.name@),
        repo@ == repository_name(d.name@),
        handle@ == handle_name(d.name@),
    ensures
        final(out)@ == old(out)@ + repository_text(*d),
{
    let ghost start = out@;
    out.append("pub trait ");
    out.append(repo.as_str());
    out.append(": Repository<Entity = ");
    out.append(d.name.as_str());
    out.append(", Id = ");
    out.append(id.as_str());
    out.append("> + Send + Sync {}\nimpl<T> ");
    out.append(repo.as_str());
    out.append(" for T where T: Repository<Entity = ");
    out.append(d.name.as_str());
    out.append(", Id = ");
    out.append(id.as_str());
    out.append("> + Send + Sync {}\n/// A shared handle to a repository of this entity.\npub type ");
    out.append(handle.as_str());
    out.append(" = std::sync::Arc<dyn ");
    out.append(repo.as_str());
    out.append(">;\n");
    assert(out@ =~= start + repository_text(*d));
}

/// Expands a record declaration into the source of its artifacts, or says
/// why it cannot; nothing is generated for a declaration that fails.
pub fn domain(d: &RecordDecl) -> (r: Result<String, GenError>)
    ensures
        r is Err <==> record_error(*d) is Some,
        r is Err ==> r->Err_0 == record_error(*d)->Some_0,
        r is Ok ==> r->Ok_0@ == entity_text(*d),
{
    match check_record(d) {
        Err(e) => {
            return Err(e);
        },
        Ok(()) => {},
    }
    let tag = suffixed(&d.name, "Tag");
    let id = suffixed(&d.name, "Id");
    let repo = suffixed(&d.name, "Repository");
    let handle = suffixed(&d.name, "Repo");
    let mut out = String::new();
    append_tag_and_id(&mut out, d, &tag, &id);
    append_record(&mut out, d, &id);
    append_constructor(&mut out, d, &id);
    append_repository(&mut out, d, &id, &repo, &handle);
    assert(out@ =~= entity_text(*d));
    Ok(out)
}

} // verus!
