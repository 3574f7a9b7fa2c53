//! Lists of fields as they are written in the generated source. Every item
//! of a list ends in its own separator, which Rust accepts after the last
//! item too.
use vstd::prelude::*;
use crate::codegen::decl::Field;

verus! {

/// The ways a list of fields is written.
#[derive(Debug, Clone, Copy, PartialEq, Eq, Structural)]
pub enum FieldForm {
    /// A field of the record: `    pub name: Ty,` on its own line.
    StructField,
    /// A parameter of the constructor: `, name: impl Into<Ty>`.
    ConstructorParam,
    /// A field of the constructor's struct literal: `, name: name.into()`.
    ConstructorInit,
    /// A field of an enum variant: `name: Ty, `.
    VariantField,
    /// A binding of a variant pattern or a field of a variant literal: `name, `.
    Binding,
    /// An argument of the call of a command method: `name.clone(), `.
    CloneArg,
}

/// One field written in the given form.
pub open spec fn field_text(form: FieldForm, f: Field) -> Seq<char> {
    match form {
        FieldForm::StructField => "    pub "@ + f.name@ + ": "@ + f.ty@ + ",\n"@,
        FieldForm::ConstructorParam => ", "@ + f.name@ + ": impl Into<"@ + f.ty@ + ">"@,
        FieldForm::ConstructorInit => ", "@ + f.name@ + ": "@ + f.name@ + ".into()"@,
        FieldForm::VariantField => f.name@ + ": "@ + f.ty@ + ", "@,
        FieldForm::Binding => f.name@ + ", "@,
        FieldForm::CloneArg => f.name@ + ".clone(), "@,
    }
}

/// The fields written one after the other in the given form.
pub open spec fn fields_text(form: FieldForm, fs: Seq<Field>) -> Seq<char>
    decreases fs.len(),
{
    if fs.len() == 0 {
        seq![]
    } else {
        fields_text(form, fs.drop_last()) + field_text(form, fs.last())
    }
}

/// The text of two lists one after the other is the text of the first
/// followed by the text of the second.
pub proof fn lemma_fields_text_concat(form: FieldForm, a: Seq<Field>, b: Seq<Field>)
    ensures
        fields_text(form, a + b) == fields_text(form, a) + fields_text(form, b),
    decreases b.len(),
{
    if b.len() == 0 {
        assert(a + b =~= a);
        assert(fields_text(form, a) + fields_text(form, b) =~= fields_text(form, a));
    } else {
        lemma_fields_text_concat(form, a, b.drop_last());
        assert((a + b).drop_last() =~= a + b.drop_last());
        assert((a + b).last() == b.last());
        assert(fields_text(form, a + b) =~= fields_text(form, a) + fields_text(form, b));
    }
}

/// Each field of a list is written once, at its place: after the fields
/// before it and before the fields after it.
pub proof fn lemma_fields_text_at(form: FieldForm, fs: Seq<Field>, i: int)
    requires
        0 <= i < fs.len(),
    ensures
        fields_text(form, fs) == fields_text(form, fs.take(i)) + field_text(form, fs[i])
            + fields_text(form, fs.skip(i + 1)),
{
    lemma_fields_text_concat(form, fs.take(i + 1), fs.skip(i + 1));
    assert(fs.take(i + 1) + fs.skip(i + 1) =~= fs);
    assert(fs.take(i + 1).drop_last() =~= fs.take(i));
    assert(fs.take(i + 1).last() == fs[i]);
}

/// Appends one field in the given form.
pub fn append_field(out: &mut String, form: FieldForm, f: &Field)
    ensures
        final(out)@ == old(out)@ + field_text(form, *f),
{
    let ghost start = out@;
    match form {
        FieldForm::StructField => {
            out.append("    pub ");
            out.append(f.name.as_str());
            out.append(": ");
            out.append(f.ty.as_str());
            out.append(",\n");
        },
        FieldForm::ConstructorParam => {
            out.append(", ");
            out.append(f.name.as_str());
            out.append(": impl Into<");
            out.append(f.ty.as_str());
            out.append(">");
        },
        FieldForm::ConstructorInit => {
            out.append(", ");
            out.append(f.name.as_str());
            out.append(": ");
            out.append(f.name.as_str());
            out.append(".into()");
        },
        FieldForm::VariantField => {
            out.append(f.name.as_str());
            out.append(": ");
            out.append(f.ty.as_str());
            out.append(", ");
        },
        FieldForm::Binding => {
            out.append(f.name.as_str());
            out.append(", ");
        },
        FieldForm::CloneArg => {
            out.append(f.name.as_str());
            out.append(".clone(), ");
        },
    }
    assert(out@ =~= start + field_text(form, *f));
}

/// Appends the fields in the given form, in order.
pub fn append_fields(out: &mut String, form: FieldForm, fs: &Vec<Field>)
    ensures
        final(out)@ == old(out)@ + fields_text(form, fs@),
{
    let ghost start = out@;
    let mut i: usize = 0;
    assert(fs@.take(0) =~= Seq::<Field>::empty());
    assert(out@ =~= start + fields_text(form, fs@.take(0)));
    while i < fs.len()
        invariant
            i <= fs.len(),
            out@ == start + fields_text(form, fs@.take(i as int)),
        decreases fs.len() - i,
    {
        append_field(out, form, &fs[i]);
        let ghost next = fs@.take(i as int + 1);
        assert(next.drop_last() =~= fs@.take(i as int));
        assert(next.last() == fs@[i as int]);
        assert(out@ =~= start + fields_text(form, next));
        i = i + 1;
    }
    assert(fs@.take(i as int) =~= fs@);
}

} // verus!
