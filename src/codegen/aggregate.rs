//! The aggregate generator: from an impl block whose methods are flagged as
//! commands, the command type, the event type of the same shape, and the
//! impl of `Aggregate` that dispatches both to the methods.
use vstd::prelude::*;
use crate::codegen::decl::{fields_of_params, has_unnamed_param, param_fields, Field, GenError, ImplDecl, MethodDecl};
use crate::codegen::naming::{command_enum_name, event_enum_name, suffixed, upper_camel, upper_camel_of};
use crate::codegen::text::{append_fields, fields_text, FieldForm};

verus! {

/// A variant of the command and event types as a value: its name, the
/// method it stands for, and its fields.
pub struct VariantView {
    pub name: Seq<char>,
    pub method: Seq<char>,
    pub fields: Seq<Field>,
}

/// A variant of the command and event types: its name, the command method
/// it stands for, and its fields, which are the method's parameters.
#[derive(Debug, Clone)]
pub struct Variant {
    pub name: String,
    pub method: String,
    pub fields: Vec<Field>,
}

impl View for Variant {
    type V = VariantView;

    open spec fn view(&self) -> VariantView {
        VariantView { name: self.name@, method: self.method@, fields: self.fields@ }
    }
}

/// The views of a list of variants.
pub open spec fn variant_views(vs: Seq<Variant>) -> Seq<VariantView> {
    vs.map_values(|v: Variant| v@)
}

/// The views of a list of names.
pub open spec fn name_views(names: Seq<String>) -> Seq<Seq<char>> {
    names.map_values(|s: String| s@)
}

/// The upper camel case names of the methods, in order.
pub open spec fn camel_names(ms: Seq<MethodDecl>) -> Seq<Seq<char>> {
    ms.map_values(|m: MethodDecl| upper_camel_of(m.name@))
}

/// The variants of the command methods, in order; `names` holds a variant
/// name for each method.
pub open spec fn command_variants(ms: Seq<MethodDecl>, names: Seq<Seq<char>>) -> Seq<VariantView>
    decreases ms.len(),
{
    if ms.len() == 0 {
        seq![]
    } else {
        let rest = command_variants(ms.drop_last(), names.drop_last());
        if ms.last().is_command {
            rest.push(
                VariantView {
                    name: names.last(),
                    method: ms.last().name@,
                    fields: param_fields(ms.last().params@),
                },
            )
        } else {
            rest
        }
    }
}

/// Whether two variants share a name.
pub open spec fn has_duplicate_variant(vs: Seq<VariantView>) -> bool {
    exists|i: int, j: int| 0 <= i < j < vs.len() && (#[trigger] vs[i]).name == (#[trigger] vs[j]).name
}

/// Whether a command has a parameter that is not a plain name.
pub open spec fn has_unnamed_command_param(ms: Seq<MethodDecl>) -> bool {
    exists|i: int| 0 <= i < ms.len() && (#[trigger] ms[i]).is_command && has_unnamed_param(ms[i].params@)
}

/// Why the impl block cannot be expanded with these variant names, checked
/// in this order; `None` where it can.
pub open spec fn aggregate_error(d: ImplDecl, names: Seq<Seq<char>>) -> Option<GenError> {
    if has_unnamed_command_param(d.methods@) {
        Some(GenError::UnsupportedParameter)
    } else if has_duplicate_variant(command_variants(d.methods@, names)) {
        Some(GenError::DuplicateVariant)
    } else {
        None
    }
}

/// The places where a variant is written.
#[derive(Debug, Clone, Copy, PartialEq, Eq, Structural)]
pub enum VariantForm {
    /// A variant of the command or the event type.
    Declaration,
    /// An arm of `handle_command`: runs the method on a copy of the state
    /// and gives the one event of the same variant.
    HandleArm,
    /// An arm of `apply_event`: runs the method on the state itself.
    ApplyArm,
}

/// One variant written in the given form; `c` and `e` are the names of the
/// command and event types.
pub open spec fn variant_text(form: VariantForm, c: Seq<char>, e: Seq<char>, v: VariantView) -> Seq<
    char,
> {
    match form {
        VariantForm::Declaration => "    "@ + v.name + " { "@ + fields_text(
            FieldForm::VariantField,
            v.fields,
        ) + "},\n"@,
        VariantForm::HandleArm => "            "@ + c + "::"@ + v.name + " { "@ + fields_text(
            FieldForm::Binding,
            v.fields,
        ) + "} => {\n                let mut agg = self.clone();\n                agg."@ + v.method + "("@
            + fields_text(FieldForm::CloneArg, v.fields) + ");\n                vec!["@ + e + "::"@
            + v.name + " { "@ + fields_text(FieldForm::Binding, v.fields) + "}]\n            }\n"@,
        VariantForm::ApplyArm => "            "@ + e + "::"@ + v.name + " { "@ + fields_text(
            FieldForm::Binding,
            v.fields,
        ) + "} => {\n                self."@ + v.method + "("@ + fields_text(
            FieldForm::CloneArg,
            v.fields,
        ) + ");\n            }\n"@,
    }
}

/// The variants written one after the other in the given form.
pub open spec fn variants_text(form: VariantForm, c: Seq<char>, e: Seq<char>, vs: Seq<VariantView>) -> Seq<
    char,
>
    decreases vs.len(),
{
    if vs.len() == 0 {
        seq![]
    } else {
        variants_text(form, c, e, vs.drop_last()) + variant_text(form, c, e, vs.last())
    }
}

/// The command type.
pub open spec fn command_enum_text(owner: Seq<char>, vs: Seq<VariantView>) -> Seq<char> {
    let c = command_enum_name(owner);
    let e = event_enum_name(owner);
    "#[derive(Clone, Debug)]\npub enum "@ + c + " {\n"@ + variants_text(VariantForm::Declaration, c, e, vs)
        + "}\n"@
}

/// The event type: the same variants as the command type.
pub open spec fn event_enum_text(owner: Seq<char>, vs: Seq<VariantView>) -> Seq<char> {
    let c = command_enum_name(owner);
    let e = event_enum_name(owner);
    "#[derive(Clone, Debug, Serialize, Deserialize)]\npub enum "@ + e + " {\n"@ + variants_text(
        VariantForm::Declaration,
        c,
        e,
        vs,
    ) + "}\n"@
}

/// The impl of `Aggregate`.
pub open spec fn aggregate_impl_text(owner: Seq<char>, vs: Seq<VariantView>) -> Seq<char> {
    let c = command_enum_name(owner);
    let e = event_enum_name(owner);
    "impl Aggregate for "@ + owner + " {\n    type Command = "@ + c + ";\n    type Event = "@ + e
        + ";\n    type Error = crate::AggregateError;\n    fn handle_command(&self, cmd: Self::Command) -> Result<Vec<Self::Event>, Self::Error> {\n        Ok(match cmd {\n"@
        + variants_text(VariantForm::HandleArm, c, e, vs)
        + "        })\n    }\n    fn apply_event(&mut self, evt: &Self::Event) {\n        match evt {\n"@
        + variants_text(VariantForm::ApplyArm, c, e, vs) + "        }\n    }\n}\n"@
}

/// The whole source generated for an impl block with the given variants.
pub open spec fn aggregate_text(owner: Seq<char>, vs: Seq<VariantView>) -> Seq<char> {
    command_enum_text(owner, vs) + event_enum_text(owner, vs) + aggregate_impl_text(owner, vs)
}

/// The variants of the command methods of the impl block, in order;
/// `names` holds a variant name for each method. Fails where a command has a
/// parameter that is not a plain name.
pub fn plan_variants(d: &ImplDecl, names: &Vec<String>) -> (r: Result<Vec<Variant>, GenError>)
    requires
        names@.len() == d.methods@.len(),
    ensures
        r is Err <==> has_unnamed_command_param(d.methods@),
        r is Err ==> r->Err_0 == GenError::UnsupportedParameter,
        r is Ok ==> variant_views(r->Ok_0@) == command_variants(d.methods@, name_views(names@)),
{
    let ms = &d.methods;
    let mut r: Vec<Variant> = Vec::new();
    let mut i: usize = 0;
    while i < ms.len()
        invariant
            ms@ == d.methods@,
            names@.len() == ms@.len(),
            i <= ms@.len(),
            variant_views(r@) == command_variants(
                ms@.take(i as int),
                name_views(names@).take(i as int),
            ),
            forall|a: int|
                0 <= a < i && (#[trigger] ms@[a]).is_command ==> !has_unnamed_param(ms@[a].params@),
        decreases ms.len() - i,
    {
        let ghost before = r@;
        let ghost ms_next = ms@.take(i as int + 1);
        let ghost names_next = name_views(names@).take(i as int + 1);
        assert(ms_next.drop_last() =~= ms@.take(i as int));
        assert(names_next.drop_last() =~= name_views(names@).take(i as int));
        assert(ms_next.last() == ms@[i as int]);
        assert(names_next.last() == names@[i as int]@);
        let m = &ms[i];
        if m.is_command {
            let fields = match fields_of_params(&m.params) {
                Some(fields) => fields,
                None => {
                    assert(has_unnamed_command_param(d.methods@));
                    return Err(GenError::UnsupportedParameter);
                },
            };
            let v = Variant { name: names[i].clone(), method: m.name.clone(), fields };
            r.push(v);
            assert(variant_views(r@) =~= variant_views(before).push(v@));
        }
        i = i + 1;
    }
    assert(ms@.take(i as int) =~= ms@);
    assert(name_views(names@).take(i as int) =~= name_views(names@));
    Ok(r)
}

/// Checks that no two variants share a name.
pub fn check_variants(vs: &Vec<Variant>) -> (r: Result<(), GenError>)
    ensures
        r is Err <==> has_duplicate_variant(variant_views(vs@)),
        r is Err ==> r->Err_0 == GenError::DuplicateVariant,
{
    let n = vs.len();
    let ghost views = variant_views(vs@);
    let mut i: usize = 0;
    while i < n
        invariant
            n == vs@.len(),
            views == variant_views(vs@),
            i <= n,
            forall|a: int, b: int|
                0 <= a < i && a < b < n ==> (#[trigger] views[a]).name != (#[trigger] views[b]).name,
        decreases n - i,
    {
        let mut j: usize = i + 1;
        while j < n
            invariant
                n == vs@.len(),
                views == variant_views(vs@),
                i < n,
                i < j <= n,
                forall|a: int, b: int|
                    0 <= a < i && a < b < n ==> (#[trigger] views[a]).name != (#[trigger] views[b]).name,
                forall|b: int| i < b < j ==> views[i as int].name != (#[trigger] views[b]).name,
            decreases n - j,
        {
            if vs[i].name == vs[j].name {
                assert(views[i as int].name == views[j as int].name);
                assert(has_duplicate_variant(views));
                return Err(GenError::DuplicateVariant);
            }
            j = j + 1;
        }
        i = i + 1;
    }
    Ok(())
}

/// Appends one variant in the given form.
pub fn append_variant(out: &mut String, form: VariantForm, c: &String, e: &String, v: &Variant)
    ensures
        final(out)@ == old(out)@ + variant_text(form, c@, e@, v@),
{
    let ghost start = out@;
    match form {
        VariantForm::Declaration => {
            out.append("    ");
            out.append(v.name.as_str());
            out.append(" { ");
            append_fields(out, FieldForm::VariantField, &v.fields);
            out.append("},\n");
        },
        VariantForm::HandleArm => {
            out.append("            ");
            out.append(c.as_str());
            out.append("::");
            out.append(v.name.as_str());
            out.append(" { ");
            append_fields(out, FieldForm::Binding, &v.fields);
            out.append("} => {\n                let mut agg = self.clone();\n                agg.");
            out.append(v.method.as_str());
            out.append("(");
            append_fields(out, FieldForm::CloneArg, &v.fields);
            out.append(");\n                vec![");
            out.append(e.as_str());
            out.append("::");
            out.append(v.name.as_str());
            out.append(" { ");
            append_fields(out, FieldForm::Binding, &v.fields);
            out.append("}]\n            }\n");
        },
        VariantForm::ApplyArm => {
            out.append("            ");
            out.append(e.as_str());
            out.append("::");
            out.append(v.name.as_str());
            out.append(" { ");
            append_fields(out, FieldForm::Binding, &v.fields);
            out.append("} => {\n                self.");
            out.append(v.method.as_str());
            out.append("(");
            append_fields(out, FieldForm::CloneArg, &v.fields);
            out.append(");\n            }\n");
        },
    }
    assert(out@ =~= start + variant_text(form, c@, e@, v@));
}

/// Appends the variants in the given form, in order.
pub fn append_variants(out: &mut String, form: VariantForm, c: &String, e: &String, vs: &Vec<Variant>)
    ensures
        final(out)@ == old(out)@ + variants_text(form, c@, e@, variant_views(vs@)),
{
    let ghost start = out@;
    let ghost views = variant_views(vs@);
    let mut i: usize = 0;
    assert(views.take(0) =~= Seq::<VariantView>::empty());
    assert(out@ =~= start + variants_text(form, c@, e@, views.take(0)));
    while i < vs.len()
        invariant
            i <= vs.len(),
            views == variant_views(vs@),
            out@ == start + variants_text(form, c@, e@, views.take(i as int)),
        decreases vs.len() - i,
    {
        append_variant(out, form, c, e, &vs[i]);
        let ghost next = views.take(i as int + 1);
        assert(next.drop_last() =~= views.take(i as int));
        assert(next.last() == vs@[i as int]@);
        assert(out@ =~= start + variants_text(form, c@, e@, next));
        i = i + 1;
    }
    assert(views.take(i as int) =~= views);
}

fn append_command_enum(out: &mut String, owner: &String, c: &String, e: &String, vs: &Vec<Variant>)
    requires
        c@ == command_enum_name(owner@),
        e@ == event_enum_name(owner@),
    ensures
        final(out)@ == old(out)@ + command_enum_text(owner@, variant_views(vs@)),
{
    let ghost start = out@;
    out.append("#[derive(Clone, Debug)]\npub enum ");
    out.append(c.as_str());
    out.append(" {\n");
    append_variants(out, VariantForm::Declaration, c, e, vs);
    out.append("}\n");
    assert(out@ =~= start + command_enum_text(owner@, variant_views(vs@)));
}

fn append_event_enum(out: &mut String, owner: &String, c: &String, e: &String, vs: &Vec<Variant>)
    requires
        c@ == command_enum_name(owner@),
        e@ == event_enum_name(owner@),
    ensures
        final(out)@ == old(out)@ + event_enum_text(owner@, variant_views(vs@)),
{
    let ghost start = out@;
    out.append("#[derive(Clone, Debug, Serialize, Deserialize)]\npub enum ");
    out.append(e.as_str());
    out.append(" {\n");
    append_variants(out, VariantForm::Declaration, c, e, vs);
    out.append("}\n");
    assert(out@ =~= start + event_enum_text(owner@, variant_views(vs@)));
}

fn append_aggregate_impl(out: &mut String, owner: &String, c: &String, e: &String, vs: &Vec<Variant>)
    requires
        c@ == command_enum_name(owner@),
        e@ == event_enum_name(owner@),
    ensures
        final(out)@ == old(out)@ + aggregate_impl_text(owner@, variant_views(vs@)),
{
    let ghost start = out@;
    out.append("impl Aggregate for ");
    out.append(owner.as_str());
    out.append(" {\n    type Command = ");
    out.append(c.as_str());
    out.append(";\n    type Event = ");
    out.append(e.as_str());
    out.append(
        ";\n    type Error = crate::AggregateError;\n    fn handle_command(&self, cmd: Self::Command) -> Result<Vec<Self::Event>, Self::Error> {\n        Ok(match cmd {\n",
    );
    append_variants(out, VariantForm::HandleArm, c, e, vs);
    out.append("        })\n    }\n    fn apply_event(&mut self, evt: &Self::Event) {\n        match evt {\n");
    append_variants(out, VariantForm::ApplyArm, c, e, vs);
    out.append("        }\n    }\n}\n");
    assert(out@ =~= start + aggregate_impl_text(owner@, variant_views(vs@)));
}

/// Expands an impl block whose variant names are given, one for each
/// method in order, into the source of the command type, the event type and
/// the impl of `Aggregate`; or says why it cannot. Nothing is generated for
/// an impl block that fails.
pub fn domain_impl_named(d: &ImplDecl, names: &Vec<String>) -> (r: Result<String, GenError>)
    requires
        names@.len() == d.methods@.len(),
    ensures
        r is Err <==> aggregate_error(*d, name_views(names@)) is Some,
        r is Err ==> r->Err_0 == aggregate_error(*d, name_views(names@))->Some_0,
        r is Ok ==> r->Ok_0@ == aggregate_text(
            d.owner@,
            command_variants(d.methods@, name_views(names@)),
        ),
{
    let vs = match plan_variants(d, names) {
        Ok(vs) => vs,
        Err(e) => {
            return Err(e);
        },
    };
    match check_variants(&vs) {
        Err(e) => {
            return Err(e);
        },
        Ok(()) => {},
    }
    let c = suffixed(&d.owner, "Command");
    let e = suffixed(&d.owner, "Event");
    let mut out = String::new();
    append_command_enum(&mut out, &d.owner, &c, &e, &vs);
    append_event_enum(&mut out, &d.owner, &c, &e, &vs);
    append_aggregate_impl(&mut out, &d.owner, &c, &e, &vs);
    assert(out@ =~= aggregate_text(d.owner@, variant_views(vs@)));
    Ok(out)
}

/// Expands an impl block: each command's variant is named by the upper
/// camel case of its method's name.
pub fn domain_impl(d: &ImplDecl) -> (r: Result<String, GenError>)
    ensures
        r is Err <==> aggregate_error(*d, camel_names(d.methods@)) is Some,
        r is Err ==> r->Err_0 == aggregate_error(*d, camel_names(d.methods@))->Some_0,
        r is Ok ==> r->Ok_0@ == aggregate_text(
            d.owner@,
            command_variants(d.methods@, camel_names(d.methods@)),
        ),
{
    let ms = &d.methods;
    let mut names: Vec<String> = Vec::new();
    let mut i: usize = 0;
    while i < ms.len()
        invariant
            ms@ == d.methods@,
            i <= ms@.len(),
            name_views(names@) == camel_names(ms@).take(i as int),
        decreases ms.len() - i,
    {
        let ghost before = names@;
        let n = upper_camel(ms[i].name.as_str());
        let ghost nv = n@;
        assert(nv == upper_camel_of(ms@[i as int].name@));
        names.push(n);
        assert(name_views(names@) =~= name_views(before).push(nv));
        assert(camel_names(ms@).take(i as int + 1) =~= camel_names(ms@).take(i as int).push(nv));
        i = i + 1;
    }
    assert(name_views(names@) =~= camel_names(ms@));
    domain_impl_named(d, &names)
}

/// Whether one of the variants has the name and the fields of `v`.
pub open spec fn has_same_variant(vs: Seq<VariantView>, v: VariantView) -> bool {
    exists|j: int| 0 <= j < vs.len() && (#[trigger] vs[j]).name == v.name && vs[j].fields == v.fields
}

/// Every variant of the generated command type has exactly one variant of
/// the generated event type with the same name, and it has the same fields:
/// both types are written from one list of variants, whose names are
/// distinct wherever expansion succeeds.
pub proof fn lemma_command_event_correspondence(d: ImplDecl, names: Seq<Seq<char>>)
    requires
        aggregate_error(d, names) is None,
    ensures
        ({
            let vs = command_variants(d.methods@, names);
            &&& forall|i: int| 0 <= i < vs.len() ==> has_same_variant(vs, #[trigger] vs[i])
            &&& forall|i: int, j: int|
                0 <= i < vs.len() && 0 <= j < vs.len() && (#[trigger] vs[i]).name == (#[trigger] vs[j]).name
                    ==> i == j
        }),
{
    let vs = command_variants(d.methods@, names);
    assert forall|i: int| 0 <= i < vs.len() implies has_same_variant(vs, #[trigger] vs[i]) by {
        assert(vs[i].name == vs[i].name);
    }
    assert forall|i: int, j: int|
        0 <= i < vs.len() && 0 <= j < vs.len() && (#[trigger] vs[i]).name == (#[trigger] vs[j]).name implies i == j by {
        if i < j {
            assert(has_duplicate_variant(vs));
        } else if j < i {
            assert(has_duplicate_variant(vs));
        }
    }
}

} // verus!
