//! The names of the generated artifacts, derived from the name of the
//! entity or of the command method.
use vstd::prelude::*;
use heck::ToUpperCamelCase;

verus! {

/// `name` followed by `suffix`.
pub fn suffixed(name: &String, suffix: &str) -> (r: String)
    ensures
        r@ == name@ + suffix@,
{
    let mut r = name.clone();
    r.append(suffix);
    r
}

/// The name of the tag type of an entity.
pub open spec fn tag_name(entity: Seq<char>) -> Seq<char> {
    entity + "Tag"@
}

/// The name of the identifier type of an entity.
pub open spec fn id_name(entity: Seq<char>) -> Seq<char> {
    entity + "Id"@
}

/// The name of the repository trait of an entity.
pub open spec fn repository_name(entity: Seq<char>) -> Seq<char> {
    entity + "Repository"@
}

/// The name of the shared repository handle of an entity.
pub open spec fn handle_name(entity: Seq<char>) -> Seq<char> {
    entity + "Repo"@
}

/// The name of the command type of an aggregate.
pub open spec fn command_enum_name(owner: Seq<char>) -> Seq<char> {
    owner + "Command"@
}

/// The name of the event type of an aggregate.
pub open spec fn event_enum_name(owner: Seq<char>) -> Seq<char> {
    owner + "Event"@
}

/// What `heck`'s upper camel case makes of a name (`do_thing` becomes
/// `DoThing`).
pub uninterp spec fn upper_camel_of(s: Seq<char>) -> Seq<char>;

/// Relies on `heck::ToUpperCamelCase::to_upper_camel_case` for `str`: the
/// result depends on the text alone.
#[verifier::external_body]
pub(crate) fn upper_camel(s: &str) -> (r: String)
    ensures
        r@ == upper_camel_of(s@),
{
    s.to_upper_camel_case()
}

} // verus!
