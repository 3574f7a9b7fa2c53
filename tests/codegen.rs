use stowr::codegen::aggregate::{domain_impl, domain_impl_named};
use stowr::codegen::decl::{Field, FieldShape, GenError, ImplDecl, MethodDecl, Param, RecordDecl};
use stowr::codegen::entity::domain;

fn field(name: &str, ty: &str) -> Field {
    Field { name: name.to_string(), ty: ty.to_string() }
}

fn record(name: &str, shape: FieldShape, fields: Vec<Field>) -> RecordDecl {
    RecordDecl { vis: "pub".to_string(), name: name.to_string(), shape, fields }
}

fn method(name: &str, params: Vec<Field>, is_command: bool) -> MethodDecl {
    let params = params
        .into_iter()
        .map(|f| Param { name: Some(f.name), ty: f.ty })
        .collect();
    MethodDecl { name: name.to_string(), params, is_command }
}

fn pattern_param(ty: &str) -> Param {
    Param { name: None, ty: ty.to_string() }
}

const BAR_SOURCE: &str = "#[derive(Clone, Debug, Eq, PartialEq, Serialize, Deserialize)]
pub enum BarTag {}
pub type BarId = RepositoryId<BarTag>;
#[derive(Clone, Debug, PartialEq, Serialize, Deserialize)]
pub struct Bar {
    pub id: BarId,
    pub a: String,
    pub b: i32,
}
impl Bar {
    /// A new record; each field is converted into its declared type.
    pub fn new(id: BarId, a: impl Into<String>, b: impl Into<i32>) -> Self {
        Bar { id, a: a.into(), b: b.into() }
    }
}
pub trait BarRepository: Repository<Entity = Bar, Id = BarId> + Send + Sync {}
impl<T> BarRepository for T where T: Repository<Entity = Bar, Id = BarId> + Send + Sync {}
/// A shared handle to a repository of this entity.
pub type BarRepo = std::sync::Arc<dyn BarRepository>;
";

const FOO_AGGREGATE_SOURCE: &str = "#[derive(Clone, Debug)]
pub enum FooCommand {
    Rename { new_name: String, },
}
#[derive(Clone, Debug, Serialize, Deserialize)]
pub enum FooEvent {
    Rename { new_name: String, },
}
impl Aggregate for Foo {
    type Command = FooCommand;
    type Event = FooEvent;
    type Error = crate::AggregateError;
    fn handle_command(&self, cmd: Self::Command) -> Result<Vec<Self::Event>, Self::Error> {
        Ok(match cmd {
            FooCommand::Rename { new_name, } => {
                let mut agg = self.clone();
                agg.rename(new_name.clone(), );
                vec![FooEvent::Rename { new_name, }]
            }
        })
    }
    fn apply_event(&mut self, evt: &Self::Event) {
        match evt {
            FooEvent::Rename { new_name, } => {
                self.rename(new_name.clone(), );
            }
        }
    }
}
";

#[test]
fn domain_expands_record_exactly() {
    let bar = record("Bar", FieldShape::Named, vec![field("a", "String"), field("b", "i32")]);
    assert_eq!(domain(&bar).unwrap(), BAR_SOURCE);
}

#[test]
fn domain_expands_record_without_fields() {
    let mut empty = record("Empty", FieldShape::Named, vec![]);
    empty.vis = String::new();
    let text = domain(&empty).unwrap();
    assert!(text.contains(" enum EmptyTag {}\n"));
    assert!(text.contains(" struct Empty {\n    pub id: EmptyId,\n}\n"));
    assert!(text.contains("pub fn new(id: EmptyId) -> Self {\n        Empty { id }\n"));
}

#[test]
fn domain_names_follow_the_entity() {
    let text = domain(&record("Location", FieldShape::Named, vec![field("name", "String")])).unwrap();
    assert!(text.contains("pub enum LocationTag {}"));
    assert!(text.contains("pub type LocationId = RepositoryId<LocationTag>;"));
    assert!(text.contains("pub trait LocationRepository: Repository<Entity = Location, Id = LocationId>"));
    assert!(text.contains("pub type LocationRepo = std::sync::Arc<dyn LocationRepository>;"));
}

#[test]
fn domain_rejects_unnamed_and_unit_records() {
    let tuple = record("Pair", FieldShape::Unnamed, vec![field("0", "u8")]);
    assert_eq!(domain(&tuple), Err(GenError::UnsupportedShape));
    let unit = record("Unit", FieldShape::Unit, vec![]);
    assert_eq!(domain(&unit), Err(GenError::UnsupportedShape));
}

#[test]
fn domain_rejects_a_field_named_id() {
    let r = record("Thing", FieldShape::Named, vec![field("name", "String"), field("id", "u64")]);
    assert_eq!(domain(&r), Err(GenError::ReservedField));
}

#[test]
fn domain_rejects_duplicate_fields() {
    let r = record("Thing", FieldShape::Named, vec![field("a", "u8"), field("b", "u8"), field("a", "u16")]);
    assert_eq!(domain(&r), Err(GenError::DuplicateField));
}

#[test]
fn shape_is_checked_before_fields() {
    let r = record("Thing", FieldShape::Unnamed, vec![field("id", "u8"), field("id", "u8")]);
    assert_eq!(domain(&r), Err(GenError::UnsupportedShape));
    let r = record("Thing", FieldShape::Named, vec![field("id", "u8"), field("id", "u8")]);
    assert_eq!(domain(&r), Err(GenError::ReservedField));
}

#[test]
fn domain_impl_expands_foo_exactly() {
    let foo = ImplDecl {
        owner: "Foo".to_string(),
        methods: vec![
            method("rename", vec![field("new_name", "String")], true),
            method("describe", vec![], false),
        ],
    };
    assert_eq!(domain_impl(&foo).unwrap(), FOO_AGGREGATE_SOURCE);
}

#[test]
fn command_and_event_types_have_the_same_variants() {
    let baz = ImplDecl {
        owner: "Baz".to_string(),
        methods: vec![
            method("create", vec![field("_id", "BazId"), field("_val", "u8")], true),
            method("increment", vec![field("by", "u8")], true),
        ],
    };
    let text = domain_impl(&baz).unwrap();
    let body = "    Create { _id: BazId, _val: u8, },\n    Increment { by: u8, },\n}\n";
    assert!(text.contains(&format!("pub enum BazCommand {{\n{}", body)));
    assert!(text.contains(&format!("pub enum BazEvent {{\n{}", body)));
    assert!(text.contains("BazCommand::Increment { by, } => {"));
    assert!(text.contains("vec![BazEvent::Increment { by, }]"));
    assert!(text.contains("BazEvent::Increment { by, } => {\n                self.increment(by.clone(), );"));
}

#[test]
fn non_command_methods_are_ignored() {
    let d = ImplDecl {
        owner: "Quiet".to_string(),
        methods: vec![method("helper", vec![field("x", "u8")], false)],
    };
    let text = domain_impl(&d).unwrap();
    assert!(text.starts_with("#[derive(Clone, Debug)]\npub enum QuietCommand {\n}\n"));
    assert!(!text.contains("Helper"));
    assert!(text.contains("Ok(match cmd {\n        })"));
}

#[test]
fn variant_names_are_upper_camel_case() {
    let d = ImplDecl {
        owner: "Box".to_string(),
        methods: vec![method("move_to_shelf", vec![field("shelf", "u32")], true)],
    };
    let text = domain_impl(&d).unwrap();
    assert!(text.contains("MoveToShelf { shelf: u32, },"));
    assert!(text.contains("agg.move_to_shelf(shelf.clone(), );"));
}

#[test]
fn colliding_variant_names_are_rejected() {
    let d = ImplDecl {
        owner: "Thing".to_string(),
        methods: vec![
            method("do_thing", vec![], true),
            method("doThing", vec![], true),
        ],
    };
    assert_eq!(domain_impl(&d), Err(GenError::DuplicateVariant));
}

#[test]
fn collision_with_a_non_command_is_no_error() {
    let d = ImplDecl {
        owner: "Thing".to_string(),
        methods: vec![method("do_thing", vec![], true), method("doThing", vec![], false)],
    };
    assert!(domain_impl(&d).is_ok());
}

#[test]
fn named_expansion_uses_the_given_names() {
    let d = ImplDecl {
        owner: "Foo".to_string(),
        methods: vec![method("rename", vec![field("new_name", "String")], true)],
    };
    let text = domain_impl_named(&d, &vec!["Relabel".to_string()]).unwrap();
    assert!(text.contains("    Relabel { new_name: String, },\n"));
    assert!(text.contains("agg.rename(new_name.clone(), );"));
    let twice = ImplDecl {
        owner: "Foo".to_string(),
        methods: vec![method("a", vec![], true), method("b", vec![], true)],
    };
    assert_eq!(
        domain_impl_named(&twice, &vec!["Same".to_string(), "Same".to_string()]),
        Err(GenError::DuplicateVariant)
    );
}

#[test]
fn command_with_pattern_parameter_is_rejected() {
    let mut m = method("set", vec![field("a", "u8")], true);
    m.params.push(pattern_param("(u8, u8)"));
    let d = ImplDecl { owner: "Thing".to_string(), methods: vec![m] };
    assert_eq!(domain_impl(&d), Err(GenError::UnsupportedParameter));
}

#[test]
fn pattern_parameter_of_non_command_is_no_error() {
    let mut helper = method("helper", vec![], false);
    helper.params.push(pattern_param("(u8, u8)"));
    let d = ImplDecl {
        owner: "Thing".to_string(),
        methods: vec![helper, method("go", vec![field("to", "u32")], true)],
    };
    let text = domain_impl(&d).unwrap();
    assert!(text.contains("    Go { to: u32, },\n"));
}

#[test]
fn unnamed_parameter_is_checked_before_collisions() {
    let mut m = method("do_thing", vec![], true);
    m.params.push(pattern_param("u8"));
    let d = ImplDecl {
        owner: "Thing".to_string(),
        methods: vec![m, method("doThing", vec![], true)],
    };
    assert_eq!(domain_impl(&d), Err(GenError::UnsupportedParameter));
}
