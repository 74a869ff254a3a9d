use csrust::code::Code;
use csrust::symbols::{ClassMethod, ClassMethods, Method, Property, Type, TypeTable};
use csrust::syntax::Rule;

fn prop(name: &str, ty: &str) -> Property {
    Property { name: String::from(name), ty_name: String::from(ty), rule: Rule::Identifier, is_key: false }
}

fn item_type() -> Type {
    Type {
        name: String::from("Item"),
        ty_name: String::from("Item"),
        rule: Rule::Identifier,
        properties: vec![prop("Id", "int"), prop("Name", "string")],
    }
}

#[test]
fn registering_twice_keeps_one_entry() {
    let mut t = TypeTable::new();
    t.add_type(item_type());
    t.add_type(item_type());
    assert_eq!(t.types.len(), 1);
}

#[test]
fn registering_keeps_order_of_first_sight() {
    let mut t = TypeTable::new();
    let mut other = Type::new();
    other.name = String::from("Other");
    t.add_type(item_type());
    t.add_type(other);
    t.add_type(item_type());
    let names: Vec<&str> = t.types.iter().map(|x| x.name.as_str()).collect();
    assert_eq!(names, vec!["Item", "Other"]);
}

#[test]
fn differing_properties_make_another_type() {
    let mut t = TypeTable::new();
    t.add_type(item_type());
    let mut changed = item_type();
    changed.properties.push(prop("Extra", "int"));
    t.add_type(changed);
    assert_eq!(t.types.len(), 2);
}

#[test]
fn type_lookup_is_by_exact_name() {
    let mut t = TypeTable::new();
    t.add_type(item_type());
    assert!(t.get_type_table(&String::from("Item")).is_some());
    assert!(t.get_type_table(&String::from("Ite")).is_none());
    let ty = t.get_type_table(&String::from("Item")).unwrap();
    assert_eq!(ty.get_type_property(&String::from("Name")).unwrap().ty_name, "string");
    assert!(ty.get_type_property(&String::from("Missing")).is_none());
    assert_eq!(ty.get_type_properties().len(), 2);
}

#[test]
fn method_lookup() {
    let mut cms = ClassMethods::new();
    let mut m = Method::new();
    m.name = String::from("GetItems");
    m.return_type = String::from("IActionResult");
    let mut cm = ClassMethod::new();
    cm.class_name = String::from("Repo");
    cm.methods.push(m);
    cms.add_class_method(cm);
    let found = cms.get_class_method(&String::from("Repo")).unwrap();
    assert_eq!(found.get_method(&String::from("GetItems")).unwrap().return_type, "IActionResult");
    assert!(found.get_method(&String::from("Other")).is_none());
    assert!(cms.get_class_method(&String::from("Nope")).is_none());
}

#[test]
fn rendering_orders_sections() {
    let mut c = Code::new();
    c.add_method(String::from("fn f() {}\n"));
    c.add_struct("struct S;\n");
    c.add_type("type T = u8;\n");
    c.add_using(String::from("use a;\n"));
    c.add_method_parameter(String::from("x: X"));
    assert_eq!(c.render(), "use a;\ntype T = u8;\nstruct S;\nfn f() {}\n");
    assert_eq!(c.methods_parameters, vec![String::from("x: X")]);
}
