use csrust::bodies::is_list_type;
use csrust::context::{Context, Step};
use csrust::driver::{is_model_source, strip_bom, walk_file, CSParser};
use csrust::members::element_of;
use csrust::routes::fold_routes;
use csrust::syntax::{GenError, Node, Rule};

fn node(rule: Rule, text: &str, children: Vec<Node>) -> Node {
    Node::new(rule, String::from(text), children)
}

fn leaf(rule: Rule, text: &str) -> Node {
    node(rule, text, vec![])
}

fn auto_property(key: bool, ty_rule: Rule, ty: &str, name: &str) -> Node {
    let mut cs = vec![];
    if key {
        cs.push(leaf(Rule::Attribute, "[Key]"));
    }
    cs.push(leaf(Rule::PublicKeyWord, "public"));
    cs.push(node(Rule::PropertyType, ty, vec![leaf(ty_rule, ty)]));
    cs.push(leaf(Rule::Identifier, name));
    cs.push(leaf(Rule::LeftBracers, "{"));
    cs.push(leaf(Rule::GetKeyWord, "get"));
    cs.push(leaf(Rule::Semicolon, ";"));
    cs.push(leaf(Rule::SetKeyWord, "set"));
    cs.push(leaf(Rule::Semicolon, ";"));
    cs.push(leaf(Rule::RightBracers, "}"));
    node(Rule::Properties, "", cs)
}

fn field(name: &str, ty: &str) -> Node {
    node(
        Rule::Properties,
        "",
        vec![
            leaf(Rule::PrivateKeyWord, "private"),
            leaf(Rule::ReadonlyKeyWord, "readonly"),
            node(Rule::PropertyType, ty, vec![leaf(Rule::Identifier, ty)]),
            leaf(Rule::Identifier, name),
            leaf(Rule::Semicolon, ";"),
        ],
    )
}

fn empty_constructor(name: &str) -> Node {
    node(
        Rule::Constructor,
        "",
        vec![
            leaf(Rule::PublicKeyWord, "public"),
            leaf(Rule::Identifier, name),
            leaf(Rule::LeftParenthesis, "("),
            leaf(Rule::RightParenthesis, ")"),
            leaf(Rule::LeftBracers, "{"),
            node(Rule::Code, "", vec![]),
            leaf(Rule::RightBracers, "}"),
        ],
    )
}

fn constructor(name: &str, params: &[(&str, &str)]) -> Node {
    let mut ps = vec![];
    for (cls, id) in params {
        ps.push(node(
            Rule::ConstructorParameter,
            "",
            vec![leaf(Rule::ClassName, cls), leaf(Rule::Identifier, id)],
        ));
    }
    node(
        Rule::Constructor,
        "",
        vec![
            leaf(Rule::PublicKeyWord, "public"),
            leaf(Rule::Identifier, name),
            leaf(Rule::LeftParenthesis, "("),
            node(Rule::ConstructorParameters, "", ps),
            leaf(Rule::RightParenthesis, ")"),
            leaf(Rule::LeftBracers, "{"),
            node(Rule::Code, "", vec![]),
            leaf(Rule::RightBracers, "}"),
        ],
    )
}

fn class(attribute: Option<&str>, name: &str, members: Vec<Node>) -> Node {
    let mut cs = vec![];
    if let Some(a) = attribute {
        cs.push(leaf(Rule::Attribute, a));
    }
    cs.push(leaf(Rule::PublicKeyWord, "public"));
    cs.push(leaf(Rule::ClassKeyWord, "class"));
    cs.push(leaf(Rule::ClassName, name));
    cs.push(leaf(Rule::LeftBracers, "{"));
    cs.extend(members);
    cs.push(leaf(Rule::RightBracers, "}"));
    node(Rule::ClassCode, "", cs)
}

fn file(rule: Rule, namespace: &str, class_node: Node) -> Node {
    node(
        rule,
        "",
        vec![
            node(
                Rule::UsingCodeBlock,
                "",
                vec![leaf(Rule::UsingKeyWord, "using"), leaf(Rule::Identifier, "System"), leaf(Rule::Semicolon, ";")],
            ),
            node(
                Rule::NamespaceCodeBlock,
                "",
                vec![
                    leaf(Rule::NamespaceKeyWord, "namespace"),
                    leaf(Rule::Identifier, namespace),
                    leaf(Rule::LeftBracers, "{"),
                    class_node,
                    leaf(Rule::RightBracers, "}"),
                ],
            ),
        ],
    )
}

fn item_file() -> Node {
    file(
        Rule::ModelsContents,
        "GroceriesApi.Models",
        class(
            None,
            "Item ",
            vec![
                auto_property(true, Rule::IntKeyWord, "int", "Id"),
                auto_property(false, Rule::StringKeyWord, "string", "Name"),
                auto_property(false, Rule::IntKeyWord, "int", "Quantity"),
                auto_property(false, Rule::DecimalKeyWord, "decimal", "Value"),
                empty_constructor("Item"),
            ],
        ),
    )
}

fn repository_action(name: &str) -> Node {
    node(
        Rule::Action,
        "",
        vec![
            leaf(Rule::PublicKeyWord, "public"),
            leaf(Rule::ActionReturnType, "IActionResult"),
            leaf(Rule::Identifier, name),
            leaf(Rule::LeftParenthesis, "("),
            leaf(Rule::RightParenthesis, ")"),
            leaf(Rule::LeftBracers, "{"),
            node(
                Rule::Code,
                "",
                vec![
                    leaf(Rule::ReturnKeyWord, "return"),
                    leaf(Rule::PropertyCall, "_context.Items"),
                    leaf(Rule::Semicolon, ";"),
                ],
            ),
            leaf(Rule::RightBracers, "}"),
        ],
    )
}

fn repository_file(fields: &[(&str, &str)], actions: &[&str]) -> Node {
    let mut members = vec![];
    for (name, ty) in fields {
        members.push(field(name, ty));
    }
    members.push(constructor("GroceriesRepository", &[("DbContext", "context")]));
    for a in actions {
        members.push(repository_action(a));
    }
    file(Rule::ModelsContents, "GroceriesApi.Repositories", class(None, "GroceriesRepository", members))
}

fn controller_action(name: &str, call: &str) -> Node {
    node(
        Rule::Action,
        "",
        vec![
            leaf(Rule::Attribute, "[HttpGet]"),
            leaf(Rule::PublicKeyWord, "public"),
            leaf(Rule::ActionReturnType, "IActionResult"),
            leaf(Rule::Identifier, name),
            leaf(Rule::LeftParenthesis, "("),
            leaf(Rule::RightParenthesis, ")"),
            leaf(Rule::LeftBracers, "{"),
            node(
                Rule::Code,
                "",
                vec![
                    node(
                        Rule::Assignment,
                        "",
                        vec![
                            leaf(Rule::VarKeyWord, "var"),
                            leaf(Rule::PropertyCall, "items"),
                            leaf(Rule::MethodCall, call),
                            leaf(Rule::Semicolon, ";"),
                        ],
                    ),
                    leaf(Rule::ReturnKeyWord, "return"),
                    node(
                        Rule::NewInstance,
                        "",
                        vec![
                            leaf(Rule::NewKeyWord, "new"),
                            leaf(Rule::Identifier, "OkObjectResult"),
                            leaf(Rule::LeftParenthesis, "("),
                            node(Rule::Parameters, "items", vec![leaf(Rule::Parameter, "items")]),
                            leaf(Rule::RightParenthesis, ")"),
                        ],
                    ),
                    leaf(Rule::Semicolon, ";"),
                ],
            ),
            leaf(Rule::RightBracers, "}"),
        ],
    )
}

fn controller_file(actions: Vec<Node>) -> Node {
    let mut members = vec![
        field("_repository", "GroceriesRepository"),
        constructor("GroceriesController", &[("GroceriesRepository", "repository")]),
    ];
    members.extend(actions);
    file(
        Rule::ControllerContents,
        "GroceriesApi.Controllers",
        class(Some("[ApiController]"), "GroceriesController ", members),
    )
}

fn count(hay: &str, needle: &str) -> usize {
    hay.matches(needle).count()
}

#[test]
fn item_model_scenario() {
    let mut ctx = Context::new();
    assert!(walk_file(&item_file(), Step::Models, &mut ctx).is_ok());
    let structs: Vec<&str> = ctx.code.structs.iter().map(|s| s.as_str()).collect();
    assert_eq!(
        structs,
        vec![
            "\n#[derive(Debug, Deserialize, Serialize, Clone)] \n",
            "pub ",
            "struct ",
            "Item",
            "\n{\n",
            "   pub ",
            "id: i32,\n",
            "   pub ",
            "name: String,\n",
            "   pub ",
            "quantity: i32,\n",
            "   pub ",
            "value: f64,\n",
            "}\n",
        ]
    );
    assert_eq!(ctx.code.types, vec![String::from("type Items = HashMap<i32, Item>;\n")]);
    assert_eq!(ctx.types.types.len(), 1);
    let t = &ctx.types.types[0];
    assert_eq!(t.name, "Item");
    let names: Vec<&str> = t.properties.iter().map(|p| p.name.as_str()).collect();
    assert_eq!(names, vec!["Id", "Name", "Quantity", "Value"]);
    assert!(t.properties[0].is_key);
    assert!(!t.properties[1].is_key);
}

#[test]
fn model_without_key_has_no_alias() {
    let f = file(
        Rule::ModelsContents,
        "M",
        class(None, "Note", vec![auto_property(false, Rule::StringKeyWord, "string", "Text")]),
    );
    let mut ctx = Context::new();
    assert!(walk_file(&f, Step::Models, &mut ctx).is_ok());
    assert!(ctx.code.types.is_empty());
    assert!(ctx.code.structs.contains(&String::from("text: String,\n")));
}

#[test]
fn repository_scenario_registers_action_method() {
    let mut ctx = Context::new();
    assert!(walk_file(&item_file(), Step::Models, &mut ctx).is_ok());
    let repo = repository_file(&[("_context", "DbContext")], &["GetItems"]);
    assert!(walk_file(&repo, Step::Repositories, &mut ctx).is_ok());
    let cm = ctx.class_methods.get_class_method(&String::from("GroceriesRepository")).unwrap();
    assert_eq!(cm.methods.len(), 1);
    let m = cm.get_method(&String::from("GetItems")).unwrap();
    assert_eq!(m.return_type, "IActionResult");
    assert!(m.parameters.is_empty());
    let t = ctx.types.get_type_table(&String::from("GroceriesRepository")).unwrap();
    assert_eq!(t.properties.len(), 1);
    assert_eq!(t.properties[0].ty_name, "DbContext");
}

#[test]
fn controller_scenario_single_route() {
    let out = CSParser::generate(
        &vec![item_file()],
        &repository_file(&[("_context", "DbContext")], &["GetItems"]),
        &controller_file(vec![controller_action("GetItems", "_repository.GetItems();")]),
    )
    .unwrap();
    assert!(out.starts_with("use warp::{http, Filter};\n"));
    assert!(out.contains("\n\n\tlet routes = getitems;"));
    assert_eq!(count(&out, "\n\t.and(_context_dbcontext.clone())"), 1);
    assert!(out.contains("async fn getitems (_context: DbContext) -> Result<impl warp::Reply, warp::Rejection> {"));
    assert!(out.contains("\n\tlet _context = DbContext::new();"));
    assert!(out.contains("for (key, value) in r.iter()"));
    assert!(out.ends_with("\n\n\twarp::serve(routes)\n\t\t.run(([127, 0, 0, 1], 3030))\n\t\t.await;\n}"));
}

#[test]
fn output_sections_come_in_order() {
    let out = CSParser::generate(
        &vec![item_file()],
        &repository_file(&[("_context", "DbContext")], &["GetItems"]),
        &controller_file(vec![controller_action("GetItems", "_repository.GetItems();")]),
    )
    .unwrap();
    let imports = out.find("use serde").unwrap();
    let alias = out.find("type Items = HashMap<i32, Item>;").unwrap();
    let def = out.find("struct Item").unwrap();
    let handler = out.find("async fn getitems").unwrap();
    let entry = out.find("async fn main()").unwrap();
    assert!(imports < alias && alias < def && def < handler && handler < entry);
}

#[test]
fn generation_is_deterministic() {
    let run = || {
        CSParser::generate(
            &vec![item_file()],
            &repository_file(&[("_context", "DbContext")], &["GetItems"]),
            &controller_file(vec![controller_action("GetItems", "_repository.GetItems();")]),
        )
    };
    assert_eq!(run(), run());
}

#[test]
fn route_has_one_filter_per_dependency_in_order() {
    let out = CSParser::generate(
        &vec![item_file()],
        &repository_file(&[("_context", "DbContext"), ("_cache", "Cache")], &["GetItems"]),
        &controller_file(vec![controller_action("GetItems", "_repository.GetItems();")]),
    )
    .unwrap();
    let first = out.find("\n\t.and(_context_dbcontext.clone())").unwrap();
    let second = out.find("\n\t.and(_cache_cache.clone())").unwrap();
    assert!(first < second);
    assert_eq!(count(&out, "\n\t.and(_"), 2);
    assert!(out.contains("async fn getitems (_context: DbContext, _cache: Cache)"));
}

#[test]
fn routes_fold_left_in_discovery_order() {
    let out = CSParser::generate(
        &vec![item_file()],
        &repository_file(&[("_context", "DbContext")], &["GetItems", "GetItem", "GetCount"]),
        &controller_file(vec![
            controller_action("GetItems", "_repository.GetItems();"),
            controller_action("GetItem", "_repository.GetItem();"),
            controller_action("GetCount", "_repository.GetCount();"),
        ]),
    )
    .unwrap();
    assert!(out.contains("\n\n\tlet routes = getitems.or(getitem).or(getcount);"));
}

#[test]
fn fold_routes_examples() {
    assert_eq!(fold_routes(&vec![String::from("a")]), "a");
    assert_eq!(fold_routes(&vec![String::from("a"), String::from("b")]), "a.or(b)");
    assert_eq!(fold_routes(&vec![]), "");
}

#[test]
fn unknown_dependency_is_reported() {
    let r = CSParser::generate(
        &vec![item_file()],
        &file(Rule::ModelsContents, "R", class(None, "OtherRepository", vec![empty_constructor("OtherRepository")])),
        &controller_file(vec![]),
    );
    assert_eq!(r, Err(GenError::UnknownType));
}

#[test]
fn unknown_method_is_reported() {
    let r = CSParser::generate(
        &vec![item_file()],
        &repository_file(&[("_context", "DbContext")], &["GetItems"]),
        &controller_file(vec![controller_action("GetItems", "_repository.GetAll();")]),
    );
    assert_eq!(r, Err(GenError::UnknownMethod));
}

#[test]
fn unknown_property_is_reported() {
    let r = CSParser::generate(
        &vec![item_file()],
        &repository_file(&[("_context", "DbContext")], &["GetItems"]),
        &controller_file(vec![controller_action("GetItems", "_store.GetItems();")]),
    );
    assert_eq!(r, Err(GenError::UnknownProperty));
}

#[test]
fn unregistered_field_type_is_reported() {
    let r = CSParser::generate(
        &vec![item_file()],
        &repository_file(&[("_context", "DbContext")], &["GetItems"]),
        &file(
            Rule::ControllerContents,
            "C",
            class(
                None,
                "GroceriesController",
                vec![
                    field("_repository", "Elsewhere"),
                    constructor("GroceriesController", &[("GroceriesRepository", "repository")]),
                    controller_action("GetItems", "_repository.GetItems();"),
                ],
            ),
        ),
    );
    assert_eq!(r, Err(GenError::UnknownType));
}

#[test]
fn unknown_class_is_reported() {
    let r = CSParser::generate(
        &vec![item_file()],
        &repository_file(&[("_context", "DbContext")], &["GetItems"]),
        &file(
            Rule::ControllerContents,
            "C",
            class(
                None,
                "GroceriesController",
                vec![
                    field("_repository", "GroceriesRepository"),
                    field("_self", "GroceriesController"),
                    constructor("GroceriesController", &[("GroceriesRepository", "repository")]),
                    controller_action("GetItems", "_self.GetItems();"),
                ],
            ),
        ),
    );
    assert_eq!(r, Err(GenError::UnknownClass));
}

#[test]
fn unexpected_node_is_reported() {
    let f = node(Rule::ModelsContents, "", vec![leaf(Rule::Number, "1")]);
    let mut ctx = Context::new();
    assert_eq!(walk_file(&f, Step::Models, &mut ctx), Err(GenError::UnexpectedNode(Rule::Number)));
}

#[test]
fn property_without_type_is_reported() {
    let p = node(Rule::Properties, "", vec![leaf(Rule::PublicKeyWord, "public"), leaf(Rule::Identifier, "X")]);
    let f = file(Rule::ModelsContents, "M", class(None, "Broken", vec![p]));
    let mut ctx = Context::new();
    assert_eq!(walk_file(&f, Step::Models, &mut ctx), Err(GenError::MissingPropertyType));
}

#[test]
fn malformed_action_parameter_is_reported() {
    let a = node(
        Rule::Action,
        "",
        vec![
            leaf(Rule::Identifier, "Find"),
            node(Rule::ActionParameters, "", vec![leaf(Rule::ActionParameter, "id")]),
        ],
    );
    let f = file(Rule::ModelsContents, "M", class(None, "Thing", vec![a]));
    let mut ctx = Context::new();
    assert_eq!(walk_file(&f, Step::Models, &mut ctx), Err(GenError::MalformedParameter));
}

#[test]
fn action_parameters_are_split_into_type_and_name() {
    let a = node(
        Rule::Action,
        "",
        vec![
            leaf(Rule::MethodReturnType, "int"),
            leaf(Rule::Identifier, "Find"),
            node(Rule::ActionParameters, "", vec![leaf(Rule::ActionParameter, "int id")]),
        ],
    );
    let f = file(Rule::ModelsContents, "M", class(None, "Thing", vec![a]));
    let mut ctx = Context::new();
    assert!(walk_file(&f, Step::Models, &mut ctx).is_ok());
    let cm = ctx.class_methods.get_class_method(&String::from("Thing")).unwrap();
    let m = cm.get_method(&String::from("Find")).unwrap();
    assert_eq!(m.return_type, "int");
    assert_eq!(m.parameters.len(), 1);
    assert_eq!(m.parameters[0].name, "id");
    assert_eq!(m.parameters[0].ty_name, "int");
}

#[test]
fn unknown_variable_is_reported() {
    let code = node(
        Rule::Code,
        "",
        vec![node(Rule::NewInstance, "", vec![node(Rule::Parameters, "items", vec![])])],
    );
    let ctor = node(Rule::Constructor, "", vec![leaf(Rule::Identifier, "Thing"), code]);
    let f = file(Rule::ModelsContents, "M", class(None, "Thing", vec![ctor]));
    let mut ctx = Context::new();
    assert_eq!(walk_file(&f, Step::Models, &mut ctx), Err(GenError::UnknownVariable));
}

#[test]
fn list_types_are_recognised() {
    assert!(is_list_type("List<Item>"));
    assert!(is_list_type("IEnumerable<Item>"));
    assert!(is_list_type("ILIST"));
    assert!(!is_list_type("int"));
    assert!(!is_list_type("Dictionary<int, Item>"));
}

#[test]
fn interface_files_are_not_models() {
    assert!(!is_model_source("public interface IRepository {}"));
    assert!(is_model_source("public class Item {}"));
}

#[test]
fn byte_order_mark_is_stripped() {
    assert_eq!(strip_bom("\u{feff}namespace A"), "namespace A");
    assert_eq!(strip_bom("abc"), "abc");
}

#[test]
fn initialised_property_gets_a_field_line() {
    let p = node(
        Rule::Properties,
        "",
        vec![
            leaf(Rule::PublicKeyWord, "public"),
            node(Rule::PropertyType, "int", vec![leaf(Rule::IntKeyWord, "int")]),
            node(
                Rule::Assignment,
                "",
                vec![leaf(Rule::PropertyCall, "Count"), leaf(Rule::Number, "0"), leaf(Rule::Semicolon, ";")],
            ),
        ],
    );
    let f = file(Rule::ModelsContents, "M", class(None, "Counter", vec![p]));
    let mut ctx = Context::new();
    assert!(walk_file(&f, Step::Models, &mut ctx).is_ok());
    let fields: Vec<&String> = ctx.code.structs.iter().filter(|s| s.as_str() == "count: i32,\n").collect();
    assert_eq!(fields.len(), 1);
    assert_eq!(ctx.types.types[0].properties[0].name, "Count");
}

#[test]
fn list_property_refers_to_its_element_type() {
    let list = |ty: &str, name: &str| {
        node(
            Rule::Properties,
            "",
            vec![
                leaf(Rule::PublicKeyWord, "public"),
                node(Rule::PropertyType, ty, vec![leaf(Rule::ListType, ty)]),
                leaf(Rule::Identifier, name),
                leaf(Rule::Semicolon, ";"),
            ],
        )
    };
    let f = file(
        Rule::ModelsContents,
        "M",
        class(None, "Store", vec![list("List<Item>", "Items"), list("IEnumerable<Order>", "Orders")]),
    );
    let mut ctx = Context::new();
    assert!(walk_file(&f, Step::Models, &mut ctx).is_ok());
    assert!(ctx.code.structs.contains(&String::from("items: Arc<RwLock<Items>>,\n")));
    assert!(ctx.code.structs.contains(&String::from("orders: Arc<RwLock<Orders>>,\n")));
}

#[test]
fn element_type_of_collection() {
    assert_eq!(element_of("List<Item>"), "Item");
    assert_eq!(element_of("IEnumerable<Order>"), "Order");
    assert_eq!(element_of("Item"), "Item");
    assert_eq!(element_of("A<"), "A<");
}

#[test]
fn only_http_get_actions_become_routes() {
    let mut unflagged = controller_action("GetCount", "_repository.GetCount();");
    unflagged.children.remove(0);
    let out = CSParser::generate(
        &vec![item_file()],
        &repository_file(&[("_context", "DbContext")], &["GetItems", "GetCount"]),
        &controller_file(vec![controller_action("GetItems", "_repository.GetItems();"), unflagged]),
    )
    .unwrap();
    assert!(out.contains("\n\n\tlet routes = getitems;"));
    assert!(!out.contains("getcount"));
}
