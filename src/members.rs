use vstd::prelude::*;
use crate::code::{Code, CodeModel};
use crate::context::Step;
use crate::symbols::{Parameter, ParameterModel, Property, PropertyModel, parameters_view, properties_view};
use crate::syntax::{GenError, Node, Rule};
use crate::text::{concat3, lower_of, lowercase, same_text, split, split_of, trim, trim_of};

verus! {

/// Whether a node of this category names the type of a property.
pub open spec fn names_type(r: Rule) -> bool {
    r == Rule::StringKeyWord || r == Rule::IntKeyWord || r == Rule::DecimalKeyWord || r == Rule::ListType
        || r == Rule::Identifier
}

/// Where the first `<` of `s` stands, looking from index `i` on; the length of
/// `s` where there is none.
pub open spec fn open_angle_from(s: Seq<char>, i: int) -> int
    decreases s.len() - i,
{
    if i < 0 || i >= s.len() {
        s.len() as int
    } else if s[i] == '<' {
        i
    } else {
        open_angle_from(s, i + 1)
    }
}

/// The element type that a collection type `Name<Element>` names: what stands
/// between its first `<` and the `>` that ends it; the whole text where it has
/// no such brackets.
pub open spec fn list_element(s: Seq<char>) -> Seq<char> {
    let i = open_angle_from(s, 0);
    if i + 2 <= s.len() && s[s.len() - 1] == '>' {
        s.subrange(i + 1, s.len() - 1)
    } else {
        s
    }
}

/// The shared, lock-guarded collection written for a list of `element`: it
/// refers to the collection alias of the element type.
pub open spec fn shared_list_text(element: Seq<char>) -> Seq<char> {
    "Arc<RwLock<"@ + element + "s>>"@
}

/// The element type of a collection type written `Name<Element>`.
pub fn element_of(s: &str) -> (r: String)
    ensures
        r@ == list_element(s@),
{
    let n = s.unicode_len();
    let mut i: usize = 0;
    while i < n && s.get_char(i) != '<'
        invariant
            0 <= i <= n,
            n == s@.len(),
            open_angle_from(s@, 0) == open_angle_from(s@, i as int),
        decreases n - i,
    {
        i += 1;
    }
    if i < n && n - i >= 2 && s.get_char(n - 1) == '>' {
        String::from_str(s.substring_char(i + 1, n - 1))
    } else {
        String::from_str(s)
    }
}

/// The target-language type written for a part of a property type: integer,
/// text and decimal map to `i32`, `String` and `f64`.
pub open spec fn target_type(c: Node) -> Seq<char> {
    match c.rule {
        Rule::StringKeyWord => "String"@,
        Rule::IntKeyWord => "i32"@,
        Rule::DecimalKeyWord => "f64"@,
        Rule::ListType => shared_list_text(list_element(c.text@)),
        Rule::Identifier => c.text@,
        _ => "<not_found>"@,
    }
}

/// What the parts `cs` of a property type declare: the target type of the last
/// part, and the source text and category of the last part that names a type.
pub open spec fn declared_type(cs: Seq<Node>) -> (Seq<char>, Option<(Seq<char>, Rule)>)
    decreases cs.len(),
{
    if cs.len() == 0 {
        (Seq::empty(), None)
    } else {
        let prev = declared_type(cs.drop_last());
        let c = cs.last();
        (target_type(c), if names_type(c.rule) { Some((c.text@, c.rule)) } else { prev.1 })
    }
}

pub open spec fn type_ref_view(e: Option<(String, Rule)>) -> Option<(Seq<char>, Rule)> {
    match e {
        Some(p) => Some((p.0@, p.1)),
        None => None,
    }
}

/// The target type and the declared type of a property-type node.
pub fn property_type(node: &Node) -> (r: (String, Option<(String, Rule)>))
    ensures
        (r.0@, type_ref_view(r.1)) == declared_type(node.children@),
{
    let ghost cs = node.children@;
    let mut rust = String::new();
    let mut entry: Option<(String, Rule)> = None;
    let mut i: usize = 0;
    while i < node.children.len()
        invariant
            0 <= i <= cs.len(),
            cs == node.children@,
            (rust@, type_ref_view(entry)) == declared_type(cs.take(i as int)),
        decreases node.children.len() - i,
    {
        assert(cs.take(i + 1).drop_last() =~= cs.take(i as int));
        let c = &node.children[i];
        rust = match c.rule {
            Rule::StringKeyWord => String::from_str("String"),
            Rule::IntKeyWord => String::from_str("i32"),
            Rule::DecimalKeyWord => String::from_str("f64"),
            Rule::ListType => {
                let element = element_of(c.text.as_str());
                concat3("Arc<RwLock<", element.as_str(), "s>>")
            },
            Rule::Identifier => c.text.clone(),
            _ => String::from_str("<not_found>"),
        };
        if c.rule == Rule::StringKeyWord || c.rule == Rule::IntKeyWord || c.rule == Rule::DecimalKeyWord
            || c.rule == Rule::ListType || c.rule == Rule::Identifier {
            entry = Some((c.text.clone(), c.rule));
        }
        i += 1;
    }
    assert(cs.take(cs.len() as int) =~= cs);
    (rust, entry)
}

/// A constructor parameter read from the children of `n` from the `i`-th on,
/// having read the name `name` and the class `cls` so far. Only the controller
/// phase records names.
pub open spec fn ctor_param_from(n: Node, i: int, step: Step, name: Seq<char>, cls: Seq<char>) -> Result<
    PropertyModel,
    GenError,
>
    decreases n.children@.len() - i,
{
    if i < 0 || i >= n.children@.len() {
        Ok(PropertyModel { name, ty_name: cls, rule: Rule::Identifier, is_key: false })
    } else {
        let c = n.children@[i];
        match c.rule {
            Rule::ClassName => ctor_param_from(
                n,
                i + 1,
                step,
                name,
                if step == Step::Controllers { trim_of(c.text@) } else { cls },
            ),
            Rule::Identifier => ctor_param_from(
                n,
                i + 1,
                step,
                if step == Step::Controllers { c.text@ } else { name },
                cls,
            ),
            Rule::StringKeyWord | Rule::IntKeyWord => ctor_param_from(n, i + 1, step, name, cls),
            _ => Err(GenError::UnexpectedNode(c.rule)),
        }
    }
}

/// A constructor parameter: its name and the class it is typed by.
pub fn constructor_parameter(node: &Node, step: Step) -> (r: Result<Property, GenError>)
    ensures
        ctor_param_from(*node, 0, step, Seq::empty(), Seq::empty()) == match r {
            Ok(p) => Ok(p@),
            Err(e) => Err::<PropertyModel, GenError>(e),
        },
{
    let mut name = String::new();
    let mut cls = String::new();
    let mut i: usize = 0;
    while i < node.children.len()
        invariant
            0 <= i <= node.children@.len(),
            ctor_param_from(*node, 0, step, Seq::empty(), Seq::empty()) == ctor_param_from(
                *node,
                i as int,
                step,
                name@,
                cls@,
            ),
        decreases node.children.len() - i,
    {
        let c = &node.children[i];
        match c.rule {
            Rule::ClassName => {
                if step == Step::Controllers {
                    cls = trim(c.text.as_str());
                }
            },
            Rule::Identifier => {
                if step == Step::Controllers {
                    name = c.text.clone();
                }
            },
            Rule::StringKeyWord | Rule::IntKeyWord => {},
            _ => {
                return Err(GenError::UnexpectedNode(c.rule));
            },
        }
        i += 1;
    }
    Ok(Property { name, ty_name: cls, rule: Rule::Identifier, is_key: false })
}

/// The parameters listed by the children of `n` from the `i`-th on, appended
/// to those read so far: action parameters (a type, a space, a name) to `ps`,
/// constructor parameters to `cps`.
pub open spec fn params_from(
    n: Node,
    i: int,
    step: Step,
    ps: Seq<ParameterModel>,
    cps: Seq<PropertyModel>,
) -> Result<(Seq<ParameterModel>, Seq<PropertyModel>), GenError>
    decreases n.children@.len() - i,
{
    if i < 0 || i >= n.children@.len() {
        Ok((ps, cps))
    } else {
        let c = n.children@[i];
        match c.rule {
            Rule::Parameter => params_from(n, i + 1, step, ps, cps),
            Rule::ActionParameter => {
                let parts = split_of(c.text@, " "@);
                if parts.len() < 2 {
                    Err(GenError::MalformedParameter)
                } else {
                    params_from(n, i + 1, step, ps.push(ParameterModel { name: parts[1], ty_name: parts[0] }), cps)
                }
            },
            Rule::ConstructorParameter => match ctor_param_from(c, 0, step, Seq::empty(), Seq::empty()) {
                Ok(p) => params_from(n, i + 1, step, ps, cps.push(p)),
                Err(e) => Err(e),
            },
            _ => Err(GenError::UnexpectedNode(c.rule)),
        }
    }
}

/// The parameters of a parameter list: action parameters, and constructor
/// parameters as typed names.
pub fn parameters(node: &Node, step: Step) -> (r: Result<(Vec<Parameter>, Vec<Property>), GenError>)
    ensures
        params_from(*node, 0, step, Seq::empty(), Seq::empty()) == match r {
            Ok(p) => Ok((parameters_view(p.0@), properties_view(p.1@))),
            Err(e) => Err::<(Seq<ParameterModel>, Seq<PropertyModel>), GenError>(e),
        },
{
    let mut ps: Vec<Parameter> = Vec::new();
    let mut cps: Vec<Property> = Vec::new();
    assert(parameters_view(ps@) =~= Seq::empty());
    assert(properties_view(cps@) =~= Seq::empty());
    let mut i: usize = 0;
    while i < node.children.len()
        invariant
            0 <= i <= node.children@.len(),
            params_from(*node, 0, step, Seq::empty(), Seq::empty()) == params_from(
                *node,
                i as int,
                step,
                parameters_view(ps@),
                properties_view(cps@),
            ),
        decreases node.children.len() - i,
    {
        let c = &node.children[i];
        match c.rule {
            Rule::Parameter => {},
            Rule::ActionParameter => {
                proof {
                    reveal_strlit(" ");
                }
                let parts = split(c.text.as_str(), " ");
                if parts.len() < 2 {
                    return Err(GenError::MalformedParameter);
                }
                let p = Parameter { name: parts[1].clone(), ty_name: parts[0].clone() };
                let ghost before = ps@;
                ps.push(p);
                assert(parameters_view(ps@) =~= parameters_view(before).push(p@));
            },
            Rule::ConstructorParameter => {
                match constructor_parameter(c, step) {
                    Ok(p) => {
                        let ghost before = cps@;
                        let ghost pv = p@;
                        cps.push(p);
                        assert(properties_view(cps@) =~= properties_view(before).push(pv));
                    },
                    Err(e) => {
                        return Err(e);
                    },
                }
            },
            _ => {
                return Err(GenError::UnexpectedNode(c.rule));
            },
        }
        i += 1;
    }
    Ok((ps, cps))
}

/// The keyed-collection alias written for a class with a key-marked property
/// of target type `key`: the plural of the class names a map from keys to
/// instances.
pub open spec fn alias_text(cls: Seq<char>, key: Seq<char>) -> Seq<char> {
    "type "@ + cls + "s = HashMap<"@ + key + ", "@ + cls + ">;\n"@
}

/// The field definition written for a model property.
pub open spec fn field_text(name: Seq<char>, rust: Seq<char>) -> Seq<char> {
    lower_of(name) + ": "@ + rust + ",\n"@
}

/// The opening of the impl block written for a property initialised in place.
pub open spec fn impl_text(rust: Seq<char>) -> Seq<char> {
    "\nimpl "@ + rust + " { \n"@
}

/// The handler parameter recorded for a property initialised in place.
pub open spec fn handler_parameter_text(rust: Seq<char>) -> Seq<char> {
    lower_of(rust) + ": "@ + rust
}

/// The constructor written for a property initialised with a new instance.
pub open spec fn constructor_text(ty: Seq<char>) -> Seq<char> {
    "\tfn new() -> Self {\n\t\t "@ + ty
        + " { \n\t\t\titems: Arc::new(RwLock::new(HashMap::new()))\n\t\t}\n\t}\n}\n\n"@
}

/// `code` with the alias of class `cls` added, where a model property of
/// target type `rust` is key-marked.
pub open spec fn aliased(code: CodeModel, step: Step, key: bool, cls: Seq<char>, rust: Seq<char>) -> CodeModel {
    if step == Step::Models && key {
        code.with_type(alias_text(cls, rust))
    } else {
        code
    }
}

/// `code` with a field definition added, in the models phase.
pub open spec fn fielded(code: CodeModel, step: Step, name: Seq<char>, rust: Seq<char>) -> CodeModel {
    if step == Step::Models {
        code.with_struct(field_text(name, rust))
    } else {
        code
    }
}

pub open spec fn empty_property() -> PropertyModel {
    PropertyModel { name: Seq::empty(), ty_name: Seq::empty(), rule: Rule::Identifier, is_key: false }
}

/// The walk of an in-place initialisation `n` from its `i`-th child on, for a
/// property declared with type `ty`, target type `rust` and key marker `key`,
/// having read the name `name` so far. In the models phase the property's
/// field definition is written at its name.
pub open spec fn assign_prop_from(
    n: Node,
    i: int,
    step: Step,
    ty: (Seq<char>, Rule),
    rust: Seq<char>,
    key: bool,
    name: Seq<char>,
    code: CodeModel,
) -> Result<(CodeModel, PropertyModel), GenError>
    decreases n.children@.len() - i,
{
    if i < 0 || i >= n.children@.len() {
        Ok((code, PropertyModel { name, ty_name: ty.0, rule: ty.1, is_key: key }))
    } else {
        let c = n.children@[i];
        match c.rule {
            Rule::PropertyCall => {
                let code1 = fielded(code, step, c.text@, rust);
                assign_prop_from(
                    n,
                    i + 1,
                    step,
                    ty,
                    rust,
                    key,
                    if ty.0.len() == 0 { name } else { c.text@ },
                    if rust != "<not_found>"@ && rust != "i32"@ {
                        code1.with_struct(impl_text(rust)).with_method_parameter(handler_parameter_text(rust))
                    } else {
                        code1
                    },
                )
            },
            Rule::NewInstance => assign_prop_from(
                n,
                i + 1,
                step,
                ty,
                rust,
                key,
                name,
                code.with_struct(constructor_text(ty.0)),
            ),
            Rule::Number | Rule::Semicolon => assign_prop_from(n, i + 1, step, ty, rust, key, name, code),
            _ => Err(GenError::UnexpectedNode(c.rule)),
        }
    }
}

/// The walk of a property declaration `n` from its `i`-th child on, in class
/// `cls`, having read the declared type `entry`, the target type `rust` and the
/// key marker `key` so far. It ends at the property's name or initialisation.
pub open spec fn property_from(
    n: Node,
    i: int,
    step: Step,
    cls: Seq<char>,
    entry: Option<(Seq<char>, Rule)>,
    rust: Seq<char>,
    key: bool,
    code: CodeModel,
) -> Result<(CodeModel, PropertyModel), GenError>
    decreases n.children@.len() - i,
{
    if i < 0 || i >= n.children@.len() {
        Ok((code, empty_property()))
    } else {
        let c = n.children@[i];
        match c.rule {
            Rule::Attribute => property_from(n, i + 1, step, cls, entry, rust, key || c.text@ == "[Key]"@, code),
            Rule::PublicKeyWord | Rule::PrivateKeyWord => property_from(
                n,
                i + 1,
                step,
                cls,
                entry,
                rust,
                key,
                if step == Step::Models { code.with_struct("   pub "@) } else { code },
            ),
            Rule::StaticKeyWord | Rule::ReadonlyKeyWord | Rule::LeftBracers | Rule::GetKeyWord | Rule::Semicolon
            | Rule::SetKeyWord | Rule::RightBracers => property_from(n, i + 1, step, cls, entry, rust, key, code),
            Rule::PropertyType => {
                let d = declared_type(c.children@);
                property_from(n, i + 1, step, cls, if d.1 is Some { d.1 } else { entry }, d.0, key, code)
            },
            Rule::Assignment => match entry {
                None => Err(GenError::MissingPropertyType),
                Some(ty) => assign_prop_from(c, 0, step, ty, rust, key, Seq::empty(), aliased(code, step, key, cls, rust)),
            },
            Rule::Identifier => match entry {
                None => Err(GenError::MissingPropertyType),
                Some(ty) => Ok(
                    (
                        fielded(aliased(code, step, key, cls, rust), step, c.text@, rust),
                        PropertyModel { name: c.text@, ty_name: ty.0, rule: Rule::Identifier, is_key: key },
                    ),
                ),
            },
            _ => Err(GenError::UnexpectedNode(c.rule)),
        }
    }
}

fn alias_of(cls: &String, key: &String) -> (r: String)
    ensures
        r@ == alias_text(cls@, key@),
{
    let mut s = String::from_str("type ");
    s.append(cls.as_str());
    s.append("s = HashMap<");
    s.append(key.as_str());
    s.append(", ");
    s.append(cls.as_str());
    s.append(">;\n");
    s
}

fn impl_of(rust: &String) -> (r: String)
    ensures
        r@ == impl_text(rust@),
{
    concat3("\nimpl ", rust.as_str(), " { \n")
}

fn constructor_of(ty: &String) -> (r: String)
    ensures
        r@ == constructor_text(ty@),
{
    concat3(
        "\tfn new() -> Self {\n\t\t ",
        ty.as_str(),
        " { \n\t\t\titems: Arc::new(RwLock::new(HashMap::new()))\n\t\t}\n\t}\n}\n\n",
    )
}

fn add_alias(code: &mut Code, step: Step, key: bool, cls: &String, rust: &String)
    ensures
        final(code)@ == aliased(old(code)@, step, key, cls@, rust@),
{
    if step == Step::Models && key {
        let a = alias_of(cls, rust);
        code.add_type(a.as_str());
    }
}

/// Walks an in-place initialisation of a property declared with type `ty`.
fn assignment_property(
    node: &Node,
    step: Step,
    ty: &(String, Rule),
    rust: &String,
    key: bool,
    code: &mut Code,
) -> (r: Result<Property, GenError>)
    ensures
        assign_prop_from(*node, 0, step, (ty.0@, ty.1), rust@, key, Seq::empty(), old(code)@) == match r {
            Ok(p) => Ok((final(code)@, p@)),
            Err(e) => Err::<(CodeModel, PropertyModel), GenError>(e),
        },
{
    let ghost t = (ty.0@, ty.1);
    let mut name = String::new();
    let mut i: usize = 0;
    while i < node.children.len()
        invariant
            0 <= i <= node.children@.len(),
            t == (ty.0@, ty.1),
            assign_prop_from(*node, 0, step, t, rust@, key, Seq::empty(), old(code)@) == assign_prop_from(
                *node,
                i as int,
                step,
                t,
                rust@,
                key,
                name@,
                code@,
            ),
        decreases node.children.len() - i,
    {
        let c = &node.children[i];
        match c.rule {
            Rule::PropertyCall => {
                if step == Step::Models {
                    let lower = lowercase(c.text.as_str());
                    let mut field = concat3(lower.as_str(), ": ", rust.as_str());
                    field.append(",\n");
                    code.add_struct(field.as_str());
                }
                if !same_text(rust.as_str(), "<not_found>") && !same_text(rust.as_str(), "i32") {
                    let header = impl_of(rust);
                    code.add_struct(header.as_str());
                    let lower = lowercase(rust.as_str());
                    code.add_method_parameter(concat3(lower.as_str(), ": ", rust.as_str()));
                }
                if ty.0.as_str().unicode_len() != 0 {
                    name = c.text.clone();
                }
            },
            Rule::NewInstance => {
                let body = constructor_of(&ty.0);
                code.add_struct(body.as_str());
            },
            Rule::Number | Rule::Semicolon => {},
            _ => {
                return Err(GenError::UnexpectedNode(c.rule));
            },
        }
        i += 1;
    }
    Ok(Property { name, ty_name: ty.0.clone(), rule: ty.1, is_key: key })
}

/// Walks a property declaration of class `cls`. In the models phase it writes
/// the field definition, and the class's keyed-collection alias where the
/// property is key-marked.
pub fn walk_property(node: &Node, step: Step, cls: &String, code: &mut Code) -> (r: Result<Property, GenError>)
    ensures
        property_from(*node, 0, step, cls@, None, Seq::empty(), false, old(code)@) == match r {
            Ok(p) => Ok((final(code)@, p@)),
            Err(e) => Err::<(CodeModel, PropertyModel), GenError>(e),
        },
{
    let mut entry: Option<(String, Rule)> = None;
    let mut rust = String::new();
    let mut key = false;
    let mut i: usize = 0;
    while i < node.children.len()
        invariant
            0 <= i <= node.children@.len(),
            property_from(*node, 0, step, cls@, None, Seq::empty(), false, old(code)@) == property_from(
                *node,
                i as int,
                step,
                cls@,
                type_ref_view(entry),
                rust@,
                key,
                code@,
            ),
        decreases node.children.len() - i,
    {
        let c = &node.children[i];
        match c.rule {
            Rule::Attribute => {
                if same_text(c.text.as_str(), "[Key]") {
                    key = true;
                }
            },
            Rule::PublicKeyWord | Rule::PrivateKeyWord => {
                if step == Step::Models {
                    code.add_struct("   pub ");
                }
            },
            Rule::StaticKeyWord | Rule::ReadonlyKeyWord | Rule::LeftBracers | Rule::GetKeyWord | Rule::Semicolon
            | Rule::SetKeyWord | Rule::RightBracers => {},
            Rule::PropertyType => {
                let (t, e) = property_type(c);
                rust = t;
                if e.is_some() {
                    entry = e;
                }
            },
            Rule::Assignment => {
                match &entry {
                    None => {
                        return Err(GenError::MissingPropertyType);
                    },
                    Some(ty) => {
                        add_alias(code, step, key, cls, &rust);
                        return assignment_property(c, step, ty, &rust, key, code);
                    },
                }
            },
            Rule::Identifier => {
                match &entry {
                    None => {
                        return Err(GenError::MissingPropertyType);
                    },
                    Some(ty) => {
                        add_alias(code, step, key, cls, &rust);
                        if step == Step::Models {
                            let lower = lowercase(c.text.as_str());
                            let mut field = concat3(lower.as_str(), ": ", rust.as_str());
                            field.append(",\n");
                            code.add_struct(field.as_str());
                        }
                        return Ok(Property { name: c.text.clone(), ty_name: ty.0.clone(), rule: Rule::Identifier, is_key: key });
                    },
                }
            },
            _ => {
                return Err(GenError::UnexpectedNode(c.rule));
            },
        }
        i += 1;
    }
    Ok(Property::new())
}

} // verus!
