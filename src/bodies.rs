use vstd::prelude::*;
use crate::code::{Code, CodeModel};
use crate::context::Step;
use crate::members::{parameters, params_from};
use crate::symbols::{
    ClassMethodModel, ClassMethods, Property, PropertyModel,
    TypeModel, TypeTable, find_class, find_method, find_property, find_type, lookup_property, properties_view,
};
use crate::syntax::{GenError, Node, Rule};
use crate::text::{concat3, contains, lower_of, lowercase, occurs_in, replace, replace_of, split, split_of};

verus! {

/// A type name that denotes an ordered collection: a list or an enumerable.
pub open spec fn is_list(s: Seq<char>) -> bool {
    occurs_in("list"@, lower_of(s)) || occurs_in("ienumerable"@, lower_of(s))
}

/// Whether a type name denotes an ordered collection: its lower-case form
/// holds `list` or `ienumerable`.
pub fn is_list_type(value: &str) -> (r: bool)
    ensures
        r == is_list(value@),
{
    let lower = lowercase(value);
    contains(lower.as_str(), "list") || contains(lower.as_str(), "ienumerable")
}

/// The handler body that collects the items of an ordered collection.
pub open spec fn list_body_text(holder: Seq<char>, field: Seq<char>) -> Seq<char> {
    " {\n\tlet mut result = Vec::new();\n\n\tlet r = "@ + holder + "."@ + field
        + ".read();\n\tfor value in r.iter() {\n\t\tresult.push(value);\n\t}\n\n"@
}

/// The handler body that collects the key/value pairs of a keyed collection.
pub open spec fn keyed_body_text(holder: Seq<char>, field: Seq<char>) -> Seq<char> {
    " {\n\tlet mut result = Vec::new();\n\n\tlet r = "@ + holder + "."@ + field
        + ".read();\n\tfor (key, value) in r.iter() {\n\t\tresult.push((key, value));\n\t}\n\n"@
}

/// The statement that ends a handler: the collected items as JSON.
pub open spec fn reply_text() -> Seq<char> {
    "\tOk(warp::reply::json(&result))\n}\n\n"@
}

/// The walk of an object construction `n` from its `i`-th child on. Its
/// argument names a local variable of `vars`; after a `return` the handler body
/// is written, over field `holder` of the handler's store.
pub open spec fn new_instance_from(
    n: Node,
    i: int,
    step: Step,
    is_return: bool,
    holder: Seq<char>,
    vars: Seq<PropertyModel>,
    code: CodeModel,
) -> Result<CodeModel, GenError>
    decreases n.children@.len() - i,
{
    if i < 0 || i >= n.children@.len() {
        Ok(code)
    } else {
        let c = n.children@[i];
        match c.rule {
            Rule::Parameters => match find_property(vars, c.text@) {
                None => Err(GenError::UnknownVariable),
                Some(v) => {
                    let body = if is_list(v.ty_name) {
                        list_body_text(holder, v.name)
                    } else {
                        keyed_body_text(holder, v.name)
                    };
                    let code1 = if is_return { code.with_method(body) } else { code };
                    match params_from(c, 0, step, Seq::empty(), Seq::empty()) {
                        Err(e) => Err(e),
                        Ok(_) => new_instance_from(n, i + 1, step, is_return, holder, vars, code1.with_method(reply_text())),
                    }
                },
            },
            Rule::NewKeyWord | Rule::Identifier | Rule::LeftParenthesis | Rule::RightParenthesis
            | Rule::Semicolon => new_instance_from(n, i + 1, step, is_return, holder, vars, code),
            _ => Err(GenError::UnexpectedNode(c.rule)),
        }
    }
}

fn body_of(holder: &String, field: &String, list: bool) -> (r: String)
    ensures
        r@ == if list { list_body_text(holder@, field@) } else { keyed_body_text(holder@, field@) },
{
    let mut s = concat3(" {\n\tlet mut result = Vec::new();\n\n\tlet r = ", holder.as_str(), ".");
    s.append(field.as_str());
    if list {
        s.append(".read();\n\tfor value in r.iter() {\n\t\tresult.push(value);\n\t}\n\n");
    } else {
        s.append(".read();\n\tfor (key, value) in r.iter() {\n\t\tresult.push((key, value));\n\t}\n\n");
    }
    s
}

/// Walks an object construction; after a `return` it writes the handler body
/// over the local variable that the construction takes.
pub fn walk_new_instance(
    node: &Node,
    step: Step,
    is_return: bool,
    holder: &String,
    vars: &Vec<Property>,
    code: &mut Code,
) -> (r: Result<(), GenError>)
    ensures
        new_instance_from(*node, 0, step, is_return, holder@, properties_view(vars@), old(code)@) == match r {
            Ok(_) => Ok(final(code)@),
            Err(e) => Err::<CodeModel, GenError>(e),
        },
{
    let ghost vs = properties_view(vars@);
    let mut i: usize = 0;
    while i < node.children.len()
        invariant
            0 <= i <= node.children@.len(),
            vs == properties_view(vars@),
            new_instance_from(*node, 0, step, is_return, holder@, vs, old(code)@) == new_instance_from(
                *node,
                i as int,
                step,
                is_return,
                holder@,
                vs,
                code@,
            ),
        decreases node.children.len() - i,
    {
        let c = &node.children[i];
        match c.rule {
            Rule::Parameters => {
                match lookup_property(vars, &c.text) {
                    None => {
                        return Err(GenError::UnknownVariable);
                    },
                    Some(v) => {
                        if is_return {
                            let list = is_list_type(v.ty_name.as_str());
                            code.add_method(body_of(holder, &v.name, list));
                        }
                        code.add_method(String::from_str("\tOk(warp::reply::json(&result))\n}\n\n"));
                        match parameters(c, step) {
                            Err(e) => {
                                return Err(e);
                            },
                            Ok(_) => {},
                        }
                    },
                }
            },
            Rule::NewKeyWord | Rule::Identifier | Rule::LeftParenthesis | Rule::RightParenthesis
            | Rule::Semicolon => {},
            _ => {
                return Err(GenError::UnexpectedNode(c.rule));
            },
        }
        i += 1;
    }
    Ok(())
}

/// The return type of the method that a call `field.Method();` in class `cls`
/// reaches: through the class's field, the field's class, and that class's
/// method.
pub open spec fn resolved_call(
    call: Seq<char>,
    cls: Seq<char>,
    types: Seq<TypeModel>,
    classes: Seq<ClassMethodModel>,
) -> Result<Seq<char>, GenError> {
    let parts = split_of(call, "."@);
    if parts.len() == 0 {
        Err(GenError::MalformedCall)
    } else {
        match find_type(types, cls) {
            None => Err(GenError::UnknownType),
            Some(t) => match find_property(t.properties, parts[0]) {
                None => Err(GenError::UnknownProperty),
                Some(p) => match find_class(classes, p.ty_name) {
                    None => Err(GenError::UnknownClass),
                    Some(cm) => match find_method(cm.methods, replace_of(parts.last(), "();"@, ""@)) {
                        None => Err(GenError::UnknownMethod),
                        Some(m) => Ok(m.return_type),
                    },
                },
            },
        }
    }
}

/// The walk of an assignment statement `n` from its `i`-th child on, in class
/// `cls`, having read the variable name `name` and type `ty` so far. A method
/// call `field.Method();` is resolved through the class's field, the field's
/// class and that class's method, whose return type becomes the variable's.
pub open spec fn assignment_from(
    n: Node,
    i: int,
    cls: Seq<char>,
    types: Seq<TypeModel>,
    classes: Seq<ClassMethodModel>,
    name: Seq<char>,
    ty: Seq<char>,
) -> Result<PropertyModel, GenError>
    decreases n.children@.len() - i,
{
    if i < 0 || i >= n.children@.len() {
        Ok(PropertyModel { name, ty_name: ty, rule: Rule::Identifier, is_key: false })
    } else {
        let c = n.children@[i];
        match c.rule {
            Rule::VarKeyWord | Rule::NewInstance | Rule::ReturnKeyWord | Rule::MathExp | Rule::Number
            | Rule::Semicolon => assignment_from(n, i + 1, cls, types, classes, name, ty),
            Rule::PropertyCall => assignment_from(n, i + 1, cls, types, classes, c.text@, ty),
            Rule::MethodCall => match resolved_call(c.text@, cls, types, classes) {
                Ok(t) => assignment_from(n, i + 1, cls, types, classes, name, t),
                Err(e) => Err(e),
            },
            _ => Err(GenError::UnexpectedNode(c.rule)),
        }
    }
}

/// The return type of the method that a call `field.Method();` in class `cls`
/// reaches.
fn resolve_call(
    call: &String,
    cls: &String,
    types: &TypeTable,
    classes: &ClassMethods,
) -> (r: Result<String, GenError>)
    ensures
        resolved_call(call@, cls@, types@, classes@) == match r {
            Ok(t) => Ok(t@),
            Err(e) => Err::<Seq<char>, GenError>(e),
        },
{
    proof {
        reveal_strlit(".");
        reveal_strlit("();");
    }
    let parts = split(call.as_str(), ".");
    let ghost pv = parts@.map_values(|x: String| x@);
    if parts.len() == 0 {
        return Err(GenError::MalformedCall);
    }
    assert(pv.len() == parts@.len());
    let t = match types.get_type_table(cls) {
        None => {
            return Err(GenError::UnknownType);
        },
        Some(t) => t,
    };
    let p = match t.get_type_property(&parts[0]) {
        None => {
            return Err(GenError::UnknownProperty);
        },
        Some(p) => p,
    };
    let cm = match classes.get_class_method(&p.ty_name) {
        None => {
            return Err(GenError::UnknownClass);
        },
        Some(cm) => cm,
    };
    let last = parts.len() - 1;
    let method_name = replace(parts[last].as_str(), "();", "");
    assert(pv.last() == parts@[last as int]@);
    match cm.get_method(&method_name) {
        None => Err(GenError::UnknownMethod),
        Some(m) => Ok(m.return_type.clone()),
    }
}

/// Walks an assignment statement of class `cls`: the assigned variable, typed
/// by the return type of the method it calls.
pub fn walk_assignment(
    node: &Node,
    cls: &String,
    types: &TypeTable,
    classes: &ClassMethods,
) -> (r: Result<Property, GenError>)
    ensures
        assignment_from(*node, 0, cls@, types@, classes@, Seq::empty(), Seq::empty()) == match r {
            Ok(p) => Ok(p@),
            Err(e) => Err::<PropertyModel, GenError>(e),
        },
{
    let mut name = String::new();
    let mut ty = String::new();
    let mut i: usize = 0;
    while i < node.children.len()
        invariant
            0 <= i <= node.children@.len(),
            assignment_from(*node, 0, cls@, types@, classes@, Seq::empty(), Seq::empty()) == assignment_from(
                *node,
                i as int,
                cls@,
                types@,
                classes@,
                name@,
                ty@,
            ),
        decreases node.children.len() - i,
    {
        let c = &node.children[i];
        match c.rule {
            Rule::VarKeyWord | Rule::NewInstance | Rule::ReturnKeyWord | Rule::MathExp | Rule::Number
            | Rule::Semicolon => {},
            Rule::PropertyCall => {
                name = c.text.clone();
            },
            Rule::MethodCall => {
                match resolve_call(&c.text, cls, types, classes) {
                    Ok(s) => {
                        ty = s;
                    },
                    Err(e) => {
                        return Err(e);
                    },
                }
            },
            _ => {
                return Err(GenError::UnexpectedNode(c.rule));
            },
        }
        i += 1;
    }
    Ok(Property { name, ty_name: ty, rule: Rule::Identifier, is_key: false })
}

/// The walk of a statement block `n` from its `i`-th child on, in class `cls`.
/// In the controller phase assignments introduce local variables, which a later
/// object construction may take; `holder` names the handler's store.
pub open spec fn code_from(
    n: Node,
    i: int,
    step: Step,
    cls: Seq<char>,
    holder: Seq<char>,
    types: Seq<TypeModel>,
    classes: Seq<ClassMethodModel>,
    is_return: bool,
    vars: Seq<PropertyModel>,
    code: CodeModel,
) -> Result<CodeModel, GenError>
    decreases n.children@.len() - i,
{
    if i < 0 || i >= n.children@.len() {
        Ok(code)
    } else {
        let c = n.children@[i];
        match c.rule {
            Rule::NewInstance => match new_instance_from(c, 0, step, is_return, holder, vars, code) {
                Ok(code1) => code_from(n, i + 1, step, cls, holder, types, classes, is_return, vars, code1),
                Err(e) => Err(e),
            },
            Rule::MethodCall | Rule::AsyncMethodCall | Rule::PropertyCall | Rule::Semicolon => code_from(
                n,
                i + 1,
                step,
                cls,
                holder,
                types,
                classes,
                is_return,
                vars,
                code,
            ),
            Rule::Assignment => match assignment_from(c, 0, cls, types, classes, Seq::empty(), Seq::empty()) {
                Ok(v) => code_from(
                    n,
                    i + 1,
                    step,
                    cls,
                    holder,
                    types,
                    classes,
                    is_return,
                    if step == Step::Controllers { vars.push(v) } else { vars },
                    code,
                ),
                Err(e) => Err(e),
            },
            Rule::ReturnKeyWord => code_from(n, i + 1, step, cls, holder, types, classes, true, vars, code),
            _ => Err(GenError::UnexpectedNode(c.rule)),
        }
    }
}

/// Walks a statement block of class `cls`.
pub fn walk_code(
    node: &Node,
    step: Step,
    cls: &String,
    holder: &String,
    types: &TypeTable,
    classes: &ClassMethods,
    code: &mut Code,
) -> (r: Result<(), GenError>)
    ensures
        code_from(*node, 0, step, cls@, holder@, types@, classes@, false, Seq::empty(), old(code)@) == match r {
            Ok(_) => Ok(final(code)@),
            Err(e) => Err::<CodeModel, GenError>(e),
        },
{
    let mut is_return = false;
    let mut vars: Vec<Property> = Vec::new();
    assert(properties_view(vars@) =~= Seq::empty());
    let mut i: usize = 0;
    while i < node.children.len()
        invariant
            0 <= i <= node.children@.len(),
            code_from(*node, 0, step, cls@, holder@, types@, classes@, false, Seq::empty(), old(code)@)
                == code_from(
                *node,
                i as int,
                step,
                cls@,
                holder@,
                types@,
                classes@,
                is_return,
                properties_view(vars@),
                code@,
            ),
        decreases node.children.len() - i,
    {
        let c = &node.children[i];
        match c.rule {
            Rule::NewInstance => {
                match walk_new_instance(c, step, is_return, holder, &vars, code) {
                    Ok(_) => {},
                    Err(e) => {
                        return Err(e);
                    },
                }
            },
            Rule::MethodCall | Rule::AsyncMethodCall | Rule::PropertyCall | Rule::Semicolon => {},
            Rule::Assignment => {
                match walk_assignment(c, cls, types, classes) {
                    Ok(v) => {
                        if step == Step::Controllers {
                            let ghost before = vars@;
                            let ghost vv = v@;
                            vars.push(v);
                            assert(properties_view(vars@) =~= properties_view(before).push(vv));
                        }
                    },
                    Err(e) => {
                        return Err(e);
                    },
                }
            },
            Rule::ReturnKeyWord => {
                is_return = true;
            },
            _ => {
                return Err(GenError::UnexpectedNode(c.rule));
            },
        }
        i += 1;
    }
    Ok(())
}

} // verus!
