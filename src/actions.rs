use vstd::prelude::*;
use crate::bodies::{code_from, walk_code};
use crate::code::{Code, CodeModel};
use crate::context::Step;
use crate::members::{parameters, params_from};
use crate::symbols::{
    ClassMethodModel, ClassMethods, Method, MethodModel, Parameter, ParameterModel, Property, PropertyModel,
    TypeModel, TypeTable, find_type, parameters_view, properties_view,
};
use crate::syntax::{GenError, Node, Rule};
use crate::text::{concat3, lower_of, lowercase, same_text};

verus! {

/// The properties of `ps` typed by a class, in order.
pub open spec fn identifier_fields(ps: Seq<PropertyModel>) -> Seq<PropertyModel>
    decreases ps.len(),
{
    if ps.len() == 0 {
        Seq::empty()
    } else if ps.last().rule == Rule::Identifier {
        identifier_fields(ps.drop_last()).push(ps.last())
    } else {
        identifier_fields(ps.drop_last())
    }
}

/// The class-typed fields of the types of `holders` from the `i`-th on,
/// appended to `acc`: the stores that a dependency of those types owns.
pub open spec fn deps_from(
    types: Seq<TypeModel>,
    holders: Seq<PropertyModel>,
    i: int,
    acc: Seq<PropertyModel>,
) -> Result<Seq<PropertyModel>, GenError>
    decreases holders.len() - i,
{
    if i < 0 || i >= holders.len() {
        Ok(acc)
    } else {
        match find_type(types, holders[i].ty_name) {
            None => Err(GenError::UnknownType),
            Some(t) => deps_from(types, holders, i + 1, acc + identifier_fields(t.properties)),
        }
    }
}

/// The class-typed fields of the registered types of `holders`, in order; each
/// holder's type must be registered.
pub fn dependency_fields(types: &TypeTable, holders: &Vec<Property>) -> (r: Result<Vec<Property>, GenError>)
    ensures
        deps_from(types@, properties_view(holders@), 0, Seq::empty()) == match r {
            Ok(v) => Ok(properties_view(v@)),
            Err(e) => Err::<Seq<PropertyModel>, GenError>(e),
        },
{
    let ghost hs = properties_view(holders@);
    let mut out: Vec<Property> = Vec::new();
    assert(properties_view(out@) =~= Seq::empty());
    let mut i: usize = 0;
    while i < holders.len()
        invariant
            0 <= i <= hs.len(),
            hs == properties_view(holders@),
            deps_from(types@, hs, 0, Seq::empty()) == deps_from(types@, hs, i as int, properties_view(out@)),
        decreases holders.len() - i,
    {
        let t = match types.get_type_table(&holders[i].ty_name) {
            None => {
                return Err(GenError::UnknownType);
            },
            Some(t) => t,
        };
        let ghost ps = t@.properties;
        let ghost acc = properties_view(out@);
        let mut j: usize = 0;
        while j < t.properties.len()
            invariant
                0 <= j <= ps.len(),
                ps == properties_view(t.properties@),
                properties_view(out@) == acc + identifier_fields(ps.take(j as int)),
            decreases t.properties.len() - j,
        {
            assert(ps.take(j + 1).drop_last() =~= ps.take(j as int));
            if t.properties[j].rule == Rule::Identifier {
                let p = t.properties[j].copy();
                let ghost before = out@;
                out.push(p);
                assert(properties_view(out@) =~= properties_view(before).push(p@));
                assert(properties_view(out@) =~= acc + identifier_fields(ps.take(j + 1)));
            }
            j += 1;
        }
        assert(ps.take(ps.len() as int) =~= ps);
        i += 1;
    }
    Ok(out)
}

/// The texts `items` with `sep` between each two.
pub open spec fn joined_with(items: Seq<Seq<char>>, sep: Seq<char>) -> Seq<char>
    decreases items.len(),
{
    if items.len() == 0 {
        Seq::empty()
    } else if items.len() == 1 {
        items[0]
    } else {
        joined_with(items.drop_last(), sep) + sep + items.last()
    }
}

/// Each field written as `name: Type`.
pub open spec fn typed_names(fs: Seq<PropertyModel>) -> Seq<Seq<char>> {
    fs.map_values(|f: PropertyModel| f.name + ": "@ + f.ty_name)
}

/// The field that a handler reads its store from: the last of `fs`.
pub open spec fn holder_of(fs: Seq<PropertyModel>) -> Seq<char> {
    if fs.len() == 0 {
        Seq::empty()
    } else {
        fs.last().name
    }
}

/// The parameter list of a handler: its dependency fields as `name: Type`,
/// comma-separated, in parentheses.
pub open spec fn signature_text(fs: Seq<PropertyModel>) -> Seq<char> {
    "("@ + joined_with(typed_names(fs), ", "@) + ")"@
}

/// The return type written for a handler whose action returns an action result.
pub open spec fn reply_type_text() -> Seq<char> {
    " -> Result<impl warp::Reply, warp::Rejection>"@
}

/// The handler of a get endpoint of controller `cls` returning `ret`, written
/// after its opening: the signature over the controller's dependency fields,
/// then the body from the action's statement block `n`.
pub open spec fn handler(
    n: Node,
    cls: Seq<char>,
    ret: Seq<char>,
    types: Seq<TypeModel>,
    classes: Seq<ClassMethodModel>,
    code: CodeModel,
) -> Result<CodeModel, GenError> {
    match find_type(types, cls) {
        None => Err(GenError::UnknownType),
        Some(t) => match deps_from(types, t.properties, 0, Seq::empty()) {
            Err(e) => Err(e),
            Ok(fs) => {
                let code1 = code.with_method(signature_text(fs));
                let code2 = if ret == "IActionResult"@ { code1.with_method(reply_type_text()) } else { code1 };
                code_from(n, 0, Step::Controllers, cls, holder_of(fs), types, classes, false, Seq::empty(), code2)
            },
        },
    }
}

fn signature_of(fs: &Vec<Property>) -> (r: (String, String))
    ensures
        r.0@ == signature_text(properties_view(fs@)),
        r.1@ == holder_of(properties_view(fs@)),
{
    let ghost fv = properties_view(fs@);
    let ghost names = typed_names(fv);
    let mut list = String::new();
    let mut holder = String::new();
    let mut j: usize = 0;
    assert(names.take(0) =~= Seq::<Seq<char>>::empty());
    while j < fs.len()
        invariant
            0 <= j <= fv.len(),
            fv == properties_view(fs@),
            names == typed_names(fv),
            list@ == joined_with(names.take(j as int), ", "@),
            holder@ == holder_of(fv.take(j as int)),
        decreases fs.len() - j,
    {
        assert(names.take(j + 1).drop_last() =~= names.take(j as int));
        assert(fv.take(j + 1).last() == fv[j as int]);
        let item = concat3(fs[j].name.as_str(), ": ", fs[j].ty_name.as_str());
        if j == 0 {
            list = item;
        } else {
            list.append(", ");
            list.append(item.as_str());
        }
        holder = fs[j].name.clone();
        j += 1;
    }
    assert(names.take(fv.len() as int) =~= names);
    assert(fv.take(fv.len() as int) =~= fv);
    let mut sig = concat3("(", list.as_str(), ")");
    (sig, holder)
}

/// Writes the handler of a get endpoint of controller `cls`: its signature and
/// its body.
pub fn walk_handler(
    node: &Node,
    cls: &String,
    ret: &String,
    types: &TypeTable,
    classes: &ClassMethods,
    code: &mut Code,
) -> (r: Result<(), GenError>)
    ensures
        handler(*node, cls@, ret@, types@, classes@, old(code)@) == match r {
            Ok(_) => Ok(final(code)@),
            Err(e) => Err::<CodeModel, GenError>(e),
        },
{
    let t = match types.get_type_table(cls) {
        None => {
            return Err(GenError::UnknownType);
        },
        Some(t) => t,
    };
    let fs = match dependency_fields(types, &t.properties) {
        Err(e) => {
            return Err(e);
        },
        Ok(fs) => fs,
    };
    let (sig, holder) = signature_of(&fs);
    code.add_method(sig);
    if same_text(ret.as_str(), "IActionResult") {
        code.add_method(String::from_str(" -> Result<impl warp::Reply, warp::Rejection>"));
    }
    walk_code(node, Step::Controllers, cls, &holder, types, classes, code)
}

/// The opening written for the handler of a get endpoint.
pub open spec fn opening_text(name: Seq<char>) -> Seq<char> {
    "async fn "@ + lower_of(name) + " "@
}

/// The walk of an action `n` of class `cls` from its `i`-th child on, having
/// read the name `name`, the return type `ret`, the parameters `ps` and whether
/// an `[HttpGet]` attribute flags it (`get`) so far. In the controller phase a
/// flagged action gets a handler.
pub open spec fn action_from(
    n: Node,
    i: int,
    step: Step,
    cls: Seq<char>,
    types: Seq<TypeModel>,
    classes: Seq<ClassMethodModel>,
    name: Seq<char>,
    ret: Seq<char>,
    ps: Seq<ParameterModel>,
    get: bool,
    code: CodeModel,
) -> Result<(CodeModel, MethodModel), GenError>
    decreases n.children@.len() - i,
{
    if i < 0 || i >= n.children@.len() {
        Ok((code, MethodModel { name, return_type: ret, parameters: ps, http_get: get }))
    } else {
        let c = n.children@[i];
        match c.rule {
            Rule::ActionParameters => match params_from(c, 0, step, Seq::empty(), Seq::empty()) {
                Ok(r) => action_from(n, i + 1, step, cls, types, classes, name, ret, ps + r.0, get, code),
                Err(e) => Err(e),
            },
            Rule::Code => {
                let walked = if step == Step::Controllers {
                    if get {
                        handler(c, cls, ret, types, classes, code)
                    } else {
                        Ok(code)
                    }
                } else {
                    code_from(c, 0, step, cls, Seq::empty(), types, classes, false, Seq::empty(), code)
                };
                match walked {
                    Ok(code1) => action_from(n, i + 1, step, cls, types, classes, name, ret, ps, get, code1),
                    Err(e) => Err(e),
                }
            },
            Rule::Attribute => action_from(
                n,
                i + 1,
                step,
                cls,
                types,
                classes,
                name,
                ret,
                ps,
                get || c.text@ == "[HttpGet]"@,
                code,
            ),
            Rule::PublicKeyWord | Rule::LeftParenthesis | Rule::RightParenthesis | Rule::LeftBracers
            | Rule::RightBracers => action_from(n, i + 1, step, cls, types, classes, name, ret, ps, get, code),
            Rule::ActionReturnType | Rule::ActionAsyncReturnType | Rule::MethodReturnType => action_from(
                n,
                i + 1,
                step,
                cls,
                types,
                classes,
                name,
                c.text@,
                ps,
                get,
                code,
            ),
            Rule::Identifier => action_from(
                n,
                i + 1,
                step,
                cls,
                types,
                classes,
                c.text@,
                ret,
                ps,
                get,
                if step == Step::Controllers && get {
                    code.with_method(opening_text(c.text@))
                } else {
                    code
                },
            ),
            _ => Err(GenError::UnexpectedNode(c.rule)),
        }
    }
}

/// Walks an action of class `cls`: the method it declares.
pub fn walk_action(
    node: &Node,
    step: Step,
    cls: &String,
    types: &TypeTable,
    classes: &ClassMethods,
    code: &mut Code,
) -> (r: Result<Method, GenError>)
    ensures
        action_from(*node, 0, step, cls@, types@, classes@, Seq::empty(), Seq::empty(), Seq::empty(), false, old(code)@)
            == match r {
            Ok(m) => Ok((final(code)@, m@)),
            Err(e) => Err::<(CodeModel, MethodModel), GenError>(e),
        },
{
    let mut name = String::new();
    let mut ret = String::new();
    let mut ps: Vec<Parameter> = Vec::new();
    assert(parameters_view(ps@) =~= Seq::empty());
    let mut get = false;
    let empty = String::new();
    let mut i: usize = 0;
    while i < node.children.len()
        invariant
            0 <= i <= node.children@.len(),
            empty@ == Seq::<char>::empty(),
            action_from(*node, 0, step, cls@, types@, classes@, Seq::empty(), Seq::empty(), Seq::empty(), false, old(code)@)
                == action_from(
                *node,
                i as int,
                step,
                cls@,
                types@,
                classes@,
                name@,
                ret@,
                parameters_view(ps@),
                get,
                code@,
            ),
        decreases node.children.len() - i,
    {
        let c = &node.children[i];
        match c.rule {
            Rule::ActionParameters => {
                match parameters(c, step) {
                    Ok(r) => {
                        let (mut more, _) = r;
                        let ghost before = ps@;
                        let ghost added = more@;
                        ps.append(&mut more);
                        assert(parameters_view(ps@) =~= parameters_view(before) + parameters_view(added));
                    },
                    Err(e) => {
                        return Err(e);
                    },
                }
            },
            Rule::Code => {
                let walked = if step == Step::Controllers {
                    if get {
                        walk_handler(c, cls, &ret, types, classes, code)
                    } else {
                        Ok(())
                    }
                } else {
                    walk_code(c, step, cls, &empty, types, classes, code)
                };
                match walked {
                    Ok(_) => {},
                    Err(e) => {
                        return Err(e);
                    },
                }
            },
            Rule::Attribute => {
                if same_text(c.text.as_str(), "[HttpGet]") {
                    get = true;
                }
            },
            Rule::PublicKeyWord | Rule::LeftParenthesis | Rule::RightParenthesis | Rule::LeftBracers
            | Rule::RightBracers => {},
            Rule::ActionReturnType | Rule::ActionAsyncReturnType | Rule::MethodReturnType => {
                ret = c.text.clone();
            },
            Rule::Identifier => {
                name = c.text.clone();
                if step == Step::Controllers && get {
                    let lower = lowercase(name.as_str());
                    code.add_method(concat3("async fn ", lower.as_str(), " "));
                }
            },
            _ => {
                return Err(GenError::UnexpectedNode(c.rule));
            },
        }
        i += 1;
    }
    Ok(Method { name, return_type: ret, parameters: ps, http_get: get })
}

} // verus!
