use vstd::prelude::*;
use crate::actions::{action_from, walk_action};
use crate::bodies::{code_from, walk_code};
use crate::code::CodeModel;
use crate::context::{Context, ContextModel, Step};
use crate::members::{parameters, params_from, property_from, walk_property};
use crate::routes::{entry, write_entry};
use crate::symbols::{
    ClassMethod, ClassMethodModel, Method, MethodModel, Property, PropertyModel, Type, TypeModel, copy_properties,
    methods_view, properties_view, registered,
};
use crate::syntax::{GenError, Node, Rule};
use crate::text::{trim, trim_of};

verus! {

/// The type registered for class `name` with properties `ps`.
pub open spec fn class_type(name: Seq<char>, ps: Seq<PropertyModel>) -> TypeModel {
    TypeModel { name, ty_name: name, rule: Rule::Identifier, properties: ps }
}

/// The walk of a constructor `n` from its `i`-th child on, having read the
/// constructor parameters `cps` so far.
pub open spec fn ctor_from(
    n: Node,
    i: int,
    step: Step,
    cls: Seq<char>,
    types: Seq<TypeModel>,
    classes: Seq<ClassMethodModel>,
    code: CodeModel,
    cps: Seq<PropertyModel>,
) -> Result<(CodeModel, Seq<PropertyModel>), GenError>
    decreases n.children@.len() - i,
{
    if i < 0 || i >= n.children@.len() {
        Ok((code, cps))
    } else {
        let c = n.children@[i];
        match c.rule {
            Rule::ConstructorParameters => match params_from(c, 0, step, Seq::empty(), Seq::empty()) {
                Ok(r) => ctor_from(n, i + 1, step, cls, types, classes, code, r.1),
                Err(e) => Err(e),
            },
            Rule::Code => if step == Step::Models {
                match code_from(c, 0, step, cls, Seq::empty(), types, classes, false, Seq::empty(), code) {
                    Ok(code1) => ctor_from(n, i + 1, step, cls, types, classes, code1, cps),
                    Err(e) => Err(e),
                }
            } else {
                ctor_from(n, i + 1, step, cls, types, classes, code, cps)
            },
            Rule::PublicKeyWord | Rule::Identifier | Rule::LeftParenthesis | Rule::RightParenthesis
            | Rule::LeftBracers | Rule::RightBracers => ctor_from(n, i + 1, step, cls, types, classes, code, cps),
            _ => Err(GenError::UnexpectedNode(c.rule)),
        }
    }
}

/// A constructor of class `cls` whose properties so far are `ps`: it registers
/// the class, then yields its parameters.
pub open spec fn constructor(n: Node, step: Step, cls: Seq<char>, ps: Seq<PropertyModel>, ctx: ContextModel) -> Result<
    (ContextModel, Seq<PropertyModel>),
    GenError,
> {
    let types = registered(ctx.types, class_type(cls, ps));
    match ctor_from(n, 0, step, cls, types, ctx.classes, ctx.code, Seq::empty()) {
        Ok(r) => Ok((ContextModel { code: r.0, types, classes: ctx.classes }, r.1)),
        Err(e) => Err(e),
    }
}

/// Walks a constructor of class `cls` whose properties so far are `ps`.
pub fn walk_constructor(node: &Node, step: Step, cls: &String, ps: &Vec<Property>, ctx: &mut Context) -> (r: Result<
    Vec<Property>,
    GenError,
>)
    ensures
        constructor(*node, step, cls@, properties_view(ps@), old(ctx)@) == match r {
            Ok(cps) => Ok((final(ctx)@, properties_view(cps@))),
            Err(e) => Err::<(ContextModel, Seq<PropertyModel>), GenError>(e),
        },
{
    let t = Type { name: cls.clone(), ty_name: cls.clone(), rule: Rule::Identifier, properties: copy_properties(ps) };
    assert(t@ == class_type(cls@, properties_view(ps@)));
    ctx.types.add_type(t);
    let ghost after = ctx@;
    assert(after.types == registered(old(ctx)@.types, class_type(cls@, properties_view(ps@))));
    assert(after.code == old(ctx)@.code);
    assert(after.classes == old(ctx)@.classes);
    let mut cps: Vec<Property> = Vec::new();
    assert(properties_view(cps@) =~= Seq::empty());
    let empty = String::new();
    let mut i: usize = 0;
    while i < node.children.len()
        invariant
            0 <= i <= node.children@.len(),
            empty@ == Seq::<char>::empty(),
            after.types == registered(old(ctx)@.types, class_type(cls@, properties_view(ps@))),
            after.code == old(ctx)@.code,
            after.classes == old(ctx)@.classes,
            ctx@.types == after.types,
            ctx@.classes == after.classes,
            ctor_from(*node, 0, step, cls@, after.types, after.classes, after.code, Seq::empty()) == ctor_from(
                *node,
                i as int,
                step,
                cls@,
                after.types,
                after.classes,
                ctx@.code,
                properties_view(cps@),
            ),
        decreases node.children.len() - i,
    {
        let c = &node.children[i];
        match c.rule {
            Rule::ConstructorParameters => {
                match parameters(c, step) {
                    Ok(r) => {
                        let (_, more) = r;
                        cps = more;
                    },
                    Err(e) => {
                        return Err(e);
                    },
                }
            },
            Rule::Code => {
                if step == Step::Models {
                    match walk_code(c, step, cls, &empty, &ctx.types, &ctx.class_methods, &mut ctx.code) {
                        Ok(_) => {},
                        Err(e) => {
                            return Err(e);
                        },
                    }
                }
            },
            Rule::PublicKeyWord | Rule::Identifier | Rule::LeftParenthesis | Rule::RightParenthesis
            | Rule::LeftBracers | Rule::RightBracers => {},
            _ => {
                return Err(GenError::UnexpectedNode(c.rule));
            },
        }
        i += 1;
    }
    Ok(cps)
}

/// The line that opens a model type definition, with its derived capabilities.
pub open spec fn derive_text() -> Seq<char> {
    "\n#[derive(Debug, Deserialize, Serialize, Clone)] \n"@
}

/// The walk of a model class `n` from its `i`-th child on, having read the
/// class name `cls`, the properties `ps` and the methods `ms` so far. At its end
/// the class is registered as a type and in the method table.
pub open spec fn model_class_from(
    n: Node,
    i: int,
    cls: Seq<char>,
    ps: Seq<PropertyModel>,
    ms: Seq<MethodModel>,
    ctx: ContextModel,
) -> Result<ContextModel, GenError>
    decreases n.children@.len() - i,
{
    if i < 0 || i >= n.children@.len() {
        Ok(
            ContextModel {
                code: ctx.code,
                types: registered(ctx.types, class_type(cls, ps)),
                classes: ctx.classes.push(ClassMethodModel { class_name: cls, methods: ms }),
            },
        )
    } else {
        let c = n.children@[i];
        match c.rule {
            Rule::Constructor => match constructor(c, Step::Models, cls, ps, ctx) {
                Ok(r) => model_class_from(n, i + 1, cls, ps, ms, r.0),
                Err(e) => Err(e),
            },
            Rule::Action => match action_from(
                c,
                0,
                Step::Models,
                cls,
                ctx.types,
                ctx.classes,
                Seq::empty(),
                Seq::empty(),
                Seq::empty(),
                false,
                ctx.code,
            ) {
                Ok(r) => model_class_from(n, i + 1, cls, ps, ms.push(r.1), ContextModel { code: r.0, ..ctx }),
                Err(e) => Err(e),
            },
            Rule::Properties => match property_from(c, 0, Step::Models, cls, None, Seq::empty(), false, ctx.code) {
                Ok(r) => model_class_from(n, i + 1, cls, ps.push(r.1), ms, ContextModel { code: r.0, ..ctx }),
                Err(e) => Err(e),
            },
            Rule::Attribute => model_class_from(n, i + 1, cls, ps, ms, ctx),
            Rule::PublicKeyWord => model_class_from(
                n,
                i + 1,
                cls,
                ps,
                ms,
                ContextModel { code: ctx.code.with_struct(derive_text()).with_struct("pub "@), ..ctx },
            ),
            Rule::ClassKeyWord => model_class_from(
                n,
                i + 1,
                cls,
                ps,
                ms,
                ContextModel { code: ctx.code.with_struct("struct "@), ..ctx },
            ),
            Rule::ClassName => model_class_from(
                n,
                i + 1,
                trim_of(c.text@),
                ps,
                ms,
                ContextModel { code: ctx.code.with_struct(trim_of(c.text@)), ..ctx },
            ),
            Rule::LeftBracers => model_class_from(
                n,
                i + 1,
                cls,
                ps,
                ms,
                ContextModel { code: ctx.code.with_struct("\n{\n"@), ..ctx },
            ),
            Rule::RightBracers => model_class_from(
                n,
                i + 1,
                cls,
                ps,
                ms,
                ContextModel { code: ctx.code.with_struct("}\n"@), ..ctx },
            ),
            _ => Err(GenError::UnexpectedNode(c.rule)),
        }
    }
}

fn push_method(ms: &mut Vec<Method>, m: Method)
    ensures
        methods_view(final(ms)@) == methods_view(old(ms)@).push(m@),
{
    let ghost mv = m@;
    ms.push(m);
    assert(methods_view(ms@) =~= methods_view(old(ms)@).push(mv));
}

fn push_property(ps: &mut Vec<Property>, p: Property)
    ensures
        properties_view(final(ps)@) == properties_view(old(ps)@).push(p@),
{
    let ghost pv = p@;
    ps.push(p);
    assert(properties_view(ps@) =~= properties_view(old(ps)@).push(pv));
}

/// Walks a model class: its type definition is written, and the class is
/// registered as a type and in the method table.
pub fn walk_model_class(node: &Node, ctx: &mut Context) -> (r: Result<(), GenError>)
    ensures
        model_class_from(*node, 0, Seq::empty(), Seq::empty(), Seq::empty(), old(ctx)@) == match r {
            Ok(_) => Ok(final(ctx)@),
            Err(e) => Err::<ContextModel, GenError>(e),
        },
{
    let mut cls = String::new();
    let mut ps: Vec<Property> = Vec::new();
    let mut ms: Vec<Method> = Vec::new();
    assert(properties_view(ps@) =~= Seq::empty());
    assert(methods_view(ms@) =~= Seq::empty());
    let mut i: usize = 0;
    while i < node.children.len()
        invariant
            0 <= i <= node.children@.len(),
            model_class_from(*node, 0, Seq::empty(), Seq::empty(), Seq::empty(), old(ctx)@) == model_class_from(
                *node,
                i as int,
                cls@,
                properties_view(ps@),
                methods_view(ms@),
                ctx@,
            ),
        decreases node.children.len() - i,
    {
        let c = &node.children[i];
        match c.rule {
            Rule::Constructor => {
                match walk_constructor(c, Step::Models, &cls, &ps, ctx) {
                    Ok(_) => {},
                    Err(e) => {
                        return Err(e);
                    },
                }
            },
            Rule::Action => {
                match walk_action(c, Step::Models, &cls, &ctx.types, &ctx.class_methods, &mut ctx.code) {
                    Ok(m) => push_method(&mut ms, m),
                    Err(e) => {
                        return Err(e);
                    },
                }
            },
            Rule::Properties => {
                match walk_property(c, Step::Models, &cls, &mut ctx.code) {
                    Ok(p) => push_property(&mut ps, p),
                    Err(e) => {
                        return Err(e);
                    },
                }
            },
            Rule::Attribute => {},
            Rule::PublicKeyWord => {
                ctx.code.add_struct("\n#[derive(Debug, Deserialize, Serialize, Clone)] \n");
                ctx.code.add_struct("pub ");
            },
            Rule::ClassKeyWord => {
                ctx.code.add_struct("struct ");
            },
            Rule::ClassName => {
                cls = trim(c.text.as_str());
                ctx.code.add_struct(cls.as_str());
            },
            Rule::LeftBracers => {
                ctx.code.add_struct("\n{\n");
            },
            Rule::RightBracers => {
                ctx.code.add_struct("}\n");
            },
            _ => {
                return Err(GenError::UnexpectedNode(c.rule));
            },
        }
        i += 1;
    }
    ctx.types.add_type(Type { name: cls.clone(), ty_name: cls.clone(), rule: Rule::Identifier, properties: ps });
    ctx.class_methods.add_class_method(ClassMethod { class_name: cls, methods: ms });
    Ok(())
}

/// The class name after a class-name node `c`: the first one read stays.
pub open spec fn first_name(cls: Seq<char>, c: Node) -> Seq<char> {
    if cls.len() == 0 {
        trim_of(c.text@)
    } else {
        cls
    }
}

/// The walk of a repository class `n` from its `i`-th child on, having read
/// the class name `cls`, the properties `ps` and the methods `ms` so far. Its
/// constructor registers it as a type; at its end it enters the method table.
pub open spec fn repository_class_from(
    n: Node,
    i: int,
    cls: Seq<char>,
    ps: Seq<PropertyModel>,
    ms: Seq<MethodModel>,
    ctx: ContextModel,
) -> Result<ContextModel, GenError>
    decreases n.children@.len() - i,
{
    if i < 0 || i >= n.children@.len() {
        Ok(ContextModel { classes: ctx.classes.push(ClassMethodModel { class_name: cls, methods: ms }), ..ctx })
    } else {
        let c = n.children@[i];
        match c.rule {
            Rule::PublicKeyWord | Rule::ClassKeyWord | Rule::LeftBracers | Rule::RightBracers => repository_class_from(
                n,
                i + 1,
                cls,
                ps,
                ms,
                ctx,
            ),
            Rule::Constructor => repository_class_from(
                n,
                i + 1,
                cls,
                ps,
                ms,
                ContextModel { types: registered(ctx.types, class_type(cls, ps)), ..ctx },
            ),
            Rule::Properties => match property_from(
                c,
                0,
                Step::Repositories,
                cls,
                None,
                Seq::empty(),
                false,
                ctx.code,
            ) {
                Ok(r) => repository_class_from(n, i + 1, cls, ps.push(r.1), ms, ContextModel { code: r.0, ..ctx }),
                Err(e) => Err(e),
            },
            Rule::ClassName => repository_class_from(n, i + 1, first_name(cls, c), ps, ms, ctx),
            Rule::Action => match action_from(
                c,
                0,
                Step::Repositories,
                cls,
                ctx.types,
                ctx.classes,
                Seq::empty(),
                Seq::empty(),
                Seq::empty(),
                false,
                ctx.code,
            ) {
                Ok(r) => repository_class_from(n, i + 1, cls, ps, ms.push(r.1), ContextModel { code: r.0, ..ctx }),
                Err(e) => Err(e),
            },
            _ => Err(GenError::UnexpectedNode(c.rule)),
        }
    }
}

fn take_first_name(cls: &mut String, c: &Node)
    ensures
        final(cls)@ == first_name(old(cls)@, *c),
{
    if cls.as_str().unicode_len() == 0 {
        *cls = trim(c.text.as_str());
    }
}

/// Walks the repository class: it is registered as a type at its constructor
/// and enters the method table with its actions.
pub fn walk_repository_class(node: &Node, ctx: &mut Context) -> (r: Result<(), GenError>)
    ensures
        repository_class_from(*node, 0, Seq::empty(), Seq::empty(), Seq::empty(), old(ctx)@) == match r {
            Ok(_) => Ok(final(ctx)@),
            Err(e) => Err::<ContextModel, GenError>(e),
        },
{
    let mut cls = String::new();
    let mut ps: Vec<Property> = Vec::new();
    let mut ms: Vec<Method> = Vec::new();
    assert(properties_view(ps@) =~= Seq::empty());
    assert(methods_view(ms@) =~= Seq::empty());
    let mut i: usize = 0;
    while i < node.children.len()
        invariant
            0 <= i <= node.children@.len(),
            repository_class_from(*node, 0, Seq::empty(), Seq::empty(), Seq::empty(), old(ctx)@)
                == repository_class_from(*node, i as int, cls@, properties_view(ps@), methods_view(ms@), ctx@),
        decreases node.children.len() - i,
    {
        let c = &node.children[i];
        match c.rule {
            Rule::PublicKeyWord | Rule::ClassKeyWord | Rule::LeftBracers | Rule::RightBracers => {},
            Rule::Constructor => {
                ctx.types.add_type(
                    Type { name: cls.clone(), ty_name: cls.clone(), rule: Rule::Identifier, properties: copy_properties(&ps) },
                );
            },
            Rule::Properties => {
                match walk_property(c, Step::Repositories, &cls, &mut ctx.code) {
                    Ok(p) => push_property(&mut ps, p),
                    Err(e) => {
                        return Err(e);
                    },
                }
            },
            Rule::ClassName => take_first_name(&mut cls, c),
            Rule::Action => {
                match walk_action(c, Step::Repositories, &cls, &ctx.types, &ctx.class_methods, &mut ctx.code) {
                    Ok(m) => push_method(&mut ms, m),
                    Err(e) => {
                        return Err(e);
                    },
                }
            },
            _ => {
                return Err(GenError::UnexpectedNode(c.rule));
            },
        }
        i += 1;
    }
    ctx.class_methods.add_class_method(ClassMethod { class_name: cls, methods: ms });
    Ok(())
}

/// The walk of the controller class `n` from its `i`-th child on, having read
/// the class name `cls`, the properties `ps`, the methods `ms` and the
/// constructor parameters `cps` so far. At its end the class enters the method
/// table and the program entry is written.
pub open spec fn controller_class_from(
    n: Node,
    i: int,
    cls: Seq<char>,
    ps: Seq<PropertyModel>,
    ms: Seq<MethodModel>,
    cps: Seq<PropertyModel>,
    ctx: ContextModel,
) -> Result<ContextModel, GenError>
    decreases n.children@.len() - i,
{
    if i < 0 || i >= n.children@.len() {
        match entry(ctx.types, cps, ms, ctx.code) {
            Ok(code) => Ok(
                ContextModel {
                    code,
                    types: ctx.types,
                    classes: ctx.classes.push(ClassMethodModel { class_name: cls, methods: ms }),
                },
            ),
            Err(e) => Err(e),
        }
    } else {
        let c = n.children@[i];
        match c.rule {
            Rule::PublicKeyWord | Rule::ClassKeyWord | Rule::Attribute | Rule::LeftBracers
            | Rule::RightBracers => controller_class_from(n, i + 1, cls, ps, ms, cps, ctx),
            Rule::Constructor => match constructor(c, Step::Controllers, cls, ps, ctx) {
                Ok(r) => controller_class_from(n, i + 1, cls, ps, ms, r.1, r.0),
                Err(e) => Err(e),
            },
            Rule::Properties => match property_from(
                c,
                0,
                Step::Controllers,
                cls,
                None,
                Seq::empty(),
                false,
                ctx.code,
            ) {
                Ok(r) => controller_class_from(n, i + 1, cls, ps.push(r.1), ms, cps, ContextModel { code: r.0, ..ctx }),
                Err(e) => Err(e),
            },
            Rule::ClassName => controller_class_from(n, i + 1, first_name(cls, c), ps, ms, cps, ctx),
            Rule::Action => match action_from(
                c,
                0,
                Step::Controllers,
                cls,
                ctx.types,
                ctx.classes,
                Seq::empty(),
                Seq::empty(),
                Seq::empty(),
                false,
                ctx.code,
            ) {
                Ok(r) => controller_class_from(n, i + 1, cls, ps, ms.push(r.1), cps, ContextModel { code: r.0, ..ctx }),
                Err(e) => Err(e),
            },
            _ => Err(GenError::UnexpectedNode(c.rule)),
        }
    }
}

/// Walks the controller class: its handlers are written, it enters the method
/// table, and the program entry with its routes is written.
pub fn walk_controller_class(node: &Node, ctx: &mut Context) -> (r: Result<(), GenError>)
    ensures
        controller_class_from(*node, 0, Seq::empty(), Seq::empty(), Seq::empty(), Seq::empty(), old(ctx)@)
            == match r {
            Ok(_) => Ok(final(ctx)@),
            Err(e) => Err::<ContextModel, GenError>(e),
        },
{
    let mut cls = String::new();
    let mut ps: Vec<Property> = Vec::new();
    let mut ms: Vec<Method> = Vec::new();
    let mut cps: Vec<Property> = Vec::new();
    assert(properties_view(ps@) =~= Seq::empty());
    assert(properties_view(cps@) =~= Seq::empty());
    assert(methods_view(ms@) =~= Seq::empty());
    let mut i: usize = 0;
    while i < node.children.len()
        invariant
            0 <= i <= node.children@.len(),
            controller_class_from(*node, 0, Seq::empty(), Seq::empty(), Seq::empty(), Seq::empty(), old(ctx)@)
                == controller_class_from(
                *node,
                i as int,
                cls@,
                properties_view(ps@),
                methods_view(ms@),
                properties_view(cps@),
                ctx@,
            ),
        decreases node.children.len() - i,
    {
        let c = &node.children[i];
        match c.rule {
            Rule::PublicKeyWord | Rule::ClassKeyWord | Rule::Attribute | Rule::LeftBracers | Rule::RightBracers => {},
            Rule::Constructor => {
                match walk_constructor(c, Step::Controllers, &cls, &ps, ctx) {
                    Ok(r) => {
                        cps = r;
                    },
                    Err(e) => {
                        return Err(e);
                    },
                }
            },
            Rule::Properties => {
                match walk_property(c, Step::Controllers, &cls, &mut ctx.code) {
                    Ok(p) => push_property(&mut ps, p),
                    Err(e) => {
                        return Err(e);
                    },
                }
            },
            Rule::ClassName => take_first_name(&mut cls, c),
            Rule::Action => {
                match walk_action(c, Step::Controllers, &cls, &ctx.types, &ctx.class_methods, &mut ctx.code) {
                    Ok(m) => push_method(&mut ms, m),
                    Err(e) => {
                        return Err(e);
                    },
                }
            },
            _ => {
                return Err(GenError::UnexpectedNode(c.rule));
            },
        }
        i += 1;
    }
    match write_entry(&ctx.types, &cps, &ms, &mut ctx.code) {
        Ok(_) => {},
        Err(e) => {
            return Err(e);
        },
    }
    ctx.class_methods.add_class_method(ClassMethod { class_name: cls, methods: ms });
    Ok(())
}

} // verus!
