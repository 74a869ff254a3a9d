use vstd::prelude::*;
use crate::actions::action_from;
use crate::bodies::{assignment_from, code_from, is_list, keyed_body_text, list_body_text, new_instance_from, reply_text};
use crate::classes::{class_type, constructor, ctor_from, derive_text, model_class_from};
use crate::code::CodeModel;
use crate::context::{ContextModel, Step};
use crate::members::{alias_text, declared_type, field_text, names_type, params_from, property_from, target_type};
use crate::symbols::ClassMethodModel;
use crate::syntax::Rule;
use crate::text::{first_occurrence, lower_of, split_of, trim_of};
use crate::driver::generated;
use crate::routes::{
    bind_text, chain_lines, entry_lines, filter_lines, filter_text, folded, route_lines, route_names, route_open_text,
    routes_text, share_text, store_lines, store_text,
};
use crate::actions::deps_from;
use crate::classes::controller_class_from;
use crate::symbols::{MethodModel, ParameterModel, PropertyModel, TypeModel, find_property, registered};
use crate::syntax::Node;

verus! {

/// A run is a function of its inputs: the same model, repository and
/// controller trees give the same output, character for character, or the same
/// error.
pub proof fn lemma_generation_is_deterministic(
    ms1: Seq<Node>,
    repo1: Node,
    ctrl1: Node,
    ms2: Seq<Node>,
    repo2: Node,
    ctrl2: Node,
)
    requires
        ms1 == ms2,
        repo1 == repo2,
        ctrl1 == ctrl2,
    ensures
        generated(ms1, repo1, ctrl1) == generated(ms2, repo2, ctrl2),
{
}

/// Registering a type that is already registered leaves the symbol table as
/// it is, in size and order; so registering a type twice is registering it once.
pub proof fn lemma_registration_is_idempotent(ts: Seq<TypeModel>, t: TypeModel)
    ensures
        ts.contains(t) ==> registered(ts, t) == ts,
        registered(registered(ts, t), t) == registered(ts, t),
        registered(ts, t).len() == if ts.contains(t) { ts.len() } else { ts.len() + 1 },
{
    if !ts.contains(t) {
        assert(ts.push(t)[ts.len() as int] == t);
        assert(ts.push(t).contains(t));
    }
}

/// The dependency-filter stages written for the fields `fs`: one per field, in
/// the order of `fs`, and nothing else.
pub proof fn lemma_filter_stages(fs: Seq<PropertyModel>, code: CodeModel)
    ensures
        filter_lines(fs, code) == (CodeModel { methods: code.methods + fs.map_values(|f: PropertyModel| filter_text(f)), ..code }),
    decreases fs.len(),
{
    if fs.len() == 0 {
        assert(code.methods + fs.map_values(|f: PropertyModel| filter_text(f)) =~= code.methods);
    } else {
        lemma_filter_stages(fs.drop_last(), code);
        assert(code.methods + fs.map_values(|f: PropertyModel| filter_text(f)) =~= (code.methods
            + fs.drop_last().map_values(|f: PropertyModel| filter_text(f))).push(filter_text(fs.last())));
    }
}

/// The route chain of a get endpoint over the dependency fields `fs`: the
/// method and path stages, then exactly one filter stage per field of `fs`, in
/// their order, then the handler binding.
pub proof fn lemma_route_chain(fs: Seq<PropertyModel>, r: Seq<char>, code: CodeModel)
    ensures
        chain_lines(fs, r, code).methods == code.methods + seq![
            route_open_text(r),
            "\n\t.and(warp::path(\"v1\"))"@,
            "\n\t.and(warp::path(\"groceries\"))"@,
            "\n\t.and(warp::path::end())"@,
        ] + fs.map_values(|f: PropertyModel| filter_text(f)) + seq![bind_text(r)],
        chain_lines(fs, r, code).methods.len() == code.methods.len() + fs.len() + 5,
{
    let c0 = code.with_method(route_open_text(r)).with_method("\n\t.and(warp::path(\"v1\"))"@).with_method(
        "\n\t.and(warp::path(\"groceries\"))"@,
    ).with_method("\n\t.and(warp::path::end())"@);
    lemma_filter_stages(fs, c0);
    assert(chain_lines(fs, r, code).methods =~= code.methods + seq![
        route_open_text(r),
        "\n\t.and(warp::path(\"v1\"))"@,
        "\n\t.and(warp::path(\"groceries\"))"@,
        "\n\t.and(warp::path::end())"@,
    ] + fs.map_values(|f: PropertyModel| filter_text(f)) + seq![bind_text(r)]);
}

/// The composite route is a left fold: a single route stands alone, and each
/// further route is joined by `or` to the fold of all that precede it, so the
/// routes keep their order.
pub proof fn lemma_route_folding(rs: Seq<Seq<char>>, r: Seq<char>)
    ensures
        folded(seq![r]) == r,
        rs.len() > 0 ==> folded(rs.push(r)) == folded(rs) + ".or("@ + r + ")"@,
{
    assert(seq![r].len() == 1);
    if rs.len() > 0 {
        assert(rs.push(r).drop_last() =~= rs);
    }
}

/// Where the parts of a plain property declaration start: after its attribute,
/// if it has one.
pub open spec fn key_offset(p: Node) -> int {
    if p.children@.len() > 0 && p.children@[0].rule == Rule::Attribute {
        1
    } else {
        0
    }
}

/// A plain property declaration: an optional attribute, `public`, a type of
/// one part, and a name.
pub open spec fn plain_property(p: Node) -> bool {
    let o = key_offset(p);
    &&& p.rule == Rule::Properties
    &&& p.children@.len() >= o + 3
    &&& p.children@[o].rule == Rule::PublicKeyWord
    &&& p.children@[o + 1].rule == Rule::PropertyType
    &&& p.children@[o + 1].children@.len() == 1
    &&& names_type(p.children@[o + 1].children@[0].rule)
    &&& p.children@[o + 2].rule == Rule::Identifier
}

/// The property carries the key marker.
pub open spec fn key_marked(p: Node) -> bool {
    key_offset(p) == 1 && p.children@[0].text@ == "[Key]"@
}

/// The declared name of a plain property.
pub open spec fn declared_name(p: Node) -> Seq<char> {
    p.children@[key_offset(p) + 2].text@
}

/// The type part of a plain property.
pub open spec fn declared_part(p: Node) -> Node {
    p.children@[key_offset(p) + 1].children@[0]
}

/// The property a plain property declaration registers.
pub open spec fn declared_property(p: Node) -> PropertyModel {
    PropertyModel {
        name: declared_name(p),
        ty_name: declared_part(p).text@,
        rule: Rule::Identifier,
        is_key: key_marked(p),
    }
}

/// The fragments of a type definition for the plain properties `ps`: each
/// one's field, in order, with its target type.
pub open spec fn field_fragments(ps: Seq<Node>) -> Seq<Seq<char>>
    decreases ps.len(),
{
    if ps.len() == 0 {
        Seq::empty()
    } else {
        seq!["   pub "@, field_text(declared_name(ps[0]), target_type(declared_part(ps[0])))] + field_fragments(
            ps.drop_first(),
        )
    }
}

/// The properties registered for the plain properties `ps`, in order.
pub open spec fn declared_properties(ps: Seq<Node>) -> Seq<PropertyModel>
    decreases ps.len(),
{
    if ps.len() == 0 {
        Seq::empty()
    } else {
        seq![declared_property(ps[0])] + declared_properties(ps.drop_first())
    }
}

/// How many of the plain properties `ps` carry the key marker.
pub open spec fn key_count(ps: Seq<Node>) -> nat
    decreases ps.len(),
{
    if ps.len() == 0 {
        0
    } else {
        (if key_marked(ps[0]) { 1nat } else { 0nat }) + key_count(ps.drop_first())
    }
}

/// The target types of the key-marked ones among the plain properties `ps`.
pub open spec fn key_types(ps: Seq<Node>) -> Seq<Seq<char>>
    decreases ps.len(),
{
    if ps.len() == 0 {
        Seq::empty()
    } else {
        (if key_marked(ps[0]) { seq![target_type(declared_part(ps[0]))] } else { Seq::empty() }) + key_types(
            ps.drop_first(),
        )
    }
}

/// The aliases written for the plain properties `ps` of class `cls`.
pub open spec fn alias_fragments(ps: Seq<Node>, cls: Seq<char>) -> Seq<Seq<char>>
    decreases ps.len(),
{
    if ps.len() == 0 {
        Seq::empty()
    } else {
        (if key_marked(ps[0]) {
            seq![alias_text(cls, target_type(declared_part(ps[0])))]
        } else {
            Seq::empty()
        }) + alias_fragments(ps.drop_first(), cls)
    }
}

/// A member of a model class as the field law reads it: a plain property, a
/// constructor, or an action.
pub open spec fn model_member(p: Node) -> bool {
    plain_property(p) || p.rule == Rule::Constructor || p.rule == Rule::Action
}

/// The properties among the members `ms`, in order.
pub open spec fn member_properties(ms: Seq<Node>) -> Seq<Node>
    decreases ms.len(),
{
    if ms.len() == 0 {
        Seq::empty()
    } else {
        (if ms[0].rule == Rule::Properties { seq![ms[0]] } else { Seq::empty() }) + member_properties(ms.drop_first())
    }
}

/// A model class of the usual shape: `public class Name {`, members that are
/// plain properties, constructors or actions, and `}`.
pub open spec fn plain_model_class(n: Node) -> bool {
    let cs = n.children@;
    &&& cs.len() >= 5
    &&& cs[0].rule == Rule::PublicKeyWord
    &&& cs[1].rule == Rule::ClassKeyWord
    &&& cs[2].rule == Rule::ClassName
    &&& cs[3].rule == Rule::LeftBracers
    &&& cs[cs.len() - 1].rule == Rule::RightBracers
    &&& forall|j: int| 4 <= j < cs.len() - 1 ==> model_member(#[trigger] cs[j])
}

/// Only the type-definition and alias sections of `b` may differ from `a`'s
/// in what the law looks at; these two are the same in both.
pub open spec fn same_sections(a: CodeModel, b: CodeModel) -> bool {
    a.structs == b.structs && a.types == b.types
}

proof fn lemma_new_instance_sections(
    n: Node,
    i: int,
    step: Step,
    is_return: bool,
    holder: Seq<char>,
    vars: Seq<PropertyModel>,
    code: CodeModel,
)
    requires
        new_instance_from(n, i, step, is_return, holder, vars, code) is Ok,
    ensures
        same_sections(new_instance_from(n, i, step, is_return, holder, vars, code)->Ok_0, code),
    decreases n.children@.len() - i,
{
    if 0 <= i < n.children@.len() {
        let c = n.children@[i];
        match c.rule {
            Rule::Parameters => {
                let v = find_property(vars, c.text@)->0;
                let body = if is_list(v.ty_name) {
                    list_body_text(holder, v.name)
                } else {
                    keyed_body_text(holder, v.name)
                };
                let code1 = if is_return { code.with_method(body) } else { code };
                lemma_new_instance_sections(n, i + 1, step, is_return, holder, vars, code1.with_method(reply_text()));
            },
            Rule::NewKeyWord | Rule::Identifier | Rule::LeftParenthesis | Rule::RightParenthesis
            | Rule::Semicolon => {
                lemma_new_instance_sections(n, i + 1, step, is_return, holder, vars, code);
            },
            _ => {},
        }
    }
}

proof fn lemma_code_sections(
    n: Node,
    i: int,
    step: Step,
    cls: Seq<char>,
    holder: Seq<char>,
    types: Seq<TypeModel>,
    classes: Seq<ClassMethodModel>,
    is_return: bool,
    vars: Seq<PropertyModel>,
    code: CodeModel,
)
    requires
        code_from(n, i, step, cls, holder, types, classes, is_return, vars, code) is Ok,
    ensures
        same_sections(code_from(n, i, step, cls, holder, types, classes, is_return, vars, code)->Ok_0, code),
    decreases n.children@.len() - i,
{
    if 0 <= i < n.children@.len() {
        let c = n.children@[i];
        match c.rule {
            Rule::NewInstance => {
                lemma_new_instance_sections(c, 0, step, is_return, holder, vars, code);
                let code1 = new_instance_from(c, 0, step, is_return, holder, vars, code)->Ok_0;
                lemma_code_sections(n, i + 1, step, cls, holder, types, classes, is_return, vars, code1);
            },
            Rule::MethodCall | Rule::AsyncMethodCall | Rule::PropertyCall | Rule::Semicolon => {
                lemma_code_sections(n, i + 1, step, cls, holder, types, classes, is_return, vars, code);
            },
            Rule::Assignment => {
                let v = assignment_from(c, 0, cls, types, classes, Seq::empty(), Seq::empty())->Ok_0;
                let vars1 = if step == Step::Controllers { vars.push(v) } else { vars };
                lemma_code_sections(n, i + 1, step, cls, holder, types, classes, is_return, vars1, code);
            },
            Rule::ReturnKeyWord => {
                lemma_code_sections(n, i + 1, step, cls, holder, types, classes, true, vars, code);
            },
            _ => {},
        }
    }
}

proof fn lemma_constructor_sections(
    n: Node,
    i: int,
    cls: Seq<char>,
    types: Seq<TypeModel>,
    classes: Seq<ClassMethodModel>,
    code: CodeModel,
    cps: Seq<PropertyModel>,
)
    requires
        ctor_from(n, i, Step::Models, cls, types, classes, code, cps) is Ok,
    ensures
        same_sections(ctor_from(n, i, Step::Models, cls, types, classes, code, cps)->Ok_0.0, code),
    decreases n.children@.len() - i,
{
    if 0 <= i < n.children@.len() {
        let c = n.children@[i];
        match c.rule {
            Rule::ConstructorParameters => {
                let r = params_from(c, 0, Step::Models, Seq::empty(), Seq::empty())->Ok_0;
                lemma_constructor_sections(n, i + 1, cls, types, classes, code, r.1);
            },
            Rule::Code => {
                lemma_code_sections(c, 0, Step::Models, cls, Seq::empty(), types, classes, false, Seq::empty(), code);
                let code1 = code_from(c, 0, Step::Models, cls, Seq::empty(), types, classes, false, Seq::empty(), code)->Ok_0;
                lemma_constructor_sections(n, i + 1, cls, types, classes, code1, cps);
            },
            Rule::PublicKeyWord | Rule::Identifier | Rule::LeftParenthesis | Rule::RightParenthesis
            | Rule::LeftBracers | Rule::RightBracers => {
                lemma_constructor_sections(n, i + 1, cls, types, classes, code, cps);
            },
            _ => {},
        }
    }
}

proof fn lemma_action_sections(
    n: Node,
    i: int,
    cls: Seq<char>,
    types: Seq<TypeModel>,
    classes: Seq<ClassMethodModel>,
    name: Seq<char>,
    ret: Seq<char>,
    ps: Seq<ParameterModel>,
    get: bool,
    code: CodeModel,
)
    requires
        action_from(n, i, Step::Models, cls, types, classes, name, ret, ps, get, code) is Ok,
    ensures
        same_sections(action_from(n, i, Step::Models, cls, types, classes, name, ret, ps, get, code)->Ok_0.0, code),
    decreases n.children@.len() - i,
{
    if 0 <= i < n.children@.len() {
        let c = n.children@[i];
        match c.rule {
            Rule::ActionParameters => {
                let r = params_from(c, 0, Step::Models, Seq::empty(), Seq::empty())->Ok_0;
                lemma_action_sections(n, i + 1, cls, types, classes, name, ret, ps + r.0, get, code);
            },
            Rule::Code => {
                lemma_code_sections(c, 0, Step::Models, cls, Seq::empty(), types, classes, false, Seq::empty(), code);
                let code1 = code_from(c, 0, Step::Models, cls, Seq::empty(), types, classes, false, Seq::empty(), code)->Ok_0;
                lemma_action_sections(n, i + 1, cls, types, classes, name, ret, ps, get, code1);
            },
            Rule::Attribute => {
                lemma_action_sections(n, i + 1, cls, types, classes, name, ret, ps, get || c.text@ == "[HttpGet]"@, code);
            },
            Rule::PublicKeyWord | Rule::LeftParenthesis | Rule::RightParenthesis | Rule::LeftBracers
            | Rule::RightBracers => {
                lemma_action_sections(n, i + 1, cls, types, classes, name, ret, ps, get, code);
            },
            Rule::ActionReturnType | Rule::ActionAsyncReturnType | Rule::MethodReturnType => {
                lemma_action_sections(n, i + 1, cls, types, classes, name, c.text@, ps, get, code);
            },
            Rule::Identifier => {
                lemma_action_sections(n, i + 1, cls, types, classes, c.text@, ret, ps, get, code);
            },
            _ => {},
        }
    }
}

proof fn lemma_plain_property(p: Node, cls: Seq<char>, code: CodeModel)
    requires
        plain_property(p),
    ensures
        property_from(p, 0, Step::Models, cls, None, Seq::empty(), false, code) == Ok::<(CodeModel, PropertyModel), crate::syntax::GenError>(
            (
                CodeModel {
                    structs: code.structs.push("   pub "@).push(
                        field_text(declared_name(p), target_type(declared_part(p))),
                    ),
                    types: if key_marked(p) {
                        code.types.push(alias_text(cls, target_type(declared_part(p))))
                    } else {
                        code.types
                    },
                    ..code
                },
                declared_property(p),
            ),
        ),
{
    let o = key_offset(p);
    let key = key_marked(p);
    let k = declared_part(p);
    let tcs = p.children@[o + 1].children@;
    assert(tcs.drop_last().len() == 0);
    assert(declared_type(tcs.drop_last()) == (Seq::<char>::empty(), None::<(Seq<char>, Rule)>));
    assert(declared_type(tcs) == (target_type(k), Some((k.text@, k.rule))));
    let c1 = code.with_struct("   pub "@);
    if o == 1 {
        assert(property_from(p, 0, Step::Models, cls, None, Seq::empty(), false, code) == property_from(
            p,
            1,
            Step::Models,
            cls,
            None,
            Seq::empty(),
            key,
            code,
        ));
    }
    assert(property_from(p, o, Step::Models, cls, None, Seq::empty(), key, code) == property_from(
        p,
        o + 1,
        Step::Models,
        cls,
        None,
        Seq::empty(),
        key,
        c1,
    ));
    assert(property_from(p, o + 1, Step::Models, cls, None, Seq::empty(), key, c1) == property_from(
        p,
        o + 2,
        Step::Models,
        cls,
        Some((k.text@, k.rule)),
        target_type(k),
        key,
        c1,
    ));
}

/// No property among the members `ms` follows a constructor.
pub open spec fn ctors_after_properties(ms: Seq<Node>) -> bool {
    forall|a: int, b: int|
        0 <= a < b < ms.len() && #[trigger] ms[a].rule == Rule::Constructor ==> #[trigger] ms[b].rule != Rule::Properties
}

proof fn lemma_no_properties(ms: Seq<Node>)
    requires
        forall|k: int| 0 <= k < ms.len() ==> #[trigger] ms[k].rule != Rule::Properties,
    ensures
        member_properties(ms) == Seq::<Node>::empty(),
    decreases ms.len(),
{
    if ms.len() > 0 {
        assert forall|k: int| 0 <= k < ms.drop_first().len() implies #[trigger] ms.drop_first()[k].rule
            != Rule::Properties by {
            assert(ms.drop_first()[k] == ms[k + 1]);
        }
        lemma_no_properties(ms.drop_first());
        assert(member_properties(ms) =~= Seq::<Node>::empty());
    }
}

proof fn lemma_model_members(
    n: Node,
    j: int,
    cls: Seq<char>,
    ps: Seq<PropertyModel>,
    ms: Seq<MethodModel>,
    ctx: ContextModel,
)
    requires
        plain_model_class(n),
        4 <= j <= n.children@.len() - 1,
        model_class_from(n, j, cls, ps, ms, ctx) is Ok,
    ensures
        ({
            let props = member_properties(n.children@.subrange(j, n.children@.len() - 1));
            let r = model_class_from(n, j, cls, ps, ms, ctx)->Ok_0;
            &&& r.code.structs == ctx.code.structs + field_fragments(props) + seq!["}\n"@]
            &&& r.code.types == ctx.code.types + alias_fragments(props, cls)
            &&& r.types.contains(class_type(cls, ps + declared_properties(props)))
            &&& ctors_after_properties(n.children@.subrange(j, n.children@.len() - 1)) ==> r.types == registered(
                ctx.types,
                class_type(cls, ps + declared_properties(props)),
            )
        }),
    decreases n.children@.len() - j,
{
    let cs = n.children@;
    let e = cs.len() - 1;
    let rest = cs.subrange(j, e);
    if j == e {
        assert(rest.len() == 0);
        let props = member_properties(rest);
        assert(props.len() == 0);
        assert(ctx.code.structs + field_fragments(props) + seq!["}\n"@] =~= ctx.code.structs.push("}\n"@));
        assert(ctx.code.types + alias_fragments(props, cls) =~= ctx.code.types);
        assert(ps + declared_properties(props) =~= ps);
        let t = class_type(cls, ps);
        let reg = registered(ctx.types, t);
        if !ctx.types.contains(t) {
            assert(reg[ctx.types.len() as int] == t);
        }
        assert(reg.contains(t));
        assert(model_class_from(n, j + 1, cls, ps, ms, ContextModel { code: ctx.code.with_struct("}\n"@), ..ctx })
            == Ok::<ContextModel, crate::syntax::GenError>(
            ContextModel {
                code: ctx.code.with_struct("}\n"@),
                types: reg,
                classes: ctx.classes.push(ClassMethodModel { class_name: cls, methods: ms }),
            },
        ));
    } else {
        let c = cs[j];
        let rest1 = cs.subrange(j + 1, e);
        assert(rest.drop_first() =~= rest1);
        assert(rest[0] == c);
        assert(model_member(c));
        let props1 = member_properties(rest1);
        if ctors_after_properties(rest) {
            assert forall|a: int, b: int|
                0 <= a < b < rest1.len() && #[trigger] rest1[a].rule == Rule::Constructor implies #[trigger] rest1[b].rule
                != Rule::Properties by {
                assert(rest1[a] == rest[a + 1] && rest1[b] == rest[b + 1]);
            }
        }
        if c.rule == Rule::Properties {
            assert(plain_property(c));
            lemma_plain_property(c, cls, ctx.code);
            let code1 = CodeModel {
                structs: ctx.code.structs.push("   pub "@).push(field_text(declared_name(c), target_type(declared_part(c)))),
                types: if key_marked(c) {
                    ctx.code.types.push(alias_text(cls, target_type(declared_part(c))))
                } else {
                    ctx.code.types
                },
                ..ctx.code
            };
            let ctx1 = ContextModel { code: code1, ..ctx };
            lemma_model_members(n, j + 1, cls, ps.push(declared_property(c)), ms, ctx1);
            assert(member_properties(rest) =~= seq![c] + props1);
            assert((seq![c] + props1).drop_first() =~= props1);
            assert(code1.structs + field_fragments(props1) + seq!["}\n"@] =~= ctx.code.structs + field_fragments(
                member_properties(rest),
            ) + seq!["}\n"@]);
            assert(code1.types + alias_fragments(props1, cls) =~= ctx.code.types + alias_fragments(
                member_properties(rest),
                cls,
            ));
            assert(ps.push(declared_property(c)) + declared_properties(props1) =~= ps + declared_properties(
                member_properties(rest),
            ));
        } else {
            assert(member_properties(rest) =~= props1);
            if c.rule == Rule::Constructor {
                let types1 = registered(ctx.types, class_type(cls, ps));
                lemma_constructor_sections(c, 0, cls, types1, ctx.classes, ctx.code, Seq::empty());
                let r = constructor(c, Step::Models, cls, ps, ctx)->Ok_0;
                assert(same_sections(r.0.code, ctx.code));
                lemma_model_members(n, j + 1, cls, ps, ms, r.0);
                if ctors_after_properties(rest) {
                    assert forall|k: int| 0 <= k < rest1.len() implies #[trigger] rest1[k].rule != Rule::Properties by {
                        assert(rest[0].rule == Rule::Constructor);
                        assert(rest1[k] == rest[k + 1]);
                    }
                    lemma_no_properties(rest1);
                    assert(ps + declared_properties(props1) =~= ps);
                    lemma_registration_is_idempotent(ctx.types, class_type(cls, ps));
                }
            } else {
                lemma_action_sections(c, 0, cls, ctx.types, ctx.classes, Seq::empty(), Seq::empty(), Seq::empty(), false, ctx.code);
                let r = action_from(
                    c,
                    0,
                    Step::Models,
                    cls,
                    ctx.types,
                    ctx.classes,
                    Seq::empty(),
                    Seq::empty(),
                    Seq::empty(),
                    false,
                    ctx.code,
                )->Ok_0;
                lemma_model_members(n, j + 1, cls, ps, ms.push(r.1), ContextModel { code: r.0, ..ctx });
            }
        }
    }
}

/// When a model class of the usual shape is walked without error, its type
/// definition holds every declared property exactly once, in declaration
/// order, each with its target type (integer as `i32`, text as `String`,
/// decimal as `f64`); one keyed-collection alias of the class is written per
/// key-marked property; and the class is registered with those properties, in
/// that order. Where no property follows a constructor, the registrations at
/// the constructors and at the end of the class are one and the same: the
/// symbol table gains that one type, or stays as it was if it held it.
pub proof fn lemma_model_class_fields(n: Node, ctx: ContextModel)
    requires
        plain_model_class(n),
        model_class_from(n, 0, Seq::empty(), Seq::empty(), Seq::empty(), ctx) is Ok,
    ensures
        ({
            let cs = n.children@;
            let cls = trim_of(cs[2].text@);
            let props = member_properties(cs.subrange(4, cs.len() - 1));
            let r = model_class_from(n, 0, Seq::empty(), Seq::empty(), Seq::empty(), ctx)->Ok_0;
            &&& r.code.structs == ctx.code.structs + seq![derive_text(), "pub "@, "struct "@, cls, "\n{\n"@]
                + field_fragments(props) + seq!["}\n"@]
            &&& r.code.types == ctx.code.types + alias_fragments(props, cls)
            &&& r.types.contains(class_type(cls, declared_properties(props)))
            &&& ctors_after_properties(cs.subrange(4, cs.len() - 1)) ==> r.types == registered(
                ctx.types,
                class_type(cls, declared_properties(props)),
            )
        }),
{
    let cs = n.children@;
    let cls = trim_of(cs[2].text@);
    let e: Seq<char> = Seq::empty();
    let c1 = ContextModel { code: ctx.code.with_struct(derive_text()).with_struct("pub "@), ..ctx };
    let c2 = ContextModel { code: c1.code.with_struct("struct "@), ..ctx };
    let c3 = ContextModel { code: c2.code.with_struct(cls), ..ctx };
    let c4 = ContextModel { code: c3.code.with_struct("\n{\n"@), ..ctx };
    assert(model_class_from(n, 0, e, Seq::empty(), Seq::empty(), ctx) == model_class_from(n, 1, e, Seq::empty(), Seq::empty(), c1));
    assert(model_class_from(n, 1, e, Seq::empty(), Seq::empty(), c1) == model_class_from(n, 2, e, Seq::empty(), Seq::empty(), c2));
    assert(model_class_from(n, 2, e, Seq::empty(), Seq::empty(), c2) == model_class_from(n, 3, cls, Seq::empty(), Seq::empty(), c3));
    assert(model_class_from(n, 3, cls, Seq::empty(), Seq::empty(), c3) == model_class_from(n, 4, cls, Seq::empty(), Seq::empty(), c4));
    lemma_model_members(n, 4, cls, Seq::empty(), Seq::empty(), c4);
    let props = member_properties(cs.subrange(4, cs.len() - 1));
    assert(c4.code.structs =~= ctx.code.structs + seq![derive_text(), "pub "@, "struct "@, cls, "\n{\n"@]);
    assert(Seq::<PropertyModel>::empty() + declared_properties(props) =~= declared_properties(props));
}

/// The aliases of a class are one per key-marked property, each naming the
/// class and keyed by that property's target type: a class with exactly one
/// key-marked property gets exactly one alias, and a class with none gets none.
pub proof fn lemma_key_marker_aliases(ps: Seq<Node>, cls: Seq<char>)
    ensures
        key_types(ps).len() == key_count(ps),
        alias_fragments(ps, cls) == key_types(ps).map_values(|t: Seq<char>| alias_text(cls, t)),
        key_count(ps) == 1 ==> alias_fragments(ps, cls) == seq![alias_text(cls, key_types(ps)[0])],
        key_count(ps) == 0 ==> alias_fragments(ps, cls) == Seq::<Seq<char>>::empty(),
    decreases ps.len(),
{
    if ps.len() > 0 {
        lemma_key_marker_aliases(ps.drop_first(), cls);
        let kt = key_types(ps.drop_first());
        if key_marked(ps[0]) {
            let t = target_type(declared_part(ps[0]));
            assert(key_types(ps) == seq![t] + kt);
            assert((seq![t] + kt).map_values(|t: Seq<char>| alias_text(cls, t)) =~= seq![alias_text(cls, t)]
                + kt.map_values(|t: Seq<char>| alias_text(cls, t)));
        } else {
            assert(key_types(ps) =~= kt);
            assert(alias_fragments(ps, cls) =~= alias_fragments(ps.drop_first(), cls));
        }
        if key_count(ps) == 1 {
            assert(alias_fragments(ps, cls) =~= seq![alias_text(cls, key_types(ps)[0])]);
        }
        if key_count(ps) == 0 {
            assert(alias_fragments(ps, cls) =~= Seq::<Seq<char>>::empty());
        }
    } else {
        assert(key_types(ps) =~= Seq::<Seq<char>>::empty());
        assert(alias_fragments(ps, cls) =~= Seq::<Seq<char>>::empty());
        assert(key_types(ps).map_values(|t: Seq<char>| alias_text(cls, t)) =~= Seq::<Seq<char>>::empty());
    }
}

/// The statements that create and share the stores of the fields `fs`, in order.
pub open spec fn store_fragments(fs: Seq<PropertyModel>) -> Seq<Seq<char>>
    decreases fs.len(),
{
    if fs.len() == 0 {
        Seq::empty()
    } else {
        store_fragments(fs.drop_last()) + seq![store_text(fs.last()), share_text(fs.last())]
    }
}

/// The route chain of route `r` over the dependency fields `fs`: method and
/// path stages, one filter stage per field in order, and the handler binding.
pub open spec fn chain_fragments(fs: Seq<PropertyModel>, r: Seq<char>) -> Seq<Seq<char>> {
    seq![
        route_open_text(r),
        "\n\t.and(warp::path(\"v1\"))"@,
        "\n\t.and(warp::path(\"groceries\"))"@,
        "\n\t.and(warp::path::end())"@,
    ] + fs.map_values(|f: PropertyModel| filter_text(f)) + seq![bind_text(r)]
}

/// The route chains of the routes `rs`, one after the other.
pub open spec fn route_fragments(fs: Seq<PropertyModel>, rs: Seq<Seq<char>>) -> Seq<Seq<char>>
    decreases rs.len(),
{
    if rs.len() == 0 {
        Seq::empty()
    } else {
        route_fragments(fs, rs.drop_last()) + chain_fragments(fs, rs.last())
    }
}

/// The binding of the composite route, present when there is a route.
pub open spec fn composite_fragments(rs: Seq<Seq<char>>) -> Seq<Seq<char>> {
    if rs.len() > 0 {
        seq![routes_text(rs)]
    } else {
        Seq::empty()
    }
}

proof fn lemma_store_lines(fs: Seq<PropertyModel>, code: CodeModel)
    ensures
        store_lines(fs, code) == (CodeModel { methods: code.methods + store_fragments(fs), ..code }),
    decreases fs.len(),
{
    if fs.len() == 0 {
        assert(code.methods + store_fragments(fs) =~= code.methods);
    } else {
        lemma_store_lines(fs.drop_last(), code);
        assert(code.methods + store_fragments(fs) =~= (code.methods + store_fragments(fs.drop_last())).push(
            store_text(fs.last()),
        ).push(share_text(fs.last())));
    }
}

proof fn lemma_route_lines(fs: Seq<PropertyModel>, ms: Seq<MethodModel>, code: CodeModel)
    ensures
        route_lines(fs, ms, code) == (CodeModel { methods: code.methods + route_fragments(fs, route_names(ms)), ..code }),
    decreases ms.len(),
{
    if ms.len() == 0 {
        assert(code.methods + route_fragments(fs, route_names(ms)) =~= code.methods);
    } else {
        lemma_route_lines(fs, ms.drop_last(), code);
        let prev = route_lines(fs, ms.drop_last(), code);
        if ms.last().http_get {
            let r = lower_of(ms.last().name);
            lemma_route_chain(fs, r, prev);
            let c0 = prev.with_method(route_open_text(r)).with_method("\n\t.and(warp::path(\"v1\"))"@).with_method(
                "\n\t.and(warp::path(\"groceries\"))"@,
            ).with_method("\n\t.and(warp::path::end())"@);
            lemma_filter_stages(fs, c0);
            assert(chain_lines(fs, r, prev).methods =~= prev.methods + chain_fragments(fs, r));
            assert(route_names(ms).drop_last() =~= route_names(ms.drop_last()));
            assert(code.methods + route_fragments(fs, route_names(ms)) =~= prev.methods + chain_fragments(fs, r));
            assert(chain_lines(fs, r, prev) == CodeModel { methods: prev.methods + chain_fragments(fs, r), ..prev });
        }
    }
}

/// The program entry over the dependency fields `fs` and the controller's
/// methods `ms`: the entry point's opening; a store per field; for each get
/// endpoint, in discovery order, a route chain with exactly one filter stage
/// per field, in the order of the fields; one binding of the composite route,
/// the left fold of those routes; and the service start-up.
pub proof fn lemma_entry_layout(fs: Seq<PropertyModel>, ms: Seq<MethodModel>, code: CodeModel)
    ensures
        entry_lines(fs, ms, code) == (CodeModel {
            methods: code.methods + seq!["\n#[tokio::main]\n"@, "async fn main() {"@] + store_fragments(fs)
                + route_fragments(fs, route_names(ms)) + composite_fragments(route_names(ms)) + seq![
                "\n\n\twarp::serve(routes)"@,
                "\n\t\t.run(([127, 0, 0, 1], 3030))"@,
                "\n\t\t.await;"@,
                "\n}"@,
            ],
            ..code
        }),
{
    let c0 = code.with_method("\n#[tokio::main]\n"@).with_method("async fn main() {"@);
    lemma_store_lines(fs, c0);
    let c1 = store_lines(fs, c0);
    lemma_route_lines(fs, ms, c1);
    let rs = route_names(ms);
    let c2 = route_lines(fs, ms, c1);
    let c3 = if rs.len() > 0 { c2.with_method(routes_text(rs)) } else { c2 };
    assert(c3.methods =~= code.methods + seq!["\n#[tokio::main]\n"@, "async fn main() {"@] + store_fragments(fs)
        + route_fragments(fs, rs) + composite_fragments(rs));
    assert(entry_lines(fs, ms, code).methods =~= code.methods + seq!["\n#[tokio::main]\n"@, "async fn main() {"@]
        + store_fragments(fs) + route_fragments(fs, rs) + composite_fragments(rs) + seq![
        "\n\n\twarp::serve(routes)"@,
        "\n\t\t.run(([127, 0, 0, 1], 3030))"@,
        "\n\t\t.await;"@,
        "\n}"@,
    ]);
}

/// Every controller class walked without error ends its output with the
/// program entry for the methods it entered in the method table, over the
/// fields that its constructor's dependencies resolve to; so the layout of
/// `lemma_entry_layout` holds of every controller walk.
pub proof fn lemma_controller_entry(
    n: Node,
    i: int,
    cls: Seq<char>,
    ps: Seq<PropertyModel>,
    ms: Seq<MethodModel>,
    cps: Seq<PropertyModel>,
    ctx: ContextModel,
)
    requires
        controller_class_from(n, i, cls, ps, ms, cps, ctx) is Ok,
    ensures
        ({
            let r = controller_class_from(n, i, cls, ps, ms, cps, ctx)->Ok_0;
            &&& r.classes.len() > 0
            &&& exists|fs: Seq<PropertyModel>, deps: Seq<PropertyModel>, code0: CodeModel|
                #![trigger deps_from(r.types, deps, 0, Seq::empty()), entry_lines(fs, r.classes.last().methods, code0)]
                deps_from(r.types, deps, 0, Seq::empty()) == Ok::<Seq<PropertyModel>, crate::syntax::GenError>(fs)
                    && r.code == entry_lines(fs, r.classes.last().methods, code0)
        }),
    decreases n.children@.len() - i,
{
    if i < 0 || i >= n.children@.len() {
        let fs = deps_from(ctx.types, cps, 0, Seq::empty())->Ok_0;
        let r = controller_class_from(n, i, cls, ps, ms, cps, ctx)->Ok_0;
        assert(r.classes.last() == ClassMethodModel { class_name: cls, methods: ms });
        assert(r.code == entry_lines(fs, r.classes.last().methods, ctx.code));
        assert(deps_from(r.types, cps, 0, Seq::empty()) == Ok::<Seq<PropertyModel>, crate::syntax::GenError>(fs));
    } else {
        let c = n.children@[i];
        match c.rule {
            Rule::PublicKeyWord | Rule::ClassKeyWord | Rule::Attribute | Rule::LeftBracers | Rule::RightBracers => {
                lemma_controller_entry(n, i + 1, cls, ps, ms, cps, ctx);
            },
            Rule::Constructor => {
                let r = constructor(c, Step::Controllers, cls, ps, ctx)->Ok_0;
                lemma_controller_entry(n, i + 1, cls, ps, ms, r.1, r.0);
            },
            Rule::Properties => {
                let r = property_from(c, 0, Step::Controllers, cls, None, Seq::empty(), false, ctx.code)->Ok_0;
                lemma_controller_entry(n, i + 1, cls, ps.push(r.1), ms, cps, ContextModel { code: r.0, ..ctx });
            },
            Rule::ClassName => {
                lemma_controller_entry(n, i + 1, crate::classes::first_name(cls, c), ps, ms, cps, ctx);
            },
            Rule::Action => {
                let r = action_from(
                    c,
                    0,
                    Step::Controllers,
                    cls,
                    ctx.types,
                    ctx.classes,
                    Seq::empty(),
                    Seq::empty(),
                    Seq::empty(),
                    false,
                    ctx.code,
                )->Ok_0;
                lemma_controller_entry(n, i + 1, cls, ps, ms.push(r.1), cps, ContextModel { code: r.0, ..ctx });
            },
            _ => {},
        }
    }
}

proof fn lemma_no_space_from(s: Seq<char>, i: int)
    requires
        0 <= i,
        forall|k: int| i <= k < s.len() ==> s[k] != ' ',
    ensures
        first_occurrence(s, seq![' '], i) == -1,
    decreases s.len() - i,
{
    if i + 1 <= s.len() {
        assert(s.subrange(i, i + 1)[0] == s[i]);
        if i + 1 < s.len() {
            lemma_no_space_from(s, i + 1);
        }
    }
}

proof fn lemma_first_space(s: Seq<char>, i: int, j: int)
    requires
        0 <= i <= j < s.len(),
        s[j] == ' ',
        forall|k: int| i <= k < j ==> s[k] != ' ',
    ensures
        first_occurrence(s, seq![' '], i) == j,
    decreases j - i,
{
    if i < j {
        assert(s.subrange(i, i + 1)[0] == s[i]);
        assert(s.subrange(i, i + 1) != seq![' ']);
        lemma_first_space(s, i + 1, j);
    } else {
        assert(s.subrange(j, j + 1) =~= seq![' ']);
    }
}

/// An action parameter written `T x`, a type and a name without spaces joined
/// by one space, splits into exactly those two pieces: the parameter `x` of
/// type `T`.
pub proof fn lemma_parameter_split(t: Seq<char>, x: Seq<char>)
    requires
        forall|k: int| 0 <= k < t.len() ==> t[k] != ' ',
        forall|k: int| 0 <= k < x.len() ==> x[k] != ' ',
    ensures
        split_of(t + " "@ + x, " "@) == seq![t, x],
{
    reveal_strlit(" ");
    let sp = seq![' '];
    assert(" "@ =~= sp);
    let s = t + sp + x;
    lemma_first_space(s, 0, t.len() as int);
    assert(s.subrange(0, t.len() as int) =~= t);
    assert(s.subrange(t.len() as int + 1, s.len() as int) =~= x);
    lemma_no_space_from(x, 0);
    assert(split_of(x, sp) == seq![x]);
    assert(split_of(s, sp) =~= seq![t, x]);
}

} // verus!
