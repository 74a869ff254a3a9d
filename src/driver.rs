use vstd::prelude::*;
use crate::classes::{
    controller_class_from, model_class_from, repository_class_from, walk_controller_class, walk_model_class,
    walk_repository_class,
};
use crate::code::{CodeModel, rendered};
use crate::context::{Context, ContextModel, Step};
use crate::syntax::{GenError, Node, Rule};
use crate::text::{contains, occurs_in, replace, replace_of};

verus! {

/// The walk of a class in phase `step`.
pub open spec fn class_of(n: Node, step: Step, ctx: ContextModel) -> Result<ContextModel, GenError> {
    match step {
        Step::Models => model_class_from(n, 0, Seq::empty(), Seq::empty(), Seq::empty(), ctx),
        Step::Repositories => repository_class_from(n, 0, Seq::empty(), Seq::empty(), Seq::empty(), ctx),
        Step::Controllers => controller_class_from(n, 0, Seq::empty(), Seq::empty(), Seq::empty(), Seq::empty(), ctx),
    }
}

/// The walk of a namespace block `n` from its `i`-th child on.
pub open spec fn namespace_from(n: Node, i: int, step: Step, ctx: ContextModel) -> Result<ContextModel, GenError>
    decreases n.children@.len() - i,
{
    if i < 0 || i >= n.children@.len() {
        Ok(ctx)
    } else {
        let c = n.children@[i];
        match c.rule {
            Rule::ClassCode => match class_of(c, step, ctx) {
                Ok(ctx1) => namespace_from(n, i + 1, step, ctx1),
                Err(e) => Err(e),
            },
            Rule::NamespaceKeyWord | Rule::Identifier | Rule::LeftBracers | Rule::RightBracers => namespace_from(
                n,
                i + 1,
                step,
                ctx,
            ),
            _ => Err(GenError::UnexpectedNode(c.rule)),
        }
    }
}

/// Whether a using block `n` holds, from its `i`-th child on, only the parts
/// of a using directive.
pub open spec fn using_from(n: Node, i: int) -> Result<(), GenError>
    decreases n.children@.len() - i,
{
    if i < 0 || i >= n.children@.len() {
        Ok(())
    } else {
        let c = n.children@[i];
        match c.rule {
            Rule::UsingKeyWord | Rule::Identifier | Rule::Semicolon => using_from(n, i + 1),
            _ => Err(GenError::UnexpectedNode(c.rule)),
        }
    }
}

/// The walk of a source file's tree `n` from its `i`-th child on: its using
/// blocks are checked and its namespace blocks walked.
pub open spec fn file_from(n: Node, i: int, step: Step, ctx: ContextModel) -> Result<ContextModel, GenError>
    decreases n.children@.len() - i,
{
    if i < 0 || i >= n.children@.len() {
        Ok(ctx)
    } else {
        let c = n.children@[i];
        match c.rule {
            Rule::NamespaceCodeBlock => match namespace_from(c, 0, step, ctx) {
                Ok(ctx1) => file_from(n, i + 1, step, ctx1),
                Err(e) => Err(e),
            },
            Rule::UsingCodeBlock => match using_from(c, 0) {
                Ok(_) => file_from(n, i + 1, step, ctx),
                Err(e) => Err(e),
            },
            _ => Err(GenError::UnexpectedNode(c.rule)),
        }
    }
}

fn walk_class(node: &Node, step: Step, ctx: &mut Context) -> (r: Result<(), GenError>)
    ensures
        class_of(*node, step, old(ctx)@) == match r {
            Ok(_) => Ok(final(ctx)@),
            Err(e) => Err::<ContextModel, GenError>(e),
        },
{
    match step {
        Step::Models => walk_model_class(node, ctx),
        Step::Repositories => walk_repository_class(node, ctx),
        Step::Controllers => walk_controller_class(node, ctx),
    }
}

fn walk_namespace(node: &Node, step: Step, ctx: &mut Context) -> (r: Result<(), GenError>)
    ensures
        namespace_from(*node, 0, step, old(ctx)@) == match r {
            Ok(_) => Ok(final(ctx)@),
            Err(e) => Err::<ContextModel, GenError>(e),
        },
{
    let mut i: usize = 0;
    while i < node.children.len()
        invariant
            0 <= i <= node.children@.len(),
            namespace_from(*node, 0, step, old(ctx)@) == namespace_from(*node, i as int, step, ctx@),
        decreases node.children.len() - i,
    {
        let c = &node.children[i];
        match c.rule {
            Rule::ClassCode => {
                match walk_class(c, step, ctx) {
                    Ok(_) => {},
                    Err(e) => {
                        return Err(e);
                    },
                }
            },
            Rule::NamespaceKeyWord | Rule::Identifier | Rule::LeftBracers | Rule::RightBracers => {},
            _ => {
                return Err(GenError::UnexpectedNode(c.rule));
            },
        }
        i += 1;
    }
    Ok(())
}

fn check_using(node: &Node) -> (r: Result<(), GenError>)
    ensures
        r == using_from(*node, 0),
{
    let mut i: usize = 0;
    while i < node.children.len()
        invariant
            0 <= i <= node.children@.len(),
            using_from(*node, 0) == using_from(*node, i as int),
        decreases node.children.len() - i,
    {
        let c = &node.children[i];
        match c.rule {
            Rule::UsingKeyWord | Rule::Identifier | Rule::Semicolon => {},
            _ => {
                return Err(GenError::UnexpectedNode(c.rule));
            },
        }
        i += 1;
    }
    Ok(())
}

/// Walks the tree of one source file in phase `step`.
pub fn walk_file(root: &Node, step: Step, ctx: &mut Context) -> (r: Result<(), GenError>)
    ensures
        file_from(*root, 0, step, old(ctx)@) == match r {
            Ok(_) => Ok(final(ctx)@),
            Err(e) => Err::<ContextModel, GenError>(e),
        },
{
    let mut i: usize = 0;
    while i < root.children.len()
        invariant
            0 <= i <= root.children@.len(),
            file_from(*root, 0, step, old(ctx)@) == file_from(*root, i as int, step, ctx@),
        decreases root.children.len() - i,
    {
        let c = &root.children[i];
        match c.rule {
            Rule::NamespaceCodeBlock => {
                match walk_namespace(c, step, ctx) {
                    Ok(_) => {},
                    Err(e) => {
                        return Err(e);
                    },
                }
            },
            Rule::UsingCodeBlock => {
                match check_using(c) {
                    Ok(_) => {},
                    Err(e) => {
                        return Err(e);
                    },
                }
            },
            _ => {
                return Err(GenError::UnexpectedNode(c.rule));
            },
        }
        i += 1;
    }
    Ok(())
}

/// The context a run starts from: the fixed imports, and empty tables.
pub open spec fn start() -> ContextModel {
    ContextModel {
        code: CodeModel::empty().with_using("use warp::{http, Filter};\n"@).with_using(
            "use parking_lot::RwLock;\n"@,
        ).with_using("use std::collections::HashMap;\n"@).with_using("use std::sync::Arc;\n"@).with_using(
            "use serde::{Serialize, Deserialize};\n\n"@,
        ),
        types: Seq::empty(),
        classes: Seq::empty(),
    }
}

/// The models phase over the model files `ms` from the `i`-th on.
pub open spec fn models_from(ms: Seq<Node>, i: int, ctx: ContextModel) -> Result<ContextModel, GenError>
    decreases ms.len() - i,
{
    if i < 0 || i >= ms.len() {
        Ok(ctx)
    } else {
        match file_from(ms[i], 0, Step::Models, ctx) {
            Ok(ctx1) => models_from(ms, i + 1, ctx1),
            Err(e) => Err(e),
        }
    }
}

/// The output of a run over the model files `ms`, the repository file `repo`
/// and the controller file `ctrl`: the phases run in that order over one
/// context, and the output is the rendering of its fragments.
pub open spec fn generated(ms: Seq<Node>, repo: Node, ctrl: Node) -> Result<Seq<char>, GenError> {
    match models_from(ms, 0, start()) {
        Err(e) => Err(e),
        Ok(c1) => match file_from(repo, 0, Step::Repositories, c1) {
            Err(e) => Err(e),
            Ok(c2) => match file_from(ctrl, 0, Step::Controllers, c2) {
                Err(e) => Err(e),
                Ok(c3) => Ok(rendered(c3.code)),
            },
        },
    }
}

/// Whether a source text belongs to the model set: it mentions no interface.
pub fn is_model_source(text: &str) -> (r: bool)
    ensures
        r == !occurs_in("interface"@, text@),
{
    !contains(text, "interface")
}

/// The source text with every byte-order mark taken out.
pub fn strip_bom(text: &str) -> (r: String)
    ensures
        r@ == replace_of(text@, "\u{feff}"@, ""@),
{
    proof {
        reveal_strlit("\u{feff}");
    }
    replace(text, "\u{feff}", "")
}

/// The front end for the class-based source language.
pub struct CSParser;

impl CSParser {
    /// The text of the service generated from the trees of the model files,
    /// the repository file and the controller file, or the first error met.
    pub fn generate(models: &Vec<Node>, repository: &Node, controller: &Node) -> (r: Result<String, GenError>)
        ensures
            generated(models@, *repository, *controller) == match r {
                Ok(s) => Ok(s@),
                Err(e) => Err::<Seq<char>, GenError>(e),
            },
    {
        let mut ctx = Context::new();
        ctx.code.add_using(String::from_str("use warp::{http, Filter};\n"));
        ctx.code.add_using(String::from_str("use parking_lot::RwLock;\n"));
        ctx.code.add_using(String::from_str("use std::collections::HashMap;\n"));
        ctx.code.add_using(String::from_str("use std::sync::Arc;\n"));
        ctx.code.add_using(String::from_str("use serde::{Serialize, Deserialize};\n\n"));
        let mut i: usize = 0;
        while i < models.len()
            invariant
                0 <= i <= models@.len(),
                models_from(models@, 0, start()) == models_from(models@, i as int, ctx@),
            decreases models.len() - i,
        {
            match walk_file(&models[i], Step::Models, &mut ctx) {
                Ok(_) => {},
                Err(e) => {
                    return Err(e);
                },
            }
            i += 1;
        }
        match walk_file(repository, Step::Repositories, &mut ctx) {
            Ok(_) => {},
            Err(e) => {
                return Err(e);
            },
        }
        match walk_file(controller, Step::Controllers, &mut ctx) {
            Ok(_) => {},
            Err(e) => {
                return Err(e);
            },
        }
        Ok(ctx.code.render())
    }
}

} // verus!
