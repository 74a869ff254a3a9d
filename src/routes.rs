use vstd::prelude::*;
use crate::actions::{dependency_fields, deps_from};
use crate::code::{Code, CodeModel};
use crate::symbols::{Method, MethodModel, Property, PropertyModel, TypeTable, methods_view, properties_view};
use crate::syntax::GenError;
use crate::text::{concat3, lower_of, lowercase};

verus! {

/// The name of the filter that hands the store of field `f` to a handler.
pub open spec fn filter_name(f: PropertyModel) -> Seq<char> {
    f.name + "_"@ + lower_of(f.ty_name)
}

/// The statement that creates the store of field `f`.
pub open spec fn store_text(f: PropertyModel) -> Seq<char> {
    "\n\tlet "@ + f.name + " = "@ + f.ty_name + "::new();"@
}

/// The statement that wraps the store of field `f` for shared access.
pub open spec fn share_text(f: PropertyModel) -> Seq<char> {
    "\n\tlet "@ + filter_name(f) + " = warp::any().map(move || "@ + f.name + ".clone());"@
}

/// The dependency-filter stage of a route for field `f`.
pub open spec fn filter_text(f: PropertyModel) -> Seq<char> {
    "\n\t.and("@ + filter_name(f) + ".clone())"@
}

/// The opening of route `r`.
pub open spec fn route_open_text(r: Seq<char>) -> Seq<char> {
    "\n\n\tlet "@ + r + " = warp::get()"@
}

/// The stage that binds route `r` to its handler.
pub open spec fn bind_text(r: Seq<char>) -> Seq<char> {
    "\n\t.and_then("@ + r + ");"@
}

/// The routes `rs` folded left into one: the first alone, each later one
/// joined to what precedes it by `or`.
pub open spec fn folded(rs: Seq<Seq<char>>) -> Seq<char>
    decreases rs.len(),
{
    if rs.len() == 0 {
        Seq::empty()
    } else if rs.len() == 1 {
        rs[0]
    } else {
        folded(rs.drop_last()) + ".or("@ + rs.last() + ")"@
    }
}

/// The statement that names the composite route.
pub open spec fn routes_text(rs: Seq<Seq<char>>) -> Seq<char> {
    "\n\n\tlet routes = "@ + folded(rs) + ";"@
}

/// `code` with the creation and sharing of each store of `fs` added.
pub open spec fn store_lines(fs: Seq<PropertyModel>, code: CodeModel) -> CodeModel
    decreases fs.len(),
{
    if fs.len() == 0 {
        code
    } else {
        store_lines(fs.drop_last(), code).with_method(store_text(fs.last())).with_method(share_text(fs.last()))
    }
}

/// `code` with one dependency-filter stage for each field of `fs`, in order.
pub open spec fn filter_lines(fs: Seq<PropertyModel>, code: CodeModel) -> CodeModel
    decreases fs.len(),
{
    if fs.len() == 0 {
        code
    } else {
        filter_lines(fs.drop_last(), code).with_method(filter_text(fs.last()))
    }
}

/// `code` with the route chain of route `r` added: the method and path
/// stages, one filter stage per field of `fs`, and the handler binding.
pub open spec fn chain_lines(fs: Seq<PropertyModel>, r: Seq<char>, code: CodeModel) -> CodeModel {
    filter_lines(
        fs,
        code.with_method(route_open_text(r)).with_method("\n\t.and(warp::path(\"v1\"))"@).with_method(
            "\n\t.and(warp::path(\"groceries\"))"@,
        ).with_method("\n\t.and(warp::path::end())"@),
    ).with_method(bind_text(r))
}

/// The routes of the get endpoints among `ms`: their lower-case names, in order.
pub open spec fn route_names(ms: Seq<MethodModel>) -> Seq<Seq<char>>
    decreases ms.len(),
{
    if ms.len() == 0 {
        Seq::empty()
    } else if ms.last().http_get {
        route_names(ms.drop_last()).push(lower_of(ms.last().name))
    } else {
        route_names(ms.drop_last())
    }
}

/// `code` with the route chain of each get endpoint among `ms` added, in order.
pub open spec fn route_lines(fs: Seq<PropertyModel>, ms: Seq<MethodModel>, code: CodeModel) -> CodeModel
    decreases ms.len(),
{
    if ms.len() == 0 {
        code
    } else if ms.last().http_get {
        chain_lines(fs, lower_of(ms.last().name), route_lines(fs, ms.drop_last(), code))
    } else {
        route_lines(fs, ms.drop_last(), code)
    }
}

/// `code` with the program entry added, for dependency fields `fs` and the
/// controller's actions `ms`.
pub open spec fn entry_lines(fs: Seq<PropertyModel>, ms: Seq<MethodModel>, code: CodeModel) -> CodeModel {
    let c1 = store_lines(fs, code.with_method("\n#[tokio::main]\n"@).with_method("async fn main() {"@));
    let c2 = route_lines(fs, ms, c1);
    let rs = route_names(ms);
    let c3 = if rs.len() > 0 { c2.with_method(routes_text(rs)) } else { c2 };
    c3.with_method("\n\n\twarp::serve(routes)"@).with_method("\n\t\t.run(([127, 0, 0, 1], 3030))"@).with_method(
        "\n\t\t.await;"@,
    ).with_method("\n}"@)
}

/// The program entry for the constructor dependencies `cps` of a controller
/// whose actions are `ms`.
pub open spec fn entry(
    types: Seq<crate::symbols::TypeModel>,
    cps: Seq<PropertyModel>,
    ms: Seq<MethodModel>,
    code: CodeModel,
) -> Result<CodeModel, GenError> {
    match deps_from(types, cps, 0, Seq::empty()) {
        Ok(fs) => Ok(entry_lines(fs, ms, code)),
        Err(e) => Err(e),
    }
}

fn filter_name_of(f: &Property) -> (r: String)
    ensures
        r@ == filter_name(f@),
{
    let lower = lowercase(f.ty_name.as_str());
    concat3(f.name.as_str(), "_", lower.as_str())
}

fn write_stores(fs: &Vec<Property>, code: &mut Code)
    ensures
        final(code)@ == store_lines(properties_view(fs@), old(code)@),
{
    let ghost fv = properties_view(fs@);
    let mut j: usize = 0;
    assert(fv.take(0) =~= Seq::<PropertyModel>::empty());
    while j < fs.len()
        invariant
            0 <= j <= fv.len(),
            fv == properties_view(fs@),
            code@ == store_lines(fv.take(j as int), old(code)@),
        decreases fs.len() - j,
    {
        assert(fv.take(j + 1).drop_last() =~= fv.take(j as int));
        let f = &fs[j];
        let mut store = concat3("\n\tlet ", f.name.as_str(), " = ");
        store.append(f.ty_name.as_str());
        store.append("::new();");
        code.add_method(store);
        let fname = filter_name_of(f);
        let mut share = concat3("\n\tlet ", fname.as_str(), " = warp::any().map(move || ");
        share.append(f.name.as_str());
        share.append(".clone());");
        code.add_method(share);
        j += 1;
    }
    assert(fv.take(fv.len() as int) =~= fv);
}

fn write_filters(fs: &Vec<Property>, code: &mut Code)
    ensures
        final(code)@ == filter_lines(properties_view(fs@), old(code)@),
{
    let ghost fv = properties_view(fs@);
    let mut j: usize = 0;
    assert(fv.take(0) =~= Seq::<PropertyModel>::empty());
    while j < fs.len()
        invariant
            0 <= j <= fv.len(),
            fv == properties_view(fs@),
            code@ == filter_lines(fv.take(j as int), old(code)@),
        decreases fs.len() - j,
    {
        assert(fv.take(j + 1).drop_last() =~= fv.take(j as int));
        let fname = filter_name_of(&fs[j]);
        code.add_method(concat3("\n\t.and(", fname.as_str(), ".clone())"));
        j += 1;
    }
    assert(fv.take(fv.len() as int) =~= fv);
}

/// Writes the route chain of each get endpoint among `ms`; returns the routes.
fn write_routes(fs: &Vec<Property>, ms: &Vec<Method>, code: &mut Code) -> (r: Vec<String>)
    ensures
        final(code)@ == route_lines(properties_view(fs@), methods_view(ms@), old(code)@),
        r@.map_values(|s: String| s@) == route_names(methods_view(ms@)),
{
    let ghost fv = properties_view(fs@);
    let ghost mv = methods_view(ms@);
    let mut routes: Vec<String> = Vec::new();
    let mut j: usize = 0;
    assert(mv.take(0) =~= Seq::<MethodModel>::empty());
    assert(routes@.map_values(|s: String| s@) =~= Seq::<Seq<char>>::empty());
    while j < ms.len()
        invariant
            0 <= j <= mv.len(),
            fv == properties_view(fs@),
            mv == methods_view(ms@),
            code@ == route_lines(fv, mv.take(j as int), old(code)@),
            routes@.map_values(|s: String| s@) == route_names(mv.take(j as int)),
        decreases ms.len() - j,
    {
        assert(mv.take(j + 1).drop_last() =~= mv.take(j as int));
        assert(mv.take(j + 1).last() == ms@[j as int]@);
        if ms[j].http_get {
            let r = lowercase(ms[j].name.as_str());
            code.add_method(concat3("\n\n\tlet ", r.as_str(), " = warp::get()"));
            code.add_method(String::from_str("\n\t.and(warp::path(\"v1\"))"));
            code.add_method(String::from_str("\n\t.and(warp::path(\"groceries\"))"));
            code.add_method(String::from_str("\n\t.and(warp::path::end())"));
            write_filters(fs, code);
            code.add_method(concat3("\n\t.and_then(", r.as_str(), ");"));
            let ghost before = routes@;
            let ghost rv = r@;
            routes.push(r);
            assert(routes@.map_values(|s: String| s@) =~= before.map_values(|s: String| s@).push(rv));
        }
        j += 1;
    }
    assert(mv.take(mv.len() as int) =~= mv);
    routes
}

/// The routes `rs` folded left into one composite route.
pub fn fold_routes(rs: &Vec<String>) -> (r: String)
    ensures
        r@ == folded(rs@.map_values(|s: String| s@)),
{
    let ghost rv = rs@.map_values(|s: String| s@);
    let mut acc = String::new();
    let mut j: usize = 0;
    assert(rv.take(0) =~= Seq::<Seq<char>>::empty());
    while j < rs.len()
        invariant
            0 <= j <= rv.len(),
            rv == rs@.map_values(|s: String| s@),
            acc@ == folded(rv.take(j as int)),
        decreases rs.len() - j,
    {
        assert(rv.take(j + 1).drop_last() =~= rv.take(j as int));
        if j == 0 {
            acc = rs[j].clone();
        } else {
            acc.append(".or(");
            acc.append(rs[j].as_str());
            acc.append(")");
        }
        j += 1;
    }
    assert(rv.take(rv.len() as int) =~= rv);
    acc
}

/// Writes the program entry: a store per dependency field, a route chain per
/// get endpoint, the composite route, and the service start-up.
pub fn write_entry(types: &TypeTable, cps: &Vec<Property>, ms: &Vec<Method>, code: &mut Code) -> (r: Result<
    (),
    GenError,
>)
    ensures
        entry(types@, properties_view(cps@), methods_view(ms@), old(code)@) == match r {
            Ok(_) => Ok(final(code)@),
            Err(e) => Err::<CodeModel, GenError>(e),
        },
{
    let fs = match dependency_fields(types, cps) {
        Ok(fs) => fs,
        Err(e) => {
            return Err(e);
        },
    };
    code.add_method(String::from_str("\n#[tokio::main]\n"));
    code.add_method(String::from_str("async fn main() {"));
    write_stores(&fs, code);
    let routes = write_routes(&fs, ms, code);
    if routes.len() > 0 {
        let composite = fold_routes(&routes);
        code.add_method(concat3("\n\n\tlet routes = ", composite.as_str(), ";"));
    }
    code.add_method(String::from_str("\n\n\twarp::serve(routes)"));
    code.add_method(String::from_str("\n\t\t.run(([127, 0, 0, 1], 3030))"));
    code.add_method(String::from_str("\n\t\t.await;"));
    code.add_method(String::from_str("\n}"));
    Ok(())
}

} // verus!
