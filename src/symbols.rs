use vstd::prelude::*;
use crate::syntax::Rule;

verus! {

/// A named, typed parameter of a constructor or an action.
pub struct Parameter {
    pub name: String,
    pub ty_name: String,
}

pub ghost struct ParameterModel {
    pub name: Seq<char>,
    pub ty_name: Seq<char>,
}

impl View for Parameter {
    type V = ParameterModel;

    open spec fn view(&self) -> ParameterModel {
        ParameterModel { name: self.name@, ty_name: self.ty_name@ }
    }
}

/// An exposed method: its name, the text of its return type, its parameters,
/// and whether it is flagged as an HTTP get endpoint.
pub struct Method {
    pub name: String,
    pub return_type: String,
    pub parameters: Vec<Parameter>,
    pub http_get: bool,
}

pub ghost struct MethodModel {
    pub name: Seq<char>,
    pub return_type: Seq<char>,
    pub parameters: Seq<ParameterModel>,
    pub http_get: bool,
}

pub open spec fn parameters_view(ps: Seq<Parameter>) -> Seq<ParameterModel> {
    ps.map_values(|p: Parameter| p@)
}

impl View for Method {
    type V = MethodModel;

    open spec fn view(&self) -> MethodModel {
        MethodModel {
            name: self.name@,
            return_type: self.return_type@,
            parameters: parameters_view(self.parameters@),
            http_get: self.http_get,
        }
    }
}

pub open spec fn methods_view(ms: Seq<Method>) -> Seq<MethodModel> {
    ms.map_values(|m: Method| m@)
}

/// The first method of `ms` named `name`.
pub open spec fn find_method(ms: Seq<MethodModel>, name: Seq<char>) -> Option<MethodModel>
    decreases ms.len(),
{
    if ms.len() == 0 {
        None
    } else if ms[0].name == name {
        Some(ms[0])
    } else {
        find_method(ms.drop_first(), name)
    }
}

impl Method {
    pub fn new() -> (r: Method)
        ensures
            r@ == (MethodModel {
                name: Seq::empty(),
                return_type: Seq::empty(),
                parameters: Seq::empty(),
                http_get: false,
            }),
    {
        let r = Method { name: String::new(), return_type: String::new(), parameters: Vec::new(), http_get: false };
        assert(r@.parameters =~= Seq::empty());
        r
    }
}

/// The methods that one class exposes, in declaration order.
pub struct ClassMethod {
    pub class_name: String,
    pub methods: Vec<Method>,
}

pub ghost struct ClassMethodModel {
    pub class_name: Seq<char>,
    pub methods: Seq<MethodModel>,
}

impl View for ClassMethod {
    type V = ClassMethodModel;

    open spec fn view(&self) -> ClassMethodModel {
        ClassMethodModel { class_name: self.class_name@, methods: methods_view(self.methods@) }
    }
}

impl ClassMethod {
    pub fn new() -> (r: ClassMethod)
        ensures
            r@ == (ClassMethodModel { class_name: Seq::empty(), methods: Seq::empty() }),
    {
        let r = ClassMethod { class_name: String::new(), methods: Vec::new() };
        assert(r@.methods =~= Seq::empty());
        r
    }

    /// The first method of the class named `name`, if there is one.
    pub fn get_method(&self, name: &String) -> (r: Option<&Method>)
        ensures
            r is Some == find_method(self@.methods, name@) is Some,
            r is Some ==> find_method(self@.methods, name@) == Some(r->0@),
    {
        let ghost ms = self@.methods;
        assert(ms.subrange(0, ms.len() as int) =~= ms);
        let mut i: usize = 0;
        while i < self.methods.len()
            invariant
                0 <= i <= ms.len(),
                ms == methods_view(self.methods@),
                find_method(ms, name@) == find_method(ms.subrange(i as int, ms.len() as int), name@),
            decreases self.methods.len() - i,
        {
            assert(ms.subrange(i as int, ms.len() as int).drop_first() =~= ms.subrange(
                i + 1,
                ms.len() as int,
            ));
            if self.methods[i].name == *name {
                return Some(&self.methods[i]);
            }
            i += 1;
        }
        None
    }
}

/// The method table: one entry per class, in registration order.
pub struct ClassMethods {
    pub class_methods: Vec<ClassMethod>,
}

/// The first entry of `cs` whose class is named `name`.
pub open spec fn find_class(cs: Seq<ClassMethodModel>, name: Seq<char>) -> Option<ClassMethodModel>
    decreases cs.len(),
{
    if cs.len() == 0 {
        None
    } else if cs[0].class_name == name {
        Some(cs[0])
    } else {
        find_class(cs.drop_first(), name)
    }
}

impl View for ClassMethods {
    type V = Seq<ClassMethodModel>;

    open spec fn view(&self) -> Seq<ClassMethodModel> {
        self.class_methods@.map_values(|c: ClassMethod| c@)
    }
}

impl ClassMethods {
    pub fn new() -> (r: ClassMethods)
        ensures
            r@ == Seq::<ClassMethodModel>::empty(),
    {
        let r = ClassMethods { class_methods: Vec::new() };
        assert(r@ =~= Seq::empty());
        r
    }

    /// Appends the methods of one class.
    pub fn add_class_method(&mut self, method: ClassMethod)
        ensures
            final(self)@ == old(self)@.push(method@),
    {
        let ghost m = method@;
        self.class_methods.push(method);
        assert(self@ =~= old(self)@.push(m));
    }

    /// The first entry whose class is named `class_name`, if there is one.
    pub fn get_class_method(&self, class_name: &String) -> (r: Option<&ClassMethod>)
        ensures
            r is Some == find_class(self@, class_name@) is Some,
            r is Some ==> find_class(self@, class_name@) == Some(r->0@),
    {
        let ghost cs = self@;
        assert(cs.subrange(0, cs.len() as int) =~= cs);
        let mut i: usize = 0;
        while i < self.class_methods.len()
            invariant
                0 <= i <= cs.len(),
                cs == self@,
                find_class(cs, class_name@) == find_class(cs.subrange(i as int, cs.len() as int), class_name@),
            decreases self.class_methods.len() - i,
        {
            assert(cs.subrange(i as int, cs.len() as int).drop_first() =~= cs.subrange(
                i + 1,
                cs.len() as int,
            ));
            if self.class_methods[i].class_name == *class_name {
                return Some(&self.class_methods[i]);
            }
            i += 1;
        }
        None
    }
}

/// A property of a type: its name, the name of its declared type, the category
/// of that declared type, and whether it carries the key marker.
pub struct Property {
    pub name: String,
    pub ty_name: String,
    pub rule: Rule,
    pub is_key: bool,
}

pub ghost struct PropertyModel {
    pub name: Seq<char>,
    pub ty_name: Seq<char>,
    pub rule: Rule,
    pub is_key: bool,
}

impl View for Property {
    type V = PropertyModel;

    open spec fn view(&self) -> PropertyModel {
        PropertyModel { name: self.name@, ty_name: self.ty_name@, rule: self.rule, is_key: self.is_key }
    }
}

pub open spec fn properties_view(ps: Seq<Property>) -> Seq<PropertyModel> {
    ps.map_values(|p: Property| p@)
}

/// The first property of `ps` named `name`.
pub open spec fn find_property(ps: Seq<PropertyModel>, name: Seq<char>) -> Option<PropertyModel>
    decreases ps.len(),
{
    if ps.len() == 0 {
        None
    } else if ps[0].name == name {
        Some(ps[0])
    } else {
        find_property(ps.drop_first(), name)
    }
}

/// The first property of `ps` named `name`, if there is one.
pub fn lookup_property<'a>(ps: &'a Vec<Property>, name: &String) -> (r: Option<&'a Property>)
    ensures
        r is Some == find_property(properties_view(ps@), name@) is Some,
        r is Some ==> find_property(properties_view(ps@), name@) == Some(r->0@),
{
    let ghost pv = properties_view(ps@);
    assert(pv.subrange(0, pv.len() as int) =~= pv);
    let mut i: usize = 0;
    while i < ps.len()
        invariant
            0 <= i <= pv.len(),
            pv == properties_view(ps@),
            find_property(pv, name@) == find_property(pv.subrange(i as int, pv.len() as int), name@),
        decreases ps.len() - i,
    {
        assert(pv.subrange(i as int, pv.len() as int).drop_first() =~= pv.subrange(i + 1, pv.len() as int));
        if ps[i].name == *name {
            return Some(&ps[i]);
        }
        i += 1;
    }
    None
}

impl Property {
    /// The property with no name and no type.
    pub fn new() -> (r: Property)
        ensures
            r@ == (PropertyModel { name: Seq::empty(), ty_name: Seq::empty(), rule: Rule::Identifier, is_key: false }),
    {
        Property { name: String::new(), ty_name: String::new(), rule: Rule::Identifier, is_key: false }
    }

    pub fn copy(&self) -> (r: Property)
        ensures
            r@ == self@,
    {
        Property { name: self.name.clone(), ty_name: self.ty_name.clone(), rule: self.rule, is_key: self.is_key }
    }

    pub fn same(&self, other: &Property) -> (r: bool)
        ensures
            r == (self@ == other@),
    {
        self.name == other.name && self.ty_name == other.ty_name && self.rule == other.rule
            && self.is_key == other.is_key
    }
}

/// A copy of a list of properties.
pub fn copy_properties(ps: &Vec<Property>) -> (r: Vec<Property>)
    ensures
        properties_view(r@) == properties_view(ps@),
{
    let mut r: Vec<Property> = Vec::new();
    let mut i: usize = 0;
    while i < ps.len()
        invariant
            0 <= i <= ps@.len(),
            properties_view(r@) =~= properties_view(ps@).take(i as int),
        decreases ps.len() - i,
    {
        let p = ps[i].copy();
        let ghost before = r@;
        r.push(p);
        assert(properties_view(r@) =~= properties_view(before).push(p@));
        assert(properties_view(ps@).take(i + 1) =~= properties_view(ps@).take(i as int).push(ps@[i as int]@));
        i += 1;
    }
    assert(properties_view(ps@).take(ps@.len() as int) =~= properties_view(ps@));
    r
}

/// A registered type: a model class, a repository, or a controller.
pub struct Type {
    pub name: String,
    pub ty_name: String,
    pub rule: Rule,
    pub properties: Vec<Property>,
}

pub ghost struct TypeModel {
    pub name: Seq<char>,
    pub ty_name: Seq<char>,
    pub rule: Rule,
    pub properties: Seq<PropertyModel>,
}

impl View for Type {
    type V = TypeModel;

    open spec fn view(&self) -> TypeModel {
        TypeModel {
            name: self.name@,
            ty_name: self.ty_name@,
            rule: self.rule,
            properties: properties_view(self.properties@),
        }
    }
}

impl Type {
    /// The type with no name and no properties.
    pub fn new() -> (r: Type)
        ensures
            r@ == (TypeModel { name: Seq::empty(), ty_name: Seq::empty(), rule: Rule::Identifier, properties: Seq::empty() }),
    {
        let r = Type { name: String::new(), ty_name: String::new(), rule: Rule::Identifier, properties: Vec::new() };
        assert(r@.properties =~= Seq::empty());
        r
    }

    /// The first property of the type named `name`, if there is one.
    pub fn get_type_property(&self, name: &String) -> (r: Option<&Property>)
        ensures
            r is Some == find_property(self@.properties, name@) is Some,
            r is Some ==> find_property(self@.properties, name@) == Some(r->0@),
    {
        lookup_property(&self.properties, name)
    }

    /// The properties of the type, in declaration order.
    pub fn get_type_properties(&self) -> (r: &Vec<Property>)
        ensures
            properties_view(r@) == self@.properties,
    {
        &self.properties
    }

    pub fn same(&self, other: &Type) -> (r: bool)
        ensures
            r == (self@ == other@),
    {
        if !(self.name == other.name && self.ty_name == other.ty_name && self.rule == other.rule) {
            return false;
        }
        if self.properties.len() != other.properties.len() {
            assert(self@.properties.len() != other@.properties.len());
            return false;
        }
        let mut i: usize = 0;
        while i < self.properties.len()
            invariant
                0 <= i <= self.properties@.len(),
                self.properties@.len() == other.properties@.len(),
                forall|j: int| 0 <= j < i ==> self@.properties[j] == other@.properties[j],
            decreases self.properties.len() - i,
        {
            if !self.properties[i].same(&other.properties[i]) {
                assert(self@.properties[i as int] != other@.properties[i as int]);
                return false;
            }
            i += 1;
        }
        assert(self@.properties =~= other@.properties);
        true
    }
}

/// The symbol table: registered types, without repeats, in registration order.
pub struct TypeTable {
    pub types: Vec<Type>,
}

impl View for TypeTable {
    type V = Seq<TypeModel>;

    open spec fn view(&self) -> Seq<TypeModel> {
        self.types@.map_values(|t: Type| t@)
    }
}

/// The table `ts` after registering `t`: unchanged when `t` is already there,
/// else with `t` at the end.
pub open spec fn registered(ts: Seq<TypeModel>, t: TypeModel) -> Seq<TypeModel> {
    if ts.contains(t) {
        ts
    } else {
        ts.push(t)
    }
}

/// The first type of `ts` named `name`.
pub open spec fn find_type(ts: Seq<TypeModel>, name: Seq<char>) -> Option<TypeModel>
    decreases ts.len(),
{
    if ts.len() == 0 {
        None
    } else if ts[0].name == name {
        Some(ts[0])
    } else {
        find_type(ts.drop_first(), name)
    }
}

impl TypeTable {
    pub fn new() -> (r: TypeTable)
        ensures
            r@ == Seq::<TypeModel>::empty(),
    {
        let r = TypeTable { types: Vec::new() };
        assert(r@ =~= Seq::empty());
        r
    }

    /// Registers `t` unless an equal type is already registered.
    pub fn add_type(&mut self, t: Type)
        ensures
            final(self)@ == registered(old(self)@, t@),
    {
        let ghost ts = self@;
        let mut i: usize = 0;
        while i < self.types.len()
            invariant
                0 <= i <= ts.len(),
                ts == self@,
                forall|j: int| 0 <= j < i ==> ts[j] != t@,
            decreases self.types.len() - i,
        {
            if self.types[i].same(&t) {
                assert(ts[i as int] == t@);
                return;
            }
            i += 1;
        }
        assert(!ts.contains(t@));
        let ghost tv = t@;
        self.types.push(t);
        assert(self@ =~= ts.push(tv));
    }

    /// The first registered type named `name`, if there is one.
    pub fn get_type_table(&self, name: &String) -> (r: Option<&Type>)
        ensures
            r is Some == find_type(self@, name@) is Some,
            r is Some ==> find_type(self@, name@) == Some(r->0@),
    {
        let ghost ts = self@;
        assert(ts.subrange(0, ts.len() as int) =~= ts);
        let mut i: usize = 0;
        while i < self.types.len()
            invariant
                0 <= i <= ts.len(),
                ts == self@,
                find_type(ts, name@) == find_type(ts.subrange(i as int, ts.len() as int), name@),
            decreases self.types.len() - i,
        {
            assert(ts.subrange(i as int, ts.len() as int).drop_first() =~= ts.subrange(
                i + 1,
                ts.len() as int,
            ));
            if self.types[i].name == *name {
                return Some(&self.types[i]);
            }
            i += 1;
        }
        None
    }
}

} // verus!
