use vstd::prelude::*;

verus! {

/// The fragments of the output, by section, in the order they were added.
pub struct Code {
    pub usings: Vec<String>,
    pub types: Vec<String>,
    pub structs: Vec<String>,
    pub methods: Vec<String>,
    pub methods_parameters: Vec<String>,
}

pub ghost struct CodeModel {
    pub usings: Seq<Seq<char>>,
    pub types: Seq<Seq<char>>,
    pub structs: Seq<Seq<char>>,
    pub methods: Seq<Seq<char>>,
    pub methods_parameters: Seq<Seq<char>>,
}

pub open spec fn texts_view(v: Seq<String>) -> Seq<Seq<char>> {
    v.map_values(|s: String| s@)
}

impl View for Code {
    type V = CodeModel;

    open spec fn view(&self) -> CodeModel {
        CodeModel {
            usings: texts_view(self.usings@),
            types: texts_view(self.types@),
            structs: texts_view(self.structs@),
            methods: texts_view(self.methods@),
            methods_parameters: texts_view(self.methods_parameters@),
        }
    }
}

/// The fragments of `s` written one after the other.
pub open spec fn joined(s: Seq<Seq<char>>) -> Seq<char>
    decreases s.len(),
{
    if s.len() == 0 {
        Seq::empty()
    } else {
        joined(s.drop_last()) + s.last()
    }
}

/// The output text: imports, then type aliases, then type definitions, then
/// functions.
pub open spec fn rendered(c: CodeModel) -> Seq<char> {
    joined(c.usings) + joined(c.types) + joined(c.structs) + joined(c.methods)
}

impl CodeModel {
    pub open spec fn empty() -> CodeModel {
        CodeModel {
            usings: Seq::empty(),
            types: Seq::empty(),
            structs: Seq::empty(),
            methods: Seq::empty(),
            methods_parameters: Seq::empty(),
        }
    }

    pub open spec fn with_using(self, s: Seq<char>) -> CodeModel {
        CodeModel { usings: self.usings.push(s), ..self }
    }

    pub open spec fn with_type(self, s: Seq<char>) -> CodeModel {
        CodeModel { types: self.types.push(s), ..self }
    }

    pub open spec fn with_struct(self, s: Seq<char>) -> CodeModel {
        CodeModel { structs: self.structs.push(s), ..self }
    }

    pub open spec fn with_method(self, s: Seq<char>) -> CodeModel {
        CodeModel { methods: self.methods.push(s), ..self }
    }

    pub open spec fn with_method_parameter(self, s: Seq<char>) -> CodeModel {
        CodeModel { methods_parameters: self.methods_parameters.push(s), ..self }
    }
}

/// Appends `s` to the fragments `v`, as texts.
fn push_text(v: &mut Vec<String>, s: String)
    ensures
        texts_view(final(v)@) == texts_view(old(v)@).push(s@),
{
    let ghost t = s@;
    v.push(s);
    assert(texts_view(v@) =~= texts_view(old(v)@).push(t));
}

/// The fragments of `v` written one after the other.
fn join_all(v: &Vec<String>, out: &mut String)
    ensures
        final(out)@ == old(out)@ + joined(texts_view(v@)),
{
    let ghost tv = texts_view(v@);
    let mut i: usize = 0;
    while i < v.len()
        invariant
            0 <= i <= v@.len(),
            tv == texts_view(v@),
            out@ == old(out)@ + joined(tv.take(i as int)),
        decreases v.len() - i,
    {
        assert(tv.take(i + 1).drop_last() =~= tv.take(i as int));
        out.append(v[i].as_str());
        assert(out@ =~= old(out)@ + joined(tv.take(i + 1)));
        i += 1;
    }
    assert(tv.take(v@.len() as int) =~= tv);
}

impl Code {
    pub fn new() -> (r: Code)
        ensures
            r@ == CodeModel::empty(),
    {
        let r = Code {
            usings: Vec::new(),
            types: Vec::new(),
            structs: Vec::new(),
            methods: Vec::new(),
            methods_parameters: Vec::new(),
        };
        assert(r@.usings =~= Seq::empty());
        assert(r@.types =~= Seq::empty());
        assert(r@.structs =~= Seq::empty());
        assert(r@.methods =~= Seq::empty());
        assert(r@.methods_parameters =~= Seq::empty());
        r
    }

    /// Appends an import line.
    pub fn add_using(&mut self, value: String)
        ensures
            final(self)@ == old(self)@.with_using(value@),
    {
        push_text(&mut self.usings, value);
    }

    /// Appends a type alias.
    pub fn add_type(&mut self, value: &str)
        ensures
            final(self)@ == old(self)@.with_type(value@),
    {
        push_text(&mut self.types, String::from_str(value));
    }

    /// Appends a piece of a type definition.
    pub fn add_struct(&mut self, value: &str)
        ensures
            final(self)@ == old(self)@.with_struct(value@),
    {
        push_text(&mut self.structs, String::from_str(value));
    }

    /// Appends a piece of a function.
    pub fn add_method(&mut self, value: String)
        ensures
            final(self)@ == old(self)@.with_method(value@),
    {
        push_text(&mut self.methods, value);
    }

    /// Records a parameter that handlers of a type take.
    pub fn add_method_parameter(&mut self, value: String)
        ensures
            final(self)@ == old(self)@.with_method_parameter(value@),
    {
        push_text(&mut self.methods_parameters, value);
    }

    /// The output text: every import, then every type alias, then every piece
    /// of a type definition, then every piece of a function, each in the order
    /// it was added.
    pub fn render(&self) -> (r: String)
        ensures
            r@ == rendered(self@),
    {
        let mut out = String::new();
        join_all(&self.usings, &mut out);
        join_all(&self.types, &mut out);
        join_all(&self.structs, &mut out);
        join_all(&self.methods, &mut out);
        assert(out@ =~= rendered(self@));
        out
    }
}

} // verus!
