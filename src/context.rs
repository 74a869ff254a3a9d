use vstd::prelude::*;
use crate::code::{Code, CodeModel};
use crate::symbols::{ClassMethodModel, ClassMethods, TypeModel, TypeTable};

verus! {

/// The phase of a run: models first, then the repository, then the controller.
#[derive(Clone, Copy, Debug, PartialEq, Eq, Structural)]
pub enum Step {
    Models,
    Repositories,
    Controllers,
}

/// What a run carries from one phase to the next: the symbol table, the method
/// table and the output fragments.
pub struct Context {
    pub code: Code,
    pub types: TypeTable,
    pub class_methods: ClassMethods,
}

pub ghost struct ContextModel {
    pub code: CodeModel,
    pub types: Seq<TypeModel>,
    pub classes: Seq<ClassMethodModel>,
}

impl View for Context {
    type V = ContextModel;

    open spec fn view(&self) -> ContextModel {
        ContextModel { code: self.code@, types: self.types@, classes: self.class_methods@ }
    }
}

impl Context {
    pub fn new() -> (r: Context)
        ensures
            r@ == (ContextModel { code: CodeModel::empty(), types: Seq::empty(), classes: Seq::empty() }),
    {
        Context { code: Code::new(), types: TypeTable::new(), class_methods: ClassMethods::new() }
    }
}

} // verus!
