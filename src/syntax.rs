use vstd::prelude::*;

verus! {

/// The node categories that the grammar recognises.
#[derive(Clone, Copy, Debug, PartialEq, Eq, Structural)]
pub enum Rule {
    ModelsContents,
    ControllerContents,
    NamespaceCodeBlock,
    UsingCodeBlock,
    NamespaceKeyWord,
    UsingKeyWord,
    Identifier,
    LeftBracers,
    RightBracers,
    LeftParenthesis,
    RightParenthesis,
    Semicolon,
    ClassCode,
    ClassKeyWord,
    ClassName,
    Attribute,
    PublicKeyWord,
    PrivateKeyWord,
    StaticKeyWord,
    ReadonlyKeyWord,
    Properties,
    PropertyType,
    GetKeyWord,
    SetKeyWord,
    StringKeyWord,
    IntKeyWord,
    DecimalKeyWord,
    ListType,
    Constructor,
    ConstructorParameters,
    ConstructorParameter,
    Action,
    ActionParameters,
    ActionParameter,
    Parameters,
    Parameter,
    ActionReturnType,
    ActionAsyncReturnType,
    MethodReturnType,
    Code,
    NewInstance,
    NewKeyWord,
    MethodCall,
    AsyncMethodCall,
    PropertyCall,
    Assignment,
    ReturnKeyWord,
    VarKeyWord,
    MathExp,
    Number,
}

/// A node of a syntax tree: its category, the text it spans, and its children
/// in source order.
pub struct Node {
    pub rule: Rule,
    pub text: String,
    pub children: Vec<Node>,
}

impl Node {
    pub fn new(rule: Rule, text: String, children: Vec<Node>) -> (r: Node)
        ensures
            r.rule == rule,
            r.text == text,
            r.children == children,
    {
        Node { rule, text, children }
    }
}

/// Why a walk over a syntax tree stopped.
#[derive(Clone, Copy, Debug, PartialEq, Eq, Structural)]
pub enum GenError {
    /// A node of this category may not stand where it was found.
    UnexpectedNode(Rule),
    /// No registered type has the name looked up.
    UnknownType,
    /// The type has no property of the name looked up.
    UnknownProperty,
    /// No class of the method table has the name looked up.
    UnknownClass,
    /// The class exposes no method of the name looked up.
    UnknownMethod,
    /// No local variable of the handler has the name looked up.
    UnknownVariable,
    /// A property declaration names no type before its name.
    MissingPropertyType,
    /// A parameter is not a type followed by a name.
    MalformedParameter,
    /// A method call names no receiver.
    MalformedCall,
}

} // verus!
