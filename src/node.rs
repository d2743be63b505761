//! The declaration tree as the frontend hands it over: each node with its
//! kind, the data that the builder reads from it, and its children in source
//! order.
use vstd::prelude::*;

use crate::ir::UnexposedMacro;

verus! {

/// The kinds of node that the builder tells apart.
#[derive(Debug, Clone, Copy, PartialEq, Eq, Structural)]
pub enum NodeKind {
    ObjCInterfaceDecl,
    ObjCCategoryDecl,
    ObjCProtocolDecl,
    TypedefDecl,
    StructDecl,
    EnumDecl,
    VarDecl,
    FunctionDecl,
    UnionDecl,
    ObjCClassRef,
    ObjCProtocolRef,
    ObjCExplicitProtocolImpl,
    ObjCIvarDecl,
    ObjCSuperClassRef,
    ObjCRootClass,
    TemplateTypeParameter,
    ObjCInstanceMethodDecl,
    ObjCClassMethodDecl,
    ObjCPropertyDecl,
    VisibilityAttr,
    TypeRef,
    ObjCException,
    UnexposedAttr,
    FieldDecl,
    ObjCBoxable,
    ParmDecl,
    EnumConstantDecl,
    FlagEnum,
    /// Any expression.
    Expression,
    /// Any other kind.
    Other,
}

/// What the type model made of a node's type.
#[derive(Debug, Clone, PartialEq, Eq)]
pub enum TypeInfo {
    /// The node has no type.
    Missing,
    /// The node has a type that bindings cannot express.
    Unrepresentable,
    /// The type as binding text.
    Rendered(String),
}

/// One node of the declaration tree.
#[derive(Debug)]
pub struct Node {
    pub kind: NodeKind,
    /// The name; for a method, its selector; for a type parameter, its
    /// display name.
    pub name: Option<String>,
    /// The availability tag, where the node has platform metadata.
    pub availability: Option<String>,
    /// The node's type: of a field, argument, variable, property or enum, the
    /// underlying type of a typedef, the return part of a function or method.
    pub ty: TypeInfo,
    /// For an attribute: the enum macro that it is recognised as.
    pub attr_macro: Option<UnexposedMacro>,
    /// For an enum constant: its evaluated value as an expression. For an
    /// expression: its rendering, where it has one.
    pub value: Option<String>,
    /// For an enum constant: its literal expression, where one parses.
    pub literal: Option<String>,
    /// For an enum: whether this node is the defining one.
    pub is_definition: bool,
    pub is_variadic: bool,
    pub is_inline: bool,
    pub is_static: bool,
    /// For a method or property: whether it is on the class side.
    pub is_class: bool,
    /// For a property: whether it has no setter.
    pub readonly: bool,
    /// For a property: the getter selector.
    pub getter_name: Option<String>,
    /// For a property: the setter selector, with its colon.
    pub setter_name: Option<String>,
    pub children: Vec<Node>,
}

impl Node {
    /// A node of the given kind with no data and no children.
    pub fn new(kind: NodeKind) -> (r: Node)
        ensures
            r.kind == kind,
            r.name is None,
            r.availability is None,
            r.ty is Missing,
            r.attr_macro is None,
            r.value is None,
            r.literal is None,
            !r.is_definition && !r.is_variadic && !r.is_inline && !r.is_static,
            !r.is_class && !r.readonly,
            r.getter_name is None,
            r.setter_name is None,
            r.children@.len() == 0,
    {
        Node {
            kind,
            name: None,
            availability: None,
            ty: TypeInfo::Missing,
            attr_macro: None,
            value: None,
            literal: None,
            is_definition: false,
            is_variadic: false,
            is_inline: false,
            is_static: false,
            is_class: false,
            readonly: false,
            getter_name: None,
            setter_name: None,
            children: Vec::new(),
        }
    }
}

/// Why a declaration cannot be translated.
#[derive(Debug, Clone, Copy, PartialEq, Eq, Structural)]
pub enum ParseError {
    /// A child of a kind that its parent does not allow here.
    UnexpectedChild { parent: NodeKind, child: NodeKind },
    /// A node the builder needs a name of has none.
    MissingName(NodeKind),
    /// A node the builder needs a type of has none that bindings can express.
    MissingType(NodeKind),
    /// A declaration without platform availability metadata.
    MissingAvailability(NodeKind),
    /// An enum constant without an evaluated value.
    MissingValue(NodeKind),
    /// An attribute that is recognised but not allowed here.
    UnexpectedAttribute(UnexposedMacro),
    /// Two properties map to the same selector.
    DuplicateProperty,
    /// A property accessor that no method node matched.
    UnmatchedProperties,
    /// Two markers give an enum different kinds.
    DifferingEnumKinds,
    /// A category without a class reference.
    CategoryClassMissing,
    /// A category with more than one class reference.
    CategoryClassNotUnique,
    /// A variable with two initializers.
    DuplicateVariableValue,
    /// A function declaration that is a static method.
    StaticFunction,
    /// An interface without a superclass or root-class marker.
    NoSuperclass,
    /// A top-level declaration of a kind the builder does not know.
    UnknownDeclaration(NodeKind),
}

/// The state after `step` has taken each of `nodes` in turn from `init`,
/// or the first error.
pub open spec fn fold_nodes<S>(
    nodes: Seq<Node>,
    init: S,
    step: spec_fn(S, Node) -> Result<S, ParseError>,
) -> Result<S, ParseError>
    decreases nodes.len(),
{
    if nodes.len() == 0 {
        Ok(init)
    } else {
        match fold_nodes(nodes.drop_last(), init, step) {
            Ok(s) => step(s, nodes.last()),
            Err(e) => Err(e),
        }
    }
}

/// Once a prefix of the nodes fails, the whole fold fails with that error.
pub proof fn lemma_fold_error_persists<S>(
    nodes: Seq<Node>,
    init: S,
    step: spec_fn(S, Node) -> Result<S, ParseError>,
    k: int,
)
    requires
        0 <= k <= nodes.len(),
        fold_nodes(nodes.subrange(0, k), init, step) is Err,
    ensures
        fold_nodes(nodes, init, step) == fold_nodes(nodes.subrange(0, k), init, step),
    decreases nodes.len() - k,
{
    if k < nodes.len() {
        let next = nodes.subrange(0, k + 1);
        assert(next.drop_last() =~= nodes.subrange(0, k));
        lemma_fold_error_persists(nodes, init, step, k + 1);
    } else {
        assert(nodes.subrange(0, k) =~= nodes);
    }
}

/// Taking one more node extends the fold of a prefix by one step.
pub proof fn lemma_fold_next<S>(
    nodes: Seq<Node>,
    init: S,
    step: spec_fn(S, Node) -> Result<S, ParseError>,
    k: int,
)
    requires
        0 <= k < nodes.len(),
    ensures
        fold_nodes(nodes.subrange(0, k + 1), init, step) == match fold_nodes(
            nodes.subrange(0, k),
            init,
            step,
        ) {
            Ok(s) => step(s, nodes[k]),
            Err(e) => Err(e),
        },
{
    assert(nodes.subrange(0, k + 1).drop_last() =~= nodes.subrange(0, k));
}

} // verus!
