//! The top-level statement builder: one declaration node in, its statements
//! out, by the kind of the declaration.
use vstd::prelude::*;

use crate::config::{
    ClassData, Config, EnumData, ItemData, class_skipped, find, is_item_skipped, item_skipped,
    lookup, opt_deref,
};
use crate::decl::{Mode, objc_decl, parse_objc_decl};
use crate::ir::{
    Derives, GenericType, GenericTypeV, Stmt, StmtV, UnexposedMacro, default_derives, opt_view,
    pairs_view, stmts_view, strings_view,
};
use crate::node::{Node, NodeKind, ParseError, TypeInfo, fold_nodes, lemma_fold_error_persists, lemma_fold_next};
use crate::text::{is_private_name, starts_with_underscore};

verus! {

/// One `ProtocolImpl` for each protocol, in order.
pub open spec fn protocol_impls(ty: GenericTypeV, availability: Seq<char>, protocols: Seq<Seq<char>>) -> Seq<StmtV> {
    protocols.map_values(
        |p: Seq<char>| StmtV::ProtocolImpl { ty: ty, availability: availability, protocol: p },
    )
}

/// The derive list that a class's settings give it.
pub open spec fn derives_of(data: Option<ClassData>) -> Seq<char> {
    match data {
        Some(d) => match d.derives {
            Some(x) => x@,
            None => default_derives(),
        },
        None => default_derives(),
    }
}

/// Whether a class's settings leave out the class itself.
pub open spec fn definition_skipped(data: Option<ClassData>) -> bool {
    match data {
        Some(d) => d.definition_skipped,
        None => false,
    }
}

/// The statements of an interface: the class unless its definition is
/// skipped, one `ProtocolImpl` per protocol, then its methods.
pub open spec fn interface_stmts(node: Node, config: Config) -> Result<Seq<StmtV>, ParseError> {
    match node.name {
        None => Err(ParseError::MissingName(node.kind)),
        Some(name) => {
            let data = lookup(config.class_data@, name@);
            if class_skipped(data) {
                Ok(seq![])
            } else {
                match node.availability {
                    None => Err(ParseError::MissingAvailability(node.kind)),
                    Some(av) => match objc_decl(Mode::Class, data, node) {
                        Err(e) => Err(e),
                        Ok(body) => {
                            let ty = GenericTypeV { name: name@, generics: body.generics };
                            let rest = protocol_impls(ty, av@, body.protocols).push(
                                StmtV::Methods {
                                    ty: ty,
                                    availability: av@,
                                    methods: body.methods,
                                    category_name: None,
                                },
                            );
                            match body.superclass {
                                None => Err(ParseError::NoSuperclass),
                                Some(sc) => if definition_skipped(data) {
                                    Ok(rest)
                                } else {
                                    Ok(
                                        seq![
                                            StmtV::ClassDecl {
                                                ty: ty,
                                                availability: av@,
                                                superclass: sc,
                                                derives: derives_of(data),
                                            },
                                        ] + rest,
                                    )
                                },
                            }
                        },
                    },
                }
            }
        },
    }
}

/// The names of the class-reference children, in order.
pub open spec fn class_refs(s: Seq<Node>) -> Seq<Option<String>>
    decreases s.len(),
{
    if s.len() == 0 {
        seq![]
    } else if s.last().kind == NodeKind::ObjCClassRef {
        class_refs(s.drop_last()).push(s.last().name)
    } else {
        class_refs(s.drop_last())
    }
}

/// The statements of a category: its methods under its own name, then one
/// `ProtocolImpl` per protocol.
pub open spec fn category_stmts(node: Node, config: Config) -> Result<Seq<StmtV>, ParseError> {
    match node.availability {
        None => Err(ParseError::MissingAvailability(node.kind)),
        Some(av) => {
            let refs = class_refs(node.children@);
            if refs.len() == 0 {
                Err(ParseError::CategoryClassMissing)
            } else if refs.len() > 1 {
                Err(ParseError::CategoryClassNotUnique)
            } else {
                match refs[0] {
                    None => Err(ParseError::MissingName(NodeKind::ObjCClassRef)),
                    Some(class_name) => {
                        let data = lookup(config.class_data@, class_name@);
                        if class_skipped(data) {
                            Ok(seq![])
                        } else {
                            match objc_decl(Mode::Category, data, node) {
                                Err(e) => Err(e),
                                Ok(body) => {
                                    let ty = GenericTypeV { name: class_name@, generics: body.generics };
                                    Ok(
                                        seq![
                                            StmtV::Methods {
                                                ty: ty,
                                                availability: av@,
                                                methods: body.methods,
                                                category_name: opt_view(node.name),
                                            },
                                        ] + protocol_impls(ty, av@, body.protocols),
                                    )
                                },
                            }
                        }
                    },
                }
            }
        },
    }
}

/// The statements of a protocol: one `ProtocolDecl`.
pub open spec fn protocol_stmts(node: Node, config: Config) -> Result<Seq<StmtV>, ParseError> {
    match node.name {
        None => Err(ParseError::MissingName(node.kind)),
        Some(name) => {
            let data = lookup(config.protocol_data@, name@);
            if class_skipped(data) {
                Ok(seq![])
            } else {
                match node.availability {
                    None => Err(ParseError::MissingAvailability(node.kind)),
                    Some(av) => match objc_decl(Mode::Protocol, data, node) {
                        Err(e) => Err(e),
                        Ok(body) => Ok(
                            seq![
                                StmtV::ProtocolDecl {
                                    name: name@,
                                    availability: av@,
                                    protocols: body.protocols,
                                    methods: body.methods,
                                },
                            ],
                        ),
                    },
                }
            }
        },
    }
}

/// A struct body so far: whether it is boxable, and its fields.
pub struct StructV {
    pub boxable: bool,
    pub fields: Seq<(Seq<char>, Seq<char>)>,
}

/// The struct body after one more child.
pub open spec fn struct_step(st: StructV, c: Node) -> Result<StructV, ParseError> {
    match c.kind {
        NodeKind::UnexposedAttr => match c.attr_macro {
            Some(m) => Err(ParseError::UnexpectedAttribute(m)),
            None => Ok(st),
        },
        NodeKind::FieldDecl => match c.name {
            None => Err(ParseError::MissingName(c.kind)),
            Some(n) => match c.ty {
                TypeInfo::Rendered(t) => Ok(StructV { fields: st.fields.push((n@, t@)), ..st }),
                _ => Err(ParseError::MissingType(c.kind)),
            },
        },
        NodeKind::ObjCBoxable => Ok(StructV { boxable: true, ..st }),
        _ => Err(ParseError::UnexpectedChild { parent: NodeKind::StructDecl, child: c.kind }),
    }
}

/// [`struct_step`] as a value.
pub open spec fn struct_stepper() -> spec_fn(StructV, Node) -> Result<StructV, ParseError> {
    |st: StructV, c: Node| struct_step(st, c)
}

/// The `StructDecl` that a struct node declares under `name`.
pub open spec fn struct_decl(node: Node, name: Seq<char>) -> Result<StmtV, ParseError> {
    match fold_nodes(node.children@, StructV { boxable: false, fields: seq![] }, struct_stepper()) {
        Err(e) => Err(e),
        Ok(st) => Ok(StmtV::StructDecl { name, boxable: st.boxable, fields: st.fields }),
    }
}

/// A typedef body so far: the struct it wraps, and whether that struct is
/// left to its own declaration or skipped.
pub struct TypedefV {
    pub wrapped: Option<StmtV>,
    pub skip_struct: bool,
}

/// The typedef body after one more child.
pub open spec fn typedef_step(
    struct_data: Seq<(String, ItemData)>,
    name: Seq<char>,
    st: TypedefV,
    c: Node,
) -> Result<TypedefV, ParseError> {
    match c.kind {
        NodeKind::UnexposedAttr => match c.attr_macro {
            Some(m) => Err(ParseError::UnexpectedAttribute(m)),
            None => Ok(st),
        },
        NodeKind::StructDecl => if item_skipped(struct_data, name) {
            Ok(TypedefV { skip_struct: true, ..st })
        } else if c.name is None || is_private_name(c.name->0@) {
            match struct_decl(c, name) {
                Ok(s) => Ok(TypedefV { wrapped: Some(s), ..st }),
                Err(e) => Err(e),
            }
        } else {
            Ok(TypedefV { skip_struct: true, ..st })
        },
        NodeKind::ObjCClassRef | NodeKind::ObjCProtocolRef | NodeKind::TypeRef
        | NodeKind::ParmDecl => Ok(st),
        _ => Err(ParseError::UnexpectedChild { parent: NodeKind::TypedefDecl, child: c.kind }),
    }
}

/// [`typedef_step`] as a value.
pub open spec fn typedef_stepper(struct_data: Seq<(String, ItemData)>, name: Seq<char>) -> spec_fn(
    TypedefV,
    Node,
) -> Result<TypedefV, ParseError> {
    |st: TypedefV, c: Node| typedef_step(struct_data, name, st, c)
}

/// The statements of a typedef: the anonymous or privately named struct it
/// wraps, or else an alias of a representable underlying type.
pub open spec fn typedef_stmts(node: Node, config: Config) -> Result<Seq<StmtV>, ParseError> {
    match node.name {
        None => Err(ParseError::MissingName(node.kind)),
        Some(name) => match fold_nodes(
            node.children@,
            TypedefV { wrapped: None, skip_struct: false },
            typedef_stepper(config.struct_data@, name@),
        ) {
            Err(e) => Err(e),
            Ok(st) => match st.wrapped {
                Some(s) => Ok(seq![s]),
                None => if st.skip_struct || item_skipped(config.typedef_data@, name@) {
                    Ok(seq![])
                } else {
                    match node.ty {
                        TypeInfo::Missing => Err(ParseError::MissingType(node.kind)),
                        TypeInfo::Unrepresentable => Ok(seq![]),
                        TypeInfo::Rendered(t) => Ok(seq![StmtV::AliasDecl { name: name@, ty: t@ }]),
                    }
                },
            },
        },
    }
}

/// The statements of a named struct: one `StructDecl` unless it is skipped
/// or privately named.
pub open spec fn struct_stmts(node: Node, config: Config) -> Result<Seq<StmtV>, ParseError> {
    match node.name {
        None => Ok(seq![]),
        Some(n) => if item_skipped(config.struct_data@, n@) || is_private_name(n@) {
            Ok(seq![])
        } else {
            match struct_decl(node, n@) {
                Ok(s) => Ok(seq![s]),
                Err(e) => Err(e),
            }
        },
    }
}

/// The key under which the settings of an enum are found.
pub open spec fn enum_key(name: Option<String>) -> Seq<char> {
    match name {
        Some(n) => n@,
        None => "anonymous"@,
    }
}

/// The settings of an enum, or the defaults.
pub open spec fn enum_settings(d: Option<EnumData>) -> (bool, bool, Seq<(String, ItemData)>) {
    match d {
        Some(e) => (e.skipped, e.use_value, e.constants@),
        None => (false, false, seq![]),
    }
}

/// The expression of an enum constant: its evaluated value where the
/// settings ask for it or no literal parses, else its literal.
pub open spec fn constant_expr(use_value: bool, value: Seq<char>, literal: Option<String>) -> Seq<char> {
    if use_value {
        value
    } else {
        match literal {
            Some(l) => l@,
            None => value,
        }
    }
}

/// An enum body so far: its kind and its variants.
pub struct EnumV {
    pub kind: Option<UnexposedMacro>,
    pub variants: Seq<(Seq<char>, Seq<char>)>,
}

/// The kind after one more marker: a first marker sets it, a later one must
/// agree.
pub open spec fn merge_kind(st: EnumV, m: UnexposedMacro) -> Result<EnumV, ParseError> {
    match st.kind {
        Some(k) => if k == m {
            Ok(st)
        } else {
            Err(ParseError::DifferingEnumKinds)
        },
        None => Ok(EnumV { kind: Some(m), ..st }),
    }
}

/// The enum body after one more child.
pub open spec fn enum_step(
    use_value: bool,
    constants: Seq<(String, ItemData)>,
    st: EnumV,
    c: Node,
) -> Result<EnumV, ParseError> {
    match c.kind {
        NodeKind::EnumConstantDecl => match c.name {
            None => Err(ParseError::MissingName(c.kind)),
            Some(n) => if item_skipped(constants, n@) {
                Ok(st)
            } else {
                match c.value {
                    None => Err(ParseError::MissingValue(c.kind)),
                    Some(v) => Ok(
                        EnumV {
                            variants: st.variants.push((n@, constant_expr(use_value, v@, c.literal))),
                            ..st
                        },
                    ),
                }
            },
        },
        NodeKind::UnexposedAttr => match c.attr_macro {
            Some(m) => merge_kind(st, m),
            None => Ok(st),
        },
        NodeKind::FlagEnum => merge_kind(st, UnexposedMacro::Options),
        _ => Err(ParseError::UnexpectedChild { parent: NodeKind::EnumDecl, child: c.kind }),
    }
}

/// [`enum_step`] as a value.
pub open spec fn enum_stepper(use_value: bool, constants: Seq<(String, ItemData)>) -> spec_fn(
    EnumV,
    Node,
) -> Result<EnumV, ParseError> {
    |st: EnumV, c: Node| enum_step(use_value, constants, st, c)
}

/// The statements of an enum: none for the non-defining node or a skipped
/// enum, else one `EnumDecl`.
pub open spec fn enum_stmts(node: Node, config: Config) -> Result<Seq<StmtV>, ParseError> {
    if !node.is_definition {
        Ok(seq![])
    } else {
        let (skipped, use_value, constants) = enum_settings(
            lookup(config.enum_data@, enum_key(node.name)),
        );
        if skipped {
            Ok(seq![])
        } else {
            match node.ty {
                TypeInfo::Rendered(t) => match fold_nodes(
                    node.children@,
                    EnumV { kind: None, variants: seq![] },
                    enum_stepper(use_value, constants),
                ) {
                    Err(e) => Err(e),
                    Ok(st) => Ok(
                        seq![
                            StmtV::EnumDecl {
                                name: opt_view(node.name),
                                ty: t@,
                                kind: st.kind,
                                variants: st.variants,
                            },
                        ],
                    ),
                },
                _ => Err(ParseError::MissingType(node.kind)),
            }
        }
    }
}

/// The initializer seen so far: `None` before any, `Some(None)` for one that
/// is not representable.
pub open spec fn var_step(st: Option<Option<Seq<char>>>, c: Node) -> Result<
    Option<Option<Seq<char>>>,
    ParseError,
> {
    match c.kind {
        NodeKind::UnexposedAttr => match c.attr_macro {
            Some(m) => Err(ParseError::UnexpectedAttribute(m)),
            None => Ok(st),
        },
        NodeKind::VisibilityAttr | NodeKind::ObjCClassRef | NodeKind::TypeRef => Ok(st),
        NodeKind::Expression => if st is None {
            Ok(Some(opt_view(c.value)))
        } else {
            Err(ParseError::DuplicateVariableValue)
        },
        _ => Err(ParseError::UnexpectedChild { parent: NodeKind::VarDecl, child: c.kind }),
    }
}

/// [`var_step`] as a value.
pub open spec fn var_stepper() -> spec_fn(Option<Option<Seq<char>>>, Node) -> Result<
    Option<Option<Seq<char>>>,
    ParseError,
> {
    |st: Option<Option<Seq<char>>>, c: Node| var_step(st, c)
}

/// The statements of a variable: none where it is skipped or its initializer
/// is not representable, else one `VarDecl`.
pub open spec fn var_stmts(node: Node, config: Config) -> Result<Seq<StmtV>, ParseError> {
    match node.name {
        None => Err(ParseError::MissingName(node.kind)),
        Some(name) => if item_skipped(config.statics@, name@) {
            Ok(seq![])
        } else {
            match node.ty {
                TypeInfo::Rendered(t) => match fold_nodes(node.children@, None, var_stepper()) {
                    Err(e) => Err(e),
                    Ok(Some(None)) => Ok(seq![]),
                    Ok(Some(Some(v))) => Ok(
                        seq![StmtV::VarDecl { name: name@, ty: t@, value: Some(v) }],
                    ),
                    Ok(None) => Ok(seq![StmtV::VarDecl { name: name@, ty: t@, value: None }]),
                },
                _ => Err(ParseError::MissingType(node.kind)),
            }
        },
    }
}

/// The parameters of a function after one more child.
pub open spec fn fn_step(acc: Seq<(Seq<char>, Seq<char>)>, c: Node) -> Result<
    Seq<(Seq<char>, Seq<char>)>,
    ParseError,
> {
    match c.kind {
        NodeKind::UnexposedAttr => match c.attr_macro {
            Some(m) => Err(ParseError::UnexpectedAttribute(m)),
            None => Ok(acc),
        },
        NodeKind::ObjCClassRef | NodeKind::TypeRef => Ok(acc),
        NodeKind::ParmDecl => {
            let name = match c.name {
                Some(n) => n@,
                None => "_"@,
            };
            match c.ty {
                TypeInfo::Rendered(t) => Ok(acc.push((name, t@))),
                _ => Err(ParseError::MissingType(c.kind)),
            }
        },
        _ => Err(ParseError::UnexpectedChild { parent: NodeKind::FunctionDecl, child: c.kind }),
    }
}

/// [`fn_step`] as a value.
pub open spec fn fn_stepper() -> spec_fn(Seq<(Seq<char>, Seq<char>)>, Node) -> Result<
    Seq<(Seq<char>, Seq<char>)>,
    ParseError,
> {
    |acc: Seq<(Seq<char>, Seq<char>)>, c: Node| fn_step(acc, c)
}

/// The statements of a function: none where it is skipped or variadic, else
/// one `FnDecl`.
pub open spec fn fn_stmts(node: Node, config: Config) -> Result<Seq<StmtV>, ParseError> {
    match node.name {
        None => Err(ParseError::MissingName(node.kind)),
        Some(name) => if item_skipped(config.fns@, name@) || node.is_variadic {
            Ok(seq![])
        } else {
            match node.ty {
                TypeInfo::Rendered(t) => if node.is_static {
                    Err(ParseError::StaticFunction)
                } else {
                    match fold_nodes(node.children@, seq![], fn_stepper()) {
                        Err(e) => Err(e),
                        Ok(args) => Ok(
                            seq![
                                StmtV::FnDecl {
                                    name: name@,
                                    arguments: args,
                                    result_type: t@,
                                    inline: node.is_inline,
                                },
                            ],
                        ),
                    }
                },
                _ => Err(ParseError::MissingType(node.kind)),
            }
        },
    }
}

/// The statements of one top-level declaration, by its kind.
pub open spec fn parse_spec(node: Node, config: Config) -> Result<Seq<StmtV>, ParseError> {
    match node.kind {
        NodeKind::ObjCClassRef | NodeKind::ObjCProtocolRef | NodeKind::UnionDecl => Ok(seq![]),
        NodeKind::ObjCInterfaceDecl => interface_stmts(node, config),
        NodeKind::ObjCCategoryDecl => category_stmts(node, config),
        NodeKind::ObjCProtocolDecl => protocol_stmts(node, config),
        NodeKind::TypedefDecl => typedef_stmts(node, config),
        NodeKind::StructDecl => struct_stmts(node, config),
        NodeKind::EnumDecl => enum_stmts(node, config),
        NodeKind::VarDecl => var_stmts(node, config),
        NodeKind::FunctionDecl => fn_stmts(node, config),
        _ => Err(ParseError::UnknownDeclaration(node.kind)),
    }
}

fn push_pair(v: &mut Vec<(String, String)>, a: String, b: String)
    ensures
        pairs_view(final(v)@) == pairs_view(old(v)@).push((a@, b@)),
{
    let ghost before = pairs_view(v@);
    let ghost x = (a@, b@);
    v.push((a, b));
    assert(pairs_view(v@) =~= before.push(x));
}

/// The `StructDecl` that a struct node declares under `name`.
fn parse_struct(node: &Node, name: String) -> (r: Result<Stmt, ParseError>)
    ensures
        match struct_decl(*node, name@) {
            Ok(s) => r matches Ok(x) && x@ == s,
            Err(e) => r == Err::<Stmt, ParseError>(e),
        },
{
    let mut boxable = false;
    let mut fields: Vec<(String, String)> = Vec::new();
    let ghost init = StructV { boxable: false, fields: seq![] };
    assert(pairs_view(fields@) =~= seq![]);
    let n = node.children.len();
    for i in 0..n
        invariant
            n == node.children@.len(),
            init == (StructV { boxable: false, fields: seq![] }),
            fold_nodes(node.children@.subrange(0, i as int), init, struct_stepper()) == Ok::<
                StructV,
                ParseError,
            >(StructV { boxable, fields: pairs_view(fields@) }),
    {
        proof {
            lemma_fold_next(node.children@, init, struct_stepper(), i as int);
        }
        let c = &node.children[i];
        let step: Result<(), ParseError> = match c.kind {
            NodeKind::UnexposedAttr => match c.attr_macro {
                Some(m) => Err(ParseError::UnexpectedAttribute(m)),
                None => Ok(()),
            },
            NodeKind::FieldDecl => match &c.name {
                None => Err(ParseError::MissingName(c.kind)),
                Some(f) => match &c.ty {
                    TypeInfo::Rendered(t) => {
                        push_pair(&mut fields, f.clone(), t.clone());
                        Ok(())
                    },
                    _ => Err(ParseError::MissingType(c.kind)),
                },
            },
            NodeKind::ObjCBoxable => {
                boxable = true;
                Ok(())
            },
            _ => Err(ParseError::UnexpectedChild { parent: NodeKind::StructDecl, child: c.kind }),
        };
        match step {
            Ok(()) => {},
            Err(e) => {
                proof {
                    lemma_fold_error_persists(node.children@, init, struct_stepper(), i + 1);
                }
                return Err(e);
            },
        }
    }
    assert(node.children@.subrange(0, n as int) =~= node.children@);
    Ok(Stmt::StructDecl { name, boxable, fields })
}

fn parse_typedef(node: &Node, config: &Config) -> (r: Result<Vec<Stmt>, ParseError>)
    requires
        node.kind == NodeKind::TypedefDecl,
    ensures
        match typedef_stmts(*node, *config) {
            Ok(v) => r matches Ok(x) && stmts_view(x@) == v,
            Err(e) => r == Err::<Vec<Stmt>, ParseError>(e),
        },
{
    let name = match &node.name {
        Some(n) => n,
        None => return Err(ParseError::MissingName(node.kind)),
    };
    let mut wrapped: Option<Stmt> = None;
    let mut skip_struct = false;
    let ghost init = TypedefV { wrapped: None, skip_struct: false };
    let ghost stepper = typedef_stepper(config.struct_data@, name@);
    let n = node.children.len();
    for i in 0..n
        invariant
            n == node.children@.len(),
            stepper == typedef_stepper(config.struct_data@, name@),
            init == (TypedefV { wrapped: None, skip_struct: false }),
            node.name == Some(*name),
            fold_nodes(node.children@.subrange(0, i as int), init, stepper) == Ok::<
                TypedefV,
                ParseError,
            >(
                TypedefV {
                    wrapped: match wrapped {
                        Some(s) => Some(s@),
                        None => None,
                    },
                    skip_struct,
                },
            ),
    {
        proof {
            lemma_fold_next(node.children@, init, stepper, i as int);
        }
        let c = &node.children[i];
        let step: Result<(), ParseError> = match c.kind {
            NodeKind::UnexposedAttr => match c.attr_macro {
                Some(m) => Err(ParseError::UnexpectedAttribute(m)),
                None => Ok(()),
            },
            NodeKind::StructDecl => if is_item_skipped(&config.struct_data, name) {
                skip_struct = true;
                Ok(())
            } else {
                let private = match &c.name {
                    None => true,
                    Some(sn) => starts_with_underscore(sn),
                };
                if private {
                    match parse_struct(c, name.clone()) {
                        Ok(st) => {
                            wrapped = Some(st);
                            Ok(())
                        },
                        Err(e) => Err(e),
                    }
                } else {
                    skip_struct = true;
                    Ok(())
                }
            },
            NodeKind::ObjCClassRef | NodeKind::ObjCProtocolRef | NodeKind::TypeRef
            | NodeKind::ParmDecl => Ok(()),
            _ => Err(ParseError::UnexpectedChild { parent: NodeKind::TypedefDecl, child: c.kind }),
        };
        match step {
            Ok(()) => {},
            Err(e) => {
                proof {
                    lemma_fold_error_persists(node.children@, init, stepper, i + 1);
                }
                return Err(e);
            },
        }
    }
    assert(node.children@.subrange(0, n as int) =~= node.children@);
    let mut out: Vec<Stmt> = Vec::new();
    match wrapped {
        Some(st) => {
            out.push(st);
        },
        None => {
            if skip_struct || is_item_skipped(&config.typedef_data, name) {
            } else {
                match &node.ty {
                    TypeInfo::Missing => return Err(ParseError::MissingType(node.kind)),
                    TypeInfo::Unrepresentable => {},
                    TypeInfo::Rendered(t) => {
                        out.push(Stmt::AliasDecl { name: name.clone(), ty: t.clone() });
                    },
                }
            }
        },
    }
    assert(stmts_view(out@) =~= typedef_stmts(*node, *config)->Ok_0);
    Ok(out)
}

fn parse_named_struct(node: &Node, config: &Config) -> (r: Result<Vec<Stmt>, ParseError>)
    requires
        node.kind == NodeKind::StructDecl,
    ensures
        match struct_stmts(*node, *config) {
            Ok(v) => r matches Ok(x) && stmts_view(x@) == v,
            Err(e) => r == Err::<Vec<Stmt>, ParseError>(e),
        },
{
    let mut out: Vec<Stmt> = Vec::new();
    if let Some(n) = &node.name {
        if !is_item_skipped(&config.struct_data, n) && !starts_with_underscore(n) {
            match parse_struct(node, n.clone()) {
                Ok(st) => out.push(st),
                Err(e) => return Err(e),
            }
        }
    }
    assert(stmts_view(out@) =~= struct_stmts(*node, *config)->Ok_0);
    Ok(out)
}

#[verifier::loop_isolation(false)]
fn parse_enum(node: &Node, config: &Config) -> (r: Result<Vec<Stmt>, ParseError>)
    requires
        node.kind == NodeKind::EnumDecl,
    ensures
        match enum_stmts(*node, *config) {
            Ok(v) => r matches Ok(x) && stmts_view(x@) == v,
            Err(e) => r == Err::<Vec<Stmt>, ParseError>(e),
        },
{
    let mut out: Vec<Stmt> = Vec::new();
    if !node.is_definition {
        assert(stmts_view(out@) =~= seq![]);
        return Ok(out);
    }
    let key = match &node.name {
        Some(n) => n.clone(),
        None => String::from_str("anonymous"),
    };
    let data = find(&config.enum_data, &key);
    let (skipped, use_value, constants): (bool, bool, Option<&Vec<(String, ItemData)>>) = match data {
        Some(d) => (d.skipped, d.use_value, Some(&d.constants)),
        None => (false, false, None),
    };
    let ghost consts: Seq<(String, ItemData)> = match constants {
        Some(c) => c@,
        None => seq![],
    };
    assert(enum_settings(lookup(config.enum_data@, enum_key(node.name))) == (skipped, use_value, consts));
    if skipped {
        assert(stmts_view(out@) =~= seq![]);
        return Ok(out);
    }
    let ty = match &node.ty {
        TypeInfo::Rendered(t) => t,
        _ => return Err(ParseError::MissingType(node.kind)),
    };
    let mut kind: Option<UnexposedMacro> = None;
    let mut variants: Vec<(String, String)> = Vec::new();
    assert(pairs_view(variants@) =~= seq![]);
    let ghost init = EnumV { kind: None, variants: seq![] };
    let ghost stepper = enum_stepper(use_value, consts);
    let n = node.children.len();
    for i in 0..n
        invariant
            n == node.children@.len(),
            init == (EnumV { kind: None, variants: seq![] }),
            stepper == enum_stepper(use_value, consts),
            consts == match constants {
                Some(c) => c@,
                None => Seq::<(String, ItemData)>::empty(),
            },
            fold_nodes(node.children@.subrange(0, i as int), init, stepper) == Ok::<
                EnumV,
                ParseError,
            >(EnumV { kind, variants: pairs_view(variants@) }),
    {
        proof {
            lemma_fold_next(node.children@, init, stepper, i as int);
        }
        let c = &node.children[i];
        let marker: Option<UnexposedMacro> = match c.kind {
            NodeKind::UnexposedAttr => c.attr_macro,
            NodeKind::FlagEnum => Some(UnexposedMacro::Options),
            _ => None,
        };
        let step: Result<(), ParseError> = match c.kind {
            NodeKind::EnumConstantDecl => match &c.name {
                None => Err(ParseError::MissingName(c.kind)),
                Some(cn) => {
                    let skip = match constants {
                        Some(t) => is_item_skipped(t, cn),
                        None => false,
                    };
                    if skip {
                        Ok(())
                    } else {
                        match &c.value {
                            None => Err(ParseError::MissingValue(c.kind)),
                            Some(v) => {
                                let expr = if use_value {
                                    v.clone()
                                } else {
                                    match &c.literal {
                                        Some(l) => l.clone(),
                                        None => v.clone(),
                                    }
                                };
                                push_pair(&mut variants, cn.clone(), expr);
                                Ok(())
                            },
                        }
                    }
                },
            },
            NodeKind::UnexposedAttr | NodeKind::FlagEnum => match marker {
                Some(m) => match kind {
                    Some(k) => if k == m {
                        Ok(())
                    } else {
                        Err(ParseError::DifferingEnumKinds)
                    },
                    None => {
                        kind = Some(m);
                        Ok(())
                    },
                },
                None => Ok(()),
            },
            _ => Err(ParseError::UnexpectedChild { parent: NodeKind::EnumDecl, child: c.kind }),
        };
        match step {
            Ok(()) => {},
            Err(e) => {
                proof {
                    lemma_fold_error_persists(node.children@, init, stepper, i + 1);
                }
                return Err(e);
            },
        }
    }
    assert(node.children@.subrange(0, n as int) =~= node.children@);
    out.push(Stmt::EnumDecl { name: node.name.clone(), ty: ty.clone(), kind, variants });
    assert(stmts_view(out@) =~= enum_stmts(*node, *config)->Ok_0);
    Ok(out)
}

#[verifier::loop_isolation(false)]
fn parse_var(node: &Node, config: &Config) -> (r: Result<Vec<Stmt>, ParseError>)
    requires
        node.kind == NodeKind::VarDecl,
    ensures
        match var_stmts(*node, *config) {
            Ok(v) => r matches Ok(x) && stmts_view(x@) == v,
            Err(e) => r == Err::<Vec<Stmt>, ParseError>(e),
        },
{
    let mut out: Vec<Stmt> = Vec::new();
    let name = match &node.name {
        Some(n) => n,
        None => return Err(ParseError::MissingName(node.kind)),
    };
    if is_item_skipped(&config.statics, name) {
        assert(stmts_view(out@) =~= seq![]);
        return Ok(out);
    }
    let ty = match &node.ty {
        TypeInfo::Rendered(t) => t,
        _ => return Err(ParseError::MissingType(node.kind)),
    };
    let mut value: Option<Option<String>> = None;
    let n = node.children.len();
    for i in 0..n
        invariant
            n == node.children@.len(),
            fold_nodes(node.children@.subrange(0, i as int), None, var_stepper()) == Ok::<
                Option<Option<Seq<char>>>,
                ParseError,
            >(
                match value {
                    Some(v) => Some(opt_view(v)),
                    None => None,
                },
            ),
    {
        proof {
            lemma_fold_next(node.children@, None, var_stepper(), i as int);
        }
        let c = &node.children[i];
        let step: Result<(), ParseError> = match c.kind {
            NodeKind::UnexposedAttr => match c.attr_macro {
                Some(m) => Err(ParseError::UnexpectedAttribute(m)),
                None => Ok(()),
            },
            NodeKind::VisibilityAttr | NodeKind::ObjCClassRef | NodeKind::TypeRef => Ok(()),
            NodeKind::Expression => if value.is_none() {
                value = Some(c.value.clone());
                Ok(())
            } else {
                Err(ParseError::DuplicateVariableValue)
            },
            _ => Err(ParseError::UnexpectedChild { parent: NodeKind::VarDecl, child: c.kind }),
        };
        match step {
            Ok(()) => {},
            Err(e) => {
                proof {
                    lemma_fold_error_persists(node.children@, None, var_stepper(), i + 1);
                }
                return Err(e);
            },
        }
    }
    assert(node.children@.subrange(0, n as int) =~= node.children@);
    match value {
        Some(None) => {},
        Some(Some(v)) => out.push(Stmt::VarDecl { name: name.clone(), ty: ty.clone(), value: Some(v) }),
        None => out.push(Stmt::VarDecl { name: name.clone(), ty: ty.clone(), value: None }),
    }
    assert(stmts_view(out@) =~= var_stmts(*node, *config)->Ok_0);
    Ok(out)
}

#[verifier::loop_isolation(false)]
fn parse_fn(node: &Node, config: &Config) -> (r: Result<Vec<Stmt>, ParseError>)
    requires
        node.kind == NodeKind::FunctionDecl,
    ensures
        match fn_stmts(*node, *config) {
            Ok(v) => r matches Ok(x) && stmts_view(x@) == v,
            Err(e) => r == Err::<Vec<Stmt>, ParseError>(e),
        },
{
    let mut out: Vec<Stmt> = Vec::new();
    let name = match &node.name {
        Some(n) => n,
        None => return Err(ParseError::MissingName(node.kind)),
    };
    if is_item_skipped(&config.fns, name) || node.is_variadic {
        assert(stmts_view(out@) =~= seq![]);
        return Ok(out);
    }
    let result_type = match &node.ty {
        TypeInfo::Rendered(t) => t,
        _ => return Err(ParseError::MissingType(node.kind)),
    };
    if node.is_static {
        return Err(ParseError::StaticFunction);
    }
    let mut arguments: Vec<(String, String)> = Vec::new();
    assert(pairs_view(arguments@) =~= seq![]);
    let n = node.children.len();
    for i in 0..n
        invariant
            n == node.children@.len(),
            fold_nodes(node.children@.subrange(0, i as int), seq![], fn_stepper()) == Ok::<
                Seq<(Seq<char>, Seq<char>)>,
                ParseError,
            >(pairs_view(arguments@)),
    {
        proof {
            lemma_fold_next(node.children@, seq![], fn_stepper(), i as int);
        }
        let c = &node.children[i];
        let step: Result<(), ParseError> = match c.kind {
            NodeKind::UnexposedAttr => match c.attr_macro {
                Some(m) => Err(ParseError::UnexpectedAttribute(m)),
                None => Ok(()),
            },
            NodeKind::ObjCClassRef | NodeKind::TypeRef => Ok(()),
            NodeKind::ParmDecl => {
                let pn = match &c.name {
                    Some(x) => x.clone(),
                    None => String::from_str("_"),
                };
                match &c.ty {
                    TypeInfo::Rendered(t) => {
                        push_pair(&mut arguments, pn, t.clone());
                        Ok(())
                    },
                    _ => Err(ParseError::MissingType(c.kind)),
                }
            },
            _ => Err(ParseError::UnexpectedChild { parent: NodeKind::FunctionDecl, child: c.kind }),
        };
        match step {
            Ok(()) => {},
            Err(e) => {
                proof {
                    lemma_fold_error_persists(node.children@, seq![], fn_stepper(), i + 1);
                }
                return Err(e);
            },
        }
    }
    assert(node.children@.subrange(0, n as int) =~= node.children@);
    let body = if node.is_inline {
        Some(())
    } else {
        None
    };
    out.push(
        Stmt::FnDecl { name: name.clone(), arguments, result_type: result_type.clone(), body },
    );
    assert(stmts_view(out@) =~= fn_stmts(*node, *config)->Ok_0);
    Ok(out)
}

/// Appends one `ProtocolImpl` per protocol.
fn push_protocol_impls(
    out: &mut Vec<Stmt>,
    ty: &GenericType,
    availability: &String,
    protocols: &Vec<String>,
)
    ensures
        stmts_view(final(out)@) == stmts_view(old(out)@) + protocol_impls(
            ty@,
            availability@,
            strings_view(protocols@),
        ),
{
    let ghost start = out@;
    let n = protocols.len();
    for i in 0..n
        invariant
            n == protocols@.len(),
            out@.len() == start.len() + i,
            forall|j: int| 0 <= j < start.len() ==> (#[trigger] out@[j]) == start[j],
            forall|j: int|
                0 <= j < i ==> (#[trigger] out@[start.len() + j])@ == (StmtV::ProtocolImpl {
                    ty: ty@,
                    availability: availability@,
                    protocol: protocols@[j]@,
                }),
    {
        out.push(
            Stmt::ProtocolImpl {
                ty: ty.duplicate(),
                availability: availability.clone(),
                protocol: protocols[i].clone(),
            },
        );
    }
    let ghost expected = stmts_view(start) + protocol_impls(ty@, availability@, strings_view(protocols@));
    assert forall|j: int| 0 <= j < out@.len() implies stmts_view(out@)[j] == expected[j] by {
        if j >= start.len() {
            assert(out@[start.len() + (j - start.len())] == out@[j]);
        }
    }
    assert(stmts_view(out@) =~= expected);
}

fn push_stmt(out: &mut Vec<Stmt>, s: Stmt)
    ensures
        stmts_view(final(out)@) == stmts_view(old(out)@).push(s@),
{
    let ghost before = stmts_view(out@);
    let ghost x = s@;
    out.push(s);
    assert(stmts_view(out@) =~= before.push(x));
}

fn class_derives(data: Option<&ClassData>) -> (r: Derives)
    ensures
        r@ == derives_of(opt_deref(data)),
{
    match data {
        Some(d) => match &d.derives {
            Some(x) => x.duplicate(),
            None => Derives::default(),
        },
        None => Derives::default(),
    }
}

fn parse_interface(node: &Node, config: &Config) -> (r: Result<Vec<Stmt>, ParseError>)
    requires
        node.kind == NodeKind::ObjCInterfaceDecl,
    ensures
        match interface_stmts(*node, *config) {
            Ok(v) => r matches Ok(x) && stmts_view(x@) == v,
            Err(e) => r == Err::<Vec<Stmt>, ParseError>(e),
        },
{
    let mut out: Vec<Stmt> = Vec::new();
    assert(stmts_view(out@) =~= seq![]);
    let name = match &node.name {
        Some(n) => n,
        None => return Err(ParseError::MissingName(node.kind)),
    };
    let data = find(&config.class_data, name);
    let skipped = match data {
        Some(d) => d.skipped,
        None => false,
    };
    if skipped {
        return Ok(out);
    }
    let availability = match &node.availability {
        Some(a) => a,
        None => return Err(ParseError::MissingAvailability(node.kind)),
    };
    let body = match parse_objc_decl(node, Mode::Class, data) {
        Ok(b) => b,
        Err(e) => return Err(e),
    };
    let ty = GenericType { name: name.clone(), generics: body.generics };
    let definition_skipped = match data {
        Some(d) => d.definition_skipped,
        None => false,
    };
    let superclass = match body.superclass {
        None => return Err(ParseError::NoSuperclass),
        Some(superclass) => superclass,
    };
    if !definition_skipped {
        push_stmt(
            &mut out,
            Stmt::ClassDecl {
                ty: ty.duplicate(),
                availability: availability.clone(),
                superclass,
                derives: class_derives(data),
            },
        );
    }
    push_protocol_impls(&mut out, &ty, availability, &body.protocols);
    let ghost ty_v = ty@;
    push_stmt(
        &mut out,
        Stmt::Methods {
            ty,
            availability: availability.clone(),
            methods: body.methods,
            category_name: None,
        },
    );
    assert(stmts_view(out@) =~= interface_stmts(*node, *config)->Ok_0);
    Ok(out)
}

/// The class references among the children: how many, and the name of the
/// first.
fn find_class_refs(node: &Node) -> (r: (usize, Option<String>))
    ensures
        r.0 == class_refs(node.children@).len(),
        r.0 > 0 ==> r.1 == class_refs(node.children@)[0],
{
    let mut count: usize = 0;
    let mut first: Option<String> = None;
    let n = node.children.len();
    for i in 0..n
        invariant
            n == node.children@.len(),
            count == class_refs(node.children@.subrange(0, i as int)).len(),
            count > 0 ==> first == class_refs(node.children@.subrange(0, i as int))[0],
            count <= i,
    {
        let ghost prefix = node.children@.subrange(0, i + 1);
        assert(prefix.drop_last() =~= node.children@.subrange(0, i as int));
        if node.children[i].kind == NodeKind::ObjCClassRef {
            if count == 0 {
                first = node.children[i].name.clone();
            }
            count = count + 1;
        }
    }
    assert(node.children@.subrange(0, n as int) =~= node.children@);
    (count, first)
}

fn parse_category(node: &Node, config: &Config) -> (r: Result<Vec<Stmt>, ParseError>)
    requires
        node.kind == NodeKind::ObjCCategoryDecl,
    ensures
        match category_stmts(*node, *config) {
            Ok(v) => r matches Ok(x) && stmts_view(x@) == v,
            Err(e) => r == Err::<Vec<Stmt>, ParseError>(e),
        },
{
    let mut out: Vec<Stmt> = Vec::new();
    assert(stmts_view(out@) =~= seq![]);
    let availability = match &node.availability {
        Some(a) => a,
        None => return Err(ParseError::MissingAvailability(node.kind)),
    };
    let (count, first) = find_class_refs(node);
    if count == 0 {
        return Err(ParseError::CategoryClassMissing);
    }
    if count > 1 {
        return Err(ParseError::CategoryClassNotUnique);
    }
    let class_name = match first {
        Some(c) => c,
        None => return Err(ParseError::MissingName(NodeKind::ObjCClassRef)),
    };
    let data = find(&config.class_data, &class_name);
    let skipped = match data {
        Some(d) => d.skipped,
        None => false,
    };
    if skipped {
        return Ok(out);
    }
    let body = match parse_objc_decl(node, Mode::Category, data) {
        Ok(b) => b,
        Err(e) => return Err(e),
    };
    let ty = GenericType { name: class_name, generics: body.generics };
    push_stmt(
        &mut out,
        Stmt::Methods {
            ty: ty.duplicate(),
            availability: availability.clone(),
            methods: body.methods,
            category_name: node.name.clone(),
        },
    );
    push_protocol_impls(&mut out, &ty, availability, &body.protocols);
    assert(stmts_view(out@) =~= category_stmts(*node, *config)->Ok_0);
    Ok(out)
}

fn parse_protocol(node: &Node, config: &Config) -> (r: Result<Vec<Stmt>, ParseError>)
    requires
        node.kind == NodeKind::ObjCProtocolDecl,
    ensures
        match protocol_stmts(*node, *config) {
            Ok(v) => r matches Ok(x) && stmts_view(x@) == v,
            Err(e) => r == Err::<Vec<Stmt>, ParseError>(e),
        },
{
    let mut out: Vec<Stmt> = Vec::new();
    assert(stmts_view(out@) =~= seq![]);
    let name = match &node.name {
        Some(n) => n,
        None => return Err(ParseError::MissingName(node.kind)),
    };
    let data = find(&config.protocol_data, name);
    let skipped = match data {
        Some(d) => d.skipped,
        None => false,
    };
    if skipped {
        return Ok(out);
    }
    let availability = match &node.availability {
        Some(a) => a,
        None => return Err(ParseError::MissingAvailability(node.kind)),
    };
    let body = match parse_objc_decl(node, Mode::Protocol, data) {
        Ok(b) => b,
        Err(e) => return Err(e),
    };
    push_stmt(
        &mut out,
        Stmt::ProtocolDecl {
            name: name.clone(),
            availability: availability.clone(),
            protocols: body.protocols,
            methods: body.methods,
        },
    );
    assert(stmts_view(out@) =~= protocol_stmts(*node, *config)->Ok_0);
    Ok(out)
}

impl Stmt {
    /// The statements of one top-level declaration, or why it cannot be
    /// translated.
    pub fn parse(node: &Node, config: &Config) -> (r: Result<Vec<Stmt>, ParseError>)
        ensures
            match parse_spec(*node, *config) {
                Ok(v) => r matches Ok(x) && stmts_view(x@) == v,
                Err(e) => r == Err::<Vec<Stmt>, ParseError>(e),
            },
    {
        match node.kind {
            NodeKind::ObjCClassRef | NodeKind::ObjCProtocolRef | NodeKind::UnionDecl => {
                let out: Vec<Stmt> = Vec::new();
                assert(stmts_view(out@) =~= seq![]);
                Ok(out)
            },
            NodeKind::ObjCInterfaceDecl => parse_interface(node, config),
            NodeKind::ObjCCategoryDecl => parse_category(node, config),
            NodeKind::ObjCProtocolDecl => parse_protocol(node, config),
            NodeKind::TypedefDecl => parse_typedef(node, config),
            NodeKind::StructDecl => parse_named_struct(node, config),
            NodeKind::EnumDecl => parse_enum(node, config),
            NodeKind::VarDecl => parse_var(node, config),
            NodeKind::FunctionDecl => parse_fn(node, config),
            _ => Err(ParseError::UnknownDeclaration(node.kind)),
        }
    }
}

} // verus!
