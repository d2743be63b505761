//! Properties of the builder and renderer that relate several calls or hold
//! of every input, proved from the functions' own specifications.
use vstd::prelude::*;

use crate::config::{ClassData, Config, ItemData, class_skipped, lookup, method_data};
use crate::decl::{
    Mode, WalkV, getter_method, legacy_accessor, objc_decl, setter_method, walk_init, walk_step,
    walk_stepper,
};
use crate::ir::{StmtV, opt_view};
use crate::node::{Node, NodeKind, ParseError, fold_nodes, lemma_fold_error_persists, lemma_fold_next};
use crate::render::render_all_spec;
use crate::stmt::{EnumV, class_refs, definition_skipped, enum_step, parse_spec};
use crate::text::fn_name_of;

verus! {

/// The names of the protocol-reference children, in order.
pub open spec fn protocol_ref_names(s: Seq<Node>) -> Seq<Seq<char>>
    decreases s.len(),
{
    if s.len() == 0 {
        seq![]
    } else if s.last().kind == NodeKind::ObjCProtocolRef {
        protocol_ref_names(s.drop_last()).push(s.last().name->0@)
    } else {
        protocol_ref_names(s.drop_last())
    }
}

proof fn lemma_walk_protocols(mode: Mode, data: Option<ClassData>, s: Seq<Node>)
    requires
        fold_nodes(s, walk_init(), walk_stepper(mode, data)) is Ok,
    ensures
        fold_nodes(s, walk_init(), walk_stepper(mode, data))->Ok_0.protocols == protocol_ref_names(
            s,
        ),
    decreases s.len(),
{
    if s.len() > 0 {
        lemma_walk_protocols(mode, data, s.drop_last());
    }
}

/// An interface that is not skipped yields its class (unless only the
/// definition is skipped), then one `ProtocolImpl` for each protocol
/// reference among its children, in order, then exactly one `Methods`.
pub proof fn law_interface_statement_order(node: Node, config: Config)
    requires
        node.kind == NodeKind::ObjCInterfaceDecl,
        parse_spec(node, config) is Ok,
        !class_skipped(lookup(config.class_data@, node.name->0@)),
    ensures
        ({
            let v = parse_spec(node, config)->Ok_0;
            let data = lookup(config.class_data@, node.name->0@);
            let k: int = if definition_skipped(data) {
                0
            } else {
                1
            };
            let protocols = protocol_ref_names(node.children@);
            &&& v.len() == k + protocols.len() + 1
            &&& k == 1 ==> v[0] is ClassDecl
            &&& forall|j: int|
                0 <= j < protocols.len() ==> ((#[trigger] v[k + j]) matches StmtV::ProtocolImpl {
                    protocol,
                    ..
                } && protocol == protocols[j])
            &&& v[v.len() - 1] is Methods
        }),
{
    let data = lookup(config.class_data@, node.name->0@);
    lemma_walk_protocols(Mode::Class, data, node.children@);
}

/// A property node with a setter adds exactly two methods, its getter and
/// then its setter, whose selectors differ; without a setter it adds exactly
/// its getter. (Unless the settings skip an accessor.)
pub proof fn law_property_methods(mode: Mode, data: Option<ClassData>, st: WalkV, c: Node)
    requires
        c.kind == NodeKind::ObjCPropertyDecl,
        walk_step(mode, data, st, c) is Ok,
        !method_data(data, fn_name_of(c.getter_name->0@)).skipped,
        !c.readonly ==> !method_data(data, fn_name_of(c.setter_name->0@)).skipped,
    ensures
        ({
            let after = walk_step(mode, data, st, c)->Ok_0;
            let g = c.getter_name->0@;
            let t = c.ty->Rendered_0@;
            &&& c.readonly ==> after.methods == st.methods.push(getter_method(data, c.is_class, g, t))
            &&& !c.readonly ==> {
                let s = c.setter_name->0@;
                &&& after.methods == st.methods.push(getter_method(data, c.is_class, g, t)).push(
                    setter_method(data, c.is_class, s, t),
                )
                &&& g != s
            }
        }),
{
    let after = walk_step(mode, data, st, c)->Ok_0;
    let g = c.getter_name->0@;
    let t = c.ty->Rendered_0@;
    if c.readonly {
        assert(after.methods =~= st.methods.push(getter_method(data, c.is_class, g, t)));
    } else {
        let s = c.setter_name->0@;
        assert(after.methods =~= st.methods.push(getter_method(data, c.is_class, g, t)).push(
            setter_method(data, c.is_class, s, t),
        ));
        let gk = (c.is_class, fn_name_of(g));
        let sk = (c.is_class, fn_name_of(s));
        assert(!st.pending.insert(gk).contains(sk));
    }
}

/// The key under which a method node would match a pending accessor.
pub open spec fn method_key(c: Node) -> Option<(bool, Seq<char>)> {
    if (c.kind == NodeKind::ObjCInstanceMethodDecl || c.kind == NodeKind::ObjCClassMethodDecl)
        && c.name is Some {
        Some((c.kind == NodeKind::ObjCClassMethodDecl, fn_name_of(c.name->0@)))
    } else {
        None
    }
}

proof fn lemma_step_keeps_pending(
    mode: Mode,
    data: Option<ClassData>,
    st: WalkV,
    c: Node,
    k: (bool, Seq<char>),
)
    requires
        walk_step(mode, data, st, c) is Ok,
        st.pending.contains(k),
        method_key(c) != Some(k),
    ensures
        walk_step(mode, data, st, c)->Ok_0.pending.contains(k),
{
}

/// The walk over the first `l` children.
pub open spec fn walk_prefix(mode: Mode, data: Option<ClassData>, s: Seq<Node>, l: int) -> Result<
    WalkV,
    ParseError,
> {
    fold_nodes(s.subrange(0, l), walk_init(), walk_stepper(mode, data))
}

/// Whether property node `c` has the getter (`setter == false`) or the
/// setter (`setter == true`).
pub open spec fn has_accessor(c: Node, setter: bool) -> bool {
    &&& c.kind == NodeKind::ObjCPropertyDecl
    &&& c.getter_name is Some
    &&& setter ==> !c.readonly && c.setter_name is Some
}

/// The key under which a property's getter or setter waits for its method.
pub open spec fn accessor_key(c: Node, setter: bool) -> (bool, Seq<char>) {
    if setter {
        (c.is_class, fn_name_of(c.setter_name->0@))
    } else {
        (c.is_class, fn_name_of(c.getter_name->0@))
    }
}

proof fn lemma_property_registers(
    mode: Mode,
    data: Option<ClassData>,
    st: WalkV,
    c: Node,
    setter: bool,
)
    requires
        has_accessor(c, setter),
        walk_step(mode, data, st, c) is Ok,
    ensures
        walk_step(mode, data, st, c)->Ok_0.pending.contains(accessor_key(c, setter)),
{
}

proof fn lemma_property_duplicate(
    mode: Mode,
    data: Option<ClassData>,
    st: WalkV,
    c: Node,
    setter: bool,
)
    requires
        has_accessor(c, setter),
        st.pending.contains(accessor_key(c, setter)),
    ensures
        walk_step(mode, data, st, c) is Err,
{
    if setter {
        let gk = accessor_key(c, false);
        if !st.pending.contains(gk) {
            assert(st.pending.insert(gk).contains(accessor_key(c, true)));
        }
    }
}

proof fn lemma_step_methods_grow(mode: Mode, data: Option<ClassData>, st: WalkV, c: Node)
    requires
        walk_step(mode, data, st, c) is Ok,
    ensures
        walk_step(mode, data, st, c)->Ok_0.methods.len() >= st.methods.len(),
        walk_step(mode, data, st, c)->Ok_0.methods.subrange(0, st.methods.len() as int)
            == st.methods,
{
    let r = walk_step(mode, data, st, c)->Ok_0;
    assert(r.methods.subrange(0, st.methods.len() as int) =~= st.methods);
}

/// Where the whole walk succeeds, the walk over each prefix succeeds too.
proof fn lemma_prefix_ok(mode: Mode, data: Option<ClassData>, s: Seq<Node>, l: int)
    requires
        0 <= l <= s.len(),
        fold_nodes(s, walk_init(), walk_stepper(mode, data)) is Ok,
    ensures
        walk_prefix(mode, data, s, l) is Ok,
{
    if walk_prefix(mode, data, s, l) is Err {
        lemma_fold_error_persists(s, walk_init(), walk_stepper(mode, data), l);
    }
}

proof fn lemma_methods_prefix(mode: Mode, data: Option<ClassData>, s: Seq<Node>, l1: int, l2: int)
    requires
        0 <= l1 <= l2 <= s.len(),
        walk_prefix(mode, data, s, l2) is Ok,
    ensures
        walk_prefix(mode, data, s, l1) is Ok,
        walk_prefix(mode, data, s, l2)->Ok_0.methods.len() >= walk_prefix(
            mode,
            data,
            s,
            l1,
        )->Ok_0.methods.len(),
        walk_prefix(mode, data, s, l2)->Ok_0.methods.subrange(
            0,
            walk_prefix(mode, data, s, l1)->Ok_0.methods.len() as int,
        ) == walk_prefix(mode, data, s, l1)->Ok_0.methods,
    decreases l2,
{
    if l1 < l2 {
        lemma_fold_next(s, walk_init(), walk_stepper(mode, data), l2 - 1);
        let prev = walk_prefix(mode, data, s, l2 - 1);
        if prev is Err {
            assert(walk_prefix(mode, data, s, l2) is Err);
        }
        let st = prev->Ok_0;
        lemma_step_methods_grow(mode, data, st, s[l2 - 1]);
        lemma_methods_prefix(mode, data, s, l1, l2 - 1);
        let m1 = walk_prefix(mode, data, s, l1)->Ok_0.methods;
        let m2 = walk_prefix(mode, data, s, l2)->Ok_0.methods;
        assert(m2.subrange(0, m1.len() as int) =~= st.methods.subrange(0, m1.len() as int));
    } else {
        let m1 = walk_prefix(mode, data, s, l1)->Ok_0.methods;
        assert(m1.subrange(0, m1.len() as int) =~= m1);
    }
}

/// Once key `k` is pending after child `j`, it stays pending through every
/// later child below `hi` that is not a method node with key `k`.
proof fn lemma_pending_kept(
    mode: Mode,
    data: Option<ClassData>,
    s: Seq<Node>,
    j: int,
    k: (bool, Seq<char>),
    l: int,
    hi: int,
)
    requires
        0 <= j < l <= hi <= s.len(),
        walk_prefix(mode, data, s, j + 1) is Ok,
        walk_prefix(mode, data, s, j + 1)->Ok_0.pending.contains(k),
        forall|m: int| j < m < hi ==> method_key(#[trigger] s[m]) != Some(k),
    ensures
        walk_prefix(mode, data, s, l) is Ok ==> walk_prefix(mode, data, s, l)->Ok_0.pending.contains(
            k,
        ),
    decreases l,
{
    if l > j + 1 {
        lemma_pending_kept(mode, data, s, j, k, l - 1, hi);
        lemma_fold_next(s, walk_init(), walk_stepper(mode, data), l - 1);
        let prev = walk_prefix(mode, data, s, l - 1);
        if let Ok(st) = prev {
            if walk_step(mode, data, st, s[l - 1]) is Ok {
                lemma_step_keeps_pending(mode, data, st, s[l - 1], k);
            }
        }
    }
}

/// Each accessor of a property must be matched by a method node that
/// follows the property. A property whose getter or setter has no such
/// method node (for instance because the method was declared explicitly
/// before it) makes the whole body rejected, unless that accessor is the
/// legacy one.
pub proof fn law_unmatched_accessor_rejected(
    mode: Mode,
    data: Option<ClassData>,
    node: Node,
    j: int,
    setter: bool,
)
    requires
        0 <= j < node.children@.len(),
        has_accessor(node.children@[j], setter),
        accessor_key(node.children@[j], setter) != legacy_accessor(),
        forall|m: int|
            j < m < node.children@.len() ==> method_key(#[trigger] node.children@[m]) != Some(
                accessor_key(node.children@[j], setter),
            ),
    ensures
        objc_decl(mode, data, node) is Err,
{
    let s = node.children@;
    let step = walk_stepper(mode, data);
    let k = accessor_key(s[j], setter);
    lemma_fold_next(s, walk_init(), step, j);
    assert(s.subrange(0, s.len() as int) =~= s);
    if walk_prefix(mode, data, s, j + 1) is Err {
        lemma_fold_error_persists(s, walk_init(), step, j + 1);
    } else {
        lemma_property_registers(mode, data, walk_prefix(mode, data, s, j)->Ok_0, s[j], setter);
        lemma_pending_kept(mode, data, s, j, k, s.len() as int, s.len() as int);
        if let Ok(st) = fold_nodes(s, walk_init(), step) {
            assert(st.pending.contains(k));
            assert(!set![legacy_accessor()].contains(k));
            assert(!Set::<(bool, Seq<char>)>::empty().contains(k));
        }
    }
}

/// Two properties whose accessors map to the same key, with no method node
/// between them that matches the first one's accessor, make the whole body
/// rejected: the key is still pending when the second property comes.
pub proof fn law_duplicate_accessor_rejected(
    mode: Mode,
    data: Option<ClassData>,
    node: Node,
    i: int,
    setter_i: bool,
    j: int,
    setter_j: bool,
)
    requires
        0 <= i < j < node.children@.len(),
        has_accessor(node.children@[i], setter_i),
        has_accessor(node.children@[j], setter_j),
        accessor_key(node.children@[i], setter_i) == accessor_key(node.children@[j], setter_j),
        forall|m: int|
            i < m < j ==> method_key(#[trigger] node.children@[m]) != Some(
                accessor_key(node.children@[i], setter_i),
            ),
    ensures
        objc_decl(mode, data, node) is Err,
{
    let s = node.children@;
    let step = walk_stepper(mode, data);
    let k = accessor_key(s[i], setter_i);
    lemma_fold_next(s, walk_init(), step, i);
    lemma_fold_next(s, walk_init(), step, j);
    if walk_prefix(mode, data, s, i + 1) is Err {
        lemma_fold_error_persists(s, walk_init(), step, i + 1);
    } else {
        lemma_property_registers(mode, data, walk_prefix(mode, data, s, i)->Ok_0, s[i], setter_i);
        lemma_pending_kept(mode, data, s, i, k, j, j);
        if let Ok(st) = walk_prefix(mode, data, s, j) {
            lemma_property_duplicate(mode, data, st, s[j], setter_j);
        }
        assert(walk_prefix(mode, data, s, j + 1) is Err);
        lemma_fold_error_persists(s, walk_init(), step, j + 1);
    }
}

/// Over a whole accepted walk, a property whose accessors the settings do
/// not skip puts exactly its getter, then (where it has one) its setter into
/// the method list, right after the methods of the children before it, and
/// its two selectors differ.
pub proof fn law_property_methods_in_walk(mode: Mode, data: Option<ClassData>, node: Node, j: int)
    requires
        0 <= j < node.children@.len(),
        node.children@[j].kind == NodeKind::ObjCPropertyDecl,
        objc_decl(mode, data, node) is Ok,
        !method_data(data, fn_name_of(node.children@[j].getter_name->0@)).skipped,
        !node.children@[j].readonly ==> !method_data(
            data,
            fn_name_of(node.children@[j].setter_name->0@),
        ).skipped,
    ensures
        ({
            let c = node.children@[j];
            let before = walk_prefix(mode, data, node.children@, j)->Ok_0.methods;
            let all = objc_decl(mode, data, node)->Ok_0.methods;
            let g = c.getter_name->0@;
            let t = c.ty->Rendered_0@;
            let n = before.len() as int;
            &&& walk_prefix(mode, data, node.children@, j) is Ok
            &&& c.readonly ==> all.len() >= n + 1 && all.subrange(0, n + 1) == before.push(
                getter_method(data, c.is_class, g, t),
            )
            &&& !c.readonly ==> {
                let sel = c.setter_name->0@;
                &&& all.len() >= n + 2
                &&& all.subrange(0, n + 2) == before.push(
                    getter_method(data, c.is_class, g, t),
                ).push(setter_method(data, c.is_class, sel, t))
                &&& g != sel
            }
        }),
{
    let s = node.children@;
    let step = walk_stepper(mode, data);
    assert(s.subrange(0, s.len() as int) =~= s);
    lemma_prefix_ok(mode, data, s, j);
    lemma_prefix_ok(mode, data, s, j + 1);
    lemma_fold_next(s, walk_init(), step, j);
    let st = walk_prefix(mode, data, s, j)->Ok_0;
    law_property_methods(mode, data, st, s[j]);
    lemma_methods_prefix(mode, data, s, j + 1, s.len() as int);
    let mid = walk_prefix(mode, data, s, j + 1)->Ok_0.methods;
    let all = objc_decl(mode, data, node)->Ok_0.methods;
    let n = st.methods.len() as int;
    if s[j].readonly {
        assert(all.subrange(0, n + 1) =~= mid);
    } else {
        assert(all.subrange(0, n + 2) =~= mid);
    }
}

/// The first method node after a property whose key is one of the
/// property's accessors is the accessor the compiler synthesized for it: it
/// adds no method to the list.
pub proof fn law_synthesized_accessor_adds_nothing(
    mode: Mode,
    data: Option<ClassData>,
    node: Node,
    j: int,
    setter: bool,
    m: int,
)
    requires
        0 <= j < m < node.children@.len(),
        has_accessor(node.children@[j], setter),
        method_key(node.children@[m]) == Some(accessor_key(node.children@[j], setter)),
        forall|l: int|
            j < l < m ==> method_key(#[trigger] node.children@[l]) != Some(
                accessor_key(node.children@[j], setter),
            ),
        objc_decl(mode, data, node) is Ok,
    ensures
        walk_prefix(mode, data, node.children@, m) is Ok,
        walk_prefix(mode, data, node.children@, m + 1) is Ok,
        walk_prefix(mode, data, node.children@, m + 1)->Ok_0.methods == walk_prefix(
            mode,
            data,
            node.children@,
            m,
        )->Ok_0.methods,
{
    let s = node.children@;
    let step = walk_stepper(mode, data);
    let k = accessor_key(s[j], setter);
    lemma_prefix_ok(mode, data, s, j);
    lemma_prefix_ok(mode, data, s, j + 1);
    lemma_prefix_ok(mode, data, s, m);
    lemma_prefix_ok(mode, data, s, m + 1);
    lemma_fold_next(s, walk_init(), step, j);
    lemma_fold_next(s, walk_init(), step, m);
    lemma_property_registers(mode, data, walk_prefix(mode, data, s, j)->Ok_0, s[j], setter);
    lemma_pending_kept(mode, data, s, j, k, m, m);
}

/// The builder and the renderer are functions of the declaration and the
/// configuration: the same inputs give the same statements and the same
/// text.
pub proof fn law_deterministic(n1: Node, c1: Config, n2: Node, c2: Config)
    requires
        n1 == n2,
        c1 == c2,
    ensures
        parse_spec(n1, c1) == parse_spec(n2, c2),
        parse_spec(n1, c1) is Ok ==> render_all_spec(parse_spec(n1, c1)->Ok_0) == render_all_spec(
            parse_spec(n2, c2)->Ok_0,
        ),
{
}

/// A retained enum constant gets its evaluated value where the settings ask
/// for values, whether or not a literal parses; otherwise its literal where
/// one parses, else its evaluated value.
pub proof fn law_enum_constant_value(
    use_value: bool,
    constants: Seq<(String, ItemData)>,
    st: EnumV,
    c: Node,
)
    requires
        c.kind == NodeKind::EnumConstantDecl,
        c.name is Some,
        c.value is Some,
        enum_step(use_value, constants, st, c) is Ok,
        enum_step(use_value, constants, st, c)->Ok_0.variants.len() > st.variants.len(),
    ensures
        ({
            let v = enum_step(use_value, constants, st, c)->Ok_0.variants;
            let e = v[v.len() - 1].1;
            &&& v.len() == st.variants.len() + 1
            &&& v[v.len() - 1].0 == c.name->0@
            &&& use_value ==> e == c.value->0@
            &&& !use_value && c.literal is Some ==> e == c.literal->0@
            &&& !use_value && c.literal is None ==> e == c.value->0@
        }),
{
}

/// A variadic function yields no statement, and no error.
pub proof fn law_variadic_function_skipped(node: Node, config: Config)
    requires
        node.kind == NodeKind::FunctionDecl,
        node.name is Some,
        node.is_variadic,
    ensures
        parse_spec(node, config) == Ok::<Seq<StmtV>, ParseError>(seq![]),
{
}

/// A category with exactly one class reference, whose class is not skipped,
/// yields exactly one `Methods`, first, named after the category (or
/// unnamed), followed only by `ProtocolImpl`s.
pub proof fn law_category_methods(node: Node, config: Config)
    requires
        node.kind == NodeKind::ObjCCategoryDecl,
        class_refs(node.children@).len() == 1,
        parse_spec(node, config) is Ok,
        class_refs(node.children@)[0] matches Some(cls) && !class_skipped(
            lookup(config.class_data@, cls@),
        ),
    ensures
        ({
            let v = parse_spec(node, config)->Ok_0;
            &&& v.len() >= 1
            &&& (v[0] matches StmtV::Methods { category_name, .. } && category_name == opt_view(
                node.name,
            ))
            &&& forall|j: int| 1 <= j < v.len() ==> (#[trigger] v[j]) is ProtocolImpl
        }),
{
}

} // verus!
