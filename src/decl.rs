//! The body walker shared by classes, categories and protocols: it classifies
//! each child of the declaration, collects generics, the superclass,
//! conformed protocols and methods, and reconciles properties with the
//! accessor methods that the compiler synthesizes for them.
use vstd::prelude::*;

use crate::config::{ClassData, method_data, get_method_data, opt_deref};
use crate::ir::{GenericType, GenericTypeV, Method, MethodV, methods_view, pairs_view, strings_view};
use crate::node::{Node, NodeKind, ParseError, TypeInfo, fold_nodes, lemma_fold_error_persists, lemma_fold_next};
use crate::text::{fn_name_of, selector_fn_name};

verus! {

/// The one accessor whose property may stay without a matching method.
pub open spec fn legacy_accessor() -> (bool, Seq<char>) {
    (false, "setDisplayName"@)
}

/// The views of pending keys.
pub open spec fn keys_view(v: Seq<(bool, String)>) -> Seq<(bool, Seq<char>)> {
    v.map_values(|e: (bool, String)| (e.0, e.1@))
}

/// Accessors of properties that no method node has matched yet, each held
/// once.
pub struct PendingSet {
    entries: Vec<(bool, String)>,
}

impl View for PendingSet {
    type V = Set<(bool, Seq<char>)>;

    closed spec fn view(&self) -> Set<(bool, Seq<char>)> {
        keys_view(self.entries@).to_set()
    }
}

impl PendingSet {
    /// Each key is held once.
    pub closed spec fn wf(&self) -> bool {
        keys_view(self.entries@).no_duplicates()
    }

    /// The empty set.
    pub fn new() -> (r: PendingSet)
        ensures
            r.wf(),
            r@ == Set::<(bool, Seq<char>)>::empty(),
    {
        let r = PendingSet { entries: Vec::new() };
        assert(r@ =~= Set::<(bool, Seq<char>)>::empty());
        r
    }

    fn position(&self, is_class: bool, key: &String) -> (r: Option<usize>)
        ensures
            match r {
                Some(i) => i < self.entries@.len() && keys_view(self.entries@)[i as int] == (
                    is_class,
                    key@,
                ),
                None => !keys_view(self.entries@).contains((is_class, key@)),
            },
    {
        let n = self.entries.len();
        for i in 0..n
            invariant
                n == self.entries@.len(),
                forall|j: int| 0 <= j < i ==> keys_view(self.entries@)[j] != (is_class, key@),
        {
            if self.entries[i].0 == is_class && self.entries[i].1 == *key {
                return Some(i);
            }
        }
        None
    }

    /// Takes the key out; says whether it was there.
    pub fn remove(&mut self, is_class: bool, key: &String) -> (r: bool)
        requires
            old(self).wf(),
        ensures
            final(self).wf(),
            r == old(self)@.contains((is_class, key@)),
            final(self)@ == old(self)@.remove((is_class, key@)),
    {
        let k = Ghost((is_class, key@));
        match self.position(is_class, key) {
            Some(i) => {
                let ghost before = keys_view(self.entries@);
                self.entries.remove(i);
                let ghost after = keys_view(self.entries@);
                assert(after =~= before.remove(i as int));
                assert forall|x: (bool, Seq<char>)| after.contains(x) <==> (before.contains(x) && x
                    != k@) by {
                    if after.contains(x) {
                        let j = choose|j: int| 0 <= j < after.len() && after[j] == x;
                        if j < i {
                            assert(before[j] == x);
                        } else {
                            assert(before[j + 1] == x);
                        }
                    }
                    if before.contains(x) && x != k@ {
                        let j = choose|j: int| 0 <= j < before.len() && before[j] == x;
                        assert(j != i);
                        if j < i {
                            assert(after[j] == x);
                        } else {
                            assert(after[j - 1] == x);
                        }
                    }
                }
                assert(self@ =~= old(self)@.remove(k@));
                true
            },
            None => {
                assert(old(self)@.remove(k@) =~= old(self)@);
                false
            },
        }
    }

    /// Adds the key; says whether it was new.
    pub fn insert(&mut self, is_class: bool, key: String) -> (r: bool)
        requires
            old(self).wf(),
        ensures
            final(self).wf(),
            r == !old(self)@.contains((is_class, key@)),
            final(self)@ == old(self)@.insert((is_class, key@)),
    {
        let k = Ghost((is_class, key@));
        match self.position(is_class, &key) {
            Some(_) => {
                assert(old(self)@.insert(k@) =~= old(self)@);
                false
            },
            None => {
                let ghost before = keys_view(self.entries@);
                self.entries.push((is_class, key));
                let ghost after = keys_view(self.entries@);
                assert(after =~= before.push(k@));
                assert forall|x: (bool, Seq<char>)| after.contains(x) <==> (before.contains(x) || x
                    == k@) by {
                    if after.contains(x) {
                        let j = choose|j: int| 0 <= j < after.len() && after[j] == x;
                        if j < before.len() {
                            assert(before[j] == x);
                        }
                    }
                    if before.contains(x) {
                        let j = choose|j: int| 0 <= j < before.len() && before[j] == x;
                        assert(after[j] == x);
                    }
                    if x == k@ {
                        assert(after[before.len() as int] == x);
                    }
                }
                assert(self@ =~= old(self)@.insert(k@));
                true
            },
        }
    }

    /// Whether nothing is left but, at most, the legacy accessor.
    pub fn is_tolerated(&self) -> (r: bool)
        requires
            self.wf(),
        ensures
            r == (self@ == Set::<(bool, Seq<char>)>::empty() || self@ == set![legacy_accessor()]),
    {
        let ghost ks = keys_view(self.entries@);
        let n = self.entries.len();
        if n == 0 {
            assert(self@ =~= Set::<(bool, Seq<char>)>::empty());
            true
        } else if n == 1 {
            let legacy = String::from_str("setDisplayName");
            proof {
                reveal_strlit("setDisplayName");
            }
            let r = !self.entries[0].0 && self.entries[0].1 == legacy;
            assert(self@ =~= set![ks[0]]);
            assert(self@.contains(ks[0]));
            if !r {
                assert(ks[0] != legacy_accessor());
                assert(!set![ks[0]].contains(legacy_accessor()));
            }
            r
        } else {
            assert(self@.contains(ks[0]));
            assert(self@.contains(ks[1]));
            assert(ks[0] != ks[1]);
            assert(self@ != Set::<(bool, Seq<char>)>::empty());
            false
        }
    }
}

/// Which declaration a body belongs to.
#[derive(Debug, Clone, Copy, PartialEq, Eq, Structural)]
pub enum Mode {
    /// An interface: superclass and generics are captured.
    Class,
    /// A category: generics are captured, no superclass.
    Category,
    /// A protocol: neither.
    Protocol,
}

/// The node kind of a declaration walked in `mode`.
pub open spec fn mode_kind(mode: Mode) -> NodeKind {
    match mode {
        Mode::Class => NodeKind::ObjCInterfaceDecl,
        Mode::Category => NodeKind::ObjCCategoryDecl,
        Mode::Protocol => NodeKind::ObjCProtocolDecl,
    }
}

fn kind_of_mode(mode: Mode) -> (r: NodeKind)
    ensures
        r == mode_kind(mode),
{
    match mode {
        Mode::Class => NodeKind::ObjCInterfaceDecl,
        Mode::Category => NodeKind::ObjCCategoryDecl,
        Mode::Protocol => NodeKind::ObjCProtocolDecl,
    }
}

/// What the walk has collected so far.
pub struct WalkV {
    /// `None` until a superclass is seen; `Some(None)` for a root class.
    pub super_name: Option<Option<Seq<char>>>,
    pub super_generics: Seq<Seq<char>>,
    pub generics: Seq<Seq<char>>,
    pub protocols: Seq<Seq<char>>,
    pub methods: Seq<MethodV>,
    pub pending: Set<(bool, Seq<char>)>,
}

/// The state before the first child.
pub open spec fn walk_init() -> WalkV {
    WalkV {
        super_name: None,
        super_generics: seq![],
        generics: seq![],
        protocols: seq![],
        methods: seq![],
        pending: Set::empty(),
    }
}

/// The accumulated argument list of a method, after one more child.
pub open spec fn argument_step(acc: Seq<(Seq<char>, Seq<char>)>, c: Node) -> Result<
    Seq<(Seq<char>, Seq<char>)>,
    ParseError,
> {
    if c.kind == NodeKind::ParmDecl {
        let name = match c.name {
            Some(n) => n@,
            None => "_"@,
        };
        match c.ty {
            TypeInfo::Rendered(t) => Ok(acc.push((name, t@))),
            _ => Err(ParseError::MissingType(NodeKind::ParmDecl)),
        }
    } else {
        Ok(acc)
    }
}

/// [`argument_step`] as a value.
pub open spec fn argument_stepper() -> spec_fn(Seq<(Seq<char>, Seq<char>)>, Node) -> Result<
    Seq<(Seq<char>, Seq<char>)>,
    ParseError,
> {
    |acc: Seq<(Seq<char>, Seq<char>)>, c: Node| argument_step(acc, c)
}

/// The method that a method node declares under the class's settings; `None`
/// where the settings skip its selector.
pub open spec fn method_of(data: Option<ClassData>, c: Node, selector: Seq<char>) -> Result<
    Option<MethodV>,
    ParseError,
> {
    let fn_name = fn_name_of(selector);
    let md = method_data(data, fn_name);
    if md.skipped {
        Ok(None)
    } else {
        match fold_nodes(c.children@, seq![], argument_stepper()) {
            Err(e) => Err(e),
            Ok(args) => match c.ty {
                TypeInfo::Rendered(t) => Ok(
                    Some(
                        MethodV {
                            selector,
                            fn_name,
                            is_class: c.kind == NodeKind::ObjCClassMethodDecl,
                            is_unsafe: md.is_unsafe,
                            arguments: args,
                            result_type: t@,
                        },
                    ),
                ),
                _ => Err(ParseError::MissingType(c.kind)),
            },
        }
    }
}

/// One method node: the synthesized accessor of a pending property is
/// dropped, any other method is parsed.
pub open spec fn method_step(data: Option<ClassData>, st: WalkV, c: Node) -> Result<
    WalkV,
    ParseError,
> {
    match c.name {
        None => Err(ParseError::MissingName(c.kind)),
        Some(sel) => {
            let key = (c.kind == NodeKind::ObjCClassMethodDecl, fn_name_of(sel@));
            if st.pending.contains(key) {
                Ok(WalkV { pending: st.pending.remove(key), ..st })
            } else {
                match method_of(data, c, sel@) {
                    Err(e) => Err(e),
                    Ok(Some(m)) => Ok(WalkV { methods: st.methods.push(m), ..st }),
                    Ok(None) => Ok(st),
                }
            }
        },
    }
}

/// The getter selector and, unless read-only, the setter selector of a
/// property node.
pub open spec fn property_accessors(c: Node) -> Result<(Seq<char>, Option<Seq<char>>), ParseError> {
    match c.getter_name {
        None => Err(ParseError::MissingName(c.kind)),
        Some(g) => if c.readonly {
            Ok((g@, None))
        } else {
            match c.setter_name {
                None => Err(ParseError::MissingName(c.kind)),
                Some(s) => Ok((g@, Some(s@))),
            }
        },
    }
}

/// The pending set after a property's accessors are added; each must be new.
pub open spec fn property_pending(
    pending: Set<(bool, Seq<char>)>,
    is_class: bool,
    getter: Seq<char>,
    setter: Option<Seq<char>>,
) -> Result<Set<(bool, Seq<char>)>, ParseError> {
    let gk = (is_class, fn_name_of(getter));
    if pending.contains(gk) {
        Err(ParseError::DuplicateProperty)
    } else {
        let p = pending.insert(gk);
        match setter {
            None => Ok(p),
            Some(s) => {
                let sk = (is_class, fn_name_of(s));
                if p.contains(sk) {
                    Err(ParseError::DuplicateProperty)
                } else {
                    Ok(p.insert(sk))
                }
            },
        }
    }
}

/// The getter of a property of type `t`.
pub open spec fn getter_method(data: Option<ClassData>, is_class: bool, g: Seq<char>, t: Seq<char>) -> MethodV {
    MethodV {
        selector: g,
        fn_name: fn_name_of(g),
        is_class,
        is_unsafe: method_data(data, fn_name_of(g)).is_unsafe,
        arguments: seq![],
        result_type: " -> "@ + t,
    }
}

/// The setter of a property of type `t`.
pub open spec fn setter_method(data: Option<ClassData>, is_class: bool, s: Seq<char>, t: Seq<char>) -> MethodV {
    MethodV {
        selector: s,
        fn_name: fn_name_of(s),
        is_class,
        is_unsafe: method_data(data, fn_name_of(s)).is_unsafe,
        arguments: seq![("value"@, t)],
        result_type: seq![],
    }
}

/// The methods that a property adds: its getter and its setter, each unless
/// the settings skip it.
pub open spec fn property_methods(
    data: Option<ClassData>,
    is_class: bool,
    g: Seq<char>,
    setter: Option<Seq<char>>,
    t: Seq<char>,
) -> Seq<MethodV> {
    let gs: Seq<MethodV> = if method_data(data, fn_name_of(g)).skipped {
        seq![]
    } else {
        seq![getter_method(data, is_class, g, t)]
    };
    match setter {
        None => gs,
        Some(s) => if method_data(data, fn_name_of(s)).skipped {
            gs
        } else {
            gs.push(setter_method(data, is_class, s, t))
        },
    }
}

/// One property node: its accessors become pending, and its methods are
/// emitted at once.
pub open spec fn property_step(data: Option<ClassData>, st: WalkV, c: Node) -> Result<
    WalkV,
    ParseError,
> {
    match property_accessors(c) {
        Err(e) => Err(e),
        Ok((g, setter)) => match property_pending(st.pending, c.is_class, g, setter) {
            Err(e) => Err(e),
            Ok(p) => match c.ty {
                TypeInfo::Rendered(t) => Ok(
                    WalkV {
                        pending: p,
                        methods: st.methods + property_methods(data, c.is_class, g, setter, t@),
                        ..st
                    },
                ),
                _ => Err(ParseError::MissingType(c.kind)),
            },
        },
    }
}

/// The walk after one more child of a declaration in `mode`.
pub open spec fn walk_step(mode: Mode, data: Option<ClassData>, st: WalkV, c: Node) -> Result<
    WalkV,
    ParseError,
> {
    let unexpected = Err(ParseError::UnexpectedChild { parent: mode_kind(mode), child: c.kind });
    match c.kind {
        NodeKind::ObjCExplicitProtocolImpl => if mode == Mode::Protocol {
            Ok(st)
        } else {
            unexpected
        },
        NodeKind::ObjCIvarDecl | NodeKind::ObjCException => if mode == Mode::Class {
            Ok(st)
        } else {
            unexpected
        },
        NodeKind::ObjCSuperClassRef => if mode == Mode::Class {
            match c.name {
                Some(n) => Ok(WalkV { super_name: Some(Some(n@)), super_generics: seq![], ..st }),
                None => Err(ParseError::MissingName(c.kind)),
            }
        } else {
            unexpected
        },
        NodeKind::ObjCRootClass => if mode == Mode::Class {
            Ok(WalkV { super_name: Some(None), super_generics: seq![], ..st })
        } else {
            unexpected
        },
        NodeKind::ObjCClassRef => if mode == Mode::Category {
            Ok(st)
        } else {
            unexpected
        },
        NodeKind::TemplateTypeParameter => if mode != Mode::Protocol {
            match c.name {
                Some(n) => Ok(WalkV { generics: st.generics.push(n@), ..st }),
                None => Err(ParseError::MissingName(c.kind)),
            }
        } else {
            unexpected
        },
        NodeKind::ObjCProtocolRef => match c.name {
            Some(n) => Ok(WalkV { protocols: st.protocols.push(n@), ..st }),
            None => Err(ParseError::MissingName(c.kind)),
        },
        NodeKind::ObjCInstanceMethodDecl | NodeKind::ObjCClassMethodDecl => method_step(
            data,
            st,
            c,
        ),
        NodeKind::ObjCPropertyDecl => property_step(data, st, c),
        NodeKind::VisibilityAttr | NodeKind::UnexposedAttr => Ok(st),
        NodeKind::TypeRef => match c.name {
            None => Err(ParseError::MissingName(c.kind)),
            Some(n) => if st.super_name matches Some(Some(_)) {
                Ok(WalkV { super_generics: st.super_generics.push(n@), ..st })
            } else {
                unexpected
            },
        },
        _ => unexpected,
    }
}

/// [`walk_step`] as a value.
pub open spec fn walk_stepper(mode: Mode, data: Option<ClassData>) -> spec_fn(WalkV, Node) -> Result<
    WalkV,
    ParseError,
> {
    |st: WalkV, c: Node| walk_step(mode, data, st, c)
}

/// What the walk of a whole body yields.
pub struct DeclBody {
    /// `None` where no superclass was seen; `Some(None)` for a root class.
    pub superclass: Option<Option<GenericType>>,
    pub generics: Vec<String>,
    pub protocols: Vec<String>,
    pub methods: Vec<Method>,
}

/// The mathematical value of a [`DeclBody`].
pub struct DeclBodyV {
    pub superclass: Option<Option<GenericTypeV>>,
    pub generics: Seq<Seq<char>>,
    pub protocols: Seq<Seq<char>>,
    pub methods: Seq<MethodV>,
}

impl View for DeclBody {
    type V = DeclBodyV;

    open spec fn view(&self) -> DeclBodyV {
        DeclBodyV {
            superclass: match self.superclass {
                Some(Some(g)) => Some(Some(g@)),
                Some(None) => Some(None),
                None => None,
            },
            generics: strings_view(self.generics@),
            protocols: strings_view(self.protocols@),
            methods: methods_view(self.methods@),
        }
    }
}

/// The body of a declaration in `mode`: the walk over all its children, with
/// every property accessor matched by a method node, the legacy one aside.
pub open spec fn objc_decl(mode: Mode, data: Option<ClassData>, node: Node) -> Result<
    DeclBodyV,
    ParseError,
> {
    match fold_nodes(node.children@, walk_init(), walk_stepper(mode, data)) {
        Err(e) => Err(e),
        Ok(st) => if st.pending == Set::<(bool, Seq<char>)>::empty() || st.pending == set![
            legacy_accessor(),
        ] {
            Ok(
                DeclBodyV {
                    superclass: match st.super_name {
                        Some(Some(n)) => Some(Some(GenericTypeV { name: n, generics: st.super_generics })),
                        Some(None) => Some(None),
                        None => None,
                    },
                    generics: st.generics,
                    protocols: st.protocols,
                    methods: st.methods,
                },
            )
        } else {
            Err(ParseError::UnmatchedProperties)
        },
    }
}

/// The arguments of a method node.
fn parse_arguments(c: &Node) -> (r: Result<Vec<(String, String)>, ParseError>)
    ensures
        match fold_nodes(c.children@, seq![], argument_stepper()) {
            Ok(v) => r matches Ok(args) && pairs_view(args@) == v,
            Err(e) => r == Err::<Vec<(String, String)>, ParseError>(e),
        },
{
    let mut args: Vec<(String, String)> = Vec::new();
    let n = c.children.len();
    assert(pairs_view(args@) =~= seq![]);
    for i in 0..n
        invariant
            n == c.children@.len(),
            fold_nodes(c.children@.subrange(0, i as int), seq![], argument_stepper()) == Ok::<
                Seq<(Seq<char>, Seq<char>)>,
                ParseError,
            >(pairs_view(args@)),
    {
        proof {
            lemma_fold_next(c.children@, seq![], argument_stepper(), i as int);
        }
        let a = &c.children[i];
        if a.kind == NodeKind::ParmDecl {
            let name = match &a.name {
                Some(n) => n.clone(),
                None => String::from_str("_"),
            };
            match &a.ty {
                TypeInfo::Rendered(t) => {
                    let ghost before = pairs_view(args@);
                    let ghost pair = (name@, t@);
                    args.push((name, t.clone()));
                    assert(pairs_view(args@) =~= before.push(pair));
                },
                _ => {
                    proof {
                        lemma_fold_error_persists(
                            c.children@,
                            seq![],
                            argument_stepper(),
                            i + 1,
                        );
                    }
                    return Err(ParseError::MissingType(NodeKind::ParmDecl));
                },
            }
        }
    }
    assert(c.children@.subrange(0, n as int) =~= c.children@);
    Ok(args)
}

fn push_string(v: &mut Vec<String>, s: String)
    ensures
        strings_view(final(v)@) == strings_view(old(v)@).push(s@),
{
    let ghost before = strings_view(v@);
    let ghost x = s@;
    v.push(s);
    assert(strings_view(v@) =~= before.push(x));
}

fn push_method(v: &mut Vec<Method>, m: Method)
    ensures
        methods_view(final(v)@) == methods_view(old(v)@).push(m@),
{
    let ghost before = methods_view(v@);
    let ghost x = m@;
    v.push(m);
    assert(methods_view(v@) =~= before.push(x));
}

/// The method that a method node declares, unless its settings skip it.
fn parse_method(data: Option<&ClassData>, c: &Node, selector: &String) -> (r: Result<
    Option<Method>,
    ParseError,
>)
    ensures
        match method_of(opt_deref(data), *c, selector@) {
            Ok(Some(m)) => r matches Ok(Some(x)) && x@ == m,
            Ok(None) => r matches Ok(None),
            Err(e) => r == Err::<Option<Method>, ParseError>(e),
        },
{
    let fn_name = selector_fn_name(selector);
    let md = get_method_data(data, &fn_name);
    if md.skipped {
        return Ok(None);
    }
    let arguments = match parse_arguments(c) {
        Ok(a) => a,
        Err(e) => return Err(e),
    };
    match &c.ty {
        TypeInfo::Rendered(t) => Ok(
            Some(
                Method {
                    selector: selector.clone(),
                    fn_name,
                    is_class: c.kind == NodeKind::ObjCClassMethodDecl,
                    is_unsafe: md.is_unsafe,
                    arguments,
                    result_type: t.clone(),
                },
            ),
        ),
        _ => Err(ParseError::MissingType(c.kind)),
    }
}

/// The walk in progress.
struct Walk {
    super_name: Option<Option<String>>,
    super_generics: Vec<String>,
    generics: Vec<String>,
    protocols: Vec<String>,
    methods: Vec<Method>,
    pending: PendingSet,
}

impl View for Walk {
    type V = WalkV;

    closed spec fn view(&self) -> WalkV {
        WalkV {
            super_name: match self.super_name {
                Some(Some(n)) => Some(Some(n@)),
                Some(None) => Some(None),
                None => None,
            },
            super_generics: strings_view(self.super_generics@),
            generics: strings_view(self.generics@),
            protocols: strings_view(self.protocols@),
            methods: methods_view(self.methods@),
            pending: self.pending@,
        }
    }
}

impl Walk {
    fn new() -> (r: Walk)
        ensures
            r.pending.wf(),
            r@ == walk_init(),
    {
        let r = Walk {
            super_name: None,
            super_generics: Vec::new(),
            generics: Vec::new(),
            protocols: Vec::new(),
            methods: Vec::new(),
            pending: PendingSet::new(),
        };
        assert(r@.super_generics =~= seq![]);
        assert(r@.generics =~= seq![]);
        assert(r@.protocols =~= seq![]);
        assert(r@.methods =~= seq![]);
        r
    }

    fn method(&mut self, data: Option<&ClassData>, c: &Node) -> (r: Result<(), ParseError>)
        requires
            old(self).pending.wf(),
        ensures
            match method_step(opt_deref(data), old(self)@, *c) {
                Ok(v) => r is Ok && final(self).pending.wf() && final(self)@ == v,
                Err(e) => r == Err::<(), ParseError>(e),
            },
    {
        let sel = match &c.name {
            Some(s) => s,
            None => return Err(ParseError::MissingName(c.kind)),
        };
        let fn_name = selector_fn_name(sel);
        let is_class = c.kind == NodeKind::ObjCClassMethodDecl;
        if self.pending.remove(is_class, &fn_name) {
            return Ok(());
        }
        assert(self.pending@ =~= old(self).pending@);
        match parse_method(data, c, sel) {
            Ok(Some(m)) => {
                push_method(&mut self.methods, m);
                Ok(())
            },
            Ok(None) => Ok(()),
            Err(e) => Err(e),
        }
    }

    fn property(&mut self, data: Option<&ClassData>, c: &Node) -> (r: Result<(), ParseError>)
        requires
            old(self).pending.wf(),
        ensures
            match property_step(opt_deref(data), old(self)@, *c) {
                Ok(v) => r is Ok && final(self).pending.wf() && final(self)@ == v,
                Err(e) => r == Err::<(), ParseError>(e),
            },
    {
        let getter = match &c.getter_name {
            Some(g) => g,
            None => return Err(ParseError::MissingName(c.kind)),
        };
        let setter: Option<&String> = if c.readonly {
            None
        } else {
            match &c.setter_name {
                Some(s) => Some(s),
                None => return Err(ParseError::MissingName(c.kind)),
            }
        };
        let getter_fn = selector_fn_name(getter);
        if !self.pending.insert(c.is_class, getter_fn.clone()) {
            return Err(ParseError::DuplicateProperty);
        }
        let setter_fn: Option<String> = match setter {
            Some(s) => {
                let f = selector_fn_name(s);
                if !self.pending.insert(c.is_class, f.clone()) {
                    return Err(ParseError::DuplicateProperty);
                }
                Some(f)
            },
            None => None,
        };
        let t = match &c.ty {
            TypeInfo::Rendered(t) => t,
            _ => return Err(ParseError::MissingType(c.kind)),
        };
        let ghost before = methods_view(self.methods@);
        let gd = get_method_data(data, &getter_fn);
        if !gd.skipped {
            let mut result_type = String::from_str(" -> ");
            result_type.append(t.as_str());
            let arguments: Vec<(String, String)> = Vec::new();
            assert(pairs_view(arguments@) =~= seq![]);
            push_method(
                &mut self.methods,
                Method {
                    selector: getter.clone(),
                    fn_name: getter_fn,
                    is_class: c.is_class,
                    is_unsafe: gd.is_unsafe,
                    arguments,
                    result_type,
                },
            );
        }
        let ghost after_getter = methods_view(self.methods@);
        match (setter, setter_fn) {
            (Some(s), Some(f)) => {
                let sd = get_method_data(data, &f);
                if !sd.skipped {
                    let mut arguments: Vec<(String, String)> = Vec::new();
                    arguments.push((String::from_str("value"), t.clone()));
                    assert(pairs_view(arguments@) =~= seq![("value"@, t@)]);
                    push_method(
                        &mut self.methods,
                        Method {
                            selector: s.clone(),
                            fn_name: f,
                            is_class: c.is_class,
                            is_unsafe: sd.is_unsafe,
                            arguments,
                            result_type: String::new(),
                        },
                    );
                }
            },
            _ => {},
        }
        proof {
            let (g, so) = property_accessors(*c)->Ok_0;
            let added = property_methods(opt_deref(data), c.is_class, g, so, t@);
            assert(methods_view(self.methods@) =~= before + added);
        }
        Ok(())
    }

    fn step(&mut self, mode: Mode, data: Option<&ClassData>, c: &Node) -> (r: Result<(), ParseError>)
        requires
            old(self).pending.wf(),
        ensures
            match walk_step(mode, opt_deref(data), old(self)@, *c) {
                Ok(v) => r is Ok && final(self).pending.wf() && final(self)@ == v,
                Err(e) => r == Err::<(), ParseError>(e),
            },
    {
        let unexpected = ParseError::UnexpectedChild { parent: kind_of_mode(mode), child: c.kind };
        match c.kind {
            NodeKind::ObjCExplicitProtocolImpl => if mode == Mode::Protocol {
                Ok(())
            } else {
                Err(unexpected)
            },
            NodeKind::ObjCIvarDecl | NodeKind::ObjCException => if mode == Mode::Class {
                Ok(())
            } else {
                Err(unexpected)
            },
            NodeKind::ObjCSuperClassRef => if mode == Mode::Class {
                match &c.name {
                    Some(n) => {
                        self.super_name = Some(Some(n.clone()));
                        self.super_generics = Vec::new();
                        assert(strings_view(self.super_generics@) =~= seq![]);
                        Ok(())
                    },
                    None => Err(ParseError::MissingName(c.kind)),
                }
            } else {
                Err(unexpected)
            },
            NodeKind::ObjCRootClass => if mode == Mode::Class {
                self.super_name = Some(None);
                self.super_generics = Vec::new();
                assert(strings_view(self.super_generics@) =~= seq![]);
                Ok(())
            } else {
                Err(unexpected)
            },
            NodeKind::ObjCClassRef => if mode == Mode::Category {
                Ok(())
            } else {
                Err(unexpected)
            },
            NodeKind::TemplateTypeParameter => if mode != Mode::Protocol {
                match &c.name {
                    Some(n) => {
                        push_string(&mut self.generics, n.clone());
                        Ok(())
                    },
                    None => Err(ParseError::MissingName(c.kind)),
                }
            } else {
                Err(unexpected)
            },
            NodeKind::ObjCProtocolRef => match &c.name {
                Some(n) => {
                    push_string(&mut self.protocols, n.clone());
                    Ok(())
                },
                None => Err(ParseError::MissingName(c.kind)),
            },
            NodeKind::ObjCInstanceMethodDecl | NodeKind::ObjCClassMethodDecl => self.method(
                data,
                c,
            ),
            NodeKind::ObjCPropertyDecl => self.property(data, c),
            NodeKind::VisibilityAttr | NodeKind::UnexposedAttr => Ok(()),
            NodeKind::TypeRef => match &c.name {
                None => Err(ParseError::MissingName(c.kind)),
                Some(n) => match &self.super_name {
                    Some(Some(_)) => {
                        push_string(&mut self.super_generics, n.clone());
                        Ok(())
                    },
                    _ => Err(unexpected),
                },
            },
            _ => Err(unexpected),
        }
    }
}

/// Walks the children of a class, category or protocol declaration.
pub fn parse_objc_decl(node: &Node, mode: Mode, data: Option<&ClassData>) -> (r: Result<
    DeclBody,
    ParseError,
>)
    ensures
        match objc_decl(mode, opt_deref(data), *node) {
            Ok(v) => r matches Ok(b) && b@ == v,
            Err(e) => r == Err::<DeclBody, ParseError>(e),
        },
{
    let mut w = Walk::new();
    let n = node.children.len();
    for i in 0..n
        invariant
            n == node.children@.len(),
            w.pending.wf(),
            fold_nodes(
                node.children@.subrange(0, i as int),
                walk_init(),
                walk_stepper(mode, opt_deref(data)),
            ) == Ok::<WalkV, ParseError>(w@),
    {
        proof {
            lemma_fold_next(node.children@, walk_init(), walk_stepper(mode, opt_deref(data)), i as int);
        }
        match w.step(mode, data, &node.children[i]) {
            Ok(()) => {},
            Err(e) => {
                proof {
                    lemma_fold_error_persists(
                        node.children@,
                        walk_init(),
                        walk_stepper(mode, opt_deref(data)),
                        i + 1,
                    );
                }
                return Err(e);
            },
        }
    }
    assert(node.children@.subrange(0, n as int) =~= node.children@);
    if !w.pending.is_tolerated() {
        return Err(ParseError::UnmatchedProperties);
    }
    let superclass = match w.super_name {
        Some(Some(name)) => Some(Some(GenericType { name, generics: w.super_generics })),
        Some(None) => Some(None),
        None => None,
    };
    Ok(DeclBody { superclass, generics: w.generics, protocols: w.protocols, methods: w.methods })
}

} // verus!
