//! The per-symbol configuration that the builder consults: skip flags,
//! method overrides, derive lists and enum settings, each table keyed by
//! symbol name.
use vstd::prelude::*;

use crate::ir::Derives;

verus! {

/// Overrides for one selector.
#[derive(Debug, Clone, Copy, PartialEq, Eq, Structural)]
pub struct MethodData {
    pub skipped: bool,
    pub is_unsafe: bool,
}

impl Default for MethodData {
    fn default() -> (r: MethodData)
        ensures
            r == default_method_data(),
    {
        MethodData { skipped: false, is_unsafe: true }
    }
}

/// The overrides of a selector that the configuration does not name.
pub open spec fn default_method_data() -> MethodData {
    MethodData { skipped: false, is_unsafe: true }
}

/// Settings of a class or protocol.
#[derive(Debug, Clone, PartialEq, Eq)]
pub struct ClassData {
    pub skipped: bool,
    /// Emit the methods but not the class itself.
    pub definition_skipped: bool,
    /// The derive list; `None` for the default one.
    pub derives: Option<Derives>,
    pub methods: Vec<(String, MethodData)>,
}

/// Settings of a symbol that can only be skipped.
#[derive(Debug, Clone, Copy, PartialEq, Eq, Structural)]
pub struct ItemData {
    pub skipped: bool,
}

/// Settings of an enum.
#[derive(Debug, Clone, PartialEq, Eq)]
pub struct EnumData {
    pub skipped: bool,
    /// Render each constant's evaluated value, never its literal.
    pub use_value: bool,
    pub constants: Vec<(String, ItemData)>,
}

/// The whole configuration store.
#[derive(Debug, Clone, PartialEq, Eq)]
pub struct Config {
    pub class_data: Vec<(String, ClassData)>,
    pub protocol_data: Vec<(String, ClassData)>,
    pub struct_data: Vec<(String, ItemData)>,
    pub typedef_data: Vec<(String, ItemData)>,
    pub enum_data: Vec<(String, EnumData)>,
    pub statics: Vec<(String, ItemData)>,
    pub fns: Vec<(String, ItemData)>,
}

/// The entry of the first pair in `t` whose name is `key`.
pub open spec fn lookup<T>(t: Seq<(String, T)>, key: Seq<char>) -> Option<T>
    decreases t.len(),
{
    if t.len() == 0 {
        None
    } else if t[0].0@ == key {
        Some(t[0].1)
    } else {
        lookup(t.drop_first(), key)
    }
}

/// Finds the entry of the first pair in `t` whose name is `key`.
pub fn find<'a, T>(t: &'a Vec<(String, T)>, key: &String) -> (r: Option<&'a T>)
    ensures
        r is None <==> lookup(t@, key@) is None,
        r matches Some(v) ==> lookup(t@, key@) == Some(*v),
{
    let n = t.len();
    let mut i: usize = 0;
    assert(t@.subrange(0, n as int) =~= t@);
    while i < n
        invariant
            n == t@.len(),
            i <= n,
            lookup(t@, key@) == lookup(t@.subrange(i as int, n as int), key@),
        decreases n - i,
    {
        assert(t@.subrange(i as int, n as int).drop_first() =~= t@.subrange(i + 1, n as int));
        if t[i].0 == *key {
            return Some(&t[i].1);
        }
        i = i + 1;
    }
    None
}

/// Whether an item table marks `key` as skipped.
pub open spec fn item_skipped(t: Seq<(String, ItemData)>, key: Seq<char>) -> bool {
    match lookup(t, key) {
        Some(d) => d.skipped,
        None => false,
    }
}

/// Whether an item table marks `key` as skipped.
pub fn is_item_skipped(t: &Vec<(String, ItemData)>, key: &String) -> (r: bool)
    ensures
        r == item_skipped(t@, key@),
{
    match find(t, key) {
        Some(d) => d.skipped,
        None => false,
    }
}

/// The overrides of `selector` under a class's settings.
pub open spec fn method_data(data: Option<ClassData>, selector: Seq<char>) -> MethodData {
    match data {
        Some(d) => match lookup(d.methods@, selector) {
            Some(m) => m,
            None => default_method_data(),
        },
        None => default_method_data(),
    }
}

/// The overrides of `selector` under a class's settings.
pub fn get_method_data(data: Option<&ClassData>, selector: &String) -> (r: MethodData)
    ensures
        r == method_data(opt_deref(data), selector@),
{
    match data {
        Some(d) => match find(&d.methods, selector) {
            Some(m) => *m,
            None => MethodData::default(),
        },
        None => MethodData::default(),
    }
}

/// The value behind an optional reference.
pub open spec fn opt_deref<T>(o: Option<&T>) -> Option<T> {
    match o {
        Some(v) => Some(*v),
        None => None,
    }
}

/// Whether the settings mark their class as skipped.
pub open spec fn class_skipped(data: Option<ClassData>) -> bool {
    match data {
        Some(d) => d.skipped,
        None => false,
    }
}

} // verus!
