//! The values of a D-Bus message as the portal negotiation reads them.
use vstd::prelude::*;

use crate::text::same_text;

verus! {

/// A D-Bus value, with the distinctions that the portal negotiation draws.
pub enum Variant {
    /// A string, an object path or a signature (`s`, `o`, `g`).
    Str(String),
    /// An unsigned 32-bit integer (`u`).
    U32(u32),
    /// A boxed value (`v`).
    Boxed(Box<Variant>),
    /// A vardict (`a{sv}`); its children are its entries, each a container of a
    /// string key and a boxed value.
    Dict(Vec<Variant>),
    /// Any other container: a tuple, an array, a dictionary entry, a maybe.
    Container(Vec<Variant>),
    /// Any other basic value.
    Scalar,
}

/// Whether the value has children (`g_variant_is_container`).
pub open spec fn is_container(v: Variant) -> bool {
    v is Boxed || v is Dict || v is Container
}

/// The children of a value, in order; a boxed value has one child, the value inside.
pub open spec fn children(v: Variant) -> Seq<Variant> {
    match v {
        Variant::Boxed(b) => seq![*b],
        Variant::Dict(items) => items@,
        Variant::Container(items) => items@,
        _ => Seq::empty(),
    }
}

/// The text of a string-like value (what `Variant::get::<String>` gives).
pub open spec fn str_of(v: Variant) -> Option<Seq<char>> {
    match v {
        Variant::Str(s) => Some(s@),
        _ => None,
    }
}

/// The number held by a `u` value (what `Variant::get::<u32>` gives).
pub open spec fn u32_of(v: Variant) -> Option<u32> {
    match v {
        Variant::U32(n) => Some(n),
        _ => None,
    }
}

/// The value with one level of boxing removed, if it is boxed.
pub open spec fn unboxed(v: Variant) -> Variant {
    match v {
        Variant::Boxed(b) => *b,
        _ => v,
    }
}

/// The key of a dictionary entry, if its first child is string-like.
pub open spec fn entry_key(e: Variant) -> Option<Seq<char>> {
    if children(e).len() >= 1 {
        str_of(children(e)[0])
    } else {
        None
    }
}

/// The value of a dictionary entry: its second child, unboxed.
pub open spec fn entry_value(e: Variant) -> Variant {
    unboxed(children(e)[1])
}

/// A vardict whose entries all have the `{sv}` shape.
pub open spec fn is_vardict(v: Variant) -> bool {
    &&& v is Dict
    &&& forall|i: int|
        0 <= i < children(v).len() ==> {
            let e = #[trigger] children(v)[i];
            &&& e is Container
            &&& children(e).len() == 2
            &&& children(e)[0] is Str
            &&& children(e)[1] is Boxed
        }
}

/// What a vardict holds under `key`: as in `g_variant_dict_new`, a later entry
/// replaces an earlier one with the same key.
pub open spec fn dict_lookup(entries: Seq<Variant>, key: Seq<char>) -> Option<Variant>
    decreases entries.len(),
{
    if entries.len() == 0 {
        None
    } else if entry_key(entries.last()) == Some(key) {
        Some(entry_value(entries.last()))
    } else {
        dict_lookup(entries.drop_last(), key)
    }
}

/// The string held under `key` in a (possibly boxed) response dictionary;
/// `None` when the key is missing or holds another type.
pub open spec fn dict_str(dict: Variant, key: Seq<char>) -> Option<Seq<char>> {
    match dict_lookup(children(unboxed(dict)), key) {
        Some(v) => str_of(v),
        None => None,
    }
}

impl Variant {
    /// The number of children (`Variant::n_children`).
    pub fn n_children(&self) -> (n: usize)
        requires
            is_container(*self),
        ensures
            n == children(*self).len(),
    {
        match self {
            Variant::Boxed(_) => 1,
            Variant::Dict(items) => items.len(),
            Variant::Container(items) => items.len(),
            _ => 0,
        }
    }

    /// The child at `i` (`Variant::child_value`).
    pub fn child(&self, i: usize) -> (c: &Variant)
        requires
            is_container(*self),
            i < children(*self).len(),
        ensures
            *c == children(*self)[i as int],
    {
        match self {
            Variant::Boxed(b) => &**b,
            Variant::Dict(items) => &items[i],
            Variant::Container(items) => &items[i],
            _ => self,
        }
    }

    /// The value inside, if boxed; the value itself otherwise.
    pub fn unbox(&self) -> (r: &Variant)
        ensures
            *r == unboxed(*self),
    {
        match self {
            Variant::Boxed(b) => &**b,
            _ => self,
        }
    }

    /// The number held, if this is a `u` value.
    pub fn get_u32(&self) -> (r: Option<u32>)
        ensures
            r == u32_of(*self),
    {
        match self {
            Variant::U32(n) => Some(*n),
            _ => None,
        }
    }

    /// The text held, if this is string-like.
    pub fn get_str(&self) -> (r: Option<&String>)
        ensures
            match r {
                Some(s) => str_of(*self) == Some(s@),
                None => str_of(*self) is None,
            },
    {
        match self {
            Variant::Str(s) => Some(s),
            _ => None,
        }
    }
}

/// Looks up a string under `key` in a response dictionary, unboxing it first
/// when the portal wrapped it in a variant.
pub fn lookup_str(dict: &Variant, key: &str) -> (r: Option<String>)
    requires
        is_vardict(unboxed(*dict)),
    ensures
        match r {
            Some(s) => dict_str(*dict, key@) == Some(s@),
            None => dict_str(*dict, key@) is None,
        },
{
    let d = dict.unbox();
    let n = d.n_children();
    let ghost entries = children(*d);
    let mut i = n;
    assert(entries.subrange(0, n as int) =~= entries);
    while i > 0
        invariant
            i <= n == entries.len(),
            *d == unboxed(*dict),
            entries == children(*d),
            is_vardict(*d),
            dict_lookup(entries, key@) == dict_lookup(entries.subrange(0, i as int), key@),
        decreases i,
    {
        let e = d.child(i - 1);
        assert(entries.subrange(0, i as int).last() == entries[i - 1]);
        assert(entries.subrange(0, i as int).drop_last() =~= entries.subrange(0, i - 1));
        assert(e is Container && children(*e).len() == 2);
        let k = e.child(0).get_str();
        match k {
            Some(ks) => {
                if same_text(ks, key) {
                    let value = e.child(1).unbox();
                    return match value.get_str() {
                        Some(s) => Some(s.clone()),
                        None => None,
                    };
                }
            },
            None => {},
        }
        i = i - 1;
    }
    assert(entries.subrange(0, 0) =~= Seq::<Variant>::empty());
    None
}

/// The index of the first entry, from `i` on, that has a second child and the key `streams`.
pub open spec fn first_streams_entry(entries: Seq<Variant>, i: nat) -> Option<nat>
    decreases entries.len() - i,
{
    if i >= entries.len() {
        None
    } else if children(entries[i as int]).len() >= 2 && entry_key(entries[i as int]) == Some(
        "streams"@,
    ) {
        Some(i)
    } else {
        first_streams_entry(entries, i + 1)
    }
}

/// The `streams` value of a `Start` response, unboxed, if the key is present.
pub open spec fn streams_value(results: Variant) -> Option<Variant> {
    let entries = children(unboxed(results));
    match first_streams_entry(entries, 0) {
        Some(i) => Some(unboxed(children(entries[i as int])[1])),
        None => None,
    }
}

/// The PipeWire node of the first stream in a `Start` response: the first
/// child of the first element of the `streams` array.
pub open spec fn stream_node(results: Variant) -> Option<u32> {
    match streams_value(results) {
        None => None,
        Some(streams) => if children(streams).len() == 0 {
            None
        } else {
            let first = children(streams)[0];
            if children(first).len() < 1 {
                None
            } else {
                u32_of(children(first)[0])
            }
        },
    }
}

/// The scan of a `Start` response reaches only containers where it asks for
/// children (elsewhere `Variant::n_children` panics).
pub open spec fn stream_scan_defined(results: Variant) -> bool {
    let r = unboxed(results);
    let entries = children(r);
    let scanned = match first_streams_entry(entries, 0) {
        Some(i) => i + 1,
        None => entries.len(),
    };
    &&& is_container(r)
    &&& forall|j: int| 0 <= j < scanned ==> is_container(#[trigger] entries[j])
    &&& match streams_value(results) {
        Some(streams) => is_container(streams) && (children(streams).len() > 0 ==> is_container(
            children(streams)[0],
        )),
        None => true,
    }
}

proof fn lemma_first_streams_entry_bounds(entries: Seq<Variant>, i: nat)
    ensures
        match first_streams_entry(entries, i) {
            Some(k) => i <= k < entries.len() && children(entries[k as int]).len() >= 2
                && entry_key(entries[k as int]) == Some("streams"@),
            None => true,
        },
    decreases entries.len() - i,
{
    if i < entries.len() {
        lemma_first_streams_entry_bounds(entries, i + 1);
    }
}

/// Reads the PipeWire node id of the first stream out of a `Start` response.
pub fn parse_streams(results: &Variant) -> (r: Option<u32>)
    requires
        stream_scan_defined(*results),
    ensures
        r == stream_node(*results),
{
    let r = results.unbox();
    let n = r.n_children();
    let ghost entries = children(*r);
    proof {
        lemma_first_streams_entry_bounds(entries, 0);
    }
    let mut i: usize = 0;
    while i < n
        invariant
            i <= n == entries.len(),
            *r == unboxed(*results),
            entries == children(*r),
            stream_scan_defined(*results),
            first_streams_entry(entries, i as nat) == first_streams_entry(entries, 0),
        decreases n - i,
    {
        proof {
            lemma_first_streams_entry_bounds(entries, i as nat);
        }
        let entry = r.child(i);
        let m = entry.n_children();
        let mut is_streams = false;
        if m >= 2 {
            match entry.child(0).get_str() {
                Some(k) => {
                    proof {
                        reveal_strlit("streams");
                    }
                    is_streams = same_text(k, "streams");
                },
                None => {},
            }
        }
        if is_streams {
            let boxed = entry.child(1);
            let streams = boxed.unbox();
            if streams.n_children() == 0 {
                return None;
            }
            let first = streams.child(0);
            if first.n_children() < 1 {
                return None;
            }
            return first.child(0).get_u32();
        }
        i = i + 1;
    }
    None
}

/// Whether a value is a container (`Variant::is_container`).
pub fn container(v: &Variant) -> (r: bool)
    ensures
        r == is_container(*v),
{
    match v {
        Variant::Boxed(_) | Variant::Dict(_) | Variant::Container(_) => true,
        _ => false,
    }
}

/// Whether a value is a vardict whose entries have the `{sv}` shape.
pub fn vardict(v: &Variant) -> (r: bool)
    ensures
        r == is_vardict(*v),
{
    let items = match v {
        Variant::Dict(items) => items,
        _ => {
            return false;
        },
    };
    let mut i: usize = 0;
    while i < items.len()
        invariant
            i <= items@.len(),
            *v == Variant::Dict(*items),
            forall|j: int|
                0 <= j < i ==> {
                    let e = #[trigger] children(*v)[j];
                    &&& e is Container
                    &&& children(e).len() == 2
                    &&& children(e)[0] is Str
                    &&& children(e)[1] is Boxed
                },
        decreases items.len() - i,
    {
        let ok = match &items[i] {
            Variant::Container(c) => c.len() == 2 && match (&c[0], &c[1]) {
                (Variant::Str(_), Variant::Boxed(_)) => true,
                _ => false,
            },
            _ => false,
        };
        if !ok {
            assert(children(*v)[i as int] == items@[i as int]);
            return false;
        }
        i = i + 1;
    }
    true
}

/// Whether a `Start` response can be scanned for its streams without asking a
/// non-container for children.
pub fn stream_scan_ok(results: &Variant) -> (r: bool)
    ensures
        r == stream_scan_defined(*results),
{
    let r = results.unbox();
    if !container(r) {
        return false;
    }
    let n = r.n_children();
    let ghost entries = children(*r);
    let mut i: usize = 0;
    while i < n
        invariant
            i <= n == entries.len(),
            *r == unboxed(*results),
            is_container(*r),
            entries == children(*r),
            first_streams_entry(entries, i as nat) == first_streams_entry(entries, 0),
            forall|j: int| 0 <= j < i ==> is_container(#[trigger] entries[j]),
        decreases n - i,
    {
        proof {
            lemma_first_streams_entry_bounds(entries, i as nat);
        }
        let entry = r.child(i);
        if !container(entry) {
            proof {
                match first_streams_entry(entries, 0) {
                    Some(k) => assert(i <= k),
                    None => {},
                }
            }
            return false;
        }
        let mut is_streams = false;
        if entry.n_children() >= 2 {
            match entry.child(0).get_str() {
                Some(k) => {
                    is_streams = same_text(k, "streams");
                },
                None => {},
            }
        }
        if is_streams {
            proof {
                reveal_strlit("streams");
            }
            let streams = entry.child(1).unbox();
            if !container(streams) {
                return false;
            }
            if streams.n_children() > 0 && !container(streams.child(0)) {
                return false;
            }
            return true;
        }
        i = i + 1;
    }
    true
}

} // verus!
