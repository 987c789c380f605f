//! Keys that identify queries.

use vstd::prelude::*;

verus! {

/// A string key naming a query.
#[derive(Debug)]
pub struct Key {
    /// The name itself.
    pub name: String,
}

impl Key {
    /// Constructs a key from its name.
    pub fn new(name: String) -> (r: Key)
        ensures
            r.name == name,
    {
        Key { name }
    }

    /// The name of this key.
    pub fn name(&self) -> (r: &String)
        ensures
            r == &self.name,
    {
        &self.name
    }
}

impl View for Key {
    type V = Seq<char>;

    open spec fn view(&self) -> Seq<char> {
        self.name@
    }
}

impl Clone for Key {
    fn clone(&self) -> (r: Self)
        ensures
            r == *self,
    {
        Key { name: self.name.clone() }
    }
}

impl PartialEq for Key {
    fn eq(&self, other: &Key) -> (r: bool) {
        self.name == other.name
    }
}

impl vstd::std_specs::cmp::PartialEqSpecImpl for Key {
    open spec fn obeys_eq_spec() -> bool {
        true
    }

    open spec fn eq_spec(&self, other: &Key) -> bool {
        self.name@ == other.name@
    }
}

/// A key that identifies a query: a name paired with a numeric type tag.
///
/// The tag stands for the concrete type of the value cached under the
/// name; two keys are equal exactly when both components are equal.  An
/// access that names the right key but the wrong tag is reported as a
/// type mismatch, never served a value of another type.
#[derive(Debug)]
pub struct QueryKey {
    /// The name component.
    pub key: Key,
    /// The type tag component.
    pub ty: u64,
}

impl QueryKey {
    /// Constructs a `QueryKey` for the given type tag and key.
    pub fn of(key: Key, ty: u64) -> (r: QueryKey)
        ensures
            r.key == key,
            r.ty == ty,
    {
        QueryKey { key, ty }
    }

    /// Returns `true` if the key is for the given type tag.
    pub fn is_type(&self, ty: u64) -> (r: bool)
        ensures
            r == (self.ty == ty),
    {
        self.ty == ty
    }

    /// Returns the name component of this query key.
    pub fn key(&self) -> (r: &Key)
        ensures
            r == &self.key,
    {
        &self.key
    }

    /// Returns the type tag of this query key.
    pub fn type_id(&self) -> (r: u64)
        ensures
            r == self.ty,
    {
        self.ty
    }
}

impl View for QueryKey {
    type V = (Seq<char>, u64);

    open spec fn view(&self) -> (Seq<char>, u64) {
        (self.key@, self.ty)
    }
}

impl Clone for QueryKey {
    fn clone(&self) -> (r: Self)
        ensures
            r == *self,
    {
        QueryKey { key: self.key.clone(), ty: self.ty }
    }
}

impl PartialEq for QueryKey {
    fn eq(&self, other: &QueryKey) -> (r: bool) {
        self.key == other.key && self.ty == other.ty
    }
}

impl vstd::std_specs::cmp::PartialEqSpecImpl for QueryKey {
    open spec fn obeys_eq_spec() -> bool {
        true
    }

    open spec fn eq_spec(&self, other: &QueryKey) -> bool {
        self@ == other@
    }
}

/// The name registered first for a tag in an association list.
pub open spec fn spec_name_of(s: Seq<(u64, String)>, ty: u64) -> Option<Seq<char>>
    decreases s.len(),
{
    if s.len() == 0 {
        None
    } else if s[0].0 == ty {
        Some(s[0].1@)
    } else {
        spec_name_of(s.drop_first(), ty)
    }
}

/// A registry of readable names for type tags.
///
/// Purely diagnostic: the engine never consults it.  Callers register a
/// name beside each tag they mint and use the registry when printing
/// keys.
#[derive(Debug)]
pub struct TypeNameCache {
    entries: Vec<(u64, String)>,
}

impl TypeNameCache {
    /// The name registered for a tag, if any.
    pub closed spec fn name_of(&self, ty: u64) -> Option<Seq<char>> {
        spec_name_of(self.entries@, ty)
    }

    /// Constructs an empty registry.
    pub fn new() -> (r: TypeNameCache)
        ensures
            forall|t: u64| r.name_of(t) is None,
    {
        TypeNameCache { entries: Vec::new() }
    }

    /// Registers a name for a tag, replacing any earlier one.
    pub fn register(&mut self, ty: u64, name: String)
        ensures
            final(self).name_of(ty) == Some(name@),
            forall|t: u64| t != ty ==> final(self).name_of(t) == old(self).name_of(t),
    {
        self.entries.insert(0, (ty, name));
        proof {
            assert forall|t: u64| t != ty implies self.name_of(t) == old(self).name_of(t) by {
                assert(self.entries@.drop_first() =~= old(self).entries@);
            }
        }
    }

    /// Returns the name registered for a tag.
    pub fn get(&self, ty: u64) -> (r: Option<&String>)
        ensures
            r is Some <==> self.name_of(ty) is Some,
            r matches Some(n) ==> self.name_of(ty) == Some(n@),
    {
        let n = self.entries.len();
        let mut i: usize = 0;
        proof {
            assert(self.entries@.skip(0) =~= self.entries@);
        }
        while i < n
            invariant
                n == self.entries@.len(),
                i <= n,
                spec_name_of(self.entries@.skip(i as int), ty) == self.name_of(ty),
            decreases n - i,
        {
            if self.entries[i].0 == ty {
                proof {
                    assert(self.entries@.skip(i as int)[0] == self.entries@[i as int]);
                }
                return Some(&self.entries[i].1);
            }
            proof {
                assert(self.entries@.skip(i as int)[0] == self.entries@[i as int]);
                assert(self.entries@.skip(i as int).drop_first() =~= self.entries@.skip(
                    i as int + 1,
                ));
            }
            i = i + 1;
        }
        proof {
            assert(self.entries@.skip(i as int).len() == 0);
        }
        None
    }
}

} // verus!
