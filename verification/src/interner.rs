//! String interning: each distinct string is copied into a bump arena once,
//! and every later request for the same text gets that copy back.

use vstd::prelude::*;
use std::collections::HashMap;
use std::collections::hash_map::DefaultHasher;
use std::hash::Hasher;
use bumpalo::Bump;
use vstd::std_specs::hash::DefaultHasherAdditionalSpecFns;
use crate::path::key_eq;

verus! {

broadcast use vstd::std_specs::hash::group_hash_axioms;

/// The bump arena that interned strings are copied into.
#[verifier::external_type_specification]
#[verifier::external_body]
pub struct ExBump<const MIN_ALIGN: usize>(Bump<MIN_ALIGN>);

/// `bumpalo::Bump::alloc_str`: copies `s` into the arena and returns the
/// copy, which lives as long as the arena. The contract claims only that
/// the copy holds the same text; the call aborts when memory runs out.
#[verifier::external_body]
fn alloc_str<'a>(bump: &'a Bump, s: &str) -> (r: &'a str)
    ensures
        r@ == s@,
{
    bump.alloc_str(s)
}

/// The bucket key of a text: the std default hasher fed the text's UTF-8
/// bytes followed by the `0xff` terminator, as `str`'s `Hash` impl does.
pub open spec fn text_hash(t: Seq<char>) -> u64 {
    DefaultHasher::spec_finish(seq![vstd::utf8::encode_utf8(t), seq![0xffu8]])
}

/// Hash of a string, as the interner buckets it.
fn compute_hash(s: &str) -> (h: u64)
    ensures
        h == text_hash(s@),
{
    let mut hasher = DefaultHasher::new();
    let bytes = s.as_bytes();
    assert(bytes@ == vstd::utf8::encode_utf8(s@));
    hasher.write(bytes);
    let mut end: Vec<u8> = Vec::new();
    end.push(0xffu8);
    let tail = end.as_slice();
    assert(tail@ =~= seq![0xffu8]);
    hasher.write(tail);
    let h = hasher.finish();
    proof {
        assert(hasher@ =~= seq![vstd::utf8::encode_utf8(s@), seq![0xffu8]]);
    }
    h
}

/// `HashMap::shrink_to_fit`: lowers the map's capacity; the contract
/// claims that the entries stay as they were.
#[verifier::external_body]
fn shrink_map<'a>(m: &mut HashMap<u64, Vec<&'a str>>)
    ensures
        final(m)@ == old(m)@,
{
    m.shrink_to_fit();
}

/// `Vec::shrink_to_fit`: lowers the bucket's capacity; the contract claims
/// that its elements stay as they were.
#[verifier::external_body]
fn shrink_bucket<'a>(v: &mut Vec<&'a str>)
    ensures
        final(v)@ == old(v)@,
{
    v.shrink_to_fit();
}

/// `t` is stored in bucket `h` of `m`.
pub open spec fn in_bucket<'a>(m: Map<u64, Vec<&'a str>>, h: u64, t: Seq<char>) -> bool {
    &&& m.contains_key(h)
    &&& exists|i: int| 0 <= i < m[h]@.len() && (#[trigger] m[h]@[i])@ == t
}

/// Deduplicating store of strings in a bump arena.
pub struct StringInterner<'a> {
    map: HashMap<u64, Vec<&'a str>>,
    count: usize,
    strings: Ghost<Set<Seq<char>>>,
}

impl<'a> View for StringInterner<'a> {
    type V = Set<Seq<char>>;

    /// The set of texts interned so far.
    closed spec fn view(&self) -> Set<Seq<char>> {
        self.strings@
    }
}

impl<'a> StringInterner<'a> {
    /// Each interned text sits in the bucket of its hash, every bucket
    /// entry is an interned text, and the count is the number of texts.
    pub closed spec fn wf(&self) -> bool {
        &&& self.strings@.finite()
        &&& self.count == self.strings@.len()
        &&& forall|h: u64, t: Seq<char>| #[trigger] in_bucket(self.map@, h, t)
            ==> text_hash(t) == h && self.strings@.contains(t)
        &&& forall|t: Seq<char>| #[trigger] self.strings@.contains(t)
            ==> in_bucket(self.map@, text_hash(t), t)
    }

    /// An empty interner.
    pub fn new() -> (r: Self)
        ensures
            r.wf(),
            r@ == Set::<Seq<char>>::empty(),
    {
        StringInterner { map: HashMap::new(), count: 0, strings: Ghost(Set::empty()) }
    }

    /// An empty interner with room for `capacity` buckets.
    pub fn with_capacity(capacity: usize) -> (r: Self)
        ensures
            r.wf(),
            r@ == Set::<Seq<char>>::empty(),
    {
        StringInterner {
            map: HashMap::with_capacity(capacity),
            count: 0,
            strings: Ghost(Set::empty()),
        }
    }

    /// Returns the interned copy of `s`, copying `s` into `bump` the first
    /// time its text is seen.
    pub fn intern(&mut self, s: &str, bump: &'a Bump) -> (r: &'a str)
        requires
            old(self).wf(),
            !old(self)@.contains(s@) ==> old(self)@.len() < usize::MAX,
        ensures
            final(self).wf(),
            r@ == s@,
            final(self)@ == old(self)@.insert(s@),
    {
        let hash = compute_hash(s);
        match self.map.get(&hash) {
            Some(bucket) => {
                let mut i: usize = 0;
                while i < bucket.len()
                    invariant
                        i <= bucket@.len(),
                        self.wf(),
                        hash == text_hash(s@),
                        self.map@.contains_key(hash),
                        bucket@ == self.map@[hash]@,
                        forall|j: int| 0 <= j < i ==> (#[trigger] bucket@[j])@ != s@,
                    decreases bucket@.len() - i,
                {
                    if key_eq(bucket[i], s) {
                        let found: &'a str = bucket[i];
                        proof {
                            assert(in_bucket(self.map@, hash, bucket@[i as int]@));
                            assert(self.strings@.insert(s@) =~= self.strings@);
                        }
                        return found;
                    }
                    i = i + 1;
                }
                proof {
                    if self.strings@.contains(s@) {
                        assert(in_bucket(self.map@, hash, s@));
                        let k = choose|k: int| 0 <= k < self.map@[hash]@.len() && (#[trigger] self.map@[hash]@[k])@ == s@;
                        assert(bucket@[k]@ == s@);
                    }
                }
            },
            None => {
                proof {
                    if self.strings@.contains(s@) {
                        assert(in_bucket(self.map@, hash, s@));
                    }
                }
            },
        }
        let allocated = alloc_str(bump, s);
        let ghost old_map = self.map@;
        let mut bucket: Vec<&'a str> = match self.map.remove(&hash) {
            Some(b) => b,
            None => Vec::new(),
        };
        let ghost old_bucket = bucket@;
        proof {
            if old_map.contains_key(hash) {
                assert(old_bucket == old_map[hash]@);
            } else {
                assert(old_bucket.len() == 0);
            }
        }
        bucket.push(allocated);
        self.map.insert(hash, bucket);
        self.count = self.count + 1;
        proof {
            let new_map = self.map@;
            let old_strings = self.strings@;
            self.strings@ = old_strings.insert(s@);
            assert(new_map =~= old_map.insert(hash, bucket));
            assert forall|h: u64, t: Seq<char>| #[trigger] in_bucket(new_map, h, t) implies text_hash(t) == h
                && self.strings@.contains(t) by {
                if h != hash {
                    assert(in_bucket(old_map, h, t));
                } else {
                    let k = choose|k: int| 0 <= k < new_map[h]@.len() && (#[trigger] new_map[h]@[k])@ == t;
                    if k < old_bucket.len() {
                        assert(old_map[h]@[k] == old_bucket[k]);
                        assert(in_bucket(old_map, h, t));
                    }
                }
            }
            assert forall|t: Seq<char>| #[trigger] self.strings@.contains(t) implies in_bucket(
                new_map,
                text_hash(t),
                t,
            ) by {
                if t == s@ {
                    assert(new_map[hash]@[old_bucket.len() as int] == allocated);
                } else {
                    assert(in_bucket(old_map, text_hash(t), t));
                    let h = text_hash(t);
                    let k = choose|k: int| 0 <= k < old_map[h]@.len() && (#[trigger] old_map[h]@[k])@ == t;
                    if h == hash {
                        assert(new_map[h]@[k] == old_bucket[k]);
                    } else {
                        assert(new_map[h] == old_map[h]);
                    }
                }
            }
        }
        allocated
    }

    /// The number of distinct strings interned.
    pub fn _len(&self) -> (r: usize)
        requires
            self.wf(),
        ensures
            r == self@.len(),
    {
        self.count
    }

    /// True iff nothing has been interned.
    pub fn _is_empty(&self) -> (r: bool)
        requires
            self.wf(),
        ensures
            r == (self@.len() == 0),
    {
        self.count == 0
    }

    /// Forgets every interned string; the arena keeps its copies.
    pub fn _clear(&mut self)
        ensures
            final(self).wf(),
            final(self)@ == Set::<Seq<char>>::empty(),
    {
        self.map.clear();
        self.count = 0;
        self.strings = Ghost(Set::empty());
    }

    /// Lowers the capacity of the map and of every bucket; the interned
    /// strings stay.
    pub fn _shrink_to_fit(&mut self)
        requires
            old(self).wf(),
        ensures
            final(self).wf(),
            final(self)@ == old(self)@,
    {
        shrink_map(&mut self.map);
        let mut keys: Vec<u64> = Vec::new();
        for k in self.map.keys() {
            keys.push(*k);
        }
        let mut i: usize = 0;
        while i < keys.len()
            invariant
                i <= keys@.len(),
                self.wf(),
                self@ == old(self)@,
            decreases keys@.len() - i,
        {
            let k = keys[i];
            let ghost before = self.map@;
            match self.map.remove(&k) {
                Some(bucket) => {
                    let mut b = bucket;
                    let ghost old_b = b@;
                    shrink_bucket(&mut b);
                    self.map.insert(k, b);
                    proof {
                        let after = self.map@;
                        assert(before.contains_key(k) && before[k]@ == old_b);
                        assert forall|h: u64, t: Seq<char>| #[trigger] in_bucket(after, h, t) == in_bucket(before, h, t) by {
                            if h == k {
                                assert(after[h]@ == before[h]@);
                            } else {
                                assert(after[h] == before[h]);
                            }
                        }
                    }
                },
                None => {
                    proof {
                        assert(self.map@ =~= before);
                    }
                },
            }
            i = i + 1;
        }
    }

    /// Reserves room for `additional` more buckets.
    pub fn _reserve(&mut self, additional: usize)
        requires
            old(self).wf(),
        ensures
            final(self).wf(),
            final(self)@ == old(self)@,
    {
        let ghost before = self.map@;
        self.map.reserve(additional);
        proof {
            assert(self.map@ =~= before);
        }
    }
}

impl<'a> Default for StringInterner<'a> {
    fn default() -> (r: Self)
        ensures
            r.wf(),
            r@ == Set::<Seq<char>>::empty(),
    {
        Self::new()
    }
}

/// Interning a text that is already interned changes nothing: the set of
/// interned texts, and so the count, stay the same.
pub proof fn law_intern_twice(strings: Set<Seq<char>>, t: Seq<char>)
    requires
        strings.finite(),
    ensures
        strings.insert(t).insert(t) == strings.insert(t),
        strings.insert(t).insert(t).len() == strings.insert(t).len(),
{
    assert(strings.insert(t).insert(t) =~= strings.insert(t));
}

} // verus!
