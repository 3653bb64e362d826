use vstd::prelude::*;
use vstd::std_specs::cmp::PartialEqSpec;
use std::hash::{Hash, Hasher};

verus! {

/// A container whose `dequeue` hands back the item added last.
pub struct Queue<T> {
    data: Vec<T>,
}

impl<T> View for Queue<T> {
    type V = Seq<T>;

    closed spec fn view(&self) -> Seq<T> {
        self.data@
    }
}

impl<T> Queue<T> {
    /// An empty container.
    pub fn new() -> (r: Queue<T>)
        ensures
            r@ == Seq::<T>::empty(),
    {
        Queue { data: Vec::new() }
    }

    /// Adds `item` at the end.
    pub fn enqueue(&mut self, item: T)
        ensures
            final(self)@ == old(self)@.push(item),
    {
        self.data.push(item);
    }

    /// Removes and returns the item at the end, if any.
    pub fn dequeue(&mut self) -> (r: Option<T>)
        ensures
            old(self)@.len() == 0 ==> r is None && final(self)@ == old(self)@,
            old(self)@.len() > 0 ==> r == Some(old(self)@.last()) && final(self)@
                == old(self)@.drop_last(),
    {
        self.data.pop()
    }
}

/// An ordered-set sketch kept as a plain list.
pub struct SkipList<T: Ord> {
    data: Vec<T>,
}

impl<T: Ord> View for SkipList<T> {
    type V = Seq<T>;

    closed spec fn view(&self) -> Seq<T> {
        self.data@
    }
}

impl<T: Ord + PartialEqSpec> SkipList<T> {
    /// An empty list.
    pub fn new() -> (r: SkipList<T>)
        ensures
            r@ == Seq::<T>::empty(),
    {
        SkipList { data: Vec::new() }
    }

    /// Adds `item` at the end.
    pub fn insert(&mut self, item: T)
        ensures
            final(self)@ == old(self)@.push(item),
    {
        self.data.push(item);
    }

    /// Whether some element equals `item`; exact when `T`'s `==` follows its
    /// specification.
    pub fn search(&self, item: &T) -> (r: bool)
        ensures
            T::obeys_eq_spec() ==> (r <==> exists|i: int|
                0 <= i < self@.len() && (#[trigger] self@[i]).eq_spec(item)),
    {
        let mut i: usize = 0;
        while i < self.data.len()
            invariant
                i <= self.data@.len(),
                T::obeys_eq_spec() ==> forall|j: int|
                    0 <= j < i ==> !(#[trigger] self@[j]).eq_spec(item),
            decreases self.data@.len() - i,
        {
            if self.data[i] == *item {
                assert(T::obeys_eq_spec() ==> self@[i as int].eq_spec(item));
                return true;
            }
            i = i + 1;
        }
        false
    }
}

/// Relies on `Hash::hash` feeding a `DefaultHasher` made by `DefaultHasher::new`,
/// then `finish`; the value depends on the item and the standard library's hasher.
#[verifier::external_body]
fn default_hash<H: Hash + ?Sized>(item: &H) -> u64 {
    let mut hasher = std::collections::hash_map::DefaultHasher::new();
    item.hash(&mut hasher);
    hasher.finish()
}

/// The bit that hash value `h` selects under modulus `size`.
pub open spec fn slot(h: usize, size: usize) -> int {
    (h % size) as int
}

/// A bit array indexed by hash values.
pub struct BloomFilter {
    data: Vec<bool>,
    size: usize,
}

/// The filter as plain values: its bits and the modulus applied to hashes.
pub ghost struct BloomView {
    pub data: Seq<bool>,
    pub size: usize,
}

impl View for BloomFilter {
    type V = BloomView;

    closed spec fn view(&self) -> BloomView {
        BloomView { data: self.data@, size: self.size }
    }
}

impl BloomFilter {
    /// A filter with modulus 1000 and no bits yet; `init` gives it bits.
    pub fn new() -> (r: BloomFilter)
        ensures
            r@.data == Seq::<bool>::empty(),
            r@.size == 1000,
    {
        BloomFilter { data: Vec::new(), size: 1000 }
    }

    /// The item's hash, as a `usize`.
    pub fn hash<H: Hash + ?Sized>(&self, item: &H) -> usize {
        default_hash(item) as usize
    }

    /// Sets the bit that hash value `h` selects.
    pub fn insert_hashed(&mut self, h: usize)
        requires
            old(self)@.size > 0,
            slot(h, old(self)@.size) < old(self)@.data.len(),
        ensures
            final(self)@.size == old(self)@.size,
            final(self)@.data == old(self)@.data.update(slot(h, old(self)@.size), true),
    {
        let index = h % self.size;
        self.data.set(index, true);
    }

    /// Whether the bit that hash value `h` selects is set.
    pub fn search_hashed(&self, h: usize) -> (r: bool)
        requires
            self@.size > 0,
            slot(h, self@.size) < self@.data.len(),
        ensures
            r == self@.data[slot(h, self@.size)],
    {
        let index = h % self.size;
        self.data[index]
    }

    /// Sets the bit of `item`'s hash.
    pub fn insert<H: Hash + ?Sized>(&mut self, item: &H)
        requires
            old(self)@.size > 0,
            old(self)@.data.len() >= old(self)@.size,
        ensures
            final(self)@.size == old(self)@.size,
            exists|h: usize| final(self)@.data == old(self)@.data.update(slot(h, old(self)@.size), true),
    {
        let h = self.hash(item);
        self.insert_hashed(h);
    }

    /// Whether the bit of `item`'s hash is set.
    pub fn search<H: Hash + ?Sized>(&self, item: &H) -> (r: bool)
        requires
            self@.size > 0,
            self@.data.len() >= self@.size,
        ensures
            exists|h: usize| r == self@.data[slot(h, self@.size)],
    {
        let h = self.hash(item);
        self.search_hashed(h)
    }

    /// Replaces the bits by `size` cleared bits; the modulus stays.
    pub fn init(&mut self, size: usize)
        ensures
            final(self)@.data == Seq::new(size as nat, |i: int| false),
            final(self)@.size == old(self)@.size,
    {
        self.data = vec![false; size];
        assert(self.data@ =~= Seq::new(size as nat, |i: int| false));
    }
}

/// A set bit stays found: after `insert_hashed(h)`, `search_hashed(h)` is true.
pub proof fn lemma_inserted_hash_found(before: BloomView, after: BloomView, h: usize)
    requires
        before.size > 0,
        slot(h, before.size) < before.data.len(),
        after.size == before.size,
        after.data == before.data.update(slot(h, before.size), true),
    ensures
        after.data[slot(h, after.size)],
{
}

} // verus!
