use vstd::prelude::*;
use vstd::string::StringExecFns;
use crate::string_map::StringMap;
use crate::text::{decimal, decimal_text};

verus! {

/// A person with a name and an age.
#[derive(Debug, Clone)]
pub struct Person {
    pub name: String,
    pub age: u32,
}

impl Person {
    pub fn new(name: String, age: u32) -> (r: Person)
        ensures
            r.name == name,
            r.age == age,
    {
        Person { name, age }
    }

    /// `姓名: <name>, 年龄: <age>` (name and age).
    pub fn get_info(&self) -> (r: String)
        ensures
            r@ == "姓名: "@ + self.name@ + ", 年龄: "@ + decimal(self.age as nat),
    {
        let mut r = "姓名: ".to_owned();
        r.append(self.name.as_str());
        r.append(", 年龄: ");
        r.append(decimal_text(self.age as u64).as_str());
        r
    }

    pub fn set_age(&mut self, age: u32)
        ensures
            final(self).age == age,
            final(self).name == old(self).name,
    {
        self.age = age;
    }

    /// One year older; the age must be below `u32::MAX`.
    pub fn birthday(&mut self)
        requires
            old(self).age < u32::MAX,
        ensures
            final(self).age == old(self).age + 1,
            final(self).name == old(self).name,
    {
        self.age = self.age + 1;
    }

    pub fn get_name(&self) -> (r: &str)
        ensures
            r@ == self.name@,
    {
        self.name.as_str()
    }
}

/// Appends ` - 已修改` (modified).
pub fn mark_modified(s: &mut String)
    ensures
        final(s)@ == old(s)@ + " - 已修改"@,
{
    s.append(" - 已修改");
}

/// A cache of texts by key.
#[derive(Debug, Clone)]
pub struct Cache {
    data: StringMap,
}

impl View for Cache {
    type V = Map<Seq<char>, Seq<char>>;

    closed spec fn view(&self) -> Map<Seq<char>, Seq<char>> {
        self.data@
    }
}

impl Cache {
    pub closed spec fn wf(&self) -> bool {
        self.data.wf()
    }

    /// An empty cache.
    pub fn new() -> (r: Cache)
        ensures
            r.wf(),
            r@ == Map::<Seq<char>, Seq<char>>::empty(),
    {
        Cache { data: StringMap::new() }
    }

    /// The value cached under `key`, if any.
    pub fn get(&self, key: &str) -> (r: Option<&String>)
        requires
            self.wf(),
        ensures
            match r {
                Some(v) => self@.contains_key(key@) && v@ == self@[key@],
                None => !self@.contains_key(key@),
            },
    {
        self.data.get(key)
    }

    /// Caches `value` under `key`, replacing any earlier value.
    pub fn set(&mut self, key: String, value: String)
        requires
            old(self).wf(),
        ensures
            final(self).wf(),
            final(self)@ == old(self)@.insert(key@, value@),
    {
        self.data.insert(key, value);
    }

    /// Whether something is cached under `key`.
    pub fn contains_key(&self, key: &str) -> (r: bool)
        requires
            self.wf(),
        ensures
            r == self@.contains_key(key@),
    {
        self.data.contains_key(key)
    }
}

} // verus!
