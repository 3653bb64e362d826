use vstd::prelude::*;
use vstd::laws_cmp::obeys_partial_cmp_spec_properties;
use vstd::std_specs::cmp::PartialOrdSpec;
use vstd::string::StringExecFns;
use core::cmp::Ordering;
use crate::text::{decimal, decimal_text};

verus! {

/// A person with a name, an age and a home city.
#[derive(Debug, Clone)]
pub struct Person {
    pub name: String,
    pub age: u32,
    pub city: String,
}

impl Person {
    pub fn new(name: String, age: u32, city: String) -> (r: Person)
        ensures
            r.name == name,
            r.age == age,
            r.city == city,
    {
        Person { name, age, city }
    }

    /// `我叫<name>，今年<age>岁，来自<city>` (name, age and city).
    pub fn introduce(&self) -> (r: String)
        ensures
            r@ == "我叫"@ + self.name@ + "，今年"@ + decimal(self.age as nat) + "岁，来自"@
                + self.city@,
    {
        let mut r = "我叫".to_owned();
        r.append(self.name.as_str());
        r.append("，今年");
        r.append(decimal_text(self.age as u64).as_str());
        r.append("岁，来自");
        r.append(self.city.as_str());
        r
    }

    pub fn set_age(&mut self, age: u32)
        ensures
            final(self).age == age,
            final(self).name == old(self).name,
            final(self).city == old(self).city,
    {
        self.age = age;
    }

    pub fn get_age(&self) -> (r: u32)
        ensures
            r == self.age,
    {
        self.age
    }
}

/// Adds two integers; the sum must fit in an `i32`.
pub fn add(a: i32, b: i32) -> (r: i32)
    requires
        i32::MIN <= a + b <= i32::MAX,
    ensures
        r == a + b,
{
    a + b
}

/// `a` compares greater than `b` under `T`'s ordering.
pub open spec fn greater<T: PartialOrdSpec>(a: T, b: T) -> bool {
    a.partial_cmp_spec(&b) == Some(Ordering::Greater)
}

/// No element of `s` compares greater than `m`.
pub open spec fn none_greater<T: PartialOrdSpec>(s: Seq<T>, m: T) -> bool {
    forall|j: int| 0 <= j < s.len() ==> !greater(#[trigger] s[j], m)
}

/// What a comparison has to obey for the largest element to be exceeded by none.
pub open spec fn ordered<T: PartialOrd + PartialOrdSpec>() -> bool {
    T::obeys_partial_cmp_spec() && obeys_partial_cmp_spec_properties::<T>()
}

proof fn lemma_greater_irreflexive<T: PartialOrd + PartialOrdSpec>(x: T)
    requires
        ordered::<T>(),
    ensures
        !greater(x, x),
{
    reveal(obeys_partial_cmp_spec_properties);
    assert(x.partial_cmp_spec(&x) == Some(Ordering::Less) <==> x.partial_cmp_spec(&x) == Some(
        Ordering::Greater,
    ));
}

/// After the scan step at position `i` (from `old_best` to `best`), no element up to
/// `i` exceeds the one kept, given that none before `i` exceeded the old one.
proof fn lemma_scan_step<T: PartialOrd + PartialOrdSpec>(s: Seq<T>, i: int, old_best: int, best: int)
    requires
        ordered::<T>(),
        0 <= old_best < i < s.len(),
        forall|j: int| 0 <= j < i ==> !greater(#[trigger] s[j], s[old_best]),
        best == if greater(s[i], s[old_best]) {
            i
        } else {
            old_best
        },
    ensures
        forall|j: int| 0 <= j <= i ==> !greater(#[trigger] s[j], s[best]),
{
    reveal(obeys_partial_cmp_spec_properties);
    assert forall|j: int| 0 <= j <= i implies !greater(#[trigger] s[j], s[best]) by {
        if j == best {
            let x = s[j];
            assert(x.partial_cmp_spec(&x) == Some(Ordering::Less) <==> x.partial_cmp_spec(&x)
                == Some(Ordering::Greater));
        } else if best == i && j < i {
            if greater(s[j], s[i]) {
                assert(s[j].partial_cmp_spec(&s[old_best]) == Some(Ordering::Greater));
            }
        }
    }
}

/// Index of the element that a left-to-right scan keeps as the maximum: it starts
/// with the first element and moves on to a later one only when that is greater.
pub open spec fn scan_max_index<T: PartialOrdSpec>(s: Seq<T>) -> int
    decreases s.len(),
{
    if s.len() <= 1 {
        0
    } else {
        let k = scan_max_index(s.drop_last());
        if greater(s.last(), s[k]) {
            s.len() - 1
        } else {
            k
        }
    }
}

proof fn lemma_scan_max_index_in_range<T: PartialOrdSpec>(s: Seq<T>)
    requires
        s.len() > 0,
    ensures
        0 <= scan_max_index(s) < s.len(),
    decreases s.len(),
{
    if s.len() > 1 {
        lemma_scan_max_index_in_range(s.drop_last());
    }
}

/// The largest element, the first of equal ones; `None` for an empty slice. Exact
/// when `T`'s comparison follows its specification (as it does for integers), and
/// exceeded by no element when that comparison is also a partial order.
pub fn find_max<T: PartialOrd + PartialOrdSpec>(list: &[T]) -> (r: Option<&T>)
    ensures
        list@.len() == 0 <==> r is None,
        T::obeys_partial_cmp_spec() && list@.len() > 0 ==> r == Some(
            &list@[scan_max_index(list@)],
        ),
        ordered::<T>() ==> (r matches Some(m) ==> none_greater(list@, *m)),
{
    if list.len() == 0 {
        return None;
    }
    let mut best: usize = 0;
    let mut i: usize = 1;
    proof {
        if ordered::<T>() {
            lemma_greater_irreflexive(list@[0]);
        }
    }
    while i < list.len()
        invariant
            1 <= i <= list@.len(),
            best < i,
            T::obeys_partial_cmp_spec() ==> best == scan_max_index(list@.take(i as int)),
            ordered::<T>() ==> forall|j: int| 0 <= j < i ==> !greater(#[trigger] list@[j], list@[best as int]),
        decreases list@.len() - i,
    {
        proof {
            assert(list@.take(i + 1).drop_last() =~= list@.take(i as int));
            lemma_scan_max_index_in_range(list@.take(i as int));
            assert(list@.take(i + 1)[best as int] == list@[best as int]);
        }
        let ghost old_best = best as int;
        if list[i] > list[best] {
            best = i;
        }
        proof {
            if ordered::<T>() {
                lemma_scan_step(list@, i as int, old_best, best as int);
            }
        }
        i = i + 1;
    }
    assert(list@.take(i as int) =~= list@);
    Some(&list[best])
}

/// The largest element, the first of equal ones; the slice must not be empty.
pub fn largest<T: PartialOrd + PartialOrdSpec + Copy>(list: &[T]) -> (r: T)
    requires
        list@.len() > 0,
    ensures
        T::obeys_partial_cmp_spec() ==> r == list@[scan_max_index(list@)],
        ordered::<T>() ==> none_greater(list@, r),
{
    let mut best: T = list[0];
    let ghost mut k: int = 0;
    let mut i: usize = 1;
    proof {
        if ordered::<T>() {
            lemma_greater_irreflexive(list@[0]);
        }
    }
    while i < list.len()
        invariant
            1 <= i <= list@.len(),
            0 <= k < i,
            best == list@[k],
            T::obeys_partial_cmp_spec() ==> k == scan_max_index(list@.take(i as int)),
            ordered::<T>() ==> forall|j: int| 0 <= j < i ==> !greater(#[trigger] list@[j], list@[k]),
        decreases list@.len() - i,
    {
        proof {
            assert(list@.take(i + 1).drop_last() =~= list@.take(i as int));
            assert(list@.take(i + 1)[k] == list@[k]);
        }
        let ghost old_k = k;
        let item = list[i];
        if item > best {
            best = item;
            proof {
                k = i as int;
            }
        }
        proof {
            if ordered::<T>() {
                lemma_scan_step(list@, i as int, old_k, k);
            }
        }
        i = i + 1;
    }
    assert(list@.take(i as int) =~= list@);
    best
}

/// Length of a string in bytes (UTF-8).
pub fn calculate_length(s: &String) -> (r: usize)
    ensures
        r == vstd::utf8::encode_utf8(s@).len() as usize,
{
    s.as_str().len()
}

/// Appends `, world!`.
pub fn change_string(s: &mut String)
    ensures
        final(s)@ == old(s)@ + ", world!"@,
{
    s.append(", world!");
}

/// Name of day `day` of the week, counted from Monday (星期一) as 1; 6 and 7 are the
/// weekend (周末).
pub open spec fn day_name_of(day: i32) -> Seq<char> {
    if day == 1 {
        "星期一"@
    } else if day == 2 {
        "星期二"@
    } else if day == 3 {
        "星期三"@
    } else if day == 4 {
        "星期四"@
    } else if day == 5 {
        "星期五"@
    } else if day == 6 || day == 7 {
        "周末"@
    } else {
        "无效的日期"@
    }
}

/// The name of a day of the week.
pub fn day_name(day: i32) -> (r: &'static str)
    ensures
        r@ == day_name_of(day),
{
    match day {
        1 => "星期一",
        2 => "星期二",
        3 => "星期三",
        4 => "星期四",
        5 => "星期五",
        6 | 7 => "周末",
        _ => "无效的日期",
    }
}

/// Part of the day that an hour falls in.
pub open spec fn time_period_of(hour: i32) -> Seq<char> {
    if 0 <= hour <= 5 {
        "深夜"@
    } else if 6 <= hour <= 11 {
        "上午"@
    } else if 12 <= hour <= 17 {
        "下午"@
    } else if 18 <= hour <= 23 {
        "晚上"@
    } else {
        "无效时间"@
    }
}

/// The part of the day of an hour from 0 to 23.
pub fn time_period(hour: i32) -> (r: &'static str)
    ensures
        r@ == time_period_of(hour),
{
    match hour {
        0..=5 => "深夜",
        6..=11 => "上午",
        12..=17 => "下午",
        18..=23 => "晚上",
        _ => "无效时间",
    }
}

/// Grade of a score: 90 and up 优秀 (excellent), 80 良好 (good), 60 及格 (pass), below 不及格 (fail).
pub open spec fn grade_of(score: u32) -> Seq<char> {
    if score >= 90 {
        "优秀"@
    } else if score >= 80 {
        "良好"@
    } else if score >= 60 {
        "及格"@
    } else {
        "不及格"@
    }
}

/// The grade of a score.
pub fn grade(score: u32) -> (r: &'static str)
    ensures
        r@ == grade_of(score),
{
    if score >= 90 {
        "优秀"
    } else if score >= 80 {
        "良好"
    } else if score >= 60 {
        "及格"
    } else {
        "不及格"
    }
}

/// Kind of an integer: negative, zero, positive even or positive odd.
pub open spec fn number_kind_of(n: i32) -> Seq<char> {
    if n < 0 {
        "负数"@
    } else if n == 0 {
        "零"@
    } else if n % 2 == 0 {
        "正偶数"@
    } else {
        "正奇数"@
    }
}

/// The kind of an integer.
pub fn number_kind(n: i32) -> (r: &'static str)
    ensures
        r@ == number_kind_of(n),
{
    if n < 0 {
        "负数"
    } else if n == 0 {
        "零"
    } else if n % 2 == 0 {
        "正偶数"
    } else {
        "正奇数"
    }
}

} // verus!
