use vstd::prelude::*;

use crate::text::{concat2, decimal, to_decimal};

verus! {

/// A script value, as the library holds it; objects are held by handle.
#[derive(Debug)]
pub enum Value {
    Undefined,
    Null,
    Bool(bool),
    Int32(i32),
    String(String),
    Object(u64),
}

/// A script value, in contracts.
pub enum ValueView {
    Undefined,
    Null,
    Bool(bool),
    Int32(i32),
    String(Seq<char>),
    Object(u64),
}

impl View for Value {
    type V = ValueView;

    open spec fn view(&self) -> ValueView {
        match self {
            Value::Undefined => ValueView::Undefined,
            Value::Null => ValueView::Null,
            Value::Bool(b) => ValueView::Bool(*b),
            Value::Int32(n) => ValueView::Int32(*n),
            Value::String(s) => ValueView::String(s@),
            Value::Object(h) => ValueView::Object(*h),
        }
    }
}

impl Value {
    pub fn copy(&self) -> (r: Value)
        ensures
            r@ == self@,
    {
        match self {
            Value::Undefined => Value::Undefined,
            Value::Null => Value::Null,
            Value::Bool(b) => Value::Bool(*b),
            Value::Int32(n) => Value::Int32(*n),
            Value::String(s) => Value::String(s.clone()),
            Value::Object(h) => Value::Object(*h),
        }
    }
}

/// How an element may be used once defined.
#[derive(Clone, Copy, Debug, PartialEq, Eq, Structural)]
pub struct PropertyFlags {
    pub read_only: bool,
    pub permanent: bool,
    pub enumerate: bool,
}

/// An element with its attributes.
#[derive(Debug)]
pub struct PropertyDescriptor {
    pub value: Value,
    pub writable: bool,
    pub enumerable: bool,
    pub configurable: bool,
}

/// An element, in contracts.
pub struct DescriptorView {
    pub value: ValueView,
    pub writable: bool,
    pub enumerable: bool,
    pub configurable: bool,
}

impl View for PropertyDescriptor {
    type V = DescriptorView;

    open spec fn view(&self) -> DescriptorView {
        DescriptorView {
            value: self.value@,
            writable: self.writable,
            enumerable: self.enumerable,
            configurable: self.configurable,
        }
    }
}

impl PropertyDescriptor {
    pub fn is_writable(&self) -> (r: bool)
        ensures
            r == self.writable,
    {
        self.writable
    }

    pub fn is_configurable(&self) -> (r: bool)
        ensures
            r == self.configurable,
    {
        self.configurable
    }

    pub fn is_enumerable(&self) -> (r: bool)
        ensures
            r == self.enumerable,
    {
        self.enumerable
    }

    fn copy(&self) -> (r: PropertyDescriptor)
        ensures
            r@ == self@,
    {
        PropertyDescriptor {
            value: self.value.copy(),
            writable: self.writable,
            enumerable: self.enumerable,
            configurable: self.configurable,
        }
    }
}

/// Which keys an iteration visits.
#[derive(Clone, Copy, Debug, PartialEq, Eq, Structural)]
pub struct IteratorFlags {
    /// Visit elements that are not enumerable too.
    pub hidden: bool,
}

/// The failure of an element operation.
#[derive(Clone, Copy, Debug, PartialEq, Eq, Structural)]
pub enum ArrayError {
    Conversion,
}

pub open spec fn slot_view(s: Option<PropertyDescriptor>) -> Option<DescriptorView> {
    match s {
        Some(p) => Some(p@),
        None => None,
    }
}

pub open spec fn slots_view(s: Seq<Option<PropertyDescriptor>>) -> Seq<Option<DescriptorView>> {
    s.map_values(|x: Option<PropertyDescriptor>| slot_view(x))
}

/// A script array: a length and, below it, the indices that hold elements.
/// Indices at or above the length hold nothing.
#[derive(Debug)]
pub struct Array {
    slots: Vec<Option<PropertyDescriptor>>,
}

/// What the array's element at `i` is, if it has one.
pub open spec fn element_at(s: Seq<Option<DescriptorView>>, i: u32) -> Option<DescriptorView> {
    if (i as int) < s.len() {
        s[i as int]
    } else {
        None
    }
}

/// Whether the key `i` is listed by an iteration with the given flags.
pub open spec fn listed_index(s: Seq<Option<DescriptorView>>, i: int, flags: Option<IteratorFlags>) -> bool {
    &&& 0 <= i < s.len()
    &&& s[i] is Some
    &&& (s[i]->0.enumerable || (flags is Some && flags->0.hidden))
}

impl View for Array {
    type V = Seq<Option<DescriptorView>>;

    closed spec fn view(&self) -> Seq<Option<DescriptorView>> {
        slots_view(self.slots@)
    }
}

impl Array {
    /// The array's invariant: its length is a valid array length.
    pub closed spec fn wf(&self) -> bool {
        self.slots@.len() <= u32::MAX
    }

    /// An empty array.
    pub fn new() -> (r: Array)
        ensures
            r.wf(),
            r@ == Seq::<Option<DescriptorView>>::empty(),
    {
        let r = Array { slots: Vec::new() };
        assert(r@ =~= Seq::<Option<DescriptorView>>::empty());
        r
    }

    /// An array of the given length, holding no elements.
    pub fn new_with_length(length: u32) -> (r: Array)
        ensures
            r.wf(),
            r@ == Seq::new(length as nat, |i: int| None::<DescriptorView>),
    {
        let mut slots: Vec<Option<PropertyDescriptor>> = Vec::new();
        let mut i: u32 = 0;
        while i < length
            invariant
                i <= length,
                slots@.len() == i,
                forall|j: int| 0 <= j < i ==> #[trigger] slots@[j] is None,
            decreases length - i,
        {
            slots.push(None);
            i += 1;
        }
        let r = Array { slots };
        assert(r@ =~= Seq::new(length as nat, |i: int| None::<DescriptorView>));
        r
    }

    /// The array's length.
    pub fn len(&self) -> (r: u32)
        requires
            self.wf(),
        ensures
            r as int == self@.len(),
    {
        self.slots.len() as u32
    }

    pub fn is_empty(&self) -> (r: bool)
        requires
            self.wf(),
        ensures
            r == (self@.len() == 0),
    {
        self.slots.len() == 0
    }

    /// Whether an element is at `index`.
    pub fn has(&self, index: u32) -> (r: bool)
        ensures
            r == (element_at(self@, index) is Some),
    {
        (index as usize) < self.slots.len() && self.slots[index as usize].is_some()
    }

    /// The descriptor of the element at `index`, if any.
    pub fn get_descriptor(&self, index: u32) -> (r: Result<Option<PropertyDescriptor>, ArrayError>)
        ensures
            r matches Ok(d) && slot_view(d) == element_at(self@, index),
    {
        if (index as usize) < self.slots.len() {
            match &self.slots[index as usize] {
                Some(p) => Ok(Some(p.copy())),
                None => Ok(None),
            }
        } else {
            Ok(None)
        }
    }

    /// The value at `index`, if any.
    pub fn get(&self, index: u32) -> (r: Result<Option<Value>, ArrayError>)
        ensures
            r matches Ok(v) && (match element_at(self@, index) {
                Some(p) => v matches Some(x) && x@ == p.value,
                None => v is None,
            }),
    {
        if (index as usize) < self.slots.len() {
            match &self.slots[index as usize] {
                Some(p) => Ok(Some(p.value.copy())),
                None => Ok(None),
            }
        } else {
            Ok(None)
        }
    }

    /// The value at `index` as a Rust value; `None` where there is no
    /// element or it does not convert.
    pub fn get_as<T: FromValue>(&self, index: u32, strict: bool) -> (r: Result<Option<T>, ArrayError>)
        ensures
            r matches Ok(v) && (match element_at(self@, index) {
                Some(p) => T::converts(p.value, strict, v),
                None => v is None,
            }),
    {
        if (index as usize) < self.slots.len() {
            match &self.slots[index as usize] {
                Some(p) => Ok(T::from_value(&p.value, strict)),
                None => Ok(None),
            }
        } else {
            Ok(None)
        }
    }

    /// Sets the element at `index` as an assignment does: a read-only element
    /// keeps its value (and the assignment still counts as done); otherwise
    /// the element takes the value, a new one writable, enumerable and
    /// configurable, and the length grows past `index`. `false` for the index
    /// `u32::MAX`, which no element can have.
    pub fn set(&mut self, index: u32, value: &Value) -> (r: bool)
        requires
            old(self).wf(),
        ensures
            final(self).wf(),
            r == (index < u32::MAX),
            index == u32::MAX ==> final(self)@ == old(self)@,
            index < u32::MAX ==> final(self)@ == assigned(old(self)@, index, value@),
    {
        if index == u32::MAX {
            return false;
        }
        let i = index as usize;
        self.grow(index);
        let writable_kept = match &self.slots[i] {
            Some(p) => if p.writable {
                Some((p.enumerable, p.configurable))
            } else {
                None
            },
            None => Some((true, true)),
        };
        if let Some((enumerable, configurable)) = writable_kept {
            let d = PropertyDescriptor { value: value.copy(), writable: true, enumerable, configurable };
            self.put(i, d);
        }
        true
    }

    /// Sets the element at `index` to a Rust value, as `set` does.
    pub fn set_as<T: ToValue + ?Sized>(&mut self, index: u32, value: &T) -> (r: bool)
        requires
            old(self).wf(),
        ensures
            final(self).wf(),
            r == (index < u32::MAX),
            index == u32::MAX ==> final(self)@ == old(self)@,
            index < u32::MAX ==> final(self)@ == assigned(old(self)@, index, value.value_view()),
    {
        let v = value.to_value();
        self.set(index, &v)
    }

    /// Defines the element at `index` with the given attributes; refused
    /// where a permanent element is there already, or for `u32::MAX`.
    pub fn define(&mut self, index: u32, value: &Value, flags: PropertyFlags) -> (r: bool)
        requires
            old(self).wf(),
        ensures
            final(self).wf(),
            r == (index < u32::MAX && !(element_at(old(self)@, index) matches Some(p) && !p.configurable)),
            !r ==> final(self)@ == old(self)@,
            r ==> final(self)@ == defined(old(self)@, index, value@, flags),
    {
        if index == u32::MAX {
            return false;
        }
        let i = index as usize;
        if i < self.slots.len() {
            if let Some(p) = &self.slots[i] {
                if !p.configurable {
                    return false;
                }
            }
        }
        self.grow(index);
        let d = PropertyDescriptor {
            value: value.copy(),
            writable: !flags.read_only,
            enumerable: flags.enumerate,
            configurable: !flags.permanent,
        };
        self.put(i, d);
        true
    }

    /// Defines the element at `index` as a Rust value, as `define` does.
    pub fn define_as<T: ToValue + ?Sized>(&mut self, index: u32, value: &T, flags: PropertyFlags) -> (r: bool)
        requires
            old(self).wf(),
        ensures
            final(self).wf(),
            r == (index < u32::MAX && !(element_at(old(self)@, index) matches Some(p) && !p.configurable)),
            !r ==> final(self)@ == old(self)@,
            r ==> final(self)@ == defined(old(self)@, index, value.value_view(), flags),
    {
        let v = value.to_value();
        self.define(index, &v, flags)
    }

    /// Deletes the element at `index`; the length stays. Refused (`false`)
    /// for a permanent element.
    pub fn delete(&mut self, index: u32) -> (r: bool)
        requires
            old(self).wf(),
        ensures
            final(self).wf(),
            r == !(element_at(old(self)@, index) matches Some(p) && !p.configurable),
            !r ==> final(self)@ == old(self)@,
            r ==> final(self)@ == (if (index as int) < old(self)@.len() {
                old(self)@.update(index as int, None)
            } else {
                old(self)@
            }),
    {
        let i = index as usize;
        if i >= self.slots.len() {
            return true;
        }
        if let Some(p) = &self.slots[i] {
            if !p.configurable {
                return false;
            }
        }
        self.slots.set(i, None);
        proof {
            assert(self@ =~= old(self)@.update(index as int, None));
        }
        true
    }

    /// The indices of the elements, in increasing order; those that are not
    /// enumerable only where the flags ask for hidden keys.
    pub fn indices(&self, flags: Option<IteratorFlags>) -> (r: ArrayIndicesIter)
        requires
            self.wf(),
        ensures
            r.wf(),
            r@ == listed_indices(self@, flags, self@.len() as int),
    {
        let keys = self.listed_keys(flags);
        let back = keys.len();
        let r = ArrayIndicesIter { keys, front: 0, back };
        assert(r@ =~= r.keys@);
        r
    }

    fn listed_keys(&self, flags: Option<IteratorFlags>) -> (keys: Vec<u32>)
        requires
            self.wf(),
        ensures
            keys@ == listed_indices(self@, flags, self@.len() as int),
    {
        let hidden = match flags {
            Some(f) => f.hidden,
            None => false,
        };
        let mut keys: Vec<u32> = Vec::new();
        let mut i: usize = 0;
        while i < self.slots.len()
            invariant
                0 <= i <= self.slots.len(),
                self.slots.len() <= u32::MAX,
                hidden == (flags is Some && flags->0.hidden),
                keys@ == listed_indices(self@, flags, i as int),
            decreases self.slots.len() - i,
        {
            let listed = match &self.slots[i] {
                Some(p) => p.enumerable || hidden,
                None => false,
            };
            if listed {
                keys.push(i as u32);
            }
            i += 1;
        }
        keys
    }

    /// The elements with their indices, in increasing order, as `indices`
    /// lists them.
    pub fn iter(&self, flags: Option<IteratorFlags>) -> (r: ArrayIter)
        requires
            self.wf(),
        ensures
            r.wf(),
            r.remaining() == listed_indices(self@, flags, self@.len() as int),
            r.values_match(self@),
    {
        let keys = self.listed_keys(flags);
        let mut values: Vec<Value> = Vec::new();
        let mut k: usize = 0;
        while k < keys.len()
            invariant
                self.wf(),
                0 <= k <= keys.len(),
                keys@ == listed_indices(self@, flags, self@.len() as int),
                values@.len() == k,
                forall|j: int|
                    0 <= j < k ==> #[trigger] element_at(self@, keys@[j]) is Some && values@[j]@ == element_at(
                        self@,
                        keys@[j],
                    )->0.value,
            decreases keys.len() - k,
        {
            let index = keys[k];
            proof {
                lemma_listed_indices_hold(self@, flags, self@.len() as int, k as int);
            }
            let p = &self.slots[index as usize];
            let v = match p {
                Some(p) => p.value.copy(),
                None => Value::Undefined,
            };
            values.push(v);
            k += 1;
        }
        let back = keys.len();
        let r = ArrayIter { indices: ArrayIndicesIter { keys, front: 0, back }, values };
        assert(r.remaining() =~= r.indices.keys@);
        r
    }

    /// Makes the array at least `index + 1` long.
    fn grow(&mut self, index: u32)
        requires
            old(self).wf(),
            index < u32::MAX,
        ensures
            final(self).wf(),
            (index as int) < final(self)@.len(),
            final(self)@ == grown(old(self)@, index),
    {
        let target = index as usize + 1;
        let ghost start = self@;
        while self.slots.len() < target
            invariant
                start.len() <= self.slots.len(),
                self.slots.len() <= start.len() || self.slots.len() <= target,
                self@.subrange(0, start.len() as int) == start,
                forall|j: int| start.len() <= j < self@.len() ==> #[trigger] self@[j] is None,
                target <= u32::MAX,
            decreases target - self.slots.len(),
        {
            let ghost before = self@;
            self.slots.push(None);
            proof {
                assert(self@ =~= before.push(None));
                assert(self@.subrange(0, start.len() as int) =~= before.subrange(0, start.len() as int));
            }
        }
        proof {
            assert(self@ =~= grown(start, index));
        }
    }

    fn put(&mut self, i: usize, d: PropertyDescriptor)
        requires
            i < old(self)@.len(),
            old(self).wf(),
        ensures
            final(self).wf(),
            final(self)@ == old(self)@.update(i as int, Some(d@)),
    {
        self.slots.set(i, Some(d));
        proof {
            assert(self@ =~= old(self)@.update(i as int, Some(d@)));
        }
    }
}

/// The array padded with holes to hold index `index`.
pub open spec fn grown(s: Seq<Option<DescriptorView>>, index: u32) -> Seq<Option<DescriptorView>> {
    if (index as int) < s.len() {
        s
    } else {
        s + Seq::new((index as int + 1 - s.len()) as nat, |j: int| None)
    }
}

/// The array after assigning `v` at `index`.
pub open spec fn assigned(s: Seq<Option<DescriptorView>>, index: u32, v: ValueView) -> Seq<Option<DescriptorView>> {
    let g = grown(s, index);
    match g[index as int] {
        Some(p) => if p.writable {
            g.update(index as int, Some(DescriptorView { value: v, ..p }))
        } else {
            g
        },
        None => g.update(
            index as int,
            Some(DescriptorView { value: v, writable: true, enumerable: true, configurable: true }),
        ),
    }
}

/// The array after defining `v` at `index` with `flags`.
pub open spec fn defined(s: Seq<Option<DescriptorView>>, index: u32, v: ValueView, flags: PropertyFlags) -> Seq<Option<DescriptorView>> {
    grown(s, index).update(
        index as int,
        Some(
            DescriptorView {
                value: v,
                writable: !flags.read_only,
                enumerable: flags.enumerate,
                configurable: !flags.permanent,
            },
        ),
    )
}

/// The listed indices below `n`, in increasing order.
pub open spec fn listed_indices(s: Seq<Option<DescriptorView>>, flags: Option<IteratorFlags>, n: int) -> Seq<u32>
    decreases n,
{
    if n <= 0 {
        Seq::empty()
    } else if listed_index(s, n - 1, flags) {
        listed_indices(s, flags, n - 1).push((n - 1) as u32)
    } else {
        listed_indices(s, flags, n - 1)
    }
}

proof fn lemma_listed_indices_hold(s: Seq<Option<DescriptorView>>, flags: Option<IteratorFlags>, n: int, k: int)
    requires
        0 <= k < listed_indices(s, flags, n).len(),
        n <= s.len() <= u32::MAX,
    ensures
        element_at(s, listed_indices(s, flags, n)[k]) is Some,
        (listed_indices(s, flags, n)[k] as int) < n,
    decreases n,
{
    if n > 0 {
        if listed_index(s, n - 1, flags) {
            if k < listed_indices(s, flags, n - 1).len() {
                lemma_listed_indices_hold(s, flags, n - 1, k);
            }
        } else {
            lemma_listed_indices_hold(s, flags, n - 1, k);
        }
    }
}

/// The indices of an array's elements, taken from either end.
#[derive(Debug)]
pub struct ArrayIndicesIter {
    keys: Vec<u32>,
    front: usize,
    back: usize,
}

impl View for ArrayIndicesIter {
    type V = Seq<u32>;

    /// The indices not yet taken.
    closed spec fn view(&self) -> Seq<u32> {
        self.keys@.subrange(self.front as int, self.back as int)
    }
}

impl ArrayIndicesIter {
    pub closed spec fn wf(&self) -> bool {
        self.front <= self.back <= self.keys@.len()
    }

    /// Takes the lowest index not yet taken.
    pub fn next(&mut self) -> (r: Option<u32>)
        requires
            old(self).wf(),
        ensures
            final(self).wf(),
            old(self)@.len() == 0 ==> r is None && final(self)@ == old(self)@,
            old(self)@.len() > 0 ==> r == Some(old(self)@[0]) && final(self)@ == old(self)@.drop_first(),
    {
        if self.front >= self.back {
            return None;
        }
        let k = self.keys[self.front];
        self.front = self.front + 1;
        proof {
            assert(self@ =~= old(self)@.drop_first());
        }
        Some(k)
    }

    /// Takes the highest index not yet taken.
    pub fn next_back(&mut self) -> (r: Option<u32>)
        requires
            old(self).wf(),
        ensures
            final(self).wf(),
            old(self)@.len() == 0 ==> r is None && final(self)@ == old(self)@,
            old(self)@.len() > 0 ==> r == Some(old(self)@.last()) && final(self)@ == old(self)@.drop_last(),
    {
        if self.front >= self.back {
            return None;
        }
        self.back = self.back - 1;
        let k = self.keys[self.back];
        proof {
            assert(self@ =~= old(self)@.drop_last());
        }
        Some(k)
    }

    /// The indices not yet taken, in order.
    pub fn to_vec(&self) -> (r: Vec<u32>)
        requires
            self.wf(),
        ensures
            r@ == self@,
    {
        let mut out: Vec<u32> = Vec::new();
        let mut i: usize = self.front;
        while i < self.back
            invariant
                self.front <= i <= self.back <= self.keys@.len(),
                out@ == self.keys@.subrange(self.front as int, i as int),
            decreases self.back - i,
        {
            out.push(self.keys[i]);
            i += 1;
            assert(out@ =~= self.keys@.subrange(self.front as int, i as int));
        }
        out
    }
}

/// The elements of an array with their indices, in increasing order.
#[derive(Debug)]
pub struct ArrayIter {
    indices: ArrayIndicesIter,
    values: Vec<Value>,
}

impl ArrayIter {
    pub closed spec fn wf(&self) -> bool {
        &&& self.indices.wf()
        &&& self.values@.len() == self.indices.keys@.len()
    }

    /// The indices not yet taken.
    pub closed spec fn remaining(&self) -> Seq<u32> {
        self.indices@
    }

    /// Whether each index not yet taken comes with the value that the array
    /// `s` holds there.
    pub closed spec fn values_match(&self, s: Seq<Option<DescriptorView>>) -> bool {
        forall|j: int|
            self.indices.front <= j < self.indices.back ==> #[trigger] element_at(s, self.indices.keys@[j]) is Some
                && self.values@[j]@ == element_at(s, self.indices.keys@[j])->0.value
    }

    /// Takes the element of the lowest index not yet taken.
    pub fn next(&mut self) -> (r: Option<(u32, Result<Value, ArrayError>)>)
        requires
            old(self).wf(),
        ensures
            final(self).wf(),
            old(self).remaining().len() == 0 ==> r is None,
            old(self).remaining().len() > 0 ==> (r matches Some(p) && p.0 == old(self).remaining()[0] && p.1 is Ok),
            final(self).remaining() == (if old(self).remaining().len() > 0 {
                old(self).remaining().drop_first()
            } else {
                old(self).remaining()
            }),
            forall|s: Seq<Option<DescriptorView>>| #[trigger] old(self).values_match(s) ==> final(self).values_match(s)
                && (r matches Some(p) ==> (element_at(s, p.0) matches Some(d) && p.1->Ok_0@ == d.value)),
    {
        if self.indices.front >= self.indices.back {
            return None;
        }
        let pos = self.indices.front;
        let k = self.indices.keys[pos];
        self.indices.front = pos + 1;
        let v = self.values[pos].copy();
        proof {
            assert(self.remaining() =~= old(self).remaining().drop_first());
            assert forall|s: Seq<Option<DescriptorView>>| #[trigger] old(self).values_match(s) implies final(self).values_match(s)
                && (element_at(s, k) matches Some(d) && v@ == d.value) by {
                assert(element_at(s, old(self).indices.keys@[pos as int]) is Some);
            }
        }
        Some((k, Ok(v)))
    }

    /// The pairs not yet taken, in order.
    pub fn to_vec(&self) -> (r: Vec<(u32, Value)>)
        requires
            self.wf(),
        ensures
            r@.len() == self.remaining().len(),
            forall|j: int| 0 <= j < r@.len() ==> (#[trigger] r@[j]).0 == self.remaining()[j],
            forall|s: Seq<Option<DescriptorView>>, j: int|
                self.values_match(s) && 0 <= j < r@.len() ==> (#[trigger] element_at(s, r@[j].0) matches Some(d)
                    && r@[j].1@ == d.value),
    {
        let mut out: Vec<(u32, Value)> = Vec::new();
        let mut i: usize = self.indices.front;
        while i < self.indices.back
            invariant
                self.wf(),
                self.indices.front <= i <= self.indices.back,
                out@.len() == i - self.indices.front,
                forall|j: int| 0 <= j < out@.len() ==> (#[trigger] out@[j]).0 == self.indices.keys@[self.indices.front + j],
                forall|j: int| 0 <= j < out@.len() ==> (#[trigger] out@[j]).1@ == self.values@[self.indices.front + j]@,
            decreases self.indices.back - i,
        {
            out.push((self.indices.keys[i], self.values[i].copy()));
            i += 1;
        }
        out
    }
}

/// A Rust value that a script value converts to.
pub trait FromValue: Sized {
    /// Whether `r` is what `v` converts to.
    spec fn converts(v: ValueView, strict: bool, r: Option<Self>) -> bool;

    fn from_value(v: &Value, strict: bool) -> (r: Option<Self>)
        ensures
            Self::converts(v@, strict, r),
    ;
}

/// A Rust value that converts to a script value.
pub trait ToValue {
    spec fn value_view(&self) -> ValueView;

    fn to_value(&self) -> (r: Value)
        ensures
            r@ == self.value_view(),
    ;
}

/// The truth of a value, as a condition tests it.
pub open spec fn truthy(v: ValueView) -> bool {
    match v {
        ValueView::Undefined => false,
        ValueView::Null => false,
        ValueView::Bool(b) => b,
        ValueView::Int32(n) => n != 0,
        ValueView::String(s) => s.len() > 0,
        ValueView::Object(_) => true,
    }
}

impl FromValue for bool {
    /// Strictly only a boolean converts; loosely every value does, by its truth.
    open spec fn converts(v: ValueView, strict: bool, r: Option<bool>) -> bool {
        if strict {
            r == (match v {
                ValueView::Bool(b) => Some(b),
                _ => None,
            })
        } else {
            r == Some(truthy(v))
        }
    }

    fn from_value(v: &Value, strict: bool) -> (r: Option<bool>) {
        match v {
            Value::Bool(b) => Some(*b),
            _ => if strict {
                None
            } else {
                Some(
                    match v {
                        Value::Undefined => false,
                        Value::Null => false,
                        Value::Bool(b) => *b,
                        Value::Int32(n) => *n != 0,
                        Value::String(s) => s.unicode_len() > 0,
                        Value::Object(_) => true,
                    },
                )
            },
        }
    }
}

impl FromValue for i32 {
    /// Strictly only an integer converts; loosely booleans and `null` do too.
    open spec fn converts(v: ValueView, strict: bool, r: Option<i32>) -> bool {
        r == (match v {
            ValueView::Int32(n) => Some(n),
            ValueView::Bool(b) => if strict {
                None
            } else if b {
                Some(1i32)
            } else {
                Some(0i32)
            },
            ValueView::Null => if strict {
                None
            } else {
                Some(0i32)
            },
            _ => None,
        })
    }

    fn from_value(v: &Value, strict: bool) -> (r: Option<i32>) {
        match v {
            Value::Int32(n) => Some(*n),
            Value::Bool(b) => if strict {
                None
            } else if *b {
                Some(1)
            } else {
                Some(0)
            },
            Value::Null => if strict {
                None
            } else {
                Some(0)
            },
            _ => None,
        }
    }
}

/// The text of a value that is not an object.
pub open spec fn text_of(v: ValueView) -> Option<Seq<char>> {
    match v {
        ValueView::Undefined => Some("undefined"@),
        ValueView::Null => Some("null"@),
        ValueView::Bool(b) => Some(if b { "true"@ } else { "false"@ }),
        ValueView::Int32(n) => Some(if n < 0 { "-"@ + decimal((-n) as nat) } else { decimal(n as nat) }),
        ValueView::String(s) => Some(s),
        ValueView::Object(_) => None,
    }
}

impl FromValue for String {
    /// Strictly only a string converts; loosely every value but an object
    /// does, by its text.
    open spec fn converts(v: ValueView, strict: bool, r: Option<String>) -> bool {
        if strict {
            match v {
                ValueView::String(s) => r matches Some(x) && x@ == s,
                _ => r is None,
            }
        } else {
            match text_of(v) {
                Some(t) => r matches Some(x) && x@ == t,
                None => r is None,
            }
        }
    }

    fn from_value(v: &Value, strict: bool) -> (r: Option<String>) {
        match v {
            Value::String(s) => Some(s.clone()),
            _ => if strict {
                None
            } else {
                match v {
                    Value::Undefined => Some("undefined".to_owned()),
                    Value::Null => Some("null".to_owned()),
                    Value::Bool(b) => Some(if *b { "true".to_owned() } else { "false".to_owned() }),
                    Value::Int32(n) => Some(if *n < 0 {
                        let magnitude = to_decimal((-(*n as i64)) as u64);
                        concat2("-", magnitude.as_str())
                    } else {
                        to_decimal(*n as u64)
                    }),
                    _ => None,
                }
            },
        }
    }
}

impl ToValue for bool {
    open spec fn value_view(&self) -> ValueView {
        ValueView::Bool(*self)
    }

    fn to_value(&self) -> (r: Value) {
        Value::Bool(*self)
    }
}

impl ToValue for i32 {
    open spec fn value_view(&self) -> ValueView {
        ValueView::Int32(*self)
    }

    fn to_value(&self) -> (r: Value) {
        Value::Int32(*self)
    }
}

impl ToValue for str {
    open spec fn value_view(&self) -> ValueView {
        ValueView::String(self@)
    }

    fn to_value(&self) -> (r: Value) {
        Value::String(self.to_owned())
    }
}

impl ToValue for String {
    open spec fn value_view(&self) -> ValueView {
        ValueView::String(self@)
    }

    fn to_value(&self) -> (r: Value) {
        Value::String(self.clone())
    }
}

impl ToValue for Value {
    open spec fn value_view(&self) -> ValueView {
        self@
    }

    fn to_value(&self) -> (r: Value) {
        self.copy()
    }
}

/// The result of one step of a script iterator.
#[derive(Debug)]
pub struct IteratorResult {
    pub value: Value,
    pub done: bool,
}

impl IteratorResult {
    pub fn new(value: Value, done: bool) -> (r: IteratorResult)
        ensures
            r.value == value,
            r.done == done,
    {
        IteratorResult { value, done }
    }
}

} // verus!
