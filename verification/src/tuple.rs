//! The tuple aggregate and its type-indexed accessor operations.

use vstd::prelude::*;

use crate::dispatch::first_slot;
use crate::dispatch::lemma_first_slot_of_match;
use crate::dispatch::lemma_count_zero;
use crate::dispatch::lemma_tags_of_update;
use crate::dispatch::slot_tags;
use crate::dispatch::type_count;
use crate::value::TypeTag;
use crate::value::Value;
use crate::value::is_default_value;
use crate::value::tag_of;

verus! {

/// Counting slots by type.
///
/// Implementors expose their slot values through the [`slots`] spec
/// function; both operations are pure and read only the slots' types.
///
/// [`slots`]: TupleContains::slots
pub trait TupleContains {
    /// The slot values, in declaration order.
    spec fn slots(&self) -> Seq<Value>;

    /// Returns the number of slots whose static type is `t`, duplicates
    /// counted fully.
    fn count(&self, t: TypeTag) -> (n: usize)
        ensures
            n == type_count(self.slots(), t),
    ;

    /// Returns whether the tuple holds exactly one slot of type `t`.
    fn contains_unique(&self, t: TypeTag) -> (b: bool)
        ensures
            b == (type_count(self.slots(), t) == 1),
    {
        self.count(t) == 1
    }
}

impl TupleContains for Tuple {
    open spec fn slots(&self) -> Seq<Value> {
        self@
    }

    fn count(&self, t: TypeTag) -> (n: usize) {
        let mut n: usize = 0;
        let mut i: usize = 0;
        proof {
            assert(self@.skip(0) =~= self@);
        }
        while i < self.slots.len()
            invariant
                i <= self@.len(),
                n <= i,
                n + type_count(self@.skip(i as int), t) == type_count(self@, t),
            decreases self@.len() - i,
        {
            proof {
                assert(self@.skip(i as int).drop_first() =~= self@.skip(i as int + 1));
            }
            if self.slots[i].tag() == t {
                n = n + 1;
            }
            i = i + 1;
        }
        proof {
            assert(self@.skip(self@.len() as int) =~= Seq::<Value>::empty());
        }
        n
    }
}

/// The largest arity a tuple may have.
pub const MAX_ARITY: usize = 64;

/// An ordered, fixed-length, heterogeneous aggregate of slots.
///
/// The arity is fixed when the tuple is made and lies between 1 and
/// [`MAX_ARITY`]; each slot's static type is the variant of its value and
/// never changes, only slot values do.
pub struct Tuple {
    slots: Vec<Value>,
}

impl View for Tuple {
    type V = Seq<Value>;

    closed spec fn view(&self) -> Seq<Value> {
        self.slots@
    }
}

impl Tuple {
    /// Arity within bounds: every constructed tuple satisfies this, and
    /// every operation preserves it.
    pub open spec fn wf(&self) -> bool {
        1 <= self@.len() <= MAX_ARITY
    }

    /// Makes a tuple from one value per slot, in declaration order;
    /// `None` exactly when the arity would be out of bounds.
    pub fn new(slots: Vec<Value>) -> (r: Option<Tuple>)
        ensures
            r is Some <==> 1 <= slots@.len() <= MAX_ARITY,
            r matches Some(tuple) ==> tuple@ == slots@ && tuple.wf(),
    {
        if 1 <= slots.len() && slots.len() <= MAX_ARITY {
            Some(Tuple { slots })
        } else {
            None
        }
    }

    /// The number of slots.
    pub fn arity(&self) -> (n: usize)
        ensures
            n == self@.len(),
    {
        self.slots.len()
    }

    /// A reference to the slot at `i`, in declaration order.
    pub fn slot(&self, i: usize) -> (v: &Value)
        requires
            i < self@.len(),
        ensures
            *v == self@[i as int],
    {
        &self.slots[i]
    }
}

/// Reading, overwriting and transforming the unique slot of a type.
///
/// The checked operations (`set`, `get`, `map`, `take`) act only when
/// exactly one slot has the requested type and signal absence or ambiguity
/// with `None`, leaving the tuple unchanged.  The unchecked variants trust
/// the caller's uniqueness claim: they demand at least one matching slot
/// and act on the first (lowest-index) one, so a duplicated type degrades
/// silently to the first occurrence while an absent type is ruled out
/// up front.
pub trait TupleSet: TupleContains {
    /// Overwrites the sole slot of `value`'s type with `value` and returns
    /// `None`; when that type is absent or duplicated, returns the value
    /// back unchanged and leaves the tuple untouched.
    fn set(&mut self, value: Value) -> (r: Option<Value>)
        ensures
            ({
                let t = tag_of(value);
                let s = old(self).slots();
                if type_count(s, t) == 1 {
                    r is None && final(self).slots() == s.update(first_slot(s, t), value)
                } else {
                    r == Some(value) && final(self).slots() == s
                }
            }),
            slot_tags(final(self).slots()) == slot_tags(old(self).slots()),
    ;

    /// Returns a reference to the sole slot of type `t`, or `None` when
    /// that type is absent or duplicated.
    fn get(&self, t: TypeTag) -> (r: Option<&Value>)
        ensures
            ({
                let s = self.slots();
                if type_count(s, t) == 1 {
                    r matches Some(v) && *v == s[first_slot(s, t)]
                } else {
                    r is None
                }
            }),
    ;

    /// Overwrites the first slot of `value`'s type with `value`, trusting
    /// the caller that the type occurs at least once.
    fn set_unchecked(&mut self, value: Value)
        requires
            type_count(old(self).slots(), tag_of(value)) >= 1,
        ensures
            final(self).slots() == old(self).slots().update(
                first_slot(old(self).slots(), tag_of(value)),
                value,
            ),
            slot_tags(final(self).slots()) == slot_tags(old(self).slots()),
    ;

    /// Returns a reference to the first slot of type `t`, trusting the
    /// caller that the type occurs at least once.
    fn get_unchecked(&self, t: TypeTag) -> (r: &Value)
        requires
            type_count(self.slots(), t) >= 1,
        ensures
            *r == self.slots()[first_slot(self.slots(), t)],
    ;

    /// Applies `f` to the sole slot of type `t`: the slot's value goes in,
    /// and `f`'s first result replaces it while the second is handed back
    /// as `Some`.  When the type is absent or duplicated, the tuple is
    /// unchanged and the result is `None`.
    ///
    /// `f` must accept every value of type `t` and must hand back a
    /// replacement of that same type.
    fn map<F, R>(&mut self, t: TypeTag, f: F) -> (r: Option<R>) where F: FnOnce(Value) -> (Value, R)
        requires
            forall|v: Value| tag_of(v) == t ==> call_requires(f, (v,)),
            forall|v: Value, out: (Value, R)|
                tag_of(v) == t && call_ensures(f, (v,), out) ==> tag_of(out.0) == t,
        ensures
            r is Some <==> type_count(old(self).slots(), t) == 1,
            r is None ==> final(self).slots() == old(self).slots(),
            r matches Some(res) ==> ({
                let s = old(self).slots();
                let i = first_slot(s, t);
                final(self).slots() == s.update(i, final(self).slots()[i]) && call_ensures(
                    f,
                    (s[i],),
                    (final(self).slots()[i], res),
                )
            }),
            slot_tags(final(self).slots()) == slot_tags(old(self).slots()),
    ;

    /// Applies `f` to the first slot of type `t`, trusting the caller that
    /// the type occurs at least once; other slots, matching or not, are
    /// untouched.
    fn map_unchecked<F, R>(&mut self, t: TypeTag, f: F) -> (r: R) where F: FnOnce(
        Value,
    ) -> (Value, R)
        requires
            type_count(old(self).slots(), t) >= 1,
            forall|v: Value| tag_of(v) == t ==> call_requires(f, (v,)),
            forall|v: Value, out: (Value, R)|
                tag_of(v) == t && call_ensures(f, (v,), out) ==> tag_of(out.0) == t,
        ensures
            ({
                let s = old(self).slots();
                let i = first_slot(s, t);
                final(self).slots() == s.update(i, final(self).slots()[i]) && call_ensures(
                    f,
                    (s[i],),
                    (final(self).slots()[i], r),
                )
            }),
            slot_tags(final(self).slots()) == slot_tags(old(self).slots()),
    ;

    /// Swaps the sole slot of type `t` with the default value of that type
    /// and returns the prior value; when the type is absent or duplicated,
    /// the tuple is unchanged and the result is `None`.
    fn take(&mut self, t: TypeTag) -> (r: Option<Value>)
        ensures
            r is Some <==> type_count(old(self).slots(), t) == 1,
            r is None ==> final(self).slots() == old(self).slots(),
            r matches Some(v) ==> ({
                let s = old(self).slots();
                let i = first_slot(s, t);
                v == s[i] && final(self).slots() == s.update(i, final(self).slots()[i])
                    && is_default_value(t, final(self).slots()[i])
            }),
            slot_tags(final(self).slots()) == slot_tags(old(self).slots()),
    {
        let d = Value::default_of(t);
        let f = |v: Value| -> (out: (Value, Value))
            ensures
                out == (d, v),
            { (d, v) };
        self.map(t, f)
    }
}

impl Tuple {
    /// The index of the first slot of type `t`, scanning in declaration
    /// order.
    fn find_first(&self, t: TypeTag) -> (i: usize)
        requires
            type_count(self@, t) >= 1,
        ensures
            i == first_slot(self@, t),
            i < self@.len(),
            tag_of(self@[i as int]) == t,
    {
        let mut i: usize = 0;
        while i < self.slots.len()
            invariant
                i <= self@.len(),
                forall|j: int| 0 <= j < i ==> tag_of(#[trigger] self@[j]) != t,
            decreases self@.len() - i,
        {
            if self.slots[i].tag() == t {
                proof {
                    lemma_first_slot_of_match(self@, t, i as int);
                }
                return i;
            }
            i = i + 1;
        }
        proof {
            lemma_count_zero(self@, t);
        }
        0
    }

    /// Overwrites the slot at `i` with `value`, which must have the slot's
    /// own type.
    fn replace_slot(&mut self, i: usize, value: Value)
        requires
            i < old(self)@.len(),
            tag_of(value) == tag_of(old(self)@[i as int]),
        ensures
            final(self)@ == old(self)@.update(i as int, value),
            slot_tags(final(self)@) == slot_tags(old(self)@),
    {
        let ghost s = self@;
        let _prev = self.slots.remove(i);
        self.slots.insert(i, value);
        proof {
            assert(self@ =~= s.update(i as int, value));
            lemma_tags_of_update(s, i as int, value);
        }
    }
}

impl TupleSet for Tuple {
    fn set(&mut self, value: Value) -> (r: Option<Value>) {
        let t = value.tag();
        if self.contains_unique(t) {
            let i = self.find_first(t);
            self.replace_slot(i, value);
            None
        } else {
            Some(value)
        }
    }

    fn get(&self, t: TypeTag) -> (r: Option<&Value>) {
        if self.contains_unique(t) {
            let i = self.find_first(t);
            Some(self.slot(i))
        } else {
            None
        }
    }

    fn set_unchecked(&mut self, value: Value) {
        let t = value.tag();
        let i = self.find_first(t);
        self.replace_slot(i, value);
    }

    fn get_unchecked(&self, t: TypeTag) -> (r: &Value) {
        let i = self.find_first(t);
        self.slot(i)
    }

    fn map<F, R>(&mut self, t: TypeTag, f: F) -> (r: Option<R>) where F: FnOnce(
        Value,
    ) -> (Value, R) {
        if self.contains_unique(t) {
            Some(self.map_unchecked(t, f))
        } else {
            None
        }
    }

    fn map_unchecked<F, R>(&mut self, t: TypeTag, f: F) -> (r: R) where F: FnOnce(
        Value,
    ) -> (Value, R) {
        let i = self.find_first(t);
        let ghost s = self@;
        let old_v = self.slots.remove(i);
        let (new_v, res) = f(old_v);
        self.slots.insert(i, new_v);
        proof {
            assert(self@ =~= s.update(i as int, new_v));
            lemma_tags_of_update(s, i as int, new_v);
        }
        res
    }
}

} // verus!
