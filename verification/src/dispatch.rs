//! Type dispatch over a sequence of slots.
//!
//! The spec functions here are the mathematical model of the lookup every
//! accessor performs: [`type_count`] counts the slots of a type in
//! declaration order, and [`first_slot`] is the lowest index whose slot has
//! the requested type.  The lemmas relate the two and justify the
//! first-occurrence policy of the unchecked operations.

use vstd::prelude::*;

use crate::value::TypeTag;
use crate::value::Value;
use crate::value::tag_of;

verus! {

/// How many slots of `slots` have the static type `t`, duplicates counted
/// fully.
pub open spec fn type_count(slots: Seq<Value>, t: TypeTag) -> nat
    decreases slots.len(),
{
    if slots.len() == 0 {
        0
    } else {
        (if tag_of(slots[0]) == t {
            1nat
        } else {
            0nat
        }) + type_count(slots.drop_first(), t)
    }
}

/// The lowest index of a slot of type `t`, scanning in declaration order;
/// `slots.len()` when no slot has that type.
pub open spec fn first_slot(slots: Seq<Value>, t: TypeTag) -> int
    decreases slots.len(),
{
    if slots.len() == 0 {
        0
    } else if tag_of(slots[0]) == t {
        0
    } else {
        1 + first_slot(slots.drop_first(), t)
    }
}

/// The slot types in declaration order.
pub open spec fn slot_tags(slots: Seq<Value>) -> Seq<TypeTag> {
    slots.map_values(|v: Value| tag_of(v))
}

/// A type is counted zero times exactly when no slot has it.
pub proof fn lemma_count_zero(slots: Seq<Value>, t: TypeTag)
    ensures
        type_count(slots, t) == 0 <==> (forall|i: int|
            0 <= i < slots.len() ==> tag_of(#[trigger] slots[i]) != t),
    decreases slots.len(),
{
    if slots.len() > 0 {
        lemma_count_zero(slots.drop_first(), t);
        assert(forall|i: int|
            1 <= i < slots.len() ==> slots.drop_first()[i - 1] == #[trigger] slots[i]);
    }
}

/// Dropping the last slot drops its contribution to the count.
proof fn lemma_count_drop_last(slots: Seq<Value>, t: TypeTag)
    requires
        slots.len() > 0,
    ensures
        type_count(slots, t) == type_count(slots.drop_last(), t) + (if tag_of(slots.last()) == t {
            1int
        } else {
            0int
        }),
    decreases slots.len(),
{
    if slots.len() == 1 {
        assert(slots.drop_first() =~= Seq::<Value>::empty());
        assert(slots.drop_last() =~= Seq::<Value>::empty());
    } else {
        lemma_count_drop_last(slots.drop_first(), t);
        assert(slots.drop_first().drop_last() =~= slots.drop_last().drop_first());
        assert(slots.drop_first().last() == slots.last());
        assert(slots.drop_last()[0] == slots[0]);
    }
}

/// Count correctness: the count of a type is the length of the
/// subsequence of slots whose static type is exactly that type.
pub proof fn lemma_count_is_filter_len(slots: Seq<Value>, t: TypeTag)
    ensures
        type_count(slots, t) == slots.filter(|v: Value| tag_of(v) == t).len(),
    decreases slots.len(),
{
    reveal(Seq::filter);
    if slots.len() > 0 {
        lemma_count_is_filter_len(slots.drop_last(), t);
        lemma_count_drop_last(slots, t);
    }
}

/// A slot of type `t` at index `i`, with none before it, is what
/// [`first_slot`] points at; such a slot also makes the count positive.
pub proof fn lemma_first_slot_of_match(slots: Seq<Value>, t: TypeTag, i: int)
    requires
        0 <= i < slots.len(),
        tag_of(slots[i]) == t,
        forall|j: int| 0 <= j < i ==> tag_of(#[trigger] slots[j]) != t,
    ensures
        first_slot(slots, t) == i,
        type_count(slots, t) >= 1,
    decreases slots.len(),
{
    if i == 0 {
    } else {
        assert(tag_of(slots[0]) != t);
        assert(forall|j: int|
            0 <= j < i - 1 ==> tag_of(#[trigger] slots.drop_first()[j]) == tag_of(slots[j + 1]));
        lemma_first_slot_of_match(slots.drop_first(), t, i - 1);
    }
}

/// First-occurrence determinism: when at least one slot has type `t`,
/// [`first_slot`] is a valid index, its slot has type `t`, and every slot
/// before it has some other type.
pub proof fn lemma_first_slot(slots: Seq<Value>, t: TypeTag)
    requires
        type_count(slots, t) >= 1,
    ensures
        0 <= first_slot(slots, t) < slots.len(),
        tag_of(slots[first_slot(slots, t)]) == t,
        forall|j: int| 0 <= j < first_slot(slots, t) ==> tag_of(#[trigger] slots[j]) != t,
    decreases slots.len(),
{
    if slots.len() > 0 && tag_of(slots[0]) != t {
        lemma_first_slot(slots.drop_first(), t);
        assert(forall|j: int|
            1 <= j < slots.len() ==> slots.drop_first()[j - 1] == #[trigger] slots[j]);
    }
}

/// When exactly one slot has type `t`, every index whose slot has type `t`
/// is the first one: the checked operations and the unchecked ones agree on
/// which slot they touch.
pub proof fn lemma_unique_match(slots: Seq<Value>, t: TypeTag)
    requires
        type_count(slots, t) == 1,
    ensures
        forall|j: int|
            0 <= j < slots.len() && tag_of(#[trigger] slots[j]) == t ==> j == first_slot(slots, t),
    decreases slots.len(),
{
    lemma_first_slot(slots, t);
    assert forall|j: int|
        0 <= j < slots.len() && tag_of(#[trigger] slots[j]) == t implies j == first_slot(slots, t)
    by {
        if j != first_slot(slots, t) {
            lemma_count_two_matches(slots, t, first_slot(slots, t), j);
        }
    }
}

/// Two distinct slots of type `t` make the count at least two.
pub proof fn lemma_count_two_matches(slots: Seq<Value>, t: TypeTag, i: int, j: int)
    requires
        0 <= i < j < slots.len(),
        tag_of(slots[i]) == t,
        tag_of(slots[j]) == t,
    ensures
        type_count(slots, t) >= 2,
    decreases slots.len(),
{
    assert(forall|k: int|
        1 <= k < slots.len() ==> slots.drop_first()[k - 1] == #[trigger] slots[k]);
    if i == 0 {
        lemma_count_match_at(slots.drop_first(), t, j - 1);
    } else {
        lemma_count_two_matches(slots.drop_first(), t, i - 1, j - 1);
    }
}

/// A slot of type `t` anywhere makes the count positive.
pub proof fn lemma_count_match_at(slots: Seq<Value>, t: TypeTag, i: int)
    requires
        0 <= i < slots.len(),
        tag_of(slots[i]) == t,
    ensures
        type_count(slots, t) >= 1,
    decreases slots.len(),
{
    if i > 0 {
        lemma_count_match_at(slots.drop_first(), t, i - 1);
    }
}

/// Overwriting a slot with a value of the slot's own type leaves the slot
/// types unchanged.
pub proof fn lemma_tags_of_update(slots: Seq<Value>, i: int, v: Value)
    requires
        0 <= i < slots.len(),
        tag_of(v) == tag_of(slots[i]),
    ensures
        slot_tags(slots.update(i, v)) == slot_tags(slots),
{
    assert(slot_tags(slots.update(i, v)) =~= slot_tags(slots));
}

/// Dispatch reads only the slot types: two slot sequences with the same
/// types agree on every count and on every first occurrence.
pub proof fn lemma_dispatch_from_tags(s1: Seq<Value>, s2: Seq<Value>, t: TypeTag)
    requires
        slot_tags(s1) == slot_tags(s2),
    ensures
        type_count(s1, t) == type_count(s2, t),
        first_slot(s1, t) == first_slot(s2, t),
    decreases s1.len(),
{
    assert(s1.len() == slot_tags(s1).len());
    assert(s2.len() == slot_tags(s2).len());
    if s1.len() > 0 {
        assert(tag_of(s1[0]) == slot_tags(s1)[0]);
        assert(tag_of(s2[0]) == slot_tags(s2)[0]);
        assert(slot_tags(s1.drop_first()) =~= slot_tags(s2.drop_first())) by {
            assert(forall|j: int|
                0 <= j < s1.len() - 1 ==> tag_of(#[trigger] s1.drop_first()[j]) == tag_of(
                    s1[j + 1],
                ));
            assert(forall|j: int|
                0 <= j < s2.len() - 1 ==> tag_of(#[trigger] s2.drop_first()[j]) == tag_of(
                    s2[j + 1],
                ));
            assert(forall|j: int|
                0 <= j < s1.len() ==> tag_of(#[trigger] s1[j]) == slot_tags(s1)[j]);
            assert(forall|j: int|
                0 <= j < s2.len() ==> tag_of(#[trigger] s2[j]) == slot_tags(s2)[j]);
        }
        lemma_dispatch_from_tags(s1.drop_first(), s2.drop_first(), t);
    }
}

} // verus!
