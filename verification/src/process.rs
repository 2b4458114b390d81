use vstd::prelude::*;

verus! {

/// # Input Tag
///
/// Input tags are attached to process inputs and define additional features that
/// apply only to that part of the process.
///
/// A process input with no tags is, de facto, destroyed by the process.
///
/// Tags are ordered as declared: `NoTag`, then `Used`, then `Consumed`.
#[derive(Debug, Clone, Copy, PartialEq, Eq, PartialOrd, Ord, Structural)]
pub enum InputTag {
    /// No tag, a place holder so we don't need to use Optional<InputTag>.
    /// Written out as `None`.
    NoTag,
    /// Used marks the input as being 'used' not consumed or destroyed.
    Used,
    /// Consumed marks the input as resulting in the decay good being produced
    /// rather than destroyed.
    Consumed,
}

/// The place of a tag in the declared order of [`InputTag`].
pub open spec fn tag_rank(tag: InputTag) -> int {
    match tag {
        InputTag::NoTag => 0,
        InputTag::Used => 1,
        InputTag::Consumed => 2,
    }
}

impl InputTag {
    /// The place of the tag in the declared order.
    pub fn rank(&self) -> (r: u8)
        ensures
            r == tag_rank(*self),
    {
        match self {
            InputTag::NoTag => 0,
            InputTag::Used => 1,
            InputTag::Consumed => 2,
        }
    }

    /// The tag's name as it is written out.
    pub fn as_str(&self) -> (s: &'static str)
        ensures
            *self is NoTag ==> s@ == "None"@,
            *self is Used ==> s@ == "Used"@,
            *self is Consumed ==> s@ == "Consumed"@,
    {
        match self {
            InputTag::NoTag => "None",
            InputTag::Used => "Used",
            InputTag::Consumed => "Consumed",
        }
    }
}

/// # Output Tags
///
/// Adds special information to the outputs of a process part.
///
/// Currently used for sanity checking outputs.
#[derive(Debug, Clone, Copy)]
pub enum OutputTag {
    ConsumedOutput,
    UsedOutput,
}

/// # Input Key
///
/// What orders the inputs of a process: first the tag, in the declared order of
/// [`InputTag`], then the good id.
#[derive(Debug, Clone, Copy, PartialEq, Eq, Structural)]
pub struct InputKey {
    pub tag: InputTag,
    pub good: usize,
}

/// `a` comes strictly before `b` in input order.
pub open spec fn key_lt(a: InputKey, b: InputKey) -> bool {
    tag_rank(a.tag) < tag_rank(b.tag) || (tag_rank(a.tag) == tag_rank(b.tag) && a.good < b.good)
}

/// `a` comes before `b` in input order, or has the same key.
pub open spec fn key_le(a: InputKey, b: InputKey) -> bool {
    !key_lt(b, a)
}

/// The inputs are in input order.
pub open spec fn keys_sorted(s: Seq<InputKey>) -> bool {
    forall|i: int, j: int| 0 <= i < j < s.len() ==> key_le(#[trigger] s[i], #[trigger] s[j])
}

/// `p` is where a new input with key `key` settles among `keys` when it is
/// added at the end and moved down past every input that should come after it:
/// all inputs from `p` on come strictly after `key`, and the one before `p`,
/// if any, does not.
pub open spec fn is_input_slot(keys: Seq<InputKey>, key: InputKey, p: int) -> bool {
    &&& 0 <= p <= keys.len()
    &&& forall|j: int| p <= j < keys.len() ==> key_lt(key, #[trigger] keys[j])
    &&& p > 0 ==> !key_lt(key, keys[p - 1])
}

impl InputKey {
    /// A key with the given tag and good.
    pub fn new(tag: InputTag, good: usize) -> (k: Self)
        ensures
            k.tag == tag,
            k.good == good,
    {
        InputKey { tag, good }
    }

    /// Whether this key comes strictly before `other` in input order.
    pub fn comes_before(&self, other: &InputKey) -> (r: bool)
        ensures
            r == key_lt(*self, *other),
    {
        let a = self.tag.rank();
        let b = other.tag.rank();
        a < b || (a == b && self.good < other.good)
    }
}

/// # Uses Input
///
/// Where a new input goes in a process's input list: it is added at the end
/// and then moved down, one place at a time, while the input below it has a
/// greater tag, or the same tag and a greater good id. Returns the index the
/// new input ends at; the inputs from that index on move up by one.
pub fn input_slot(keys: &Vec<InputKey>, key: InputKey) -> (p: usize)
    ensures
        is_input_slot(keys@, key, p as int),
        p == slot_of(keys@, key),
{
    let mut current = keys.len();
    while current > 0
        invariant
            0 <= current <= keys@.len(),
            forall|j: int| current <= j < keys@.len() ==> key_lt(key, #[trigger] keys@[j]),
        ensures
            is_input_slot(keys@, key, current as int),
        decreases current,
    {
        if key.comes_before(&keys[current - 1]) {
            current = current - 1;
        } else {
            break;
        }
    }
    proof {
        slot_of_is_the_slot(keys@, key);
        input_slot_is_unique(keys@, key, current as int, slot_of(keys@, key));
    }
    current
}

/// Input order is a strict order: never both ways, and transitive.
pub proof fn key_order_is_strict(a: InputKey, b: InputKey, c: InputKey)
    ensures
        !(key_lt(a, b) && key_lt(b, a)),
        !key_lt(a, a),
        key_lt(a, b) && key_lt(b, c) ==> key_lt(a, c),
        key_lt(a, b) || key_lt(b, a) || a == b,
{
}

/// Only one index is the slot of a key: the slot is determined by the list
/// and the key.
pub proof fn input_slot_is_unique(keys: Seq<InputKey>, key: InputKey, p: int, q: int)
    requires
        is_input_slot(keys, key, p),
        is_input_slot(keys, key, q),
    ensures
        p == q,
{
    if p < q {
        assert(key_lt(key, keys[q - 1]));
    } else if q < p {
        assert(key_lt(key, keys[p - 1]));
    }
}

/// Adding an input at its slot keeps a sorted input list sorted, and puts it
/// after every input with the same key that was there before.
pub proof fn input_slot_keeps_order(keys: Seq<InputKey>, key: InputKey, p: int)
    requires
        keys_sorted(keys),
        is_input_slot(keys, key, p),
    ensures
        keys_sorted(keys.insert(p, key)),
        forall|j: int| 0 <= j < p ==> key_le(#[trigger] keys[j], key),
        forall|j: int| p <= j < keys.len() ==> key_lt(key, #[trigger] keys[j]),
{
    assert forall|j: int| 0 <= j < p implies key_le(#[trigger] keys[j], key) by {
        assert(key_le(keys[j], keys[p - 1]));
    }
    let s = keys.insert(p, key);
    assert forall|i: int, j: int| 0 <= i < j < s.len() implies key_le(
        #[trigger] s[i],
        #[trigger] s[j],
    ) by {
        if j < p {
            assert(s[i] == keys[i] && s[j] == keys[j]);
        } else if j == p {
            assert(s[i] == keys[i]);
        } else if i == p {
            assert(s[j] == keys[j - 1]);
        } else if i < p {
            assert(s[i] == keys[i] && s[j] == keys[j - 1]);
        } else {
            assert(s[i] == keys[i - 1] && s[j] == keys[j - 1]);
        }
    }
}

/// How many inputs at the end of `keys` come strictly after `key`, counted
/// from the end until the first that does not.
pub open spec fn greater_tail(keys: Seq<InputKey>, key: InputKey) -> nat
    decreases keys.len(),
{
    if keys.len() == 0 {
        0
    } else if key_lt(key, keys.last()) {
        1 + greater_tail(keys.drop_last(), key)
    } else {
        0
    }
}

/// The slot where `key` settles among `keys`.
pub open spec fn slot_of(keys: Seq<InputKey>, key: InputKey) -> int {
    keys.len() - greater_tail(keys, key)
}

/// The list that results from adding the inputs of `adds`, one after the
/// other, each at its slot (`Process::uses_inputs`).
pub open spec fn settle_all(keys: Seq<InputKey>, adds: Seq<InputKey>) -> Seq<InputKey>
    decreases adds.len(),
{
    if adds.len() == 0 {
        keys
    } else {
        settle_all(keys.insert(slot_of(keys, adds[0]), adds[0]), adds.drop_first())
    }
}

/// Every key has a slot in every list, and [`slot_of`] is it.
pub proof fn slot_of_is_the_slot(keys: Seq<InputKey>, key: InputKey)
    ensures
        is_input_slot(keys, key, slot_of(keys, key)),
    decreases keys.len(),
{
    if keys.len() > 0 && key_lt(key, keys.last()) {
        let rest = keys.drop_last();
        slot_of_is_the_slot(rest, key);
        assert forall|j: int| slot_of(keys, key) <= j < keys.len() implies key_lt(key, #[trigger] keys[j]) by {
            if j < keys.len() - 1 {
                assert(keys[j] == rest[j]);
            }
        }
        if slot_of(keys, key) > 0 {
            assert(keys[slot_of(keys, key) - 1] == rest[slot_of(rest, key) - 1]);
        }
    }
}

/// Adding inputs one by one at their slots keeps a sorted list sorted, and
/// adds every one of them: starting from no inputs, the list comes out in
/// input order whatever order the inputs were added in.
pub proof fn settle_all_keeps_order(keys: Seq<InputKey>, adds: Seq<InputKey>)
    requires
        keys_sorted(keys),
    ensures
        keys_sorted(settle_all(keys, adds)),
        settle_all(keys, adds).len() == keys.len() + adds.len(),
        settle_all(keys, adds).to_multiset() == keys.to_multiset().add(adds.to_multiset()),
    decreases adds.len(),
{
    broadcast use vstd::seq_lib::group_to_multiset_ensures;
    if adds.len() > 0 {
        let p = slot_of(keys, adds[0]);
        slot_of_is_the_slot(keys, adds[0]);
        input_slot_keeps_order(keys, adds[0], p);
        let next = keys.insert(p, adds[0]);
        settle_all_keeps_order(next, adds.drop_first());
        assert(next.to_multiset() =~= keys.to_multiset().insert(adds[0])) by {
            keys.insert_ensures(p, adds[0]);
            assert(next.remove(p) =~= keys);
        }
        assert(adds.to_multiset() =~= adds.drop_first().to_multiset().insert(adds[0])) by {
            assert(adds.remove(0) =~= adds.drop_first());
        }
        assert(settle_all(keys, adds) == settle_all(next, adds.drop_first()));
        assert(keys.to_multiset().insert(adds[0]).add(adds.drop_first().to_multiset()) =~= keys.to_multiset().add(
            adds.drop_first().to_multiset().insert(adds[0]),
        ));
    }
}

} // verus!
