use vstd::prelude::*;

verus! {

/// # Payment Key
///
/// What orders the terms of a wage basket: scaling terms (paid per time unit)
/// before flat lumps, then by good id.
#[derive(Debug, Clone, Copy, PartialEq, Eq, Structural)]
pub struct PaymentKey {
    /// True: a lump. False: scales with hours.
    pub flat: bool,
    /// The good paid.
    pub good: usize,
}

impl PaymentKey {
    /// A key for a term of `good`, flat or scaling.
    pub fn new(flat: bool, good: usize) -> (k: Self)
        ensures
            k.flat == flat,
            k.good == good,
    {
        PaymentKey { flat, good }
    }

    /// Whether this term is paid strictly before `other`.
    pub fn pays_before(&self, other: &PaymentKey) -> (r: bool)
        ensures
            r == pay_lt(*self, *other),
    {
        (!self.flat && other.flat) || (self.flat == other.flat && self.good < other.good)
    }
}

/// `a` is paid strictly before `b`: scaling before flat, then lower good id.
pub open spec fn pay_lt(a: PaymentKey, b: PaymentKey) -> bool {
    (!a.flat && b.flat) || (a.flat == b.flat && a.good < b.good)
}

/// Term `i` (with key `a`) comes before term `j` (with key `b`) in the paid
/// order: by key, and terms with equal keys keep their order in the basket.
pub open spec fn term_before(a: PaymentKey, i: int, b: PaymentKey, j: int) -> bool {
    pay_lt(a, b) || (a == b && i < j)
}

/// `order` lists each position of `keys` once, in paid order.
pub open spec fn is_payment_order(keys: Seq<PaymentKey>, order: Seq<usize>) -> bool {
    &&& order.len() == keys.len()
    &&& forall|a: int| 0 <= a < order.len() ==> #[trigger] order[a] < keys.len()
    &&& forall|a: int, b: int|
        0 <= a < b < order.len() ==> term_before(
            keys[#[trigger] order[a] as int],
            order[a] as int,
            keys[#[trigger] order[b] as int],
            order[b] as int,
        )
}

/// The paid order is a strict total order on the basket's terms.
pub proof fn term_order_is_strict(a: PaymentKey, i: int, b: PaymentKey, j: int, c: PaymentKey, k: int)
    ensures
        !term_before(a, i, a, i),
        !(term_before(a, i, b, j) && term_before(b, j, a, i)),
        term_before(a, i, b, j) && term_before(b, j, c, k) ==> term_before(a, i, c, k),
        i != j ==> term_before(a, i, b, j) || term_before(b, j, a, i),
{
}

/// # Ordered Payment Terms
///
/// The order to pay a wage basket in: scaling terms first, then flat terms,
/// each by good id; terms with the same key keep their order in the basket.
/// Returns the positions of the terms in the basket, in paying order.
pub fn ordered_payment_terms(keys: &Vec<PaymentKey>) -> (order: Vec<usize>)
    ensures
        is_payment_order(keys@, order@),
        order@.no_duplicates(),
{
    let mut order: Vec<usize> = Vec::new();
    let mut i: usize = 0;
    while i < keys.len()
        invariant
            0 <= i <= keys@.len(),
            order@.len() == i,
            forall|a: int| 0 <= a < order@.len() ==> #[trigger] order@[a] < i,
            order@.no_duplicates(),
            forall|a: int, b: int|
                0 <= a < b < order@.len() ==> term_before(
                    keys@[#[trigger] order@[a] as int],
                    order@[a] as int,
                    keys@[#[trigger] order@[b] as int],
                    order@[b] as int,
                ),
        decreases keys@.len() - i,
    {
        let key = keys[i];
        let mut pos = order.len();
        while pos > 0
            invariant
                0 <= pos <= order@.len(),
                order@.len() == i,
                i < keys@.len(),
                key == keys@[i as int],
                forall|a: int| 0 <= a < order@.len() ==> #[trigger] order@[a] < i,
                forall|a: int| pos <= a < order@.len() ==> pay_lt(key, keys@[#[trigger] order@[a] as int]),
            ensures
                0 <= pos <= order@.len(),
                forall|a: int| pos <= a < order@.len() ==> pay_lt(key, keys@[#[trigger] order@[a] as int]),
                pos > 0 ==> !pay_lt(key, keys@[order@[pos - 1] as int]),
            decreases pos,
        {
            if key.pays_before(&keys[order[pos - 1]]) {
                pos = pos - 1;
            } else {
                break;
            }
        }
        proof {
            if pos > 0 {
                assert(!pay_lt(key, keys@[order@[pos - 1] as int]));
            }
        }
        let ghost old_order = order@;
        order.insert(pos, i);
        proof {
            assert(order@ =~= old_order.insert(pos as int, i));
            assert forall|a: int| 0 <= a < pos implies !pay_lt(key, keys@[#[trigger] old_order[a] as int]) by {
                if a < pos - 1 {
                    assert(term_before(keys@[old_order[a] as int], old_order[a] as int, keys@[old_order[pos - 1] as int], old_order[pos - 1] as int));
                }
            }
            assert forall|a: int, b: int| 0 <= a < b < order@.len() implies term_before(
                keys@[#[trigger] order@[a] as int],
                order@[a] as int,
                keys@[#[trigger] order@[b] as int],
                order@[b] as int,
            ) by {
                if b < pos {
                    assert(order@[a] == old_order[a] && order@[b] == old_order[b]);
                } else if b == pos {
                    assert(order@[a] == old_order[a]);
                    assert(!pay_lt(key, keys@[old_order[a] as int]));
                    assert(old_order[a] < i);
                } else if a == pos {
                    assert(order@[b] == old_order[b - 1]);
                } else if a < pos {
                    assert(order@[a] == old_order[a] && order@[b] == old_order[b - 1]);
                } else {
                    assert(order@[a] == old_order[a - 1] && order@[b] == old_order[b - 1]);
                }
            }
            assert forall|a: int, b: int| 0 <= a < order@.len() && 0 <= b < order@.len() && a != b implies order@[a] != order@[b] by {
                if a < b {
                    assert(term_before(keys@[order@[a] as int], order@[a] as int, keys@[order@[b] as int], order@[b] as int));
                } else {
                    assert(term_before(keys@[order@[b] as int], order@[b] as int, keys@[order@[a] as int], order@[a] as int));
                }
            }
        }
        i = i + 1;
    }
    order
}

/// The paying rule on two terms: a scaling term is paid before a flat one and
/// never after it, and of two terms that are both flat or both scaling, the one
/// with the lower good id is paid first; equal keys are not ordered.
pub proof fn pay_rule(a: PaymentKey, b: PaymentKey)
    ensures
        !a.flat && b.flat ==> pay_lt(a, b),
        a.flat && !b.flat ==> !pay_lt(a, b),
        a.flat == b.flat && a.good < b.good ==> pay_lt(a, b),
        a.flat == b.flat && a.good >= b.good ==> !pay_lt(a, b),
{
}

/// In a payment order, no flat term comes before a scaling term, terms of the
/// same kind come by ascending good id, and terms with the same kind and good
/// keep their order in the basket.
pub proof fn payment_order_by_parts(keys: Seq<PaymentKey>, order: Seq<usize>, a: int, b: int)
    requires
        is_payment_order(keys, order),
        0 <= a < b < order.len(),
    ensures
        keys[order[a] as int].flat ==> keys[order[b] as int].flat,
        keys[order[a] as int].flat == keys[order[b] as int].flat ==> keys[order[a] as int].good
            <= keys[order[b] as int].good,
        keys[order[a] as int] == keys[order[b] as int] ==> order[a] < order[b],
{
    assert(term_before(keys[order[a] as int], order[a] as int, keys[order[b] as int], order[b] as int));
}

} // verus!
