use std::collections::{HashMap, HashSet};
use vstd::prelude::*;

verus! {

broadcast use vstd::std_specs::hash::group_hash_axioms;

/// # Input Type
///
/// Defines how the good interacts with input and it's consumption.
#[derive(Debug, Clone, Copy, PartialEq, Eq, Structural)]
pub enum InputType {
    /// Good Is destroyed, it's decay result does not get added to output.
    Destroyed,
    /// Good is destroyed, but it's decay result is also added to output.
    Consumed,
    /// Good is not destroyed, instead it is just used.
    /// Never produces it's result output from this.
    Capital,
    /// Good is not destroyed and it's amount does not matter. Any amount of this good
    /// covers all processes that could possibly be done.
    ///
    /// Used for environmental factors typically.
    Factor,
}

/// # Input Role
///
/// What the process rules read of a process input besides its amount and its
/// effects: the good, whether throughput and input bonuses leave it alone
/// (`fixed`), how it is used up, and whether the process can run without it.
#[derive(Debug, Clone, Copy, PartialEq, Eq, Structural)]
pub struct InputRole {
    /// The Good for input.
    pub good: usize,
    /// Whether the input is unaffected by Throughput or input bonuses.
    pub fixed: bool,
    /// Defines how the input and output of the good works.
    pub input_type: InputType,
    /// Whether the process can run without this input.
    pub optional: bool,
}

/// The input is a factor.
pub open spec fn is_factor(r: InputRole) -> bool {
    r.input_type is Factor
}

/// The input is required: neither a factor nor optional.
pub open spec fn is_requirement(r: InputRole) -> bool {
    !is_factor(r) && !r.optional
}

/// The input is optional and not a factor.
pub open spec fn is_optional_input(r: InputRole) -> bool {
    r.optional && !is_factor(r)
}

/// The kinds of selection made among a process's inputs.
#[derive(Debug, Clone, Copy, PartialEq, Eq, Structural)]
pub enum InputSelection {
    /// The factor inputs.
    Factors,
    /// The required inputs, factors excluded.
    Requirements,
    /// The optional inputs, factors excluded.
    Optionals,
}

/// Whether an input belongs to a selection.
pub open spec fn selects(sel: InputSelection, r: InputRole) -> bool {
    match sel {
        InputSelection::Factors => is_factor(r),
        InputSelection::Requirements => is_requirement(r),
        InputSelection::Optionals => is_optional_input(r),
    }
}

/// `idx` lists, in increasing order, exactly the positions of the inputs that
/// belong to the selection.
pub open spec fn selection_indices(
    roles: Seq<InputRole>,
    sel: InputSelection,
    idx: Seq<usize>,
) -> bool {
    &&& forall|a: int, b: int| 0 <= a < b < idx.len() ==> #[trigger] idx[a] < #[trigger] idx[b]
    &&& forall|a: int|
        0 <= a < idx.len() ==> #[trigger] idx[a] < roles.len() && selects(sel, roles[idx[a] as int])
    &&& forall|i: int| 0 <= i < roles.len() && selects(sel, #[trigger] roles[i]) ==> idx.contains(i as usize)
}

impl InputRole {
    /// An input role with the given parts.
    pub fn new(good: usize, fixed: bool, input_type: InputType, optional: bool) -> (r: Self)
        ensures
            r.good == good,
            r.fixed == fixed,
            r.input_type == input_type,
            r.optional == optional,
    {
        InputRole { good, fixed, input_type, optional }
    }

    /// Whether the input is a factor.
    pub fn is_factor(&self) -> (r: bool)
        ensures
            r == is_factor(*self),
    {
        match self.input_type {
            InputType::Factor => true,
            _ => false,
        }
    }

    /// Whether the input belongs to a selection.
    pub fn selected_by(&self, sel: InputSelection) -> (r: bool)
        ensures
            r == selects(sel, *self),
    {
        match sel {
            InputSelection::Factors => self.is_factor(),
            InputSelection::Requirements => !self.is_factor() && !self.optional,
            InputSelection::Optionals => self.optional && !self.is_factor(),
        }
    }
}

/// # Select Inputs
///
/// The positions, in order, of the inputs in a selection: the factors
/// (`Process::factors`), the required inputs (`Process::requirements`), or the
/// optional inputs (`Process::optional_inputs`).
pub fn select_inputs(roles: &Vec<InputRole>, sel: InputSelection) -> (idx: Vec<usize>)
    ensures
        selection_indices(roles@, sel, idx@),
{
    let mut idx: Vec<usize> = Vec::new();
    let mut i: usize = 0;
    while i < roles.len()
        invariant
            0 <= i <= roles@.len(),
            forall|a: int, b: int| 0 <= a < b < idx@.len() ==> #[trigger] idx@[a] < #[trigger] idx@[b],
            forall|a: int|
                0 <= a < idx@.len() ==> #[trigger] idx@[a] < i && selects(sel, roles@[idx@[a] as int]),
            forall|j: int| 0 <= j < i && selects(sel, #[trigger] roles@[j]) ==> idx@.contains(j as usize),
        decreases roles@.len() - i,
    {
        if roles[i].selected_by(sel) {
            let ghost before = idx@;
            idx.push(i);
            assert forall|j: int| 0 <= j < i && selects(sel, #[trigger] roles@[j]) implies idx@.contains(j as usize) by {
                let k = choose|k: int| 0 <= k < before.len() && before[k] == j as usize;
                assert(idx@[k] == j as usize);
            }
            assert(idx@[idx@.len() - 1] == i);
        }
        i = i + 1;
    }
    idx
}

/// Some two inputs are of the same good.
pub open spec fn has_repeated_good(roles: Seq<InputRole>) -> bool {
    exists|i: int, j: int| 0 <= i < j < roles.len() && #[trigger] roles[i].good == #[trigger] roles[j].good
}

/// # Repeated Goods
///
/// Whether some good is an input of the process twice. Such a process is
/// invalid (`Process::is_valid`).
pub fn has_repeated_goods(roles: &Vec<InputRole>) -> (r: bool)
    ensures
        r == has_repeated_good(roles@),
{
    let mut seen: HashSet<usize> = HashSet::new();
    let mut i: usize = 0;
    while i < roles.len()
        invariant
            0 <= i <= roles@.len(),
            forall|g: usize| seen@.contains(g) <==> exists|j: int| 0 <= j < i && #[trigger] roles@[j].good == g,
            !(exists|a: int, b: int| 0 <= a < b < i && #[trigger] roles@[a].good == #[trigger] roles@[b].good),
        decreases roles@.len() - i,
    {
        let g = roles[i].good;
        if !seen.insert(g) {
            proof {
                let j = choose|j: int| 0 <= j < i && #[trigger] roles@[j].good == g;
                assert(roles@[j].good == roles@[i as int].good);
            }
            return true;
        }
        assert forall|g2: usize| seen@.contains(g2) implies exists|j: int| 0 <= j < i + 1 && #[trigger] roles@[j].good == g2 by {
            if g2 == g {
                assert(roles@[i as int].good == g2);
            } else {
                let j = choose|j: int| 0 <= j < i && #[trigger] roles@[j].good == g2;
                assert(roles@[j].good == g2);
            }
        }
        assert forall|a: int, b: int| 0 <= a < b < i + 1 && #[trigger] roles@[a].good == #[trigger] roles@[b].good implies false by {
            if b == i {
                assert(seen@.contains(roles@[a].good));
            }
        }
        i = i + 1;
    }
    false
}

/// Some required input is fixed.
pub open spec fn has_fixed_requirement(roles: Seq<InputRole>) -> bool {
    exists|i: int| 0 <= i < roles.len() && is_requirement(#[trigger] roles[i]) && roles[i].fixed
}

/// # Fixed Requirement
///
/// Whether some required input is fixed. A process with one cannot run
/// without end, whatever its factors reduce.
pub fn any_fixed_requirement(roles: &Vec<InputRole>) -> (r: bool)
    ensures
        r == has_fixed_requirement(roles@),
{
    let mut i: usize = 0;
    while i < roles.len()
        invariant
            0 <= i <= roles@.len(),
            forall|j: int| 0 <= j < i ==> !(is_requirement(#[trigger] roles@[j]) && roles@[j].fixed),
        decreases roles@.len() - i,
    {
        if roles[i].selected_by(InputSelection::Requirements) && roles[i].fixed {
            return true;
        }
        i = i + 1;
    }
    false
}

/// `i` is the position of the first input of `good`.
pub open spec fn is_first_input_of(roles: Seq<InputRole>, good: usize, i: int) -> bool {
    &&& 0 <= i < roles.len()
    &&& roles[i].good == good
    &&& forall|j: int| 0 <= j < i ==> #[trigger] roles[j].good != good
}

/// # Get Input
///
/// The position of the input of a specific good. Returns None if no input
/// uses that good.
pub fn find_input(roles: &Vec<InputRole>, good: usize) -> (r: Option<usize>)
    ensures
        match r {
            Some(i) => is_first_input_of(roles@, good, i as int),
            None => forall|j: int| 0 <= j < roles@.len() ==> #[trigger] roles@[j].good != good,
        },
{
    let mut i: usize = 0;
    while i < roles.len()
        invariant
            0 <= i <= roles@.len(),
            forall|j: int| 0 <= j < i ==> #[trigger] roles@[j].good != good,
        decreases roles@.len() - i,
    {
        if roles[i].good == good {
            return Some(i);
        }
        i = i + 1;
    }
    None
}

/// `i` is the last factor of `good`.
pub open spec fn is_last_factor_of(roles: Seq<InputRole>, good: usize, i: int) -> bool {
    &&& 0 <= i < roles.len()
    &&& is_factor(roles[i])
    &&& roles[i].good == good
    &&& forall|j: int| i < j < roles.len() && is_factor(#[trigger] roles[j]) ==> roles[j].good != good
}

/// The factor table: every good that some factor input is of, mapped to
/// whether the last such factor is optional.
pub open spec fn factor_table(roles: Seq<InputRole>, m: Map<usize, bool>) -> bool {
    &&& forall|g: usize|
        #[trigger] m.contains_key(g) <==> exists|i: int|
            0 <= i < roles.len() && is_factor(#[trigger] roles[i]) && roles[i].good == g
    &&& forall|g: usize, i: int| m.contains_key(g) && #[trigger] is_last_factor_of(roles, g, i) ==> m[g] == roles[i].optional
}

/// # Has Factors
///
/// A summary of factors needed for the process, with a bool attached to them to
/// define them as required or optional (true is optional).
pub fn factor_summary(roles: &Vec<InputRole>) -> (m: HashMap<usize, bool>)
    ensures
        factor_table(roles@, m@),
{
    let mut m: HashMap<usize, bool> = HashMap::new();
    let mut i: usize = 0;
    while i < roles.len()
        invariant
            0 <= i <= roles@.len(),
            factor_table(roles@.take(i as int), m@),
        decreases roles@.len() - i,
    {
        let ghost pre = roles@.take(i as int);
        let ghost post = roles@.take(i + 1);
        assert(post == pre.push(roles@[i as int]));
        if roles[i].is_factor() {
            m.insert(roles[i].good, roles[i].optional);
        }
        assert forall|g: usize| #[trigger] m@.contains_key(g) <==> exists|k: int|
            0 <= k < post.len() && is_factor(#[trigger] post[k]) && post[k].good == g by {
            if m@.contains_key(g) {
                if is_factor(roles@[i as int]) && g == roles@[i as int].good {
                    assert(post[i as int] == roles@[i as int]);
                } else {
                    let k = choose|k: int| 0 <= k < pre.len() && is_factor(#[trigger] pre[k]) && pre[k].good == g;
                    assert(post[k] == pre[k]);
                }
            }
            if exists|k: int| 0 <= k < post.len() && is_factor(#[trigger] post[k]) && post[k].good == g {
                let k = choose|k: int| 0 <= k < post.len() && is_factor(#[trigger] post[k]) && post[k].good == g;
                if k < i {
                    assert(pre[k] == post[k]);
                }
            }
        }
        assert forall|g: usize, k: int| m@.contains_key(g) && #[trigger] is_last_factor_of(post, g, k) implies m@[g] == post[k].optional by {
            if is_factor(roles@[i as int]) && roles@[i as int].good == g {
                if k < i {
                    assert(post[i as int] == roles@[i as int]);
                }
            } else {
                if k == i {
                } else {
                    assert forall|j: int| k < j < pre.len() && is_factor(#[trigger] pre[j]) implies pre[j].good != g by {
                        assert(post[j] == pre[j]);
                    }
                    assert(is_last_factor_of(pre, g, k));
                }
            }
        }
        i = i + 1;
    }
    assert(roles@.take(roles@.len() as int) == roles@);
    m
}

/// Inputs that pass the validity check have goods that are pairwise distinct,
/// so the first input of a good is its only one.
pub proof fn valid_inputs_have_one_input_per_good(roles: Seq<InputRole>, good: usize, i: int, j: int)
    requires
        !has_repeated_good(roles),
        0 <= i < roles.len(),
        0 <= j < roles.len(),
        roles[i].good == good,
        roles[j].good == good,
    ensures
        i == j,
        is_first_input_of(roles, good, i),
{
    if i < j {
        assert(roles[i].good == roles[j].good);
    } else if j < i {
        assert(roles[j].good == roles[i].good);
    }
    assert forall|k: int| 0 <= k < i implies #[trigger] roles[k].good != good by {
        if roles[k].good == good {
            assert(roles[k].good == roles[i].good);
        }
    }
}

/// Every input is in exactly one of the three selections: factor, required
/// or optional.
pub proof fn selections_partition_inputs(r: InputRole)
    ensures
        (selects(InputSelection::Factors, r) as int) + (selects(InputSelection::Requirements, r) as int)
            + (selects(InputSelection::Optionals, r) as int) == 1,
{
}

/// Which selection an input belongs to depends only on whether its input type
/// is `Factor` and whether it is optional: the factors are exactly the inputs
/// of type `Factor`; the required inputs exactly those that are neither of type
/// `Factor` nor optional; the optional inputs exactly those that are optional
/// and not of type `Factor`. Whatever else the input type is plays no part.
pub proof fn selection_membership(roles: Seq<InputRole>, sel: InputSelection, idx: Seq<usize>, i: int)
    requires
        selection_indices(roles, sel, idx),
        0 <= i < roles.len(),
        roles.len() <= usize::MAX,
    ensures
        sel is Factors ==> (idx.contains(i as usize) <==> roles[i].input_type is Factor),
        sel is Requirements ==> (idx.contains(i as usize) <==> (!(roles[i].input_type is Factor)
            && !roles[i].optional)),
        sel is Optionals ==> (idx.contains(i as usize) <==> (roles[i].optional && !(
        roles[i].input_type is Factor))),
{
    if idx.contains(i as usize) {
        let a = choose|a: int| 0 <= a < idx.len() && idx[a] == i as usize;
        assert(selects(sel, roles[idx[a] as int]));
    }
    if selects(sel, roles[i]) {
        assert(idx.contains(i as usize));
    }
}

/// The factor summary holds the goods of exactly the inputs whose type is
/// `Factor`, and maps each to whether the last such input of that good is
/// optional.
pub proof fn factor_summary_by_type(roles: Seq<InputRole>, m: Map<usize, bool>)
    requires
        factor_table(roles, m),
    ensures
        forall|g: usize|
            #[trigger] m.contains_key(g) <==> exists|i: int|
                0 <= i < roles.len() && (#[trigger] roles[i]).input_type is Factor && roles[i].good == g,
        forall|i: int|
            0 <= i < roles.len() && (#[trigger] roles[i]).input_type is Factor && (forall|j: int|
                i < j < roles.len() && (#[trigger] roles[j]).input_type is Factor ==> roles[j].good
                    != roles[i].good) ==> m.contains_key(roles[i].good) && m[roles[i].good] == roles[i].optional,
{
    assert forall|g: usize| #[trigger] m.contains_key(g) <==> exists|i: int|
        0 <= i < roles.len() && (#[trigger] roles[i]).input_type is Factor && roles[i].good == g by {
        if m.contains_key(g) {
            let i = choose|i: int| 0 <= i < roles.len() && is_factor(#[trigger] roles[i]) && roles[i].good == g;
            assert(roles[i].input_type is Factor);
        }
        if exists|i: int| 0 <= i < roles.len() && (#[trigger] roles[i]).input_type is Factor && roles[i].good == g {
            let i = choose|i: int| 0 <= i < roles.len() && (#[trigger] roles[i]).input_type is Factor && roles[i].good == g;
            assert(is_factor(roles[i]));
        }
    }
    assert forall|i: int|
        0 <= i < roles.len() && (#[trigger] roles[i]).input_type is Factor && (forall|j: int|
            i < j < roles.len() && (#[trigger] roles[j]).input_type is Factor ==> roles[j].good
                != roles[i].good) implies m.contains_key(roles[i].good) && m[roles[i].good] == roles[i].optional by {
        assert(is_factor(roles[i]));
        assert(m.contains_key(roles[i].good));
        assert forall|j: int| i < j < roles.len() && is_factor(#[trigger] roles[j]) implies roles[j].good != roles[i].good by {
            assert(roles[j].input_type is Factor);
        }
        assert(is_last_factor_of(roles, roles[i].good, i));
    }
}

/// A process has a fixed requirement exactly when some input that is neither
/// of type `Factor` nor optional is fixed, whatever its input type otherwise.
pub proof fn fixed_requirement_by_parts(roles: Seq<InputRole>)
    ensures
        has_fixed_requirement(roles) <==> exists|i: int|
            0 <= i < roles.len() && !((#[trigger] roles[i]).input_type is Factor) && !roles[i].optional
                && roles[i].fixed,
{
    if has_fixed_requirement(roles) {
        let i = choose|i: int| 0 <= i < roles.len() && is_requirement(#[trigger] roles[i]) && roles[i].fixed;
        assert(!(roles[i].input_type is Factor));
    }
    if exists|i: int|
        0 <= i < roles.len() && !((#[trigger] roles[i]).input_type is Factor) && !roles[i].optional
            && roles[i].fixed {
        let i = choose|i: int|
            0 <= i < roles.len() && !((#[trigger] roles[i]).input_type is Factor) && !roles[i].optional
                && roles[i].fixed;
        assert(is_requirement(roles[i]));
    }
}

} // verus!
