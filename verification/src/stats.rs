use vstd::prelude::*;

use crate::config::RECIPE_COUNT;

verus! {

/// How many of the first `n` agents hold role `ri`.
pub open spec fn holders_of(roles: Seq<Option<usize>>, n: int, ri: int) -> int
    decreases n,
{
    if n <= 0 {
        0
    } else {
        holders_of(roles, n - 1, ri) + match roles[n - 1] {
            Some(x) => if x as int == ri {
                1int
            } else {
                0int
            },
            None => 0int,
        }
    }
}

/// How many of the first `n` agents hold a role below `m`.
pub open spec fn role_holders(roles: Seq<Option<usize>>, n: int, m: int) -> int
    decreases n,
{
    if n <= 0 {
        0
    } else {
        role_holders(roles, n - 1, m) + match roles[n - 1] {
            Some(ri) => if ri < m {
                1int
            } else {
                0int
            },
            None => 0int,
        }
    }
}

/// The sum of the first `m` entries of `counts`.
pub open spec fn sum_of(counts: Seq<u32>, m: int) -> int
    decreases m,
{
    if m <= 0 {
        0
    } else {
        sum_of(counts, m - 1) + counts[m - 1] as int
    }
}

proof fn lemma_holders_bounded(roles: Seq<Option<usize>>, n: int, ri: int)
    requires
        0 <= n,
    ensures
        0 <= holders_of(roles, n, ri) <= n,
    decreases n,
{
    if n > 0 {
        lemma_holders_bounded(roles, n - 1, ri);
    }
}

/// Number of agents in each role (by recipe index), for the role chart.
/// Agents without a role, or with a role past the recipe table, are not counted.
pub fn role_counts(roles: &Vec<Option<usize>>) -> (counts: Vec<u32>)
    requires
        roles@.len() <= u32::MAX,
    ensures
        counts@.len() == RECIPE_COUNT,
        forall|ri: int| 0 <= ri < RECIPE_COUNT ==> #[trigger] counts@[ri] == holders_of(roles@, roles@.len() as int, ri),
{
    let mut counts: Vec<u32> = Vec::new();
    let mut z: usize = 0;
    while z < RECIPE_COUNT
        invariant
            z <= RECIPE_COUNT,
            counts@.len() == z,
            forall|i: int| 0 <= i < z ==> counts@[i] == 0,
        decreases RECIPE_COUNT - z,
    {
        counts.push(0);
        z = z + 1;
    }
    let mut a: usize = 0;
    while a < roles.len()
        invariant
            roles@.len() <= u32::MAX,
            a <= roles@.len(),
            counts@.len() == RECIPE_COUNT,
            forall|ri: int| 0 <= ri < RECIPE_COUNT ==> #[trigger] counts@[ri] == holders_of(roles@, a as int, ri),
        decreases roles@.len() - a,
    {
        if let Some(ri) = roles[a] {
            if ri < RECIPE_COUNT {
                proof {
                    lemma_holders_bounded(roles@, a as int, ri as int);
                }
                let cur = counts[ri];
                counts.set(ri, cur + 1);
            }
        }
        a = a + 1;
    }
    counts
}

/// Sum over roles below `m` of their holders among the first `n` agents.
pub open spec fn holders_sum(roles: Seq<Option<usize>>, n: int, m: int) -> int
    decreases m,
{
    if m <= 0 {
        0
    } else {
        holders_sum(roles, n, m - 1) + holders_of(roles, n, m - 1)
    }
}

proof fn lemma_holders_sum_step(roles: Seq<Option<usize>>, n: int, m: int)
    requires
        n > 0,
        m >= 0,
    ensures
        holders_sum(roles, n, m) == holders_sum(roles, n - 1, m) + match roles[n - 1] {
            Some(ri) => if ri < m {
                1int
            } else {
                0int
            },
            None => 0int,
        },
    decreases m,
{
    if m > 0 {
        lemma_holders_sum_step(roles, n, m - 1);
    }
}

proof fn lemma_holders_sum_is_role_holders(roles: Seq<Option<usize>>, n: int, m: int)
    requires
        n >= 0,
        m >= 0,
    ensures
        holders_sum(roles, n, m) == role_holders(roles, n, m),
    decreases n,
{
    if n == 0 {
        lemma_holders_sum_zero(roles, m);
    } else {
        lemma_holders_sum_step(roles, n, m);
        lemma_holders_sum_is_role_holders(roles, n - 1, m);
    }
}

proof fn lemma_holders_sum_zero(roles: Seq<Option<usize>>, m: int)
    requires
        m >= 0,
    ensures
        holders_sum(roles, 0, m) == 0,
    decreases m,
{
    if m > 0 {
        lemma_holders_sum_zero(roles, m - 1);
    }
}

proof fn lemma_sum_matches(roles: Seq<Option<usize>>, counts: Seq<u32>, m: int)
    requires
        0 <= m <= counts.len(),
        forall|ri: int| 0 <= ri < counts.len() ==> #[trigger] counts[ri] == holders_of(roles, roles.len() as int, ri),
    ensures
        sum_of(counts, m) == holders_sum(roles, roles.len() as int, m),
    decreases m,
{
    if m > 0 {
        lemma_sum_matches(roles, counts, m - 1);
    }
}

/// The role counts add up to the number of agents holding a known role:
/// every such agent is counted once, in the slot of its role.
pub proof fn law_role_counts_add_up(roles: Seq<Option<usize>>, counts: Seq<u32>)
    requires
        counts.len() == RECIPE_COUNT,
        forall|ri: int| 0 <= ri < RECIPE_COUNT ==> #[trigger] counts[ri] == holders_of(roles, roles.len() as int, ri),
    ensures
        sum_of(counts, RECIPE_COUNT as int) == role_holders(roles, roles.len() as int, RECIPE_COUNT as int),
{
    lemma_sum_matches(roles, counts, RECIPE_COUNT as int);
    lemma_holders_sum_is_role_holders(roles, roles.len() as int, RECIPE_COUNT as int);
}

} // verus!
