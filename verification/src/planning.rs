use vstd::prelude::*;

use crate::config::RESOURCE_COUNT;
use crate::recipe::Recipe;
use crate::resource::Resource;

verus! {

/// Thousandths of `r` that the first `n` of the agent's recipes make per run.
pub open spec fn output_rate(rs: Seq<Recipe>, agent: Seq<usize>, n: int, r: Resource) -> int
    decreases n,
{
    if n <= 0 {
        0
    } else {
        output_rate(rs, agent, n - 1, r) + if rs[agent[n - 1] as int].output == r {
            rs[agent[n - 1] as int].output_qty as int
        } else {
            0
        }
    }
}

/// Thousandths of `r` among the first `n` entries of an input list.
pub open spec fn inputs_rate(inputs: Seq<(Resource, u32)>, n: int, r: Resource) -> int
    decreases n,
{
    if n <= 0 {
        0
    } else {
        inputs_rate(inputs, n - 1, r) + if inputs[n - 1].0 == r {
            inputs[n - 1].1 as int
        } else {
            0
        }
    }
}

/// Thousandths of `r` that the first `n` of the agent's recipes use per run.
pub open spec fn input_rate(rs: Seq<Recipe>, agent: Seq<usize>, n: int, r: Resource) -> int
    decreases n,
{
    if n <= 0 {
        0
    } else {
        input_rate(rs, agent, n - 1, r) + inputs_rate(
            rs[agent[n - 1] as int].inputs@,
            rs[agent[n - 1] as int].inputs@.len() as int,
            r,
        )
    }
}

/// The goods named by an input list, in order.
pub open spec fn input_goods(inputs: Seq<(Resource, u32)>) -> Seq<Resource> {
    inputs.map_values(|p: (Resource, u32)| p.0)
}

/// The inputs of the first `n` of the agent's recipes, in order, repeats kept.
pub open spec fn input_sequence(rs: Seq<Recipe>, agent: Seq<usize>, n: int) -> Seq<Resource>
    decreases n,
{
    if n <= 0 {
        Seq::empty()
    } else {
        input_sequence(rs, agent, n - 1) + input_goods(rs[agent[n - 1] as int].inputs@)
    }
}

/// `s` with every repeat of an earlier element left out.
pub open spec fn first_occurrences(s: Seq<Resource>) -> Seq<Resource>
    decreases s.len(),
{
    if s.len() == 0 {
        Seq::empty()
    } else {
        let d = first_occurrences(s.drop_last());
        if d.contains(s.last()) {
            d
        } else {
            d.push(s.last())
        }
    }
}

/// No good occurs twice in `s`.
pub open spec fn no_repeats(s: Seq<Resource>) -> bool {
    forall|i: int, j: int| 0 <= i < j < s.len() ==> s[i] != s[j]
}

/// Leaving out repeats keeps each good once and loses none.
pub proof fn law_first_occurrences(s: Seq<Resource>)
    ensures
        no_repeats(first_occurrences(s)),
        forall|r: Resource| #[trigger] first_occurrences(s).contains(r) <==> s.contains(r),
    decreases s.len(),
{
    if s.len() > 0 {
        law_first_occurrences(s.drop_last());
        let d = first_occurrences(s.drop_last());
        let t = s.drop_last();
        let x = s.last();
        let f = first_occurrences(s);
        assert forall|r: Resource| #[trigger] first_occurrences(s).contains(r) <==> s.contains(r) by {
            if f.contains(r) {
                let i = choose|i: int| 0 <= i < f.len() && f[i] == r;
                if i < d.len() {
                    assert(d[i] == r);
                    assert(d.contains(r));
                    assert(first_occurrences(t).contains(r));
                    let j = choose|j: int| 0 <= j < t.len() && t[j] == r;
                    assert(s[j] == r);
                } else {
                    assert(r == x);
                    assert(s[s.len() - 1] == r);
                }
            }
            if s.contains(r) {
                let i = choose|i: int| 0 <= i < s.len() && s[i] == r;
                if i == s.len() - 1 {
                    if !d.contains(x) {
                        assert(f[d.len() as int] == x);
                    }
                } else {
                    assert(t[i] == r);
                    assert(t.contains(r));
                    assert(first_occurrences(t).contains(r));
                    let j = choose|j: int| 0 <= j < d.len() && d[j] == r;
                    assert(f[j] == r);
                }
            }
        }
    }
}

/// The goods an agent makes, and needs, with its recipes.
pub struct ProductionPlan {
    /// The output of each of the agent's recipes, in recipe order.
    pub produced: Vec<Resource>,
    /// Every input of the agent's recipes once, in order of first mention.
    pub needed_inputs: Vec<Resource>,
    /// Per good (by index), thousandths made by one run of every recipe.
    pub output_rates: Vec<u64>,
    /// Per good (by index), thousandths used up by one run of every recipe.
    pub input_rates: Vec<u64>,
}

fn contains_resource(v: &Vec<Resource>, r: Resource) -> (b: bool)
    ensures
        b == v@.contains(r),
{
    let mut i: usize = 0;
    while i < v.len()
        invariant
            i <= v@.len(),
            forall|j: int| 0 <= j < i ==> v@[j] != r,
        decreases v@.len() - i,
    {
        if v[i] == r {
            assert(v@[i as int] == r);
            return true;
        }
        i = i + 1;
    }
    false
}

proof fn lemma_output_rate_grows(rs: Seq<Recipe>, agent: Seq<usize>, m: int, n: int, r: Resource)
    requires
        0 <= m <= n,
    ensures
        output_rate(rs, agent, m, r) <= output_rate(rs, agent, n, r),
    decreases n - m,
{
    if m < n {
        lemma_output_rate_grows(rs, agent, m, n - 1, r);
    }
}

proof fn lemma_inputs_rate_grows(inputs: Seq<(Resource, u32)>, m: int, n: int, r: Resource)
    requires
        0 <= m <= n,
    ensures
        inputs_rate(inputs, m, r) <= inputs_rate(inputs, n, r),
    decreases n - m,
{
    if m < n {
        lemma_inputs_rate_grows(inputs, m, n - 1, r);
    }
}

proof fn lemma_input_rate_grows(rs: Seq<Recipe>, agent: Seq<usize>, m: int, n: int, r: Resource)
    requires
        0 <= m <= n,
    ensures
        input_rate(rs, agent, m, r) <= input_rate(rs, agent, n, r),
    decreases n - m,
{
    if m < n {
        lemma_input_rate_grows(rs, agent, m, n - 1, r);
        let inputs = rs[agent[n - 1] as int].inputs@;
        lemma_inputs_rate_grows(inputs, 0, inputs.len() as int, r);
    }
}

/// What an agent following recipes `agent` (indices into `recipes`) makes
/// and needs.
pub fn production_plan(agent: &Vec<usize>, recipes: &Vec<Recipe>) -> (plan: ProductionPlan)
    requires
        forall|k: int| 0 <= k < agent@.len() ==> (#[trigger] agent@[k]) < recipes@.len(),
        forall|r: Resource| output_rate(recipes@, agent@, agent@.len() as int, r) <= u64::MAX,
        forall|r: Resource| input_rate(recipes@, agent@, agent@.len() as int, r) <= u64::MAX,
    ensures
        plan.produced@ == agent@.map_values(|ri: usize| recipes@[ri as int].output),
        plan.needed_inputs@ == first_occurrences(input_sequence(recipes@, agent@, agent@.len() as int)),
        plan.output_rates@.len() == RESOURCE_COUNT,
        plan.input_rates@.len() == RESOURCE_COUNT,
        forall|r: Resource| #[trigger] plan.output_rates@[r.spec_index() as int] == output_rate(recipes@, agent@, agent@.len() as int, r),
        forall|r: Resource| #[trigger] plan.input_rates@[r.spec_index() as int] == input_rate(recipes@, agent@, agent@.len() as int, r),
{
    let ghost rs = recipes@;
    let ghost ag = agent@;
    let mut produced: Vec<Resource> = Vec::new();
    let mut needed: Vec<Resource> = Vec::new();
    let mut output_rates: Vec<u64> = Vec::new();
    let mut input_rates: Vec<u64> = Vec::new();
    let mut z: usize = 0;
    while z < RESOURCE_COUNT
        invariant
            z <= RESOURCE_COUNT,
            output_rates@.len() == z,
            input_rates@.len() == z,
            forall|i: int| 0 <= i < z ==> output_rates@[i] == 0 && input_rates@[i] == 0,
        decreases RESOURCE_COUNT - z,
    {
        output_rates.push(0);
        input_rates.push(0);
        z = z + 1;
    }
    assert(input_sequence(rs, ag, 0) =~= Seq::<Resource>::empty());
    let mut k: usize = 0;
    while k < agent.len()
        invariant
            rs == recipes@,
            ag == agent@,
            k <= ag.len(),
            forall|q: int| 0 <= q < ag.len() ==> (#[trigger] ag[q]) < rs.len(),
            forall|r: Resource| output_rate(rs, ag, ag.len() as int, r) <= u64::MAX,
            forall|r: Resource| input_rate(rs, ag, ag.len() as int, r) <= u64::MAX,
            produced@ == ag.take(k as int).map_values(|ri: usize| rs[ri as int].output),
            needed@ == first_occurrences(input_sequence(rs, ag, k as int)),
            output_rates@.len() == RESOURCE_COUNT,
            input_rates@.len() == RESOURCE_COUNT,
            forall|r: Resource| #[trigger] output_rates@[r.spec_index() as int] == output_rate(rs, ag, k as int, r),
            forall|r: Resource| #[trigger] input_rates@[r.spec_index() as int] == input_rate(rs, ag, k as int, r),
        decreases ag.len() - k,
    {
        let recipe = &recipes[agent[k]];
        let out = recipe.output;
        produced.push(out);
        assert(produced@ =~= ag.take(k + 1).map_values(|ri: usize| rs[ri as int].output));
        let oi = out.index();
        proof {
            lemma_output_rate_grows(rs, ag, k + 1, ag.len() as int, out);
        }
        let cur = output_rates[oi];
        output_rates.set(oi, cur + recipe.output_qty as u64);
        assert forall|r: Resource| #[trigger] output_rates@[r.spec_index() as int] == output_rate(rs, ag, k + 1, r) by {
            if r != out {
                assert(r.spec_index() != out.spec_index());
            }
        }
        let ghost inputs = recipe.inputs@;
        let mut j: usize = 0;
        while j < recipe.inputs.len()
            invariant
                rs == recipes@,
                ag == agent@,
                k < ag.len(),
                recipe == &rs[ag[k as int] as int],
                inputs == recipe.inputs@,
                j <= inputs.len(),
                forall|r: Resource| input_rate(rs, ag, ag.len() as int, r) <= u64::MAX,
                needed@ == first_occurrences(input_sequence(rs, ag, k as int) + input_goods(inputs.take(j as int))),
                input_rates@.len() == RESOURCE_COUNT,
                forall|r: Resource| #[trigger] input_rates@[r.spec_index() as int]
                    == input_rate(rs, ag, k as int, r) + inputs_rate(inputs, j as int, r),
            decreases inputs.len() - j,
        {
            let (res, qty) = recipe.inputs[j];
            let ghost before = input_sequence(rs, ag, k as int) + input_goods(inputs.take(j as int));
            let ghost after = input_sequence(rs, ag, k as int) + input_goods(inputs.take(j + 1));
            assert(after =~= before.push(res));
            assert(after.drop_last() =~= before);
            if !contains_resource(&needed, res) {
                needed.push(res);
            }
            let ri = res.index();
            proof {
                lemma_inputs_rate_grows(inputs, j + 1, inputs.len() as int, res);
                lemma_input_rate_grows(rs, ag, k + 1, ag.len() as int, res);
            }
            let cur = input_rates[ri];
            input_rates.set(ri, cur + qty as u64);
            assert forall|r: Resource| #[trigger] input_rates@[r.spec_index() as int]
                == input_rate(rs, ag, k as int, r) + inputs_rate(inputs, j + 1, r) by {
                if r != res {
                    assert(r.spec_index() != res.spec_index());
                }
            }
            j = j + 1;
        }
        assert(inputs.take(inputs.len() as int) =~= inputs);
        assert(input_sequence(rs, ag, k + 1) =~= input_sequence(rs, ag, k as int) + input_goods(inputs));
        k = k + 1;
    }
    assert(ag.take(ag.len() as int) =~= ag);
    ProductionPlan { produced, needed_inputs: needed, output_rates, input_rates }
}

/// Goods listed in strictly increasing index order (so, in declaration order).
pub open spec fn in_index_order(s: Seq<Resource>) -> bool {
    forall|i: int, j: int| 0 <= i < j < s.len() ==> s[i].spec_index() < s[j].spec_index()
}

/// The goods whose flag is set, in declaration order.
fn flagged_resources(flags: &Vec<bool>) -> (v: Vec<Resource>)
    requires
        flags@.len() == RESOURCE_COUNT,
    ensures
        in_index_order(v@),
        forall|r: Resource| #[trigger] v@.contains(r) <==> flags@[r.spec_index() as int],
{
    let all = Resource::all();
    let mut v: Vec<Resource> = Vec::new();
    let mut i: usize = 0;
    while i < all.len()
        invariant
            all@.len() == RESOURCE_COUNT,
            forall|k: int| 0 <= k < all@.len() ==> (#[trigger] all@[k]).spec_index() == k,
            flags@.len() == RESOURCE_COUNT,
            i <= all@.len(),
            in_index_order(v@),
            forall|k: int| 0 <= k < v@.len() ==> (#[trigger] v@[k]).spec_index() < i,
            forall|r: Resource| #[trigger] v@.contains(r) <==> (r.spec_index() < i && flags@[r.spec_index() as int]),
        decreases all@.len() - i,
    {
        let r = all[i];
        if flags[i] {
            let ghost before = v@;
            v.push(r);
            assert forall|q: Resource| #[trigger] v@.contains(q) <==> (q.spec_index() < i + 1 && flags@[q.spec_index() as int]) by {
                if q.spec_index() == i {
                    assert(v@[before.len() as int] == r);
                    assert(q == r);
                }
                if v@.contains(q) && q != r {
                    let k = choose|k: int| 0 <= k < v@.len() && v@[k] == q;
                    assert(before[k] == q);
                    assert(before.contains(q));
                }
                if before.contains(q) {
                    let k = choose|k: int| 0 <= k < before.len() && before[k] == q;
                    assert(v@[k] == q);
                }
            }
        } else {
            assert forall|q: Resource| #[trigger] v@.contains(q) <==> (q.spec_index() < i + 1 && flags@[q.spec_index() as int]) by {
                if q.spec_index() == i {
                    assert(q == r);
                }
            }
        }
        i = i + 1;
    }
    v
}

/// The goods an agent offers for sale: those it produces, in declaration order.
pub fn sell_candidates(plan: &ProductionPlan) -> (v: Vec<Resource>)
    ensures
        in_index_order(v@),
        forall|r: Resource| #[trigger] v@.contains(r) <==> plan.produced@.contains(r),
{
    let all = Resource::all();
    let mut flags: Vec<bool> = Vec::new();
    let mut i: usize = 0;
    while i < all.len()
        invariant
            all@.len() == RESOURCE_COUNT,
            forall|k: int| 0 <= k < all@.len() ==> (#[trigger] all@[k]).spec_index() == k,
            i <= all@.len(),
            flags@.len() == i,
            forall|k: int| 0 <= k < i ==> (#[trigger] flags@[k] <==> plan.produced@.contains(all@[k])),
        decreases all@.len() - i,
    {
        flags.push(contains_resource(&plan.produced, all[i]));
        i = i + 1;
    }
    let v = flagged_resources(&flags);
    assert forall|r: Resource| #[trigger] v@.contains(r) <==> plan.produced@.contains(r) by {
        assert(all@[r.spec_index() as int].spec_index() == r.spec_index());
        assert(all@[r.spec_index() as int] == r);
    }
    v
}

/// The production inputs an agent shops for: inputs of its recipes that it
/// does not make itself, in declaration order.
pub fn input_candidates(plan: &ProductionPlan) -> (v: Vec<Resource>)
    ensures
        in_index_order(v@),
        forall|r: Resource| #[trigger] v@.contains(r) <==> (plan.needed_inputs@.contains(r) && !plan.produced@.contains(r)),
{
    let all = Resource::all();
    let mut flags: Vec<bool> = Vec::new();
    let mut i: usize = 0;
    while i < all.len()
        invariant
            all@.len() == RESOURCE_COUNT,
            forall|k: int| 0 <= k < all@.len() ==> (#[trigger] all@[k]).spec_index() == k,
            i <= all@.len(),
            flags@.len() == i,
            forall|k: int| 0 <= k < i ==> (#[trigger] flags@[k] <==> (plan.needed_inputs@.contains(all@[k])
                && !plan.produced@.contains(all@[k]))),
        decreases all@.len() - i,
    {
        let r = all[i];
        flags.push(contains_resource(&plan.needed_inputs, r) && !contains_resource(&plan.produced, r));
        i = i + 1;
    }
    let v = flagged_resources(&flags);
    assert forall|r: Resource| #[trigger] v@.contains(r) <==> (plan.needed_inputs@.contains(r) && !plan.produced@.contains(r)) by {
        assert(all@[r.spec_index() as int].spec_index() == r.spec_index());
        assert(all@[r.spec_index() as int] == r);
    }
    v
}

/// The consumer goods an agent shops for: goods it uses up (flag set in
/// `consumes`, by index) that it neither makes nor already shops for as an
/// input, in declaration order.
pub fn consumption_candidates(plan: &ProductionPlan, consumes: &Vec<bool>) -> (v: Vec<Resource>)
    requires
        consumes@.len() == RESOURCE_COUNT,
    ensures
        in_index_order(v@),
        forall|r: Resource| #[trigger] v@.contains(r) <==> (consumes@[r.spec_index() as int]
            && !plan.produced@.contains(r) && !plan.needed_inputs@.contains(r)),
{
    let all = Resource::all();
    let mut flags: Vec<bool> = Vec::new();
    let mut i: usize = 0;
    while i < all.len()
        invariant
            all@.len() == RESOURCE_COUNT,
            forall|k: int| 0 <= k < all@.len() ==> (#[trigger] all@[k]).spec_index() == k,
            consumes@.len() == RESOURCE_COUNT,
            i <= all@.len(),
            flags@.len() == i,
            forall|k: int| 0 <= k < i ==> (#[trigger] flags@[k] <==> (consumes@[k]
                && !plan.produced@.contains(all@[k]) && !plan.needed_inputs@.contains(all@[k]))),
        decreases all@.len() - i,
    {
        let r = all[i];
        flags.push(consumes[i] && !contains_resource(&plan.produced, r) && !contains_resource(&plan.needed_inputs, r));
        i = i + 1;
    }
    let v = flagged_resources(&flags);
    assert forall|r: Resource| #[trigger] v@.contains(r) <==> (consumes@[r.spec_index() as int]
        && !plan.produced@.contains(r) && !plan.needed_inputs@.contains(r)) by {
        assert(all@[r.spec_index() as int].spec_index() == r.spec_index());
        assert(all@[r.spec_index() as int] == r);
    }
    v
}

/// Some recipe of the agent makes its good from nothing; such primary
/// producers work at a fifth of their pace without tools.
pub fn is_primary_producer(agent: &Vec<usize>, recipes: &Vec<Recipe>) -> (b: bool)
    requires
        forall|k: int| 0 <= k < agent@.len() ==> (#[trigger] agent@[k]) < recipes@.len(),
    ensures
        b <==> exists|k: int| 0 <= k < agent@.len() && (#[trigger] recipes@[agent@[k] as int]).inputs@.len() == 0,
{
    let mut k: usize = 0;
    while k < agent.len()
        invariant
            k <= agent@.len(),
            forall|q: int| 0 <= q < agent@.len() ==> (#[trigger] agent@[q]) < recipes@.len(),
            forall|q: int| 0 <= q < k ==> (#[trigger] recipes@[agent@[q] as int]).inputs@.len() != 0,
        decreases agent@.len() - k,
    {
        if recipes[agent[k]].inputs.len() == 0 {
            assert(recipes@[agent@[k as int] as int].inputs@.len() == 0);
            return true;
        }
        k = k + 1;
    }
    false
}

/// Whole units of `r` the merchant holds back from sale: five of flour, to
/// eat, and nothing of anything else.
pub fn merchant_reserve(r: Resource) -> (units: u32)
    ensures
        units == (if r == Resource::Flour { 5u32 } else { 0u32 }),
{
    if r == Resource::Flour {
        5
    } else {
        0
    }
}

} // verus!
