use vstd::prelude::*;

verus! {

/// Whether a text is one of `present`.
pub open spec fn listed(present: Seq<String>, m: Seq<char>) -> bool {
    exists|j: int| 0 <= j < present.len() && (#[trigger] present[j])@ == m
}

/// The models of `models` that `present` lacks, in their order.
pub open spec fn missing(models: Seq<String>, present: Seq<String>) -> Seq<String>
    decreases models.len(),
{
    if models.len() == 0 {
        Seq::empty()
    } else {
        let init = missing(models.drop_last(), present);
        if listed(present, models.last()@) {
            init
        } else {
            init.push(models.last())
        }
    }
}

/// Whether `m` is one of `present`.
pub fn is_listed(present: &Vec<String>, m: &String) -> (r: bool)
    ensures
        r == listed(present@, m@),
{
    let mut j: usize = 0;
    while j < present.len()
        invariant
            j <= present@.len(),
            forall|k: int| 0 <= k < j ==> (#[trigger] present@[k])@ != m@,
        decreases present@.len() - j,
    {
        if present[j] == *m {
            return true;
        }
        j = j + 1;
    }
    false
}

/// The models that are not among the files found in the models directory.
pub fn missing_models(models: Vec<String>, present: &Vec<String>) -> (r: Vec<String>)
    ensures
        r@ == missing(models@, present@),
{
    let mut rest = models;
    let ghost all = rest@;
    let mut backwards: Vec<String> = Vec::new();
    while rest.len() > 0
        invariant
            all == rest@ + backwards@.reverse(),
        decreases rest.len(),
    {
        let m = rest.pop().unwrap();
        proof {
            assert(rest@.push(m) + backwards@.reverse() =~= rest@ + backwards@.push(m).reverse());
        }
        backwards.push(m);
    }
    let mut r: Vec<String> = Vec::new();
    let ghost done: Seq<String> = Seq::empty();
    while backwards.len() > 0
        invariant
            all == done + backwards@.reverse(),
            r@ == missing(done, present@),
        decreases backwards.len(),
    {
        let m = backwards.pop().unwrap();
        proof {
            assert(backwards@.push(m).reverse() =~= seq![m] + backwards@.reverse());
            assert(done.push(m).drop_last() =~= done);
        }
        if !is_listed(present, &m) {
            r.push(m);
        }
        proof {
            done = done.push(m);
            assert(all =~= done + backwards@.reverse());
        }
    }
    proof {
        assert(all =~= done);
    }
    r
}

} // verus!
