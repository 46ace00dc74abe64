use vstd::prelude::*;
use crate::fleet::{Machine, facts};

verus! {

/// The bootstrap of machine `index` failed with `error`.
pub struct BootstrapFailure<E> {
    pub index: usize,
    pub error: E,
}

/// Combines the fleet with the outcome of bootstrapping each of its machines
/// (`outcomes[i]` belongs to `machines[i]`). Where every machine succeeded,
/// each gets its session; otherwise the first failure is returned and no
/// machine is handed on.
pub fn attach_sessions<S, E>(machines: Vec<Machine<S>>, outcomes: Vec<Result<S, E>>) -> (r: Result<
    Vec<Machine<S>>,
    BootstrapFailure<E>,
>)
    requires
        outcomes@.len() == machines@.len(),
    ensures
        (forall|i: int| 0 <= i < outcomes@.len() ==> (#[trigger] outcomes@[i]) is Ok) <==> r is Ok,
        r matches Ok(ms) ==> {
            &&& ms@.len() == machines@.len()
            &&& forall|i: int|
                0 <= i < ms@.len() ==> facts(#[trigger] ms@[i]) == facts(machines@[i])
                    && ms@[i].ssh == Some(outcomes@[i]->Ok_0)
        },
        r matches Err(f) ==> {
            &&& f.index < outcomes@.len()
            &&& outcomes@[f.index as int] == Err::<S, E>(f.error)
            &&& forall|i: int| 0 <= i < f.index ==> (#[trigger] outcomes@[i]) is Ok
        },
{
    let ghost orig_m = machines@;
    let ghost orig_o = outcomes@;
    let mut rest_m = machines;
    let mut rest_o = outcomes;
    let mut ms: Vec<Machine<S>> = Vec::new();
    while rest_m.len() > 0
        invariant
            rest_m@.len() == rest_o@.len(),
            orig_o.len() == orig_m.len(),
            orig_o == outcomes@,
            orig_m == machines@,
            ms@.len() + rest_m@.len() == orig_m.len(),
            rest_m@ == orig_m.subrange(ms@.len() as int, orig_m.len() as int),
            rest_o@ == orig_o.subrange(ms@.len() as int, orig_o.len() as int),
            forall|k: int| 0 <= k < ms@.len() ==> (#[trigger] orig_o[k]) is Ok,
            forall|k: int|
                0 <= k < ms@.len() ==> facts(#[trigger] ms@[k]) == facts(orig_m[k]) && ms@[k].ssh
                    == Some(orig_o[k]->Ok_0),
        decreases rest_m@.len(),
    {
        let m = rest_m.remove(0);
        let ghost done = ms@.len() as int;
        assert(rest_o@[0] == orig_o[done]);
        let o = rest_o.remove(0);
        match o {
            Ok(s) => {
                ms.push(
                    Machine {
                        ssh: Some(s),
                        instance_id: m.instance_id,
                        group: m.group,
                        instance_type: m.instance_type,
                        private_ip: m.private_ip,
                        public_ip: m.public_ip,
                        dns: m.dns,
                    },
                );
            },
            Err(error) => {
                assert(!(outcomes@[done] is Ok));
                return Err(BootstrapFailure { index: ms.len(), error });
            },
        }
    }
    assert(forall|k: int| 0 <= k < orig_o.len() ==> (#[trigger] orig_o[k]) is Ok);
    Ok(ms)
}

} // verus!
