use vstd::prelude::*;
use crate::owners::{Owner, owner_of, pairs, lookup_owner};
use crate::requests::{state_is, has_state};

verus! {

/// One running instance of the fleet. `ssh` holds the remote session once the
/// group's setup routine has run on it.
pub struct Machine<S> {
    pub ssh: Option<S>,
    pub instance_id: String,
    pub group: String,
    pub instance_type: String,
    pub private_ip: String,
    pub public_ip: String,
    pub dns: String,
}

/// What the provider reported of one instance.
pub struct InstanceReport {
    pub instance_id: Option<String>,
    pub state: Option<String>,
    pub instance_type: Option<String>,
    pub private_ip: Option<String>,
    pub public_ip: Option<String>,
    pub dns: Option<String>,
}

/// The text held, or the empty text.
pub open spec fn text_of(o: Option<String>) -> Seq<char> {
    match o {
        Some(s) => s@,
        None => Seq::empty(),
    }
}

/// Running, with a non-empty public address.
pub open spec fn is_ready(r: InstanceReport) -> bool {
    &&& state_is(r.state, "running"@)
    &&& r.public_ip is Some
    &&& r.public_ip->0@.len() > 0
}

/// A ready instance whose group is known.
pub open spec fn attributable(owners: Seq<(Seq<char>, Seq<char>)>, r: InstanceReport) -> bool {
    r.instance_id is Some && owner_of(owners, r.instance_id->0@) is Some
}

/// Instance id, group, shape, private address, public address and DNS name.
pub type MachineFacts = (Seq<char>, Seq<char>, Seq<char>, Seq<char>, Seq<char>, Seq<char>);

pub open spec fn facts<S>(m: Machine<S>) -> MachineFacts {
    (m.instance_id@, m.group@, m.instance_type@, m.private_ip@, m.public_ip@, m.dns@)
}

pub open spec fn fleet_facts<S>(ms: Seq<Machine<S>>) -> Seq<MachineFacts> {
    ms.map_values(|m: Machine<S>| facts(m))
}

pub open spec fn report_facts(owners: Seq<(Seq<char>, Seq<char>)>, r: InstanceReport) -> MachineFacts {
    let id = r.instance_id->0@;
    (
        id,
        owner_of(owners, id)->0,
        text_of(r.instance_type),
        text_of(r.private_ip),
        r.public_ip->0@,
        text_of(r.dns),
    )
}

/// One machine per ready instance, in the order reported; nothing else.
pub open spec fn ready_fleet(
    owners: Seq<(Seq<char>, Seq<char>)>,
    rs: Seq<InstanceReport>,
) -> Seq<MachineFacts>
    decreases rs.len(),
{
    if rs.len() == 0 {
        Seq::empty()
    } else if is_ready(rs.last()) {
        ready_fleet(owners, rs.drop_last()).push(report_facts(owners, rs.last()))
    } else {
        ready_fleet(owners, rs.drop_last())
    }
}

/// Outcome of one poll of the instances.
pub struct ReadyPoll<S> {
    /// Every reported instance is ready.
    pub ready: bool,
    /// The ready instances, built from this poll alone.
    pub machines: Vec<Machine<S>>,
}

/// Why a poll of the instances could not be used.
pub enum FleetError {
    /// A ready instance carries no id, or one that no fulfilled request gave.
    UnknownInstance,
}

fn text_or_empty(o: &Option<String>) -> (r: String)
    ensures
        r@ == text_of(*o),
{
    match o {
        Some(s) => s.clone(),
        None => String::new(),
    }
}

/// Builds the fleet afresh from one poll of the instances: a machine for each
/// running instance with a public address, none for any other.
pub fn build_fleet<S>(owners: &Vec<Owner>, reports: &Vec<InstanceReport>) -> (r: Result<
    ReadyPoll<S>,
    FleetError,
>)
    ensures
        (exists|i: int|
            0 <= i < reports@.len() && is_ready(#[trigger] reports@[i]) && !attributable(
                pairs(owners@),
                reports@[i],
            )) <==> r is Err,
        r matches Ok(p) ==> {
            &&& p.ready == forall|i: int| 0 <= i < reports@.len() ==> is_ready(#[trigger] reports@[i])
            &&& fleet_facts(p.machines@) == ready_fleet(pairs(owners@), reports@)
            &&& forall|k: int| 0 <= k < p.machines@.len() ==> (#[trigger] p.machines@[k]).ssh is None
        },
{
    let mut ready = true;
    let mut machines: Vec<Machine<S>> = Vec::new();
    let mut i: usize = 0;
    while i < reports.len()
        invariant
            i <= reports@.len(),
            ready == forall|k: int| 0 <= k < i ==> is_ready(#[trigger] reports@[k]),
            forall|k: int|
                0 <= k < i ==> is_ready(#[trigger] reports@[k]) ==> attributable(
                    pairs(owners@),
                    reports@[k],
                ),
            fleet_facts(machines@) == ready_fleet(pairs(owners@), reports@.subrange(0, i as int)),
            forall|k: int| 0 <= k < machines@.len() ==> (#[trigger] machines@[k]).ssh is None,
        decreases reports@.len() - i,
    {
        let rep = &reports[i];
        assert(reports@.subrange(0, i + 1).drop_last() == reports@.subrange(0, i as int));
        let running = has_state(&rep.state, "running");
        let addressed = match &rep.public_ip {
            Some(ip) => !ip.as_str().is_empty(),
            None => false,
        };
        if running && addressed {
            let group = match &rep.instance_id {
                Some(id) => lookup_owner(owners, id),
                None => None,
            };
            match group {
                None => {
                    return Err(FleetError::UnknownInstance);
                },
                Some(group) => {
                    let m = Machine {
                        ssh: None,
                        instance_id: text_or_empty(&rep.instance_id),
                        group,
                        instance_type: text_or_empty(&rep.instance_type),
                        private_ip: text_or_empty(&rep.private_ip),
                        public_ip: text_or_empty(&rep.public_ip),
                        dns: text_or_empty(&rep.dns),
                    };
                    machines.push(m);
                    assert(fleet_facts(machines@) =~= fleet_facts(machines@.drop_last()).push(
                        facts(machines@.last()),
                    ));
                },
            }
        } else {
            ready = false;
        }
        i = i + 1;
    }
    assert(reports@.subrange(0, reports@.len() as int) == reports@);
    Ok(ReadyPoll { ready, machines })
}

/// `m` stands for one of the ready instances of `rs`.
pub open spec fn from_ready_report(
    owners: Seq<(Seq<char>, Seq<char>)>,
    rs: Seq<InstanceReport>,
    m: MachineFacts,
) -> bool {
    exists|j: int| 0 <= j < rs.len() && is_ready(#[trigger] rs[j]) && m == report_facts(owners, rs[j])
}

/// The fleet built from one poll holds a machine for every ready instance of
/// that poll and each of its machines stands for a ready instance of that
/// poll: nothing carries over from earlier polls.
pub proof fn lemma_ready_fleet_exact(owners: Seq<(Seq<char>, Seq<char>)>, rs: Seq<InstanceReport>)
    ensures
        forall|j: int|
            0 <= j < rs.len() && is_ready(#[trigger] rs[j]) ==> exists|k: int|
                0 <= k < ready_fleet(owners, rs).len() && ready_fleet(owners, rs)[k] == report_facts(
                    owners,
                    rs[j],
                ),
        forall|k: int|
            0 <= k < ready_fleet(owners, rs).len() ==> from_ready_report(
                owners,
                rs,
                #[trigger] ready_fleet(owners, rs)[k],
            ),
    decreases rs.len(),
{
    if rs.len() > 0 {
        let front = rs.drop_last();
        lemma_ready_fleet_exact(owners, front);
        let f0 = ready_fleet(owners, front);
        let f = ready_fleet(owners, rs);
        assert forall|j: int| 0 <= j < rs.len() && is_ready(#[trigger] rs[j]) implies exists|k: int|
            0 <= k < f.len() && f[k] == report_facts(owners, rs[j]) by {
            if j < rs.len() - 1 {
                assert(front[j] == rs[j]);
                let k = choose|k: int| 0 <= k < f0.len() && f0[k] == report_facts(owners, front[j]);
                assert(f[k] == f0[k]);
            } else {
                assert(f[f0.len() as int] == report_facts(owners, rs[j]));
            }
        }
        assert forall|k: int| 0 <= k < ready_fleet(owners, rs).len() implies from_ready_report(
            owners,
            rs,
            #[trigger] ready_fleet(owners, rs)[k],
        ) by {
            if k < ready_fleet(owners, front).len() {
                assert(ready_fleet(owners, rs)[k] == ready_fleet(owners, front)[k]);
                assert(from_ready_report(owners, front, ready_fleet(owners, front)[k]));
                let j = choose|j: int| 0 <= j < front.len() && is_ready(#[trigger] front[j]) && ready_fleet(owners, front)[k] == report_facts(owners, front[j]);
                assert(rs[j] == front[j]);
            } else {
                let j = rs.len() - 1;
                assert(is_ready(rs[j]));
                assert(ready_fleet(owners, rs)[k] == report_facts(owners, rs[j]));
            }
        }
    }
}

} // verus!
