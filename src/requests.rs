use vstd::prelude::*;
use crate::owners::{Owner, owner_of, owner_pair, pairs, lookup_owner};
use crate::registry::{Descriptor, total_count};

verus! {

/// One request for spot capacity, as issued for a machine group.
pub struct CapacityRequest {
    pub group: String,
    pub image_id: String,
    pub instance_type: String,
    pub count: u32,
    pub security_group_id: String,
    pub key_name: String,
}

pub open spec fn request_for<S>(
    r: CapacityRequest,
    d: Descriptor<S>,
    security_group_id: Seq<char>,
    key_name: Seq<char>,
) -> bool {
    &&& r.group@ == d.name@
    &&& r.image_id@ == d.setup.ami@
    &&& r.instance_type@ == d.setup.instance_type@
    &&& r.count == d.number
    &&& r.security_group_id@ == security_group_id
    &&& r.key_name@ == key_name
}

/// One capacity request per group, each carrying the group's image, shape and
/// count together with the run's rule set and key pair.
pub fn capacity_requests<S>(
    groups: &Vec<Descriptor<S>>,
    security_group_id: &String,
    key_name: &String,
) -> (r: Vec<CapacityRequest>)
    ensures
        r@.len() == groups@.len(),
        forall|i: int|
            0 <= i < groups@.len() ==> request_for(
                #[trigger] r@[i],
                groups@[i],
                security_group_id@,
                key_name@,
            ),
{
    let mut r: Vec<CapacityRequest> = Vec::new();
    let mut i: usize = 0;
    while i < groups.len()
        invariant
            i <= groups@.len(),
            r@.len() == i,
            forall|k: int|
                0 <= k < i ==> request_for(
                    #[trigger] r@[k],
                    groups@[k],
                    security_group_id@,
                    key_name@,
                ),
        decreases groups@.len() - i,
    {
        let d = &groups[i];
        r.push(
            CapacityRequest {
                group: d.name.clone(),
                image_id: d.setup.ami.clone(),
                instance_type: d.setup.instance_type.clone(),
                count: d.number,
                security_group_id: security_group_id.clone(),
                key_name: key_name.clone(),
            },
        );
        i = i + 1;
    }
    r
}

/// What the provider reported of one capacity request.
pub struct RequestReport {
    pub request_id: Option<String>,
    pub state: Option<String>,
    pub instance_id: Option<String>,
}

pub open spec fn state_is(s: Option<String>, name: Seq<char>) -> bool {
    s is Some && s->0@ == name
}

pub open spec fn is_open(r: RequestReport) -> bool {
    state_is(r.state, "open"@)
}

pub open spec fn is_active(r: RequestReport) -> bool {
    state_is(r.state, "active"@)
}

/// An active request whose instance can be attributed to a group: it has an
/// instance, and its request id is in the book.
pub open spec fn resolves(book: Seq<(Seq<char>, Seq<char>)>, r: RequestReport) -> bool {
    r.request_id is Some && owner_of(book, r.request_id->0@) is Some
}

/// The instances of the active requests, each with the group that asked for it.
pub open spec fn settled_instances(
    book: Seq<(Seq<char>, Seq<char>)>,
    rs: Seq<RequestReport>,
) -> Seq<(Seq<char>, Seq<char>)>
    decreases rs.len(),
{
    if rs.len() == 0 {
        Seq::empty()
    } else {
        let rest = settled_instances(book, rs.drop_last());
        let r = rs.last();
        if is_active(r) && r.instance_id is Some {
            rest.push((r.instance_id->0@, owner_of(book, r.request_id->0@)->0))
        } else {
            rest
        }
    }
}

/// Outcome of one poll of the capacity requests.
pub enum RequestPoll {
    /// Some request is still open: poll again after the configured wait.
    Pending,
    /// No request is open any more.
    Settled {
        /// Every request reached `active`.
        all_active: bool,
        /// Instance id and owning group of each active request.
        instances: Vec<Owner>,
    },
}

/// Why a poll result could not be used.
pub enum PollError {
    /// An active request carries no request id, or one that was never submitted.
    UnknownRequest,
}

/// Decides on one poll of the capacity requests: wait while any is open,
/// else classify them and map each fulfilled request's instance to its group.
pub fn settle_requests(book: &Vec<Owner>, reports: &Vec<RequestReport>) -> (r: Result<
    RequestPoll,
    PollError,
>)
    ensures
        (exists|i: int| 0 <= i < reports@.len() && is_open(#[trigger] reports@[i])) ==> r
            matches Ok(RequestPoll::Pending),
        (forall|i: int| 0 <= i < reports@.len() ==> !is_open(#[trigger] reports@[i])) ==> {
            if exists|i: int|
                0 <= i < reports@.len() && is_active(#[trigger] reports@[i]) && !resolves(
                    pairs(book@),
                    reports@[i],
                ) {
                r matches Err(PollError::UnknownRequest)
            } else {
                &&& r matches Ok(RequestPoll::Settled { .. })
                &&& r->Ok_0->all_active == forall|i: int|
                    0 <= i < reports@.len() ==> is_active(#[trigger] reports@[i])
                &&& pairs(r->Ok_0->instances@) == settled_instances(pairs(book@), reports@)
            }
        },
{
    let mut i: usize = 0;
    while i < reports.len()
        invariant
            i <= reports@.len(),
            forall|k: int| 0 <= k < i ==> !is_open(#[trigger] reports@[k]),
        decreases reports@.len() - i,
    {
        if has_state(&reports[i].state, "open") {
            return Ok(RequestPoll::Pending);
        }
        i = i + 1;
    }
    let mut all_active = true;
    let mut instances: Vec<Owner> = Vec::new();
    let mut i: usize = 0;
    while i < reports.len()
        invariant
            i <= reports@.len(),
            forall|k: int| 0 <= k < reports@.len() ==> !is_open(#[trigger] reports@[k]),
            all_active == forall|k: int| 0 <= k < i ==> is_active(#[trigger] reports@[k]),
            forall|k: int| 0 <= k < i ==> is_active(#[trigger] reports@[k]) ==> resolves(pairs(book@), reports@[k]),
            pairs(instances@) == settled_instances(pairs(book@), reports@.subrange(0, i as int)),
        decreases reports@.len() - i,
    {
        let rep = &reports[i];
        assert(reports@.subrange(0, i + 1).drop_last() == reports@.subrange(0, i as int));
        if has_state(&rep.state, "active") {
            let owner = match &rep.request_id {
                Some(id) => lookup_owner(book, id),
                None => None,
            };
            match owner {
                None => {
                    return Err(PollError::UnknownRequest);
                },
                Some(group) => {
                    match &rep.instance_id {
                        Some(inst) => {
                            instances.push(Owner { id: inst.clone(), group });
                            assert(pairs(instances@) =~= pairs(instances@.drop_last()).push(owner_pair(instances@.last())));
                        },
                        None => {},
                    }
                },
            }
        } else {
            all_active = false;
        }
        i = i + 1;
    }
    assert(reports@.subrange(0, reports@.len() as int) == reports@);
    Ok(RequestPoll::Settled { all_active, instances })
}

/// Whether `s` holds exactly `name`.
pub fn has_state(s: &Option<String>, name: &str) -> (r: bool)
    ensures
        r == state_is(*s, name@),
{
    match s {
        Some(v) => *v == name.to_owned(),
        None => false,
    }
}

/// Number of request ids returned over all groups.
pub open spec fn returned_total(returned: Seq<Vec<String>>) -> nat
    decreases returned.len(),
{
    if returned.len() == 0 {
        0
    } else {
        returned_total(returned.drop_last()) + returned.last()@.len()
    }
}

/// When the provider returns, for each group, as many request ids as the
/// group asked machines for, the ids recorded over the whole submission number
/// exactly the sum of the requested counts.
pub proof fn lemma_recorded_ids_match_counts<S>(groups: Seq<Descriptor<S>>, returned: Seq<Vec<String>>)
    requires
        returned.len() == groups.len(),
        forall|i: int| 0 <= i < groups.len() ==> (#[trigger] returned[i])@.len() == groups[i].number,
    ensures
        returned_total(returned) == total_count(groups),
    decreases groups.len(),
{
    if groups.len() > 0 {
        let (g, rs) = (groups.drop_last(), returned.drop_last());
        assert forall|i: int| 0 <= i < g.len() implies (#[trigger] rs[i])@.len() == g[i].number by {
            assert(rs[i] == returned[i]);
        }
        lemma_recorded_ids_match_counts(g, rs);
        assert(returned.last() == returned[groups.len() - 1]);
    }
}

} // verus!
