use vstd::prelude::*;
use crate::config::{Config, IngressRule, ingress_rules, rule_is};
use crate::names::{security_group_name, key_pair_name, scoped_name};
use crate::fleet::{Machine, InstanceReport, build_fleet, fleet_facts, ready_fleet, is_ready, attributable};
use crate::owners::{Owner, owner_pair, pairs, record_owners};
use crate::registry::{Descriptor, MachineSetup};
use crate::requests::{
    CapacityRequest,
    RequestPoll,
    RequestReport,
    capacity_requests,
    settle_requests,
    is_open,
    is_active,
    settled_instances,
    request_for,
    resolves,
};

verus! {

/// Where a run stands.
#[derive(PartialEq, Eq, Structural, Clone, Copy, Debug)]
pub enum Phase {
    Start,
    CreatingGroup,
    AuthorizingIngress,
    CreatingKey,
    StoringKey,
    Requesting,
    PollingRequests,
    Cancelling,
    PollingInstances,
    Bootstrapping,
    AwaitingCallback,
    Terminating,
    DeletingKey,
    Done,
}

/// Kind of a failure of the run.
#[derive(PartialEq, Eq, Structural, Clone, Copy, Debug)]
pub enum ErrorKind {
    /// Setting up the rule set or the key pair failed; nothing billable exists.
    Provision,
    /// Submitting a capacity request failed.
    Submit,
    /// Polling the requests or the instances failed.
    Poll,
    /// Connecting to a machine or running its setup routine failed.
    Bootstrap,
    /// The caller's routine over the whole fleet failed.
    Callback,
    /// A cleanup step failed.
    Teardown,
    /// An event came that the current phase does not expect.
    OutOfOrder,
}

/// A failure of the run, with what the failing step reported.
pub struct RunError {
    pub kind: ErrorKind,
    pub detail: String,
}

/// What the caller reports back after carrying out an action.
pub enum Event {
    /// The run begins.
    Begin,
    /// The rule set was created, with the id the provider gave it, if any.
    GroupCreated(Option<String>),
    IngressAuthorized,
    /// The key pair was created, with its private key material, if any.
    KeyCreated(Option<String>),
    /// The private key is stored where the remote sessions can read it.
    KeyStored,
    /// The request ids returned for the group last asked for.
    SpotRequested(Vec<String>),
    RequestsDescribed(Vec<RequestReport>),
    RequestsCancelled,
    InstancesDescribed(Vec<InstanceReport>),
    /// Every machine was bootstrapped (`None`), or the first failure.
    BootstrapFinished(Option<String>),
    /// The caller's routine returned (`None`), or failed.
    CallbackFinished(Option<String>),
    /// Termination of the instances succeeded (`None`), or failed.
    InstancesTerminated(Option<String>),
    /// Deletion of the key pair succeeded (`None`), or failed.
    KeyDeleted(Option<String>),
    /// The outside call of the last action failed.
    Failed(String),
}

/// What the caller does next.
pub enum Action<S> {
    CreateSecurityGroup { name: String, description: String },
    AuthorizeIngress { group_id: String, rules: Vec<IngressRule> },
    CreateKeyPair { name: String },
    StoreKey { material: String },
    RequestSpot(CapacityRequest),
    /// Describe these capacity requests after waiting `delay_ms`.
    DescribeRequests { ids: Vec<String>, delay_ms: u64 },
    CancelRequests { ids: Vec<String> },
    /// Describe these instances after waiting `delay_ms`.
    DescribeInstances { ids: Vec<String>, delay_ms: u64 },
    /// Connect to each machine and run its group's setup routine on it.
    Bootstrap(Vec<Machine<S>>),
    /// Hand the bootstrapped fleet to the caller's routine.
    InvokeCallback,
    TerminateInstances { ids: Vec<String> },
    DeleteKeyPair { name: String },
    /// The run is over.
    Finish(Result<(), RunError>),
}

pub open spec fn ids_of(os: Seq<Owner>) -> Seq<Seq<char>> {
    os.map_values(|o: Owner| o.id@)
}

pub open spec fn views(v: Seq<String>) -> Seq<Seq<char>> {
    v.map_values(|s: String| s@)
}

/// Phases after which instances may be running and teardown is owed.
pub open spec fn teardown_owed(p: Phase) -> bool {
    p == Phase::Bootstrapping || p == Phase::AwaitingCallback || p == Phase::Terminating
        || p == Phase::DeletingKey
}

pub open spec fn error_of(e: Result<(), RunError>, kind: ErrorKind) -> bool {
    e is Err && e->Err_0.kind == kind
}

/// The decisions of one run: from the events that the outside calls produce to
/// the next call to make. Its fields are read by callers; only `step` changes
/// them.
///
/// Policy choices of this engine:
/// - where some capacity request did not reach `active`, the run ends once the
///   instances are up, without bootstrap, callback or teardown, and the
///   instances that did start are left running;
/// - the number of ready machines per group is not checked against the count
///   that was asked for;
/// - the capacity lifetime of the registry is not passed on to the requests;
/// - the rule set is kept after the run; only the instances and the key pair
///   are removed.
pub struct Engine {
    pub cfg: Config,
    pub phase: Phase,
    /// The groups of the run, without their setup routines.
    pub groups: Vec<Descriptor<()>>,
    pub group_name: String,
    pub key_name: String,
    pub group_id: String,
    pub requests: Vec<CapacityRequest>,
    /// Index into `requests` of the request in flight.
    pub next: usize,
    /// Owning group of each capacity request id.
    pub book: Vec<Owner>,
    pub request_ids: Vec<String>,
    pub all_active: bool,
    /// Owning group of each instance id.
    pub instances: Vec<Owner>,
    pub instance_ids: Vec<String>,
    /// The failure of the request poll that cancellation is running after, if any.
    pub poll_error: Option<RunError>,
    /// The fatal failure that teardown is running after, if any.
    pub failure: Option<RunError>,
    /// The first failed cleanup step, if any.
    pub teardown_error: Option<RunError>,
}

fn shape_of<S>(d: &Descriptor<S>) -> (r: Descriptor<()>)
    ensures
        r.name@ == d.name@,
        r.number == d.number,
        r.setup.ami@ == d.setup.ami@,
        r.setup.instance_type@ == d.setup.instance_type@,
{
    Descriptor {
        name: d.name.clone(),
        number: d.number,
        setup: MachineSetup {
            instance_type: d.setup.instance_type.clone(),
            ami: d.setup.ami.clone(),
            setup: (),
        },
    }
}

fn copy_strings(v: &Vec<String>) -> (r: Vec<String>)
    ensures
        views(r@) == views(v@),
{
    let mut r: Vec<String> = Vec::new();
    let mut i: usize = 0;
    while i < v.len()
        invariant
            i <= v@.len(),
            r@.len() == i,
            views(r@) == views(v@.subrange(0, i as int)),
        decreases v@.len() - i,
    {
        let ghost prev = r@;
        r.push(v[i].clone());
        assert forall|k: int| 0 <= k < i + 1 implies views(r@)[k] == views(v@.subrange(0, i + 1))[k] by {
            if k < i {
                assert(views(prev)[k] == views(v@.subrange(0, i as int))[k]);
            }
        }
        assert(views(r@) =~= views(v@.subrange(0, i + 1)));
        i = i + 1;
    }
    assert(v@.subrange(0, v@.len() as int) == v@);
    r
}

fn ids_from(os: &Vec<Owner>) -> (r: Vec<String>)
    ensures
        views(r@) == ids_of(os@),
{
    let mut r: Vec<String> = Vec::new();
    let mut i: usize = 0;
    while i < os.len()
        invariant
            i <= os@.len(),
            r@.len() == i,
            views(r@) == ids_of(os@.subrange(0, i as int)),
        decreases os@.len() - i,
    {
        let ghost prev = r@;
        r.push(os[i].id.clone());
        assert forall|k: int| 0 <= k < i + 1 implies views(r@)[k] == ids_of(os@.subrange(0, i + 1))[k] by {
            if k < i {
                assert(views(prev)[k] == ids_of(os@.subrange(0, i as int))[k]);
            }
        }
        assert(views(r@) =~= ids_of(os@.subrange(0, i + 1)));
        i = i + 1;
    }
    assert(os@.subrange(0, os@.len() as int) == os@);
    r
}

fn fail(kind: ErrorKind, detail: String) -> (r: Result<(), RunError>)
    ensures
        error_of(r, kind),
        r->Err_0.detail == detail,
{
    Err(RunError { kind, detail })
}

fn note(kind: ErrorKind, outcome: Option<String>) -> (r: Option<RunError>)
    ensures
        outcome is None <==> r is None,
        r is Some ==> r->0.kind == kind && r->0.detail == outcome->0,
{
    match outcome {
        Some(detail) => Some(RunError { kind, detail }),
        None => None,
    }
}

/// Order in which the phases of a run follow each other.
pub open spec fn rank(p: Phase) -> nat {
    match p {
        Phase::Start => 0,
        Phase::CreatingGroup => 1,
        Phase::AuthorizingIngress => 2,
        Phase::CreatingKey => 3,
        Phase::StoringKey => 4,
        Phase::Requesting => 5,
        Phase::PollingRequests => 6,
        Phase::Cancelling => 7,
        Phase::PollingInstances => 8,
        Phase::Bootstrapping => 9,
        Phase::AwaitingCallback => 10,
        Phase::Terminating => 11,
        Phase::DeletingKey => 12,
        Phase::Done => 13,
    }
}

/// Teardown has begun: the instances are terminated, or, where there are none,
/// the key pair is deleted.
pub open spec fn teardown_begun<S>(e: Engine, r: Action<S>) -> bool {
    if e.instance_ids@.len() == 0 {
        e.phase == Phase::DeletingKey && (r matches Action::DeleteKeyPair { name } && name@
            == e.key_name@)
    } else {
        e.phase == Phase::Terminating && (r matches Action::TerminateInstances { ids } && views(
            ids@,
        ) == views(e.instance_ids@))
    }
}

/// The fleet is ready and empty: it is bootstrapped where every request was
/// fulfilled, and the run ends otherwise.
pub open spec fn empty_fleet_ready<S>(e: Engine, r: Action<S>) -> bool {
    if e.all_active {
        e.phase == Phase::Bootstrapping && (r matches Action::Bootstrap(ms) && ms@.len() == 0)
    } else {
        e.phase == Phase::Done && r matches Action::Finish(Ok(()))
    }
}

pub open spec fn same_request(a: CapacityRequest, b: CapacityRequest) -> bool {
    &&& a.group@ == b.group@
    &&& a.image_id@ == b.image_id@
    &&& a.instance_type@ == b.instance_type@
    &&& a.count == b.count
    &&& a.security_group_id@ == b.security_group_id@
    &&& a.key_name@ == b.key_name@
}

/// The request poll failed: the requests are cancelled all the same, and the
/// run ends after that with the poll's failure.
pub open spec fn cancelling_after_poll_error<S>(e: Engine, r: Action<S>) -> bool {
    &&& e.phase == Phase::Cancelling
    &&& e.poll_error matches Some(err)
    &&& err.kind == ErrorKind::Poll
    &&& r matches Action::CancelRequests { ids }
    &&& views(ids@) == views(e.request_ids@)
}

/// The run has ended with a failure of kind `kind`.
pub open spec fn ended_with<S>(e: Engine, r: Action<S>, kind: ErrorKind) -> bool {
    e.phase == Phase::Done && (r matches Action::Finish(res) && error_of(res, kind))
}

/// The outcome of the run once the key pair is deleted (`None`) or failed to
/// be: the fatal failure if there was one, else the first failed cleanup step.
pub open spec fn final_result(
    failure: Option<RunError>,
    teardown_error: Option<RunError>,
    last_failed: bool,
    r: Result<(), RunError>,
) -> bool {
    if failure is Some {
        r == Err::<(), RunError>(failure->0)
    } else if teardown_error is Some {
        r == Err::<(), RunError>(teardown_error->0)
    } else if last_failed {
        error_of(r, ErrorKind::Teardown)
    } else {
        r is Ok
    }
}

fn copy_request(q: &CapacityRequest) -> (r: CapacityRequest)
    ensures
        same_request(r, *q),
{
    CapacityRequest {
        group: q.group.clone(),
        image_id: q.image_id.clone(),
        instance_type: q.instance_type.clone(),
        count: q.count,
        security_group_id: q.security_group_id.clone(),
        key_name: q.key_name.clone(),
    }
}

/// What a failure event reports.
fn detail_of(event: Event) -> String {
    match event {
        Event::Failed(d) => d,
        Event::BootstrapFinished(Some(d)) => d,
        Event::CallbackFinished(Some(d)) => d,
        Event::InstancesTerminated(Some(d)) => d,
        Event::KeyDeleted(Some(d)) => d,
        _ => "unexpected event".to_owned(),
    }
}

impl Engine {
    pub open spec fn wf(&self) -> bool {
        &&& self.books_agree()
        &&& self.phase == Phase::Requesting ==> self.next < self.requests@.len()
        &&& self.phase != Phase::Terminating && self.phase != Phase::DeletingKey ==> self.failure is None
            && self.teardown_error is None
        &&& self.phase != Phase::Cancelling ==> self.poll_error is None
    }

    /// The bookkeeping of requests and instances is consistent.
    pub open spec fn books_agree(&self) -> bool {
        &&& self.next <= self.requests@.len()
        &&& views(self.request_ids@) == ids_of(self.book@)
        &&& views(self.instance_ids@) == ids_of(self.instances@)
    }

    /// A run over `groups`, whose rule set and key pair are named with the
    /// given random suffixes.
    pub fn new<S>(cfg: Config, groups: &Vec<Descriptor<S>>, group_suffix: &str, key_suffix: &str) -> (r: Engine)
        ensures
            r.wf(),
            r.phase == Phase::Start,
            r.cfg == cfg,
            r.group_name@ == scoped_name("flotilla_security_"@, group_suffix@),
            r.key_name@ == scoped_name("flotilla_key_"@, key_suffix@),
            r.groups@.len() == groups@.len(),
            forall|i: int|
                0 <= i < groups@.len() ==> (#[trigger] r.groups@[i]).name@ == groups@[i].name@
                    && r.groups@[i].number == groups@[i].number && r.groups@[i].setup.ami@
                    == groups@[i].setup.ami@ && r.groups@[i].setup.instance_type@
                    == groups@[i].setup.instance_type@,
            r.book@.len() == 0,
            r.instances@.len() == 0,
            r.failure is None,
            r.teardown_error is None,
            r.poll_error is None,
    {
        let mut shapes: Vec<Descriptor<()>> = Vec::new();
        let mut i: usize = 0;
        while i < groups.len()
            invariant
                i <= groups@.len(),
                shapes@.len() == i,
                forall|k: int|
                    0 <= k < i ==> (#[trigger] shapes@[k]).name@ == groups@[k].name@
                        && shapes@[k].number == groups@[k].number && shapes@[k].setup.ami@
                        == groups@[k].setup.ami@ && shapes@[k].setup.instance_type@
                        == groups@[k].setup.instance_type@,
            decreases groups@.len() - i,
        {
            shapes.push(shape_of(&groups[i]));
            i = i + 1;
        }
        let r = Engine {
            cfg,
            phase: Phase::Start,
            groups: shapes,
            group_name: security_group_name(group_suffix),
            key_name: key_pair_name(key_suffix),
            group_id: String::new(),
            requests: Vec::new(),
            next: 0,
            book: Vec::new(),
            request_ids: Vec::new(),
            all_active: true,
            instances: Vec::new(),
            instance_ids: Vec::new(),
            poll_error: None,
            failure: None,
            teardown_error: None,
        };
        assert(views(r.request_ids@) =~= ids_of(r.book@));
        assert(views(r.instance_ids@) =~= ids_of(r.instances@));
        r
    }

    fn begin_teardown<S>(&mut self) -> (r: Action<S>)
        requires
            old(self).books_agree(),
            old(self).poll_error is None,
        ensures
            final(self).wf(),
            teardown_begun(*final(self), r),
            final(self).key_name == old(self).key_name,
            final(self).instance_ids == old(self).instance_ids,
            final(self).failure == old(self).failure,
            final(self).teardown_error == old(self).teardown_error,
            final(self).cfg == old(self).cfg,
            final(self).instances == old(self).instances,
            final(self).requests == old(self).requests,
            final(self).book == old(self).book,
            final(self).groups == old(self).groups,
            final(self).group_name == old(self).group_name,
            final(self).group_id == old(self).group_id,
            final(self).request_ids == old(self).request_ids,
            final(self).poll_error == old(self).poll_error,
    {
        if self.instance_ids.len() == 0 {
            self.phase = Phase::DeletingKey;
            Action::DeleteKeyPair { name: self.key_name.clone() }
        } else {
            self.phase = Phase::Terminating;
            Action::TerminateInstances { ids: copy_strings(&self.instance_ids) }
        }
    }

    fn empty_fleet<S>(&mut self) -> (r: Action<S>)
        requires
            old(self).books_agree(),
            old(self).failure is None,
            old(self).teardown_error is None,
            old(self).poll_error is None,
        ensures
            final(self).wf(),
            empty_fleet_ready(*final(self), r),
            final(self).key_name == old(self).key_name,
            final(self).all_active == old(self).all_active,
            final(self).instance_ids == old(self).instance_ids,
            final(self).failure == old(self).failure,
            final(self).cfg == old(self).cfg,
            final(self).instances == old(self).instances,
            final(self).requests == old(self).requests,
            final(self).book == old(self).book,
            final(self).groups == old(self).groups,
            final(self).group_name == old(self).group_name,
            final(self).group_id == old(self).group_id,
            final(self).request_ids == old(self).request_ids,
            final(self).poll_error == old(self).poll_error,
    {
        if self.all_active {
            self.phase = Phase::Bootstrapping;
            Action::Bootstrap(Vec::new())
        } else {
            self.phase = Phase::Done;
            Action::Finish(Ok(()))
        }
    }

    fn cancel_after_poll_error<S>(&mut self, detail: String) -> (r: Action<S>)
        requires
            old(self).wf(),
            old(self).phase == Phase::PollingRequests,
        ensures
            final(self).wf(),
            cancelling_after_poll_error(*final(self), r),
            final(self).key_name == old(self).key_name,
            final(self).cfg == old(self).cfg,
            final(self).groups == old(self).groups,
            final(self).group_name == old(self).group_name,
            final(self).group_id == old(self).group_id,
            final(self).request_ids == old(self).request_ids,
            final(self).instance_ids == old(self).instance_ids,
            final(self).all_active == old(self).all_active,
            final(self).instances == old(self).instances,
    {
        self.phase = Phase::Cancelling;
        self.poll_error = Some(RunError { kind: ErrorKind::Poll, detail });
        Action::CancelRequests { ids: copy_strings(&self.request_ids) }
    }

    fn end_with<S>(&mut self, kind: ErrorKind, detail: String) -> (r: Action<S>)
        requires
            old(self).failure is None,
            old(self).teardown_error is None,
            old(self).poll_error is None,
        ensures
            ended_with(*final(self), r, kind),
            (r matches Action::Finish(Err(e)) && e.detail == detail),
            old(self).wf() ==> final(self).wf(),
            final(self).key_name == old(self).key_name,
            final(self).cfg == old(self).cfg,
            final(self).instances == old(self).instances,
            final(self).requests == old(self).requests,
            final(self).book == old(self).book,
            final(self).groups == old(self).groups,
            final(self).group_name == old(self).group_name,
            final(self).group_id == old(self).group_id,
            final(self).request_ids == old(self).request_ids,
            final(self).instance_ids == old(self).instance_ids,
            final(self).poll_error == old(self).poll_error,
    {
        self.phase = Phase::Done;
        Action::Finish(fail(kind, detail))
    }

    /// Decides the next action from the event that the last one produced.
    #[verifier::rlimit(50)]
    pub fn step<S>(&mut self, event: Event) -> (r: Action<S>)
        requires
            old(self).wf(),
        ensures
            final(self).wf(),
            final(self).key_name == old(self).key_name,
            final(self).cfg == old(self).cfg,
            final(self).groups == old(self).groups,
            final(self).group_name == old(self).group_name,
            old(self).phase != Phase::CreatingGroup ==> final(self).group_id == old(self).group_id,
            rank(old(self).phase) >= rank(Phase::PollingRequests) ==> final(self).request_ids == old(self).request_ids,
            rank(old(self).phase) >= rank(Phase::Cancelling) ==> final(self).instance_ids == old(self).instance_ids,
            final(self).phase == Phase::Done ==> r is Finish,
            r is InvokeCallback ==> old(self).phase == Phase::Bootstrapping && (event matches Event::BootstrapFinished(None)),
            r is Bootstrap ==> final(self).all_active,
            teardown_owed(old(self).phase) && old(self).phase != Phase::DeletingKey ==> teardown_owed(final(self).phase) && rank(final(self).phase) > rank(old(self).phase),
            old(self).phase == Phase::Start ==> if event is Begin {
                &&& final(self).phase == Phase::CreatingGroup
                &&& r matches Action::CreateSecurityGroup { name, description }
                &&& name@ == old(self).group_name@
                &&& description@ == "Security group for Flotilla Spot Instances"@
            } else {
                ended_with(*final(self), r, ErrorKind::OutOfOrder)
            },
            old(self).phase == Phase::CreatingGroup ==> match event {
                Event::GroupCreated(Some(id)) => {
                    &&& final(self).phase == Phase::AuthorizingIngress
                    &&& final(self).group_id@ == id@
                    &&& r matches Action::AuthorizeIngress { group_id, rules }
                    &&& group_id@ == id@
                    &&& rules@.len() == 2
                    &&& rule_is(rules@[0], "tcp"@, old(self).cfg.ssh_port, old(self).cfg.ssh_port, old(self).cfg.ssh_cidr@)
                    &&& rule_is(rules@[1], "tcp"@, 0, 65535, old(self).cfg.fleet_cidr@)
                },
                _ => {
                    ended_with(*final(self), r, ErrorKind::Provision)
                },
            },
            old(self).phase == Phase::AuthorizingIngress ==> if event is IngressAuthorized {
                &&& final(self).phase == Phase::CreatingKey
                &&& r matches Action::CreateKeyPair { name }
                &&& name@ == old(self).key_name@
            } else {
                ended_with(*final(self), r, ErrorKind::Provision)
            },
            old(self).phase == Phase::CreatingKey ==> match event {
                Event::KeyCreated(Some(m)) => {
                    &&& final(self).phase == Phase::StoringKey
                    &&& r matches Action::StoreKey { material }
                    &&& material@ == m@
                },
                _ => {
                    ended_with(*final(self), r, ErrorKind::Provision)
                },
            },
            old(self).phase == Phase::StoringKey ==> if event is KeyStored {
                &&& final(self).requests@.len() == old(self).groups@.len()
                &&& forall|i: int| 0 <= i < old(self).groups@.len() ==> request_for(#[trigger] final(self).requests@[i], old(self).groups@[i], old(self).group_id@, old(self).key_name@)
                &&& old(self).groups@.len() == 0 ==> final(self).all_active && empty_fleet_ready(*final(self), r)
                &&& old(self).groups@.len() > 0 ==> {
                    &&& final(self).phase == Phase::Requesting
                    &&& final(self).next == 0
                    &&& r matches Action::RequestSpot(q)
                    &&& same_request(q, final(self).requests@[0])
                }
            } else {
                ended_with(*final(self), r, ErrorKind::Provision)
            },
            old(self).phase == Phase::Requesting ==> match event {
                Event::SpotRequested(ids) => {
                    let group = old(self).requests@[old(self).next as int].group@;
                    let n = old(self).book@.len();
                    &&& final(self).book@.len() == n + ids@.len()
                    &&& final(self).book@.subrange(0, n as int) == old(self).book@
                    &&& forall|k: int| 0 <= k < ids@.len() ==> owner_pair(#[trigger] final(self).book@[n + k]) == (ids@[k]@, group)
                    &&& final(self).requests == old(self).requests
                    &&& if old(self).next + 1 < old(self).requests@.len() {
                        &&& final(self).phase == Phase::Requesting
                        &&& final(self).next == old(self).next + 1
                        &&& r matches Action::RequestSpot(q)
                        &&& same_request(q, final(self).requests@[old(self).next + 1])
                    } else if final(self).book@.len() == 0 {
                        final(self).all_active && empty_fleet_ready(*final(self), r)
                    } else {
                        &&& final(self).phase == Phase::PollingRequests
                        &&& r matches Action::DescribeRequests { ids, delay_ms }
                        &&& views(ids@) == views(final(self).request_ids@)
                        &&& delay_ms == 0
                    }
                },
                _ => {
                    ended_with(*final(self), r, ErrorKind::Submit)
                },
            },
            old(self).phase == Phase::PollingRequests ==> match event {
                Event::RequestsDescribed(reports) => {
                    if exists|i: int| 0 <= i < reports@.len() && is_open(#[trigger] reports@[i]) {
                        &&& final(self).phase == Phase::PollingRequests
                        &&& r matches Action::DescribeRequests { ids, delay_ms }
                        &&& views(ids@) == views(old(self).request_ids@)
                        &&& delay_ms == old(self).cfg.request_poll_ms
                    } else if exists|i: int| 0 <= i < reports@.len() && is_active(#[trigger] reports@[i]) && !resolves(pairs(old(self).book@), reports@[i]) {
                        cancelling_after_poll_error(*final(self), r)
                    } else {
                        &&& final(self).phase == Phase::Cancelling
                        &&& final(self).poll_error is None
                        &&& final(self).all_active == forall|i: int| 0 <= i < reports@.len() ==> is_active(#[trigger] reports@[i])
                        &&& pairs(final(self).instances@) == settled_instances(pairs(old(self).book@), reports@)
                        &&& r matches Action::CancelRequests { ids }
                        &&& views(ids@) == views(old(self).request_ids@)
                    }
                },
                _ => {
                    cancelling_after_poll_error(*final(self), r)
                },
            },
            old(self).phase == Phase::Cancelling ==> {
                &&& final(self).all_active == old(self).all_active
                &&& final(self).instances == old(self).instances
                &&& if old(self).poll_error is Some {
                    &&& final(self).phase == Phase::Done
                    &&& r matches Action::Finish(res)
                    &&& res == Err::<(), RunError>(old(self).poll_error->0)
                } else if old(self).instance_ids@.len() == 0 {
                    empty_fleet_ready(*final(self), r)
                } else {
                    &&& final(self).phase == Phase::PollingInstances
                    &&& r matches Action::DescribeInstances { ids, delay_ms }
                    &&& views(ids@) == views(old(self).instance_ids@)
                    &&& delay_ms == 0
                }
            },
            old(self).phase == Phase::PollingInstances ==> match event {
                Event::InstancesDescribed(reports) => {
                    if exists|i: int| 0 <= i < reports@.len() && is_ready(#[trigger] reports@[i]) && !attributable(pairs(old(self).instances@), reports@[i]) {
                        ended_with(*final(self), r, ErrorKind::Poll)
                    } else if !forall|i: int| 0 <= i < reports@.len() ==> is_ready(#[trigger] reports@[i]) {
                        &&& final(self).phase == Phase::PollingInstances
                        &&& r matches Action::DescribeInstances { ids, delay_ms }
                        &&& views(ids@) == views(old(self).instance_ids@)
                        &&& delay_ms == old(self).cfg.ready_poll_ms
                    } else if old(self).all_active {
                        &&& final(self).phase == Phase::Bootstrapping
                        &&& r matches Action::Bootstrap(ms)
                        &&& fleet_facts(ms@) == ready_fleet(pairs(old(self).instances@), reports@)
                        &&& forall|k: int| 0 <= k < ms@.len() ==> (#[trigger] ms@[k]).ssh is None
                    } else {
                        final(self).phase == Phase::Done && r matches Action::Finish(Ok(()))
                    }
                },
                _ => {
                    ended_with(*final(self), r, ErrorKind::Poll)
                },
            },
            old(self).phase == Phase::Bootstrapping ==> match event {
                Event::BootstrapFinished(None) => {
                    final(self).phase == Phase::AwaitingCallback && r is InvokeCallback
                },
                _ => {
                    &&& final(self).failure matches Some(e)
                    &&& e.kind == ErrorKind::Bootstrap
                    &&& teardown_begun(*final(self), r)
                },
            },
            old(self).phase == Phase::AwaitingCallback ==> {
                &&& teardown_begun(*final(self), r)
                &&& if event matches Event::CallbackFinished(None) {
                    final(self).failure is None
                } else {
                    final(self).failure matches Some(e) && e.kind == ErrorKind::Callback
                }
            },
            old(self).phase == Phase::Terminating ==> {
                &&& final(self).phase == Phase::DeletingKey
                &&& r matches Action::DeleteKeyPair { name }
                &&& name@ == old(self).key_name@
                &&& final(self).failure == old(self).failure
                &&& if old(self).teardown_error is Some || event matches Event::InstancesTerminated(None) {
                    final(self).teardown_error == old(self).teardown_error
                } else {
                    final(self).teardown_error matches Some(e) && e.kind == ErrorKind::Teardown
                }
            },
            old(self).phase == Phase::DeletingKey ==> {
                &&& final(self).phase == Phase::Done
                &&& r matches Action::Finish(res)
                &&& final_result(old(self).failure, old(self).teardown_error, !(event matches Event::KeyDeleted(None)), res)
            },
            old(self).phase == Phase::Done ==> ended_with(*final(self), r, ErrorKind::OutOfOrder),
    {
        match self.phase {
            Phase::Start => match event {
                Event::Begin => {
                    self.phase = Phase::CreatingGroup;
                    Action::CreateSecurityGroup {
                        name: self.group_name.clone(),
                        description: "Security group for Flotilla Spot Instances".to_owned(),
                    }
                },
                other => self.end_with(ErrorKind::OutOfOrder, detail_of(other)),
            },
            Phase::CreatingGroup => match event {
                Event::GroupCreated(Some(id)) => {
                    self.phase = Phase::AuthorizingIngress;
                    self.group_id = id.clone();
                    Action::AuthorizeIngress { group_id: id, rules: ingress_rules(&self.cfg) }
                },
                other => self.end_with(ErrorKind::Provision, detail_of(other)),
            },
            Phase::AuthorizingIngress => match event {
                Event::IngressAuthorized => {
                    self.phase = Phase::CreatingKey;
                    Action::CreateKeyPair { name: self.key_name.clone() }
                },
                other => self.end_with(ErrorKind::Provision, detail_of(other)),
            },
            Phase::CreatingKey => match event {
                Event::KeyCreated(Some(material)) => {
                    self.phase = Phase::StoringKey;
                    Action::StoreKey { material }
                },
                other => self.end_with(ErrorKind::Provision, detail_of(other)),
            },
            Phase::StoringKey => match event {
                Event::KeyStored => {
                    self.requests = capacity_requests(&self.groups, &self.group_id, &self.key_name);
                    self.next = 0;
                    if self.requests.len() == 0 {
                        self.all_active = true;
                        self.empty_fleet()
                    } else {
                        self.phase = Phase::Requesting;
                        Action::RequestSpot(copy_request(&self.requests[0]))
                    }
                },
                other => self.end_with(ErrorKind::Provision, detail_of(other)),
            },
            Phase::Requesting => match event {
                Event::SpotRequested(ids) => {
                    let at = self.next;
                    let n = self.requests.len();
                    let group = self.requests[at].group.clone();
                    record_owners(&mut self.book, &group, &ids);
                    self.request_ids = ids_from(&self.book);
                    self.next = at + 1;
                    if self.next < n {
                        Action::RequestSpot(copy_request(&self.requests[self.next]))
                    } else if self.book.len() == 0 {
                        self.all_active = true;
                        self.empty_fleet()
                    } else {
                        self.phase = Phase::PollingRequests;
                        Action::DescribeRequests { ids: copy_strings(&self.request_ids), delay_ms: 0 }
                    }
                },
                other => self.end_with(ErrorKind::Submit, detail_of(other)),
            },
            Phase::PollingRequests => match event {
                Event::RequestsDescribed(reports) => match settle_requests(&self.book, &reports) {
                    Ok(RequestPoll::Pending) => Action::DescribeRequests {
                        ids: copy_strings(&self.request_ids),
                        delay_ms: self.cfg.request_poll_ms,
                    },
                    Ok(RequestPoll::Settled { all_active, instances }) => {
                        self.phase = Phase::Cancelling;
                        self.all_active = all_active;
                        self.instance_ids = ids_from(&instances);
                        self.instances = instances;
                        Action::CancelRequests { ids: copy_strings(&self.request_ids) }
                    },
                    Err(_) => self.cancel_after_poll_error("a settled request belongs to no group".to_owned()),
                },
                other => self.cancel_after_poll_error(detail_of(other)),
            },
            Phase::Cancelling => {
                if self.poll_error.is_some() {
                    self.phase = Phase::Done;
                    match self.poll_error.take() {
                        Some(e) => Action::Finish(Err(e)),
                        None => Action::Finish(Ok(())),
                    }
                } else if self.instance_ids.len() == 0 {
                    self.empty_fleet()
                } else {
                    self.phase = Phase::PollingInstances;
                    Action::DescribeInstances { ids: copy_strings(&self.instance_ids), delay_ms: 0 }
                }
            },
            Phase::PollingInstances => match event {
                Event::InstancesDescribed(reports) => match build_fleet::<S>(&self.instances, &reports) {
                    Err(_) => self.end_with(ErrorKind::Poll, "a running instance belongs to no group".to_owned()),
                    Ok(poll) => {
                        if !poll.ready {
                            Action::DescribeInstances {
                                ids: copy_strings(&self.instance_ids),
                                delay_ms: self.cfg.ready_poll_ms,
                            }
                        } else if self.all_active {
                            self.phase = Phase::Bootstrapping;
                            Action::Bootstrap(poll.machines)
                        } else {
                            self.phase = Phase::Done;
                            Action::Finish(Ok(()))
                        }
                    },
                },
                other => self.end_with(ErrorKind::Poll, detail_of(other)),
            },
            Phase::Bootstrapping => match event {
                Event::BootstrapFinished(None) => {
                    self.phase = Phase::AwaitingCallback;
                    Action::InvokeCallback
                },
                other => {
                    self.failure = Some(RunError { kind: ErrorKind::Bootstrap, detail: detail_of(other) });
                    self.begin_teardown()
                },
            },
            Phase::AwaitingCallback => {
                match event {
                    Event::CallbackFinished(None) => {},
                    other => {
                        self.failure = Some(RunError { kind: ErrorKind::Callback, detail: detail_of(other) });
                    },
                }
                self.begin_teardown()
            },
            Phase::Terminating => {
                match event {
                    Event::InstancesTerminated(None) => {},
                    other => {
                        if self.teardown_error.is_none() {
                            self.teardown_error = Some(RunError { kind: ErrorKind::Teardown, detail: detail_of(other) });
                        }
                    },
                }
                self.phase = Phase::DeletingKey;
                Action::DeleteKeyPair { name: self.key_name.clone() }
            },
            Phase::DeletingKey => {
                let last = match event {
                    Event::KeyDeleted(None) => None,
                    other => Some(RunError { kind: ErrorKind::Teardown, detail: detail_of(other) }),
                };
                self.phase = Phase::Done;
                let failure = self.failure.take();
                let teardown_error = self.teardown_error.take();
                let res = match failure {
                    Some(e) => Err(e),
                    None => match teardown_error {
                        Some(e) => Err(e),
                        None => match last {
                            Some(e) => Err(e),
                            None => Ok(()),
                        },
                    },
                };
                Action::Finish(res)
            },
            Phase::Done => self.end_with(ErrorKind::OutOfOrder, detail_of(event)),
        }
    }
}

} // verus!
