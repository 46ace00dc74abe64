use flotilla::bootstrap::attach_sessions;
use flotilla::config::Config;
use flotilla::engine::{Action, Engine, ErrorKind, Event, Phase};
use flotilla::fleet::{InstanceReport, Machine};
use flotilla::registry::{FlotillaBuilder, MachineSetup};
use flotilla::requests::RequestReport;

fn s(x: &str) -> String {
    x.to_string()
}

fn req(id: &str, state: &str, inst: Option<&str>) -> RequestReport {
    RequestReport { request_id: Some(s(id)), state: Some(s(state)), instance_id: inst.map(s) }
}

fn inst(id: &str, state: &str, private_ip: &str, public_ip: Option<&str>) -> InstanceReport {
    InstanceReport {
        instance_id: Some(s(id)),
        state: Some(s(state)),
        instance_type: Some(s("t3.micro")),
        private_ip: Some(s(private_ip)),
        public_ip: public_ip.map(s),
        dns: None,
    }
}

fn two_groups() -> Engine {
    let mut b: FlotillaBuilder<&'static str> = FlotillaBuilder::default();
    b.add_set("server", 1, MachineSetup::new("t3.micro", "ami-0912f71e06545ad88", "date"));
    b.add_set("client", 1, MachineSetup::new("t3.micro", "ami-0912f71e06545ad88", "date"));
    Engine::new(Config::default(), b.descriptors(), "abcdefghij", "klmnopqrst")
}

type A = Action<&'static str>;

/// Drives a two-group engine up to the point where its fleet is ready.
fn provision(e: &mut Engine) -> Vec<Machine<&'static str>> {
    match e.step::<&str>(Event::Begin) {
        A::CreateSecurityGroup { name, description } => {
            assert_eq!(name, "flotilla_security_abcdefghij");
            assert_eq!(description, "Security group for Flotilla Spot Instances");
        }
        _ => panic!("expected the rule set to be created"),
    }
    match e.step::<&str>(Event::GroupCreated(Some(s("sg-1")))) {
        A::AuthorizeIngress { group_id, rules } => {
            assert_eq!(group_id, "sg-1");
            assert_eq!(rules.len(), 2);
            assert_eq!((rules[0].from_port, rules[0].to_port), (22, 22));
            assert_eq!(rules[0].cidr, "0.0.0.0/0");
            assert_eq!((rules[1].from_port, rules[1].to_port), (0, 65535));
            assert_eq!(rules[1].cidr, "172.31.0.0/16");
        }
        _ => panic!("expected ingress rules"),
    }
    match e.step::<&str>(Event::IngressAuthorized) {
        A::CreateKeyPair { name } => assert_eq!(name, "flotilla_key_klmnopqrst"),
        _ => panic!("expected a key pair"),
    }
    match e.step::<&str>(Event::KeyCreated(Some(s("PEM")))) {
        A::StoreKey { material } => assert_eq!(material, "PEM"),
        _ => panic!("expected the key to be stored"),
    }
    match e.step::<&str>(Event::KeyStored) {
        A::RequestSpot(q) => {
            assert_eq!(q.group, "server");
            assert_eq!(q.count, 1);
            assert_eq!(q.image_id, "ami-0912f71e06545ad88");
            assert_eq!(q.security_group_id, "sg-1");
            assert_eq!(q.key_name, "flotilla_key_klmnopqrst");
        }
        _ => panic!("expected a capacity request"),
    }
    match e.step::<&str>(Event::SpotRequested(vec![s("sir-1")])) {
        A::RequestSpot(q) => assert_eq!(q.group, "client"),
        _ => panic!("expected a second capacity request"),
    }
    match e.step::<&str>(Event::SpotRequested(vec![s("sir-2")])) {
        A::DescribeRequests { ids, delay_ms } => {
            assert_eq!(ids, vec![s("sir-1"), s("sir-2")]);
            assert_eq!(delay_ms, 0);
        }
        _ => panic!("expected the requests to be polled"),
    }
    match e.step::<&str>(Event::RequestsDescribed(vec![
        req("sir-1", "open", None),
        req("sir-2", "active", Some("i-2")),
    ])) {
        A::DescribeRequests { delay_ms, .. } => assert_eq!(delay_ms, 500),
        _ => panic!("an open request keeps the poll going"),
    }
    match e.step::<&str>(Event::RequestsDescribed(vec![
        req("sir-1", "active", Some("i-1")),
        req("sir-2", "active", Some("i-2")),
    ])) {
        A::CancelRequests { ids } => assert_eq!(ids, vec![s("sir-1"), s("sir-2")]),
        _ => panic!("expected the requests to be cancelled"),
    }
    assert!(e.all_active);
    match e.step::<&str>(Event::RequestsCancelled) {
        A::DescribeInstances { ids, delay_ms } => {
            assert_eq!(ids, vec![s("i-1"), s("i-2")]);
            assert_eq!(delay_ms, 0);
        }
        _ => panic!("expected the instances to be polled"),
    }
    match e.step::<&str>(Event::InstancesDescribed(vec![
        inst("i-1", "pending", "172.31.0.1", None),
        inst("i-2", "running", "172.31.0.2", Some("3.3.3.2")),
    ])) {
        A::DescribeInstances { delay_ms, .. } => assert_eq!(delay_ms, 500),
        _ => panic!("a pending instance keeps the poll going"),
    }
    match e.step::<&str>(Event::InstancesDescribed(vec![
        inst("i-1", "running", "172.31.0.1", Some("3.3.3.1")),
        inst("i-2", "running", "172.31.0.2", Some("3.3.3.2")),
    ])) {
        A::Bootstrap(ms) => ms,
        _ => panic!("expected the fleet to be bootstrapped"),
    }
}

#[test]
fn two_group_run_bootstraps_calls_back_and_tears_down() {
    let mut e = two_groups();
    let ms = provision(&mut e);
    assert_eq!(e.phase, Phase::Bootstrapping);
    let ms = match attach_sessions(ms, vec![Ok::<&str, String>("session-1"), Ok("session-2")]) {
        Ok(ms) => ms,
        Err(_) => panic!("every machine was bootstrapped"),
    };
    let servers: Vec<&Machine<&str>> = ms.iter().filter(|m| m.group == "server").collect();
    let clients: Vec<&Machine<&str>> = ms.iter().filter(|m| m.group == "client").collect();
    assert_eq!(servers.len(), 1);
    assert_eq!(clients.len(), 1);
    assert_eq!(servers[0].private_ip, "172.31.0.1");
    assert_eq!(clients[0].private_ip, "172.31.0.2");
    assert!(ms.iter().all(|m| m.ssh.is_some()));
    assert!(matches!(e.step::<&str>(Event::BootstrapFinished(None)), A::InvokeCallback));
    match e.step::<&str>(Event::CallbackFinished(None)) {
        A::TerminateInstances { ids } => assert_eq!(ids, vec![s("i-1"), s("i-2")]),
        _ => panic!("expected the instances to be terminated"),
    }
    match e.step::<&str>(Event::InstancesTerminated(None)) {
        A::DeleteKeyPair { name } => assert_eq!(name, "flotilla_key_klmnopqrst"),
        _ => panic!("expected the key pair to be deleted"),
    }
    assert!(matches!(e.step::<&str>(Event::KeyDeleted(None)), A::Finish(Ok(()))));
    assert_eq!(e.phase, Phase::Done);
}

#[test]
fn unfulfilled_request_skips_bootstrap_and_teardown() {
    let mut b: FlotillaBuilder<()> = FlotillaBuilder::new();
    b.add_set("worker", 2, MachineSetup::new("t3.micro", "ami-1", ()));
    let mut e = Engine::new(Config::default(), b.descriptors(), "aaaaaaaaaa", "bbbbbbbbbb");
    e.step::<()>(Event::Begin);
    e.step::<()>(Event::GroupCreated(Some(s("sg-1"))));
    e.step::<()>(Event::IngressAuthorized);
    e.step::<()>(Event::KeyCreated(Some(s("PEM"))));
    match e.step::<()>(Event::KeyStored) {
        Action::RequestSpot(q) => assert_eq!(q.count, 2),
        _ => panic!("expected a capacity request"),
    }
    e.step::<()>(Event::SpotRequested(vec![s("sir-1"), s("sir-2")]));
    match e.step::<()>(Event::RequestsDescribed(vec![
        req("sir-1", "active", Some("i-1")),
        req("sir-2", "failed", None),
    ])) {
        Action::CancelRequests { ids } => assert_eq!(ids, vec![s("sir-1"), s("sir-2")]),
        _ => panic!("every request is cancelled once settled"),
    }
    assert!(!e.all_active);
    match e.step::<()>(Event::RequestsCancelled) {
        Action::DescribeInstances { ids, .. } => assert_eq!(ids, vec![s("i-1")]),
        _ => panic!("expected the instances to be polled"),
    }
    let next = e.step::<()>(Event::InstancesDescribed(vec![inst(
        "i-1",
        "running",
        "172.31.0.1",
        Some("3.3.3.1"),
    )]));
    assert!(matches!(next, Action::Finish(Ok(()))));
    assert_eq!(e.phase, Phase::Done);
}

#[test]
fn bootstrap_failure_still_tears_down() {
    let mut e = two_groups();
    let ms = provision(&mut e);
    match attach_sessions(ms, vec![Ok::<&str, String>("session-1"), Err(s("auth refused"))]) {
        Err(f) => {
            assert_eq!(f.index, 1);
            assert_eq!(f.error, "auth refused");
        }
        Ok(_) => panic!("a failed machine aborts the bootstrap"),
    }
    match e.step::<&str>(Event::BootstrapFinished(Some(s("auth refused")))) {
        A::TerminateInstances { ids } => assert_eq!(ids.len(), 2),
        _ => panic!("teardown follows a failed bootstrap"),
    }
    e.step::<&str>(Event::InstancesTerminated(None));
    match e.step::<&str>(Event::KeyDeleted(None)) {
        A::Finish(Err(err)) => {
            assert_eq!(err.kind, ErrorKind::Bootstrap);
            assert_eq!(err.detail, "auth refused");
        }
        _ => panic!("the run fails with the bootstrap error"),
    }
}

#[test]
fn callback_failure_still_tears_down() {
    let mut e = two_groups();
    provision(&mut e);
    e.step::<&str>(Event::BootstrapFinished(None));
    assert!(matches!(
        e.step::<&str>(Event::CallbackFinished(Some(s("boom")))),
        A::TerminateInstances { .. }
    ));
    assert!(matches!(e.step::<&str>(Event::InstancesTerminated(None)), A::DeleteKeyPair { .. }));
    match e.step::<&str>(Event::KeyDeleted(None)) {
        A::Finish(Err(err)) => assert_eq!(err.kind, ErrorKind::Callback),
        _ => panic!("the run fails with the callback error"),
    }
}

#[test]
fn failed_termination_does_not_stop_key_deletion() {
    let mut e = two_groups();
    provision(&mut e);
    e.step::<&str>(Event::BootstrapFinished(None));
    e.step::<&str>(Event::CallbackFinished(None));
    match e.step::<&str>(Event::InstancesTerminated(Some(s("throttled")))) {
        A::DeleteKeyPair { name } => assert_eq!(name, "flotilla_key_klmnopqrst"),
        _ => panic!("key deletion is attempted after a failed termination"),
    }
    match e.step::<&str>(Event::KeyDeleted(Some(s("no such key")))) {
        A::Finish(Err(err)) => {
            assert_eq!(err.kind, ErrorKind::Teardown);
            assert_eq!(err.detail, "throttled");
        }
        _ => panic!("the first cleanup failure is reported"),
    }
}

#[test]
fn deleting_a_missing_key_is_reported() {
    let mut e = two_groups();
    provision(&mut e);
    e.step::<&str>(Event::BootstrapFinished(None));
    e.step::<&str>(Event::CallbackFinished(None));
    e.step::<&str>(Event::InstancesTerminated(None));
    match e.step::<&str>(Event::KeyDeleted(Some(s("InvalidKeyPair.NotFound")))) {
        A::Finish(Err(err)) => {
            assert_eq!(err.kind, ErrorKind::Teardown);
            assert_eq!(err.detail, "InvalidKeyPair.NotFound");
        }
        _ => panic!("a failed key deletion is reported"),
    }
}

#[test]
fn provisioning_failure_ends_the_run() {
    let mut e = two_groups();
    e.step::<()>(Event::Begin);
    match e.step::<()>(Event::GroupCreated(None)) {
        Action::Finish(Err(err)) => assert_eq!(err.kind, ErrorKind::Provision),
        _ => panic!("a rule set without id is fatal"),
    }
    let mut e = two_groups();
    e.step::<()>(Event::Begin);
    e.step::<()>(Event::GroupCreated(Some(s("sg-1"))));
    e.step::<()>(Event::IngressAuthorized);
    match e.step::<()>(Event::Failed(s("quota"))) {
        Action::Finish(Err(err)) => {
            assert_eq!(err.kind, ErrorKind::Provision);
            assert_eq!(err.detail, "quota");
        }
        _ => panic!("a failed key pair is fatal"),
    }
}

#[test]
fn submission_failure_ends_the_run() {
    let mut e = two_groups();
    e.step::<()>(Event::Begin);
    e.step::<()>(Event::GroupCreated(Some(s("sg-1"))));
    e.step::<()>(Event::IngressAuthorized);
    e.step::<()>(Event::KeyCreated(Some(s("PEM"))));
    e.step::<()>(Event::KeyStored);
    match e.step::<()>(Event::Failed(s("bad ami"))) {
        Action::Finish(Err(err)) => assert_eq!(err.kind, ErrorKind::Submit),
        _ => panic!("a failed submission is fatal"),
    }
}

fn polling_requests() -> Engine {
    let mut e = two_groups();
    e.step::<()>(Event::Begin);
    e.step::<()>(Event::GroupCreated(Some(s("sg-1"))));
    e.step::<()>(Event::IngressAuthorized);
    e.step::<()>(Event::KeyCreated(Some(s("PEM"))));
    e.step::<()>(Event::KeyStored);
    e.step::<()>(Event::SpotRequested(vec![s("sir-1")]));
    e.step::<()>(Event::SpotRequested(vec![s("sir-2")]));
    e
}

#[test]
fn unknown_request_is_a_poll_error() {
    let mut e = polling_requests();
    match e.step::<()>(Event::RequestsDescribed(vec![req("sir-9", "active", Some("i-9"))])) {
        Action::CancelRequests { ids } => assert_eq!(ids, vec![s("sir-1"), s("sir-2")]),
        _ => panic!("the requests are cancelled after a failed poll"),
    }
    match e.step::<()>(Event::RequestsCancelled) {
        Action::Finish(Err(err)) => assert_eq!(err.kind, ErrorKind::Poll),
        _ => panic!("an unknown request is fatal"),
    }
}

#[test]
fn failed_request_poll_still_cancels() {
    let mut e = polling_requests();
    assert!(matches!(
        e.step::<()>(Event::Failed(s("throttled"))),
        Action::CancelRequests { .. }
    ));
    match e.step::<()>(Event::Failed(s("cancel failed too"))) {
        Action::Finish(Err(err)) => {
            assert_eq!(err.kind, ErrorKind::Poll);
            assert_eq!(err.detail, "throttled");
        }
        _ => panic!("the poll failure ends the run"),
    }
    assert_eq!(e.phase, Phase::Done);
}

#[test]
fn out_of_order_event_before_start() {
    let mut e = two_groups();
    match e.step::<()>(Event::KeyStored) {
        Action::Finish(Err(err)) => assert_eq!(err.kind, ErrorKind::OutOfOrder),
        _ => panic!("a run must begin first"),
    }
}

#[test]
fn empty_registry_runs_callback_without_instances() {
    let b: FlotillaBuilder<()> = FlotillaBuilder::default();
    let mut e = Engine::new(Config::default(), b.descriptors(), "aaaaaaaaaa", "bbbbbbbbbb");
    e.step::<()>(Event::Begin);
    e.step::<()>(Event::GroupCreated(Some(s("sg-1"))));
    e.step::<()>(Event::IngressAuthorized);
    e.step::<()>(Event::KeyCreated(Some(s("PEM"))));
    match e.step::<()>(Event::KeyStored) {
        Action::Bootstrap(ms) => assert!(ms.is_empty()),
        _ => panic!("an empty fleet is ready at once"),
    }
    e.step::<()>(Event::BootstrapFinished(None));
    match e.step::<()>(Event::CallbackFinished(None)) {
        Action::DeleteKeyPair { .. } => {}
        _ => panic!("with no instances teardown deletes the key pair"),
    }
    assert!(matches!(e.step::<()>(Event::KeyDeleted(None)), Action::Finish(Ok(()))));
}
