use vstd::prelude::*;

verus! {

/// Settings of one run, passed explicitly instead of held in process-wide
/// defaults.
pub struct Config {
    /// Port of the remote shell on every instance.
    pub ssh_port: u16,
    /// User that the remote shell authenticates as.
    pub remote_user: String,
    /// Source range allowed to reach the remote shell port.
    pub ssh_cidr: String,
    /// Private range inside which instances may reach each other on any port.
    pub fleet_cidr: String,
    /// Wait between two polls of the capacity requests.
    pub request_poll_ms: u64,
    /// Wait between two polls of the instances.
    pub ready_poll_ms: u64,
    /// Wait between two connect attempts of a remote session.
    pub connect_retry_ms: u64,
    /// Time after which a remote session stops trying to connect.
    pub connect_deadline_ms: u64,
}

impl Default for Config {
    fn default() -> (r: Config)
        ensures
            r.ssh_port == 22,
            r.remote_user@ == "ec2-user"@,
            r.ssh_cidr@ == "0.0.0.0/0"@,
            r.fleet_cidr@ == "172.31.0.0/16"@,
            r.request_poll_ms == 500,
            r.ready_poll_ms == 500,
            r.connect_retry_ms == 1000,
            r.connect_deadline_ms == 120_000,
    {
        Config {
            ssh_port: 22,
            remote_user: "ec2-user".to_owned(),
            ssh_cidr: "0.0.0.0/0".to_owned(),
            fleet_cidr: "172.31.0.0/16".to_owned(),
            request_poll_ms: 500,
            ready_poll_ms: 500,
            connect_retry_ms: 1000,
            connect_deadline_ms: 120_000,
        }
    }
}

/// One ingress rule of the run's network-access rule set.
pub struct IngressRule {
    pub protocol: String,
    pub from_port: u16,
    pub to_port: u16,
    pub cidr: String,
}

pub open spec fn rule_is(
    r: IngressRule,
    protocol: Seq<char>,
    from_port: u16,
    to_port: u16,
    cidr: Seq<char>,
) -> bool {
    &&& r.protocol@ == protocol
    &&& r.from_port == from_port
    &&& r.to_port == to_port
    &&& r.cidr@ == cidr
}

/// The rules opened for a run: the remote shell port from `ssh_cidr`, and every
/// TCP port inside `fleet_cidr` so that instances can reach their peers.
pub fn ingress_rules(cfg: &Config) -> (r: Vec<IngressRule>)
    ensures
        r@.len() == 2,
        rule_is(r@[0], "tcp"@, cfg.ssh_port, cfg.ssh_port, cfg.ssh_cidr@),
        rule_is(r@[1], "tcp"@, 0, 65535, cfg.fleet_cidr@),
{
    let shell = IngressRule {
        protocol: "tcp".to_owned(),
        from_port: cfg.ssh_port,
        to_port: cfg.ssh_port,
        cidr: cfg.ssh_cidr.clone(),
    };
    let crosstalk = IngressRule {
        protocol: "tcp".to_owned(),
        from_port: 0,
        to_port: 65535,
        cidr: cfg.fleet_cidr.clone(),
    };
    vec![shell, crosstalk]
}

} // verus!
