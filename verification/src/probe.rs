//! The probes of the harness: their names, the connection each one asks
//! for, and the bytes each one writes.
use vstd::prelude::*;
use vstd::string::*;

verus! {

/// Milliseconds a probe may take before its deadline wins the race.
pub const DEADLINE_MS: u32 = 5000;

/// How the transport of a connection is secured.
#[derive(Clone, Copy, Debug, PartialEq, Eq, Structural)]
pub enum SecureMode {
    /// Plaintext for the life of the connection.
    Off,
    /// TLS from the first byte.
    On,
    /// Plaintext at first; the connection may be upgraded to TLS later.
    StartTls,
}

/// What a probe expects of a write made after the peer's end of stream.
#[derive(Clone, Copy, Debug, PartialEq, Eq, Structural)]
pub enum HalfOpenPolicy {
    /// The writable side stays open at end of stream.
    Allowed,
    /// The writable side closes at end of stream.
    Disallowed,
}

/// The probes, one per connection mode under test.
#[derive(Clone, Copy, Debug, PartialEq, Eq, Structural)]
pub enum ProbeKind {
    NoSsl,
    Ssl,
    StartTls,
    AllowHalfOpen,
    DisallowHalfOpen,
}

/// The connection a probe asks the socket provider for.
#[derive(Debug)]
pub struct ConnectPlan {
    pub host: String,
    pub port: u16,
    pub secure: SecureMode,
    pub allow_half_open: bool,
    /// Whether the connection is upgraded to TLS before any byte is written.
    pub upgrade: bool,
}

/// The mathematical value of a [`ConnectPlan`].
pub ghost struct ConnectPlanView {
    pub host: Seq<char>,
    pub port: u16,
    pub secure: SecureMode,
    pub allow_half_open: bool,
    pub upgrade: bool,
}

impl ConnectPlanView {
    /// An upgrade is only asked of a connection opened for a later upgrade.
    pub open spec fn wf(self) -> bool {
        self.upgrade ==> self.secure == SecureMode::StartTls
    }
}

impl View for ConnectPlan {
    type V = ConnectPlanView;

    open spec fn view(&self) -> ConnectPlanView {
        ConnectPlanView {
            host: self.host@,
            port: self.port,
            secure: self.secure,
            allow_half_open: self.allow_half_open,
            upgrade: self.upgrade,
        }
    }
}

/// The probes in the order in which a run takes them.
pub open spec fn declared_probes() -> Seq<ProbeKind> {
    seq![
        ProbeKind::NoSsl,
        ProbeKind::Ssl,
        ProbeKind::StartTls,
        ProbeKind::AllowHalfOpen,
        ProbeKind::DisallowHalfOpen,
    ]
}

/// The request every probe writes first.
pub open spec fn request_bytes() -> Seq<u8> {
    "GET / HTTP/1.0\r\nHost: example.com\r\n\r\n".spec_bytes()
}

/// The bytes a half-open probe writes after the peer's end of stream.
pub open spec fn late_write_bytes() -> Seq<u8> {
    "FOO".spec_bytes()
}

impl ProbeKind {
    /// The name under which the probe is reported.
    pub open spec fn spec_name(self) -> Seq<char> {
        match self {
            ProbeKind::NoSsl => "NO_SSL"@,
            ProbeKind::Ssl => "SSL"@,
            ProbeKind::StartTls => "StartTls"@,
            ProbeKind::AllowHalfOpen => "ALLOW_HALF_OPEN"@,
            ProbeKind::DisallowHalfOpen => "DISALLOW_HALF_OPEN"@,
        }
    }

    /// The half-open policy the probe puts to the test, if it tests one.
    pub open spec fn spec_late_write(self) -> Option<HalfOpenPolicy> {
        match self {
            ProbeKind::AllowHalfOpen => Some(HalfOpenPolicy::Allowed),
            ProbeKind::DisallowHalfOpen => Some(HalfOpenPolicy::Disallowed),
            _ => None,
        }
    }

    /// The connection the probe asks for.
    pub open spec fn spec_connect_plan(self) -> ConnectPlanView {
        ConnectPlanView {
            host: "example.com"@,
            port: if self == ProbeKind::NoSsl { 80 } else { 443 },
            secure: match self {
                ProbeKind::Ssl => SecureMode::On,
                ProbeKind::StartTls => SecureMode::StartTls,
                _ => SecureMode::Off,
            },
            allow_half_open: self == ProbeKind::AllowHalfOpen,
            upgrade: self == ProbeKind::StartTls,
        }
    }

    /// The probes in the order in which a run takes them.
    pub fn declared() -> (probes: Vec<ProbeKind>)
        ensures
            probes@ == declared_probes(),
    {
        let probes = vec![
            ProbeKind::NoSsl,
            ProbeKind::Ssl,
            ProbeKind::StartTls,
            ProbeKind::AllowHalfOpen,
            ProbeKind::DisallowHalfOpen,
        ];
        assert(probes@ =~= declared_probes());
        probes
    }

    /// The name under which the probe is reported.
    pub fn name(self) -> (name: &'static str)
        ensures
            name@ == self.spec_name(),
    {
        match self {
            ProbeKind::NoSsl => "NO_SSL",
            ProbeKind::Ssl => "SSL",
            ProbeKind::StartTls => "StartTls",
            ProbeKind::AllowHalfOpen => "ALLOW_HALF_OPEN",
            ProbeKind::DisallowHalfOpen => "DISALLOW_HALF_OPEN",
        }
    }

    /// The half-open policy the probe puts to the test, if it tests one.
    pub fn late_write(self) -> (policy: Option<HalfOpenPolicy>)
        ensures
            policy == self.spec_late_write(),
    {
        match self {
            ProbeKind::AllowHalfOpen => Some(HalfOpenPolicy::Allowed),
            ProbeKind::DisallowHalfOpen => Some(HalfOpenPolicy::Disallowed),
            _ => None,
        }
    }

    /// The connection the probe asks for.
    pub fn connect_plan(self) -> (plan: ConnectPlan)
        ensures
            plan@ == self.spec_connect_plan(),
            plan@.wf(),
    {
        let host = String::from_str("example.com");
        match self {
            ProbeKind::NoSsl => ConnectPlan {
                host,
                port: 80,
                secure: SecureMode::Off,
                allow_half_open: false,
                upgrade: false,
            },
            ProbeKind::Ssl => ConnectPlan {
                host,
                port: 443,
                secure: SecureMode::On,
                allow_half_open: false,
                upgrade: false,
            },
            ProbeKind::StartTls => ConnectPlan {
                host,
                port: 443,
                secure: SecureMode::StartTls,
                allow_half_open: false,
                upgrade: true,
            },
            ProbeKind::AllowHalfOpen => ConnectPlan {
                host,
                port: 443,
                secure: SecureMode::Off,
                allow_half_open: true,
                upgrade: false,
            },
            ProbeKind::DisallowHalfOpen => ConnectPlan {
                host,
                port: 443,
                secure: SecureMode::Off,
                allow_half_open: false,
                upgrade: false,
            },
        }
    }
}

/// Every probe asks for a connection that is well formed, and asks for
/// half-open exactly when it expects a late write to be allowed.
pub proof fn lemma_plan_fits_probe(kind: ProbeKind)
    ensures
        kind.spec_connect_plan().wf(),
        kind.spec_connect_plan().allow_half_open <==> kind.spec_late_write() == Some(
            HalfOpenPolicy::Allowed,
        ),
{
}

/// No two probes share a name, so a status line names one probe.
pub proof fn lemma_names_distinct(a: ProbeKind, b: ProbeKind)
    requires
        a != b,
    ensures
        a.spec_name() != b.spec_name(),
{
    reveal_strlit("NO_SSL");
    reveal_strlit("SSL");
    reveal_strlit("StartTls");
    reveal_strlit("ALLOW_HALF_OPEN");
    reveal_strlit("DISALLOW_HALF_OPEN");
    assert("NO_SSL"@.len() == 6);
    assert("SSL"@.len() == 3);
    assert("StartTls"@.len() == 8);
    assert("ALLOW_HALF_OPEN"@.len() == 15);
    assert("DISALLOW_HALF_OPEN"@.len() == 18);
}

/// The request every probe writes first.
pub fn request() -> (bytes: Vec<u8>)
    ensures
        bytes@ == request_bytes(),
{
    "GET / HTTP/1.0\r\nHost: example.com\r\n\r\n".as_bytes_vec()
}

/// The bytes a half-open probe writes after the peer's end of stream.
pub fn late_write_payload() -> (bytes: Vec<u8>)
    ensures
        bytes@ == late_write_bytes(),
{
    "FOO".as_bytes_vec()
}

} // verus!
