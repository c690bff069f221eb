//! Session construction surface: the construction-time configuration, the
//! fixed-order plan for applying it to a fresh engine instance, and the
//! identity-selection decisions of the composite agent authentication.

use vstd::prelude::*;
use vstd::string::StringExecFns;

use crate::error::{all_identities_failed_msg, no_identities_msg, Error};

verus! {

/// Keepalive policy: whether keepalive probes request a reply from the
/// remote side, and the probe interval in seconds (zero disables them).
#[derive(Clone, Copy, Debug, PartialEq, Eq)]
pub struct SessionKeepaliveConfiguration {
    pub want_reply: bool,
    pub interval: u32,
}

/// Optional construction-time parameters for a fresh engine instance. An
/// absent field leaves the engine's built-in default untouched. The value is
/// consumed by engine setup and never mutated afterward.
#[derive(Clone, Debug, PartialEq, Eq)]
pub struct SessionConfiguration {
    pub banner: Option<String>,
    pub allow_sigpipe: Option<bool>,
    pub compress: Option<bool>,
    /// Timeout for the engine's blocking calls, in whole milliseconds;
    /// zero means no timeout.
    pub timeout_ms: Option<u32>,
    pub keepalive: Option<SessionKeepaliveConfiguration>,
}

impl SessionConfiguration {
    /// A configuration with every field absent.
    pub fn new() -> (c: SessionConfiguration)
        ensures
            c == SessionConfiguration::spec_default(),
    {
        SessionConfiguration {
            banner: Option::None,
            allow_sigpipe: Option::None,
            compress: Option::None,
            timeout_ms: Option::None,
            keepalive: Option::None,
        }
    }

    /// The all-absent configuration.
    pub open spec fn spec_default() -> SessionConfiguration {
        SessionConfiguration {
            banner: Option::None,
            allow_sigpipe: Option::None,
            compress: Option::None,
            timeout_ms: Option::None,
            keepalive: Option::None,
        }
    }

    /// Sets the banner sent to the remote host when the handshake starts.
    pub fn set_banner(&mut self, banner: &str)
        ensures
            final(self).banner matches Option::Some(b) && b@ == banner@,
            final(self).allow_sigpipe == old(self).allow_sigpipe,
            final(self).compress == old(self).compress,
            final(self).timeout_ms == old(self).timeout_ms,
            final(self).keepalive == old(self).keepalive,
    {
        self.banner = Option::Some(String::from_str(banner));
    }

    /// Sets whether SIGPIPE from the underlying socket layer is allowed
    /// through rather than blocked by the engine.
    pub fn set_allow_sigpipe(&mut self, block: bool)
        ensures
            final(self).allow_sigpipe == Option::Some(block),
            final(self).banner == old(self).banner,
            final(self).compress == old(self).compress,
            final(self).timeout_ms == old(self).timeout_ms,
            final(self).keepalive == old(self).keepalive,
    {
        self.allow_sigpipe = Option::Some(block);
    }

    /// Sets whether the engine negotiates compression for the connection.
    pub fn set_compress(&mut self, compress: bool)
        ensures
            final(self).compress == Option::Some(compress),
            final(self).banner == old(self).banner,
            final(self).allow_sigpipe == old(self).allow_sigpipe,
            final(self).timeout_ms == old(self).timeout_ms,
            final(self).keepalive == old(self).keepalive,
    {
        self.compress = Option::Some(compress);
    }

    /// Sets the timeout, in milliseconds, for the engine's blocking calls.
    pub fn set_timeout(&mut self, timeout_ms: u32)
        ensures
            final(self).timeout_ms == Option::Some(timeout_ms),
            final(self).banner == old(self).banner,
            final(self).allow_sigpipe == old(self).allow_sigpipe,
            final(self).compress == old(self).compress,
            final(self).keepalive == old(self).keepalive,
    {
        self.timeout_ms = Option::Some(timeout_ms);
    }

    /// Sets the keepalive policy: whether probes want a reply, and the
    /// interval in seconds between them.
    pub fn set_keepalive(&mut self, want_reply: bool, interval: u32)
        ensures
            final(self).keepalive == Option::Some(
                SessionKeepaliveConfiguration { want_reply, interval },
            ),
            final(self).banner == old(self).banner,
            final(self).allow_sigpipe == old(self).allow_sigpipe,
            final(self).compress == old(self).compress,
            final(self).timeout_ms == old(self).timeout_ms,
    {
        self.keepalive = Option::Some(SessionKeepaliveConfiguration { want_reply, interval });
    }
}

impl Default for SessionConfiguration {
    /// Same as [`SessionConfiguration::new`]: every field absent.
    fn default() -> (c: SessionConfiguration)
        ensures
            c == SessionConfiguration::spec_default(),
    {
        SessionConfiguration::new()
    }
}

/// One engine-configuration action, in the form the engine's own setters
/// take it.
#[derive(Clone, Debug, PartialEq, Eq)]
pub enum ConfigStep {
    SetBanner(String),
    SetAllowSigpipe(bool),
    SetCompress(bool),
    SetTimeout(u32),
    SetKeepalive(bool, u32),
}

/// The actions that apply a configuration to a fresh engine instance: one
/// per present field, in the fixed order banner, sigpipe, compress, timeout,
/// keepalive.
pub open spec fn spec_configuration_steps(c: SessionConfiguration) -> Seq<ConfigStep> {
    (match c.banner {
        Option::Some(b) => seq![ConfigStep::SetBanner(b)],
        Option::None => Seq::<ConfigStep>::empty(),
    }) + (match c.allow_sigpipe {
        Option::Some(v) => seq![ConfigStep::SetAllowSigpipe(v)],
        Option::None => Seq::<ConfigStep>::empty(),
    }) + (match c.compress {
        Option::Some(v) => seq![ConfigStep::SetCompress(v)],
        Option::None => Seq::<ConfigStep>::empty(),
    }) + (match c.timeout_ms {
        Option::Some(ms) => seq![ConfigStep::SetTimeout(ms)],
        Option::None => Seq::<ConfigStep>::empty(),
    }) + (match c.keepalive {
        Option::Some(k) => seq![ConfigStep::SetKeepalive(k.want_reply, k.interval)],
        Option::None => Seq::<ConfigStep>::empty(),
    })
}

impl SessionConfiguration {
    /// Consumes the configuration and yields the engine-setup actions it
    /// calls for, exactly one per present field, in the fixed application
    /// order banner, sigpipe, compress, timeout, keepalive.
    pub fn configuration_steps(self) -> (steps: Vec<ConfigStep>)
        ensures
            steps@ == spec_configuration_steps(self),
    {
        let mut steps: Vec<ConfigStep> = Vec::new();
        match self.banner {
            Option::Some(b) => steps.push(ConfigStep::SetBanner(b)),
            Option::None => (),
        }
        match self.allow_sigpipe {
            Option::Some(v) => steps.push(ConfigStep::SetAllowSigpipe(v)),
            Option::None => (),
        }
        match self.compress {
            Option::Some(v) => steps.push(ConfigStep::SetCompress(v)),
            Option::None => (),
        }
        match self.timeout_ms {
            Option::Some(ms) => steps.push(ConfigStep::SetTimeout(ms)),
            Option::None => (),
        }
        match self.keepalive {
            Option::Some(k) => steps.push(ConfigStep::SetKeepalive(k.want_reply, k.interval)),
            Option::None => (),
        }
        assert(steps@ =~= spec_configuration_steps(self));
        steps
    }
}

/// The composite agent authentication uses the first identity the agent
/// lists and attempts only that one. An empty identity list is a usage
/// error, and no authentication attempt is made for it.
pub fn select_first_identity<T>(identities: Vec<T>) -> (r: Result<T, Error>)
    ensures
        identities@.len() == 0 ==> (r matches Err(e) && (e matches Error::Other(m) && m@
            == no_identities_msg())),
        identities@.len() > 0 ==> (r matches Ok(x) && x == identities@[0]),
{
    let mut identities = identities;
    if identities.len() == 0 {
        Err(Error::no_identities())
    } else {
        Ok(identities.remove(0))
    }
}

/// The try-next variant of agent authentication attempts each listed
/// identity in order until one authenticates. Given, for each identity, whether
/// attempting it authenticated the session, this decides the composite
/// outcome: the index of the first identity that authenticated; a "no
/// identities" usage error for an empty list; an "all identities" usage
/// error when every attempt failed.
pub fn first_accepted_identity(results: &Vec<bool>) -> (r: Result<usize, Error>)
    ensures
        results@.len() == 0 ==> (r matches Err(e) && (e matches Error::Other(m) && m@
            == no_identities_msg())),
        r matches Ok(i) ==> i < results@.len() && results@[i as int] && (forall|j: int|
            0 <= j < i ==> !results@[j]),
        results@.len() > 0 && (exists|j: int| 0 <= j < results@.len() && results@[j]) ==> r is Ok,
        results@.len() > 0 && (forall|j: int| 0 <= j < results@.len() ==> !results@[j]) ==> (r
            matches Err(e) && (e matches Error::Other(m) && m@ == all_identities_failed_msg())),
{
    if results.len() == 0 {
        return Err(Error::no_identities());
    }
    let mut i: usize = 0;
    while i < results.len()
        invariant
            i <= results@.len(),
            forall|j: int| 0 <= j < i ==> !results@[j],
        decreases results@.len() - i,
    {
        if results[i] {
            return Ok(i);
        }
        i = i + 1;
    }
    Err(Error::all_identities_failed())
}

} // verus!
