//! Network endpoints and the probe types that reach them.
use std::collections::HashMap;
use vstd::prelude::*;
use vstd::std_specs::hash::{contains_borrowed_key, maps_borrowed_key_to_value, obeys_key_model};
use crate::text::{decimal, push_decimal};

verus! {

/// Network probe types for different testing methods.
#[derive(Debug, Clone, Copy, PartialEq, Eq, Structural, Hash)]
pub enum ProbeType {
    TCP,
    HTTP,
    ICMP,
}

impl Default for ProbeType {
    fn default() -> (r: Self)
        ensures
            r == ProbeType::TCP,
    {
        ProbeType::TCP
    }
}

impl ProbeType {
    /// The port a probe of this type uses when none is given.
    pub open spec fn spec_default_port(self) -> u16 {
        match self {
            ProbeType::TCP => 80,
            ProbeType::HTTP => 80,
            ProbeType::ICMP => 0,
        }
    }

    pub fn default_port(&self) -> (r: u16)
        ensures
            r == self.spec_default_port(),
    {
        match self {
            ProbeType::TCP => 80,
            ProbeType::HTTP => 80,
            ProbeType::ICMP => 0,
        }
    }

    /// ICMP needs raw sockets, and so privileges on most systems.
    pub fn requires_privileges(&self) -> (r: bool)
        ensures
            r == (*self == ProbeType::ICMP),
    {
        matches!(self, ProbeType::ICMP)
    }
}

/// Network endpoint with probe configuration and metadata.
#[derive(Debug, Clone)]
pub struct Endpoint {
    pub id: String,
    pub host: String,
    pub port: u16,
    pub probe_type: ProbeType,
    pub metadata: HashMap<String, String>,
}

/// The address a probe connects to: `host:port`, or the bare host for ICMP.
pub open spec fn address_of(host: Seq<char>, port: u16, probe_type: ProbeType) -> Seq<char> {
    if probe_type == ProbeType::ICMP {
        host
    } else {
        host + seq![':'] + decimal(port as nat)
    }
}

/// An endpoint is usable when it has an id and a host, and a port unless it is
/// probed by ICMP.
pub open spec fn endpoint_valid(e: Endpoint) -> bool {
    e.id@.len() > 0 && e.host@.len() > 0 && (e.probe_type == ProbeType::ICMP || e.port > 0)
}

impl Endpoint {
    pub fn new(id: String, host: String, port: u16, probe_type: ProbeType) -> (r: Self)
        ensures
            r.id == id,
            r.host == host,
            r.port == port,
            r.probe_type == probe_type,
            r.metadata@ == Map::<String, String>::empty(),
    {
        Endpoint { id, host, port, probe_type, metadata: HashMap::new() }
    }

    pub fn with_metadata(
        id: String,
        host: String,
        port: u16,
        probe_type: ProbeType,
        metadata: HashMap<String, String>,
    ) -> (r: Self)
        ensures
            r.id == id,
            r.host == host,
            r.port == port,
            r.probe_type == probe_type,
            r.metadata == metadata,
    {
        Endpoint { id, host, port, probe_type, metadata }
    }

    pub fn address(&self) -> (r: String)
        ensures
            r@ == address_of(self.host@, self.port, self.probe_type),
    {
        if self.probe_type == ProbeType::ICMP {
            self.host.clone()
        } else {
            let mut s = self.host.clone();
            s.append(":");
            proof {
                reveal_strlit(":");
            }
            push_decimal(&mut s, self.port as u128);
            s
        }
    }

    pub fn get_metadata(&self, key: &str) -> (r: Option<&String>)
        ensures
            obeys_key_model::<String>() ==> match r {
                Some(v) => maps_borrowed_key_to_value(self.metadata@, key, *v),
                None => !contains_borrowed_key(self.metadata@, key),
            },
    {
        self.metadata.get(key)
    }

    pub fn set_metadata(&mut self, key: String, value: String)
        ensures
            obeys_key_model::<String>() ==> final(self).metadata@ == old(self).metadata@.insert(
                key,
                value,
            ),
            final(self).id == old(self).id,
            final(self).host == old(self).host,
            final(self).port == old(self).port,
            final(self).probe_type == old(self).probe_type,
    {
        let _ = self.metadata.insert(key, value);
    }

    pub fn is_valid(&self) -> (r: bool)
        ensures
            r == endpoint_valid(*self),
    {
        !self.id.as_str().is_empty() && !self.host.as_str().is_empty() && (self.probe_type == ProbeType::ICMP
            || self.port > 0)
    }
}

} // verus!
