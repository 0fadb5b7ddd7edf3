//! Endpoints that a monitoring session watches by default.
use vstd::prelude::*;
use crate::models::endpoint::{Endpoint, ProbeType};

verus! {

/// Public DNS resolvers over TCP and two well-known sites over HTTPS.
pub fn create_common_endpoints() -> (r: Vec<Endpoint>)
    ensures
        r@.len() == 4,
        r@[0].id@ == "google-dns"@ && r@[0].host@ == "8.8.8.8"@ && r@[0].port == 53
            && r@[0].probe_type == ProbeType::TCP,
        r@[1].id@ == "cloudflare-dns"@ && r@[1].host@ == "1.1.1.1"@ && r@[1].port == 53
            && r@[1].probe_type == ProbeType::TCP,
        r@[2].id@ == "google-http"@ && r@[2].host@ == "www.google.com"@ && r@[2].port == 443
            && r@[2].probe_type == ProbeType::HTTP,
        r@[3].id@ == "cloudflare-http"@ && r@[3].host@ == "www.cloudflare.com"@ && r@[3].port
            == 443 && r@[3].probe_type == ProbeType::HTTP,
{
    let mut v: Vec<Endpoint> = Vec::new();
    v.push(Endpoint::new("google-dns".to_owned(), "8.8.8.8".to_owned(), 53, ProbeType::TCP));
    v.push(Endpoint::new("cloudflare-dns".to_owned(), "1.1.1.1".to_owned(), 53, ProbeType::TCP));
    v.push(
        Endpoint::new("google-http".to_owned(), "www.google.com".to_owned(), 443, ProbeType::HTTP),
    );
    v.push(
        Endpoint::new(
            "cloudflare-http".to_owned(),
            "www.cloudflare.com".to_owned(),
            443,
            ProbeType::HTTP,
        ),
    );
    v
}

} // verus!
