//! Choosing the server to connect to: the candidates, and the one that answered fastest.

use vstd::prelude::*;

verus! {

/// Where the candidate servers come from.
pub enum ServerCandidates {
    /// Resolve this host name, and take all its addresses.
    Resolve(String),
    /// These addresses.
    Fixed(Vec<String>),
}

/// The candidate servers: asked of the DNS when `request_msf` (for the IPv6 host when `ipv6`),
/// else the addresses of the known IPv6 server (by name), or the three known IPv4 servers.
pub fn server_candidates(request_msf: bool, ipv6: bool) -> (r: ServerCandidates)
    ensures
        request_msf && ipv6 ==> (r matches ServerCandidates::Resolve(h) && h@ == "msfwifiv6.3g.qq.com:8080"@),
        request_msf && !ipv6 ==> (r matches ServerCandidates::Resolve(h) && h@ == "msfwifi.3g.qq.com:8080"@),
        !request_msf && ipv6 ==> (r matches ServerCandidates::Resolve(h) && h@
            == "msfwifiv6.3g.qq.com:14000"@),
        !request_msf && !ipv6 ==> (r matches ServerCandidates::Fixed(v) && v@.len() == 3 && v@[0]@
            == "183.47.102.193:8080"@ && v@[1]@ == "14.22.9.84:8080"@ && v@[2]@ == "119.147.190.138:8080"@),
{
    if request_msf {
        if ipv6 {
            ServerCandidates::Resolve("msfwifiv6.3g.qq.com:8080".to_string())
        } else {
            ServerCandidates::Resolve("msfwifi.3g.qq.com:8080".to_string())
        }
    } else if ipv6 {
        ServerCandidates::Resolve("msfwifiv6.3g.qq.com:14000".to_string())
    } else {
        let mut v: Vec<String> = Vec::new();
        v.push("183.47.102.193:8080".to_string());
        v.push("14.22.9.84:8080".to_string());
        v.push("119.147.190.138:8080".to_string());
        ServerCandidates::Fixed(v)
    }
}

/// The position of the fastest server among measured round trips: the first of those with the
/// least round trip, as a stable sort by round trip puts first. At least one server must
/// have been measured.
pub fn fastest_server(rtts: &Vec<u64>) -> (r: usize)
    requires
        rtts@.len() > 0,
    ensures
        r < rtts@.len(),
        forall|i: int| 0 <= i < rtts@.len() ==> rtts@[r as int] <= rtts@[i],
        forall|i: int| 0 <= i < r ==> rtts@[r as int] < rtts@[i],
{
    let mut best: usize = 0;
    let mut i: usize = 1;
    while i < rtts.len()
        invariant
            1 <= i <= rtts@.len(),
            best < i,
            forall|j: int| 0 <= j < i ==> rtts@[best as int] <= rtts@[j],
            forall|j: int| 0 <= j < best ==> rtts@[best as int] < rtts@[j],
        decreases rtts.len() - i,
    {
        if rtts[i] < rtts[best] {
            best = i;
        }
        i = i + 1;
    }
    best
}

} // verus!
