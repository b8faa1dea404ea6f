//! Choices made when a name resolver is built and used, and the text of a
//! resolution error.
use vstd::prelude::*;

verus! {

/// The order in which address families are returned.
#[derive(Clone, Copy, Debug, PartialEq, Eq, Structural)]
pub enum IpStrategy {
    /// Whatever the resolver does by default.
    ResolverDefault,
    /// IPv6 results before IPv4 results.
    Ipv6ThenIpv4,
}

/// The address-family strategy: the one knob the library sets.
pub fn ip_strategy(ipv6_first: bool) -> (r: IpStrategy)
    ensures
        r == (if ipv6_first { IpStrategy::Ipv6ThenIpv4 } else { IpStrategy::ResolverDefault }),
{
    if ipv6_first {
        IpStrategy::Ipv6ThenIpv4
    } else {
        IpStrategy::ResolverDefault
    }
}

/// Where a resolver's configuration comes from.
#[derive(Clone, Copy, Debug, PartialEq, Eq, Structural)]
pub enum ResolverSource {
    /// The configuration the caller supplied, used as given.
    Explicit,
    /// The platform's stub-resolver configuration.
    System,
    /// A well-known public recursive resolver.
    PublicDefault,
}

/// Picks the configuration: the caller's if given, else the system's on a
/// platform that has one, else a public resolver.
pub fn resolver_source(has_explicit: bool, platform_has_system_conf: bool) -> (r: ResolverSource)
    ensures
        r == (if has_explicit {
            ResolverSource::Explicit
        } else if platform_has_system_conf {
            ResolverSource::System
        } else {
            ResolverSource::PublicDefault
        }),
{
    if has_explicit {
        ResolverSource::Explicit
    } else if platform_has_system_conf {
        ResolverSource::System
    } else {
        ResolverSource::PublicDefault
    }
}

/// The decimal digits of `n`, as ASCII, with no leading zero.
pub open spec fn decimal(n: nat) -> Seq<u8>
    decreases n,
{
    if n < 10 {
        seq![(48 + n) as u8]
    } else {
        decimal(n / 10).push((48 + n % 10) as u8)
    }
}

fn push_decimal(out: &mut Vec<u8>, n: u16)
    ensures
        final(out)@ == old(out)@ + decimal(n as nat),
    decreases n,
{
    if n >= 10 {
        push_decimal(out, n / 10);
    }
    out.push(48 + (n % 10) as u8);
    proof {
        assert(final(out)@ =~= old(out)@ + decimal(n as nat));
    }
}

fn push_str(out: &mut Vec<u8>, s: &[u8])
    ensures
        final(out)@ == old(out)@ + s@,
{
    let mut i: usize = 0;
    while i < s.len()
        invariant
            i <= s@.len(),
            out@ == old(out)@ + s@.subrange(0, i as int),
        decreases s@.len() - i,
    {
        out.push(s[i]);
        i = i + 1;
        proof {
            assert(out@ =~= old(out)@ + s@.subrange(0, i as int));
        }
    }
    proof {
        assert(s@.subrange(0, i as int) =~= s@);
    }
}

/// The text `dns resolve <host>:<port> error: <cause>`, as bytes.
pub open spec fn resolve_error_text(host: Seq<u8>, port: u16, cause: Seq<u8>) -> Seq<u8> {
    seq![100u8, 110, 115, 32, 114, 101, 115, 111, 108, 118, 101, 32] + host + seq![58u8] + decimal(
        port as nat,
    ) + seq![32u8, 101, 114, 114, 111, 114, 58, 32] + cause
}

/// The message of a failed resolution, naming the query so that a log line
/// identifies it: `dns resolve <host>:<port> error: <cause>`.
pub fn resolve_error_message(host: &[u8], port: u16, cause: &[u8]) -> (r: Vec<u8>)
    ensures
        r@ == resolve_error_text(host@, port, cause@),
{
    let mut out: Vec<u8> = Vec::new();
    let head: [u8; 12] = [100, 110, 115, 32, 114, 101, 115, 111, 108, 118, 101, 32];
    push_str(&mut out, head.as_slice());
    push_str(&mut out, host);
    out.push(58);
    push_decimal(&mut out, port);
    let mid: [u8; 8] = [32, 101, 114, 114, 111, 114, 58, 32];
    push_str(&mut out, mid.as_slice());
    push_str(&mut out, cause);
    proof {
        assert(head@ =~= seq![100u8, 110, 115, 32, 114, 101, 115, 111, 108, 118, 101, 32]);
        assert(mid@ =~= seq![32u8, 101, 114, 114, 111, 114, 58, 32]);
        assert(out@ =~= resolve_error_text(host@, port, cause@));
    }
    out
}

} // verus!
