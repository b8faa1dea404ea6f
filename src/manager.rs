//! Rules of the management datagram channel: which kind of endpoint an
//! address asks for, how it is bound or connected, and which targets a
//! socket of each kind may send to.
use vstd::prelude::*;
use crate::address::{SockAddr, SockAddrView, copy_bytes};

verus! {

/// Where the manager listens: an IP socket address, a host name and port, or
/// a filesystem path (its bytes, which need not be UTF-8).
pub enum ManagerAddr {
    SocketAddr(SockAddr),
    DomainName(String, u16),
    UnixSocketAddr(Vec<u8>),
}

pub ghost enum ManagerAddrView {
    Socket(SockAddrView),
    Domain(Seq<char>, u16),
    Path(Seq<u8>),
}

impl View for ManagerAddr {
    type V = ManagerAddrView;

    open spec fn view(&self) -> ManagerAddrView {
        match self {
            ManagerAddr::SocketAddr(s) => ManagerAddrView::Socket(s@),
            ManagerAddr::DomainName(n, p) => ManagerAddrView::Domain(n@, *p),
            ManagerAddr::UnixSocketAddr(p) => ManagerAddrView::Path(p@),
        }
    }
}

/// The address of a datagram peer or of a local endpoint: an IP socket
/// address, or a filesystem endpoint, which is unnamed (`None`) when it is
/// bound to no path; a path is held as its bytes.
pub enum ManagerSocketAddr {
    SocketAddr(SockAddr),
    UnixSocketAddr(Option<Vec<u8>>),
}

pub ghost enum ManagerSocketAddrView {
    Socket(SockAddrView),
    Unix(Option<Seq<u8>>),
}

impl View for ManagerSocketAddr {
    type V = ManagerSocketAddrView;

    open spec fn view(&self) -> ManagerSocketAddrView {
        match self {
            ManagerSocketAddr::SocketAddr(s) => ManagerSocketAddrView::Socket(s@),
            ManagerSocketAddr::UnixSocketAddr(None) => ManagerSocketAddrView::Unix(None),
            ManagerSocketAddr::UnixSocketAddr(Some(p)) => ManagerSocketAddrView::Unix(Some(p@)),
        }
    }
}

impl ManagerSocketAddr {
    /// Whether this is a filesystem endpoint bound to no path; an IP address
    /// is never unnamed.
    pub fn is_unnamed(&self) -> (r: bool)
        ensures
            r == (self@ == ManagerSocketAddrView::Unix(None)),
    {
        match self {
            ManagerSocketAddr::SocketAddr(_) => false,
            ManagerSocketAddr::UnixSocketAddr(p) => p.is_none(),
        }
    }
}

/// The kind of endpoint under a management datagram socket.
#[derive(Clone, Copy, Debug, PartialEq, Eq)]
pub enum DatagramKind {
    Udp,
    Unix,
}

/// Why a send was refused before anything was transmitted. Each of these is
/// an invalid-input error.
#[derive(Clone, Copy, Debug, PartialEq, Eq)]
pub enum TargetError {
    /// A UDP socket was given a filesystem target.
    UdpRequiresIpTarget,
    /// A filesystem socket was given an IP or host-name target.
    UnixRequiresPathTarget,
    /// A filesystem socket was given an unnamed filesystem target.
    UnnamedTarget,
}

/// Where a datagram goes once the target has been checked.
pub enum SendTarget {
    Ip(SockAddr),
    Path(Vec<u8>),
}

pub ghost enum SendTargetView {
    Ip(SockAddrView),
    Path(Seq<u8>),
}

impl View for SendTarget {
    type V = SendTargetView;

    open spec fn view(&self) -> SendTargetView {
        match self {
            SendTarget::Ip(s) => SendTargetView::Ip(s@),
            SendTarget::Path(p) => SendTargetView::Path(p@),
        }
    }
}

/// What sending from a socket of `kind` to `target` does.
pub open spec fn send_to_spec(kind: DatagramKind, target: ManagerSocketAddrView) -> Result<
    SendTargetView,
    TargetError,
> {
    match (kind, target) {
        (DatagramKind::Udp, ManagerSocketAddrView::Socket(s)) => Ok(SendTargetView::Ip(s)),
        (DatagramKind::Udp, ManagerSocketAddrView::Unix(_)) => Err(TargetError::UdpRequiresIpTarget),
        (DatagramKind::Unix, ManagerSocketAddrView::Unix(Some(p))) => Ok(SendTargetView::Path(p)),
        (DatagramKind::Unix, ManagerSocketAddrView::Unix(None)) => Err(TargetError::UnnamedTarget),
        (DatagramKind::Unix, ManagerSocketAddrView::Socket(_)) => Err(
            TargetError::UnixRequiresPathTarget,
        ),
    }
}

fn clone_string(s: &String) -> (r: String)
    ensures
        r@ == s@,
{
    s.clone()
}

/// Checks a target of `send_to` against the kind of the sending socket: a
/// send goes only to a target of the socket's own kind, and a filesystem
/// target must be named.
pub fn send_to_target(kind: DatagramKind, target: &ManagerSocketAddr) -> (r: Result<
    SendTarget,
    TargetError,
>)
    ensures
        match (r, send_to_spec(kind, target@)) {
            (Ok(t), Ok(tv)) => t@ == tv,
            (Err(e), Err(f)) => e == f,
            _ => false,
        },
{
    match (kind, target) {
        (DatagramKind::Udp, ManagerSocketAddr::SocketAddr(s)) => Ok(SendTarget::Ip(s.clone_addr())),
        (DatagramKind::Udp, ManagerSocketAddr::UnixSocketAddr(_)) => Err(
            TargetError::UdpRequiresIpTarget,
        ),
        (DatagramKind::Unix, ManagerSocketAddr::UnixSocketAddr(Some(p))) => Ok(
            SendTarget::Path(copy_bytes(p)),
        ),
        (DatagramKind::Unix, ManagerSocketAddr::UnixSocketAddr(None)) => Err(
            TargetError::UnnamedTarget,
        ),
        (DatagramKind::Unix, ManagerSocketAddr::SocketAddr(_)) => Err(
            TargetError::UnixRequiresPathTarget,
        ),
    }
}

/// Where a datagram to the manager goes: straight to an address or a path,
/// or to the addresses a name resolves to, tried in order.
pub enum ManagerSend {
    Direct(SendTarget),
    Lookup(String, u16),
}

/// What sending from a socket of `kind` to the manager at `target` does.
pub open spec fn send_to_manager_spec(kind: DatagramKind, target: ManagerAddrView) -> Result<
    ManagerSendView,
    TargetError,
> {
    match (kind, target) {
        (DatagramKind::Udp, ManagerAddrView::Socket(s)) => Ok(
            ManagerSendView::Direct(SendTargetView::Ip(s)),
        ),
        (DatagramKind::Udp, ManagerAddrView::Domain(n, p)) => Ok(ManagerSendView::Lookup(n, p)),
        (DatagramKind::Udp, ManagerAddrView::Path(_)) => Err(TargetError::UdpRequiresIpTarget),
        (DatagramKind::Unix, ManagerAddrView::Path(p)) => Ok(
            ManagerSendView::Direct(SendTargetView::Path(p)),
        ),
        (DatagramKind::Unix, _) => Err(TargetError::UnixRequiresPathTarget),
    }
}

pub ghost enum ManagerSendView {
    Direct(SendTargetView),
    Lookup(Seq<char>, u16),
}

impl View for ManagerSend {
    type V = ManagerSendView;

    open spec fn view(&self) -> ManagerSendView {
        match self {
            ManagerSend::Direct(t) => ManagerSendView::Direct(t@),
            ManagerSend::Lookup(n, p) => ManagerSendView::Lookup(n@, *p),
        }
    }
}

/// Checks a manager address as the target of a send from a socket of
/// `kind`; a host name is allowed from a UDP socket and is resolved first.
pub fn send_to_manager_target(kind: DatagramKind, target: &ManagerAddr) -> (r: Result<
    ManagerSend,
    TargetError,
>)
    ensures
        match (r, send_to_manager_spec(kind, target@)) {
            (Ok(t), Ok(tv)) => t@ == tv,
            (Err(e), Err(f)) => e == f,
            _ => false,
        },
{
    match (kind, target) {
        (DatagramKind::Udp, ManagerAddr::SocketAddr(s)) => Ok(
            ManagerSend::Direct(SendTarget::Ip(s.clone_addr())),
        ),
        (DatagramKind::Udp, ManagerAddr::DomainName(n, p)) => Ok(
            ManagerSend::Lookup(clone_string(n), *p),
        ),
        (DatagramKind::Udp, ManagerAddr::UnixSocketAddr(_)) => Err(
            TargetError::UdpRequiresIpTarget,
        ),
        (DatagramKind::Unix, ManagerAddr::UnixSocketAddr(p)) => Ok(
            ManagerSend::Direct(SendTarget::Path(copy_bytes(p))),
        ),
        (DatagramKind::Unix, _) => Err(TargetError::UnixRequiresPathTarget),
    }
}

/// How a management endpoint is bound.
pub enum BindPlan {
    /// Bind a UDP socket at the address.
    Udp(SockAddr),
    /// Resolve the name and bind a UDP socket at the first address where
    /// binding succeeds.
    LookupUdp(String, u16),
    /// Remove whatever is at the path, then bind a filesystem socket there.
    RemoveThenBindUnix(Vec<u8>),
}

pub ghost enum BindPlanView {
    Udp(SockAddrView),
    LookupUdp(Seq<char>, u16),
    RemoveThenBindUnix(Seq<u8>),
}

impl View for BindPlan {
    type V = BindPlanView;

    open spec fn view(&self) -> BindPlanView {
        match self {
            BindPlan::Udp(s) => BindPlanView::Udp(s@),
            BindPlan::LookupUdp(n, p) => BindPlanView::LookupUdp(n@, *p),
            BindPlan::RemoveThenBindUnix(p) => BindPlanView::RemoveThenBindUnix(p@),
        }
    }
}

/// How binding at `addr` proceeds. A filesystem path is always cleared
/// first, so binding where a file already exists replaces it.
pub fn bind_plan(addr: &ManagerAddr) -> (r: BindPlan)
    ensures
        match addr@ {
            ManagerAddrView::Socket(s) => r@ == BindPlanView::Udp(s),
            ManagerAddrView::Domain(n, p) => r@ == BindPlanView::LookupUdp(n, p),
            ManagerAddrView::Path(p) => r@ == BindPlanView::RemoveThenBindUnix(p),
        },
{
    match addr {
        ManagerAddr::SocketAddr(s) => BindPlan::Udp(s.clone_addr()),
        ManagerAddr::DomainName(n, p) => BindPlan::LookupUdp(clone_string(n), *p),
        ManagerAddr::UnixSocketAddr(p) => BindPlan::RemoveThenBindUnix(copy_bytes(p)),
    }
}

/// How an endpoint that sends to the manager is made.
pub enum ConnectPlan {
    /// Bind a UDP socket at `local`, then connect it to `remote`.
    Udp { local: SockAddr, remote: SockAddr },
    /// Resolve the name and do as `Udp` for each address until one succeeds.
    LookupUdp(String, u16),
    /// An unbound filesystem socket: the manager never replies.
    UnboundUnix,
}

/// The unspecified address of the family of `a`, port 0: 0.0.0.0:0 or
/// [::]:0.
pub open spec fn unspecified_of(a: SockAddrView) -> SockAddrView {
    if a.is_v4() {
        SockAddrView::V4(seq![0u8; 4], 0)
    } else {
        SockAddrView::V6(Seq::new(16, |i: int| 0u8), 0)
    }
}

/// The UDP endpoint that talks to `remote`: bound at the unspecified address
/// of the same family, port 0, so that the system picks a port, and
/// connected to `remote`.
pub fn connect_socket_addr_plan(remote: &SockAddr) -> (r: ConnectPlan)
    ensures
        r matches ConnectPlan::Udp { local, remote: rm } && rm@ == remote@ && local@
            == unspecified_of(remote@),
{
    ConnectPlan::Udp { local: remote.unspecified_like(), remote: remote.clone_addr() }
}

/// How connecting to the manager at `addr` proceeds.
pub fn connect_plan(addr: &ManagerAddr) -> (r: ConnectPlan)
    ensures
        match addr@ {
            ManagerAddrView::Socket(s) => r matches ConnectPlan::Udp { local, remote }
                && remote@ == s && local@ == unspecified_of(s),
            ManagerAddrView::Domain(n, p) => r matches ConnectPlan::LookupUdp(m, q) && m@ == n && q
                == p,
            ManagerAddrView::Path(_) => r is UnboundUnix,
        },
{
    match addr {
        ManagerAddr::SocketAddr(s) => connect_socket_addr_plan(s),
        ManagerAddr::DomainName(n, p) => ConnectPlan::LookupUdp(clone_string(n), *p),
        ManagerAddr::UnixSocketAddr(_) => ConnectPlan::UnboundUnix,
    }
}

/// Sending from a UDP socket to a filesystem target, named or not, is
/// refused as invalid input and so transmits nothing; likewise from a
/// filesystem socket to an IP target.
pub proof fn lemma_cross_kind_send_refused(s: SockAddrView, p: Option<Seq<u8>>)
    ensures
        send_to_spec(DatagramKind::Udp, ManagerSocketAddrView::Unix(p)) == Err::<
            SendTargetView,
            TargetError,
        >(TargetError::UdpRequiresIpTarget),
        send_to_spec(DatagramKind::Unix, ManagerSocketAddrView::Socket(s)) == Err::<
            SendTargetView,
            TargetError,
        >(TargetError::UnixRequiresPathTarget),
{
}

} // verus!
