//! The operation protocol: what the manager asks of the kernel, and in what
//! order, for each virtual-network operation.
//!
//! Every operation that references a link by name resolves that name against
//! live kernel state first and only then acts on the returned kernel index;
//! no index survives an operation, so deleted links are observed as absent
//! rather than acted on through stale state. Composite operations (create a
//! device, then bring it up) run their parts in order and stop at the first
//! failure, without rolling back parts that already took effect.
//!
//! An [`OpMachine`] carries one operation. [`OpMachine::start`] yields the
//! first kernel [`Action`]; the executor performs it and answers with the
//! [`Event`] it observed, and [`OpMachine::step`] yields the next action or
//! the operation's result. The executor owns the single kernel control
//! channel and drives one machine at a time to completion, which totally
//! orders all kernel-control operations.

use vstd::prelude::*;

use crate::addr::first_match;
use crate::addr::flatten_addresses;
use crate::addr::flatten_spec;
use crate::addr::find_address;
use crate::addr::lemma_first_match_is_least;
use crate::addr::IpAddress;

verus! {

/// How an operation fails.
#[derive(Debug, PartialEq)]
pub enum OpError {
    /// A link, master or address named by the operation is absent at
    /// resolution time. A normal outcome, not a crash.
    NotFound,
    /// The kernel channel call itself failed, or the DHCP client could not
    /// be run; carries the transport's own description.
    Transport(String),
    /// Point-to-point tunnel endpoints of differing address families,
    /// rejected before any kernel action is attempted.
    MixedAddressFamilies,
    /// An event that does not answer the pending action. Cannot occur when
    /// the executor follows the protocol.
    Protocol,
}

/// What a finished operation hands back.
#[derive(Debug, PartialEq)]
pub enum Reply {
    /// The mutation took effect.
    Ack,
    /// Whether the probed link exists.
    Presence(bool),
    /// The addresses bound to the link.
    Addresses(Vec<IpAddress>),
    /// The names of all links in the namespace.
    LinkNames(Vec<String>),
}

/// The operations the manager serves.
#[derive(Debug, PartialEq)]
pub enum Request {
    /// Set the named link administratively up.
    SetIfaceUp { iface: String },
    /// Set the named link administratively down.
    SetIfaceDown { iface: String },
    /// Probe whether the named link exists; absence is a `false` answer,
    /// never an error.
    CheckIfaceExists { iface: String },
    /// Move the named link to the namespace of process id 1.
    MoveIfaceToDefaultNs { iface: String },
    /// Replace the link-layer address of the named link.
    SetIfaceMac { iface: String, mac: Vec<u8> },
    /// Rename the named link.
    SetIfaceName { iface: String, new_name: String },
    /// Remove the address whose raw bytes match exactly from the named link.
    DelIfaceAddress { iface: String, addr: IpAddress },
    /// List the addresses bound to the named link.
    GetIfaceAddresses { iface: String },
    /// Bind the given address to the named link and report the link's
    /// addresses afterwards; with no address given, run the DHCP client on
    /// the link, wait for it, and report the addresses it obtained.
    AddIfaceAddress { iface: String, addr: Option<(IpAddress, u8)> },
    /// Enslave the named link under the named master.
    SetIfaceMaster { iface: String, master: String },
    /// Remove the named link's enslavement.
    DelIfaceMaster { iface: String },
    /// Delete the named link.
    DelIface { iface: String },
    /// Create a point-to-point VXLAN device on the named parent. The local
    /// and remote endpoints must be of one address family.
    AddPtpVxlan {
        iface: String,
        dev: String,
        vni: u32,
        local: IpAddress,
        remote: IpAddress,
        port: u16,
    },
    /// Create a multicast VXLAN device on the named parent and bring it up.
    AddMcastVxlan { iface: String, dev: String, vni: u32, group: IpAddress, port: u16 },
    /// Create a VLAN sub-interface on the named parent and bring it up.
    AddVlan { iface: String, dev: String, tag: u16 },
    /// Create a veth pair and bring both ends up.
    AddVeth { iface_i: String, iface_e: String },
    /// Create a bridge and bring it up.
    AddBridge { name: String },
    /// List the names of all links in the namespace.
    ListIfaces,
}

/// One kernel-control command for the executor to perform. Commands that
/// act on an existing link are keyed by the kernel index this operation just
/// resolved, never by a cached one.
#[derive(Debug, PartialEq)]
pub enum Action {
    /// Resolve a link name to its kernel index.
    GetLink { name: String },
    /// Create a bridge, left down.
    AddBridge { name: String },
    /// Create a linked veth pair, left down.
    AddVeth { iface_i: String, iface_e: String },
    /// Create a VLAN sub-interface on the parent index.
    AddVlan { name: String, parent: u32, tag: u16 },
    /// Create a multicast-overlay VXLAN device bound to the parent index.
    AddVxlanMcast { name: String, parent: u32, vni: u32, group: IpAddress, port: u16 },
    /// Create a point-to-point VXLAN device bound to the parent index.
    AddVxlanPtp {
        name: String,
        parent: u32,
        vni: u32,
        local: IpAddress,
        remote: IpAddress,
        port: u16,
    },
    /// Delete the link.
    DelLink { link: u32 },
    /// Enslave `link` under `master`.
    SetMaster { link: u32, master: u32 },
    /// Remove the link's enslavement.
    NoMaster { link: u32 },
    /// Bind an address to the link.
    AddAddress { link: u32, addr: IpAddress, prefix: u8 },
    /// Dump the raw address entries bound to the link.
    GetAddresses { link: u32 },
    /// Delete the address entry at `entry` of the dump just obtained for
    /// this link.
    DelAddressAt { link: u32, entry: usize },
    /// Rename the link.
    SetName { link: u32, name: String },
    /// Replace the link-layer address.
    SetMac { link: u32, mac: Vec<u8> },
    /// Move the link to the namespace of process id 1.
    MoveToDefaultNs { link: u32 },
    /// Set the link administratively up.
    SetUp { link: u32 },
    /// Set the link administratively down.
    SetDown { link: u32 },
    /// Dump all links with their name attributes.
    ListLinks,
    /// Run the DHCP client bound to the interface and wait for it to exit.
    RunDhcp { iface: String },
}

/// What the executor observed when performing the action.
#[derive(Debug, PartialEq)]
pub enum Event {
    /// The resolved kernel index of the requested name.
    LinkFound { index: u32 },
    /// No link of the requested name exists.
    LinkMissing,
    /// The mutation took effect.
    Confirmed,
    /// The kernel channel call failed, with the transport's description.
    Failed { message: String },
    /// The raw bytes of each address entry bound to the link, in kernel
    /// order.
    AddressDump { entries: Vec<Vec<u8>> },
    /// For each link, its name attributes in kernel order.
    LinkDump { names: Vec<Vec<String>> },
    /// The DHCP client ran and exited.
    DhcpExited,
}

/// What the machine wants next: another action, or the operation's result.
#[derive(Debug, PartialEq)]
pub enum Outcome {
    Emit(Action),
    Finish(Result<Reply, OpError>),
}

/// What remains of a composite operation once the part under way completes:
/// links still to bring up, in order, then optionally a final address
/// listing.
#[derive(Debug, PartialEq)]
pub struct FollowUp {
    pub ups: Vec<String>,
    pub fetch: Option<String>,
}

/// The command to issue once the primary name is resolved.
#[derive(Debug, PartialEq)]
pub enum PendingCmd {
    /// Delete the resolved link.
    Del,
    /// Remove the resolved link's enslavement.
    NoMaster,
    /// Bring the resolved link up.
    Up,
    /// Take the resolved link down.
    Down,
    /// Move the resolved link to the default namespace.
    MoveToDefaultNs,
    /// Rename the resolved link.
    SetName { name: String },
    /// Replace the resolved link's link-layer address.
    SetMac { mac: Vec<u8> },
    /// Bind an address to the resolved link.
    AddAddress { addr: IpAddress, prefix: u8 },
    /// Create a VLAN device on the resolved parent.
    AddVlan { name: String, tag: u16 },
    /// Create a multicast VXLAN device on the resolved parent.
    AddVxlanMcast { name: String, vni: u32, group: IpAddress, port: u16 },
    /// Create a point-to-point VXLAN device on the resolved parent.
    AddVxlanPtp { name: String, vni: u32, local: IpAddress, remote: IpAddress, port: u16 },
    /// Resolve the master next, then enslave.
    ResolveMasterOf { master: String },
    /// Dump the resolved link's addresses and reply with them.
    FetchAddresses,
    /// Dump the resolved link's addresses and delete the exact match.
    FindDelete { target: IpAddress },
    /// The resolution itself is the answer: the link's presence.
    Probe,
}

/// Where an operation stands.
#[derive(Debug, PartialEq)]
pub enum Phase {
    /// Resolving the primary name; `cmd` says what follows.
    Resolving { cmd: PendingCmd, follow: FollowUp },
    /// Primary link resolved to `link`; resolving the master's name.
    ResolvingMaster { link: u32, follow: FollowUp },
    /// A mutation is pending confirmation.
    Acting { follow: FollowUp },
    /// Resolving the next link to bring up.
    ResolvingUp { follow: FollowUp },
    /// An address dump is pending, to be replied as the addresses.
    Fetching,
    /// An address dump is pending, to locate the entry to delete.
    FindingDelete { link: u32, target: IpAddress },
    /// The located address entry's deletion is pending confirmation.
    Deleting,
    /// The DHCP client is running.
    AwaitingDhcp { follow: FollowUp },
    /// A link dump is pending, to be replied as the link names.
    Listing,
    /// The operation is over.
    Finished,
}

/// One in-flight operation.
#[derive(Debug, PartialEq)]
pub struct OpMachine {
    pub phase: Phase,
}

/// The first name attribute of each link that has one, in kernel order:
/// a link without a name attribute is left out.
pub open spec fn first_names_spec(names: Seq<Seq<Seq<char>>>) -> Seq<Seq<char>>
    decreases names.len(),
{
    if names.len() == 0 {
        Seq::empty()
    } else {
        first_names_spec(names.drop_last()) + if names.last().len() > 0 {
            seq![names.last()[0]]
        } else {
            Seq::empty()
        }
    }
}

/// The deep view of a link dump is its element views.
pub proof fn lemma_link_dump_deep_view(v: Vec<Vec<String>>)
    ensures
        v.deep_view().len() == v@.len(),
        forall|i: int|
            0 <= i < v@.len() ==> #[trigger] v.deep_view()[i].len() == v@[i]@.len() && forall|
                j: int,
            | 0 <= j < v@[i]@.len() ==> v.deep_view()[i][j] == v@[i]@[j]@,
{
}

/// The deep view of a name list is its element views.
pub proof fn lemma_names_deep_view(v: Vec<String>)
    ensures
        v.deep_view().len() == v@.len(),
        forall|i: int| 0 <= i < v@.len() ==> v.deep_view()[i] == v@[i]@,
{
}

/// Extracts each link's first name attribute from a link dump.
pub fn first_names(names: Vec<Vec<String>>) -> (r: Vec<String>)
    ensures
        r.deep_view() == first_names_spec(names.deep_view()),
{
    proof {
        lemma_link_dump_deep_view(names);
    }
    let ghost all = names.deep_view();
    let mut r: Vec<String> = Vec::new();
    let mut i: usize = 0;
    while i < names.len()
        invariant
            i <= names@.len(),
            all == names.deep_view(),
            all.len() == names@.len(),
            forall|k: int|
                0 <= k < names@.len() ==> #[trigger] all[k].len() == names@[k]@.len() && forall|
                    j: int,
                | 0 <= j < names@[k]@.len() ==> all[k][j] == names@[k]@[j]@,
            r.deep_view() == first_names_spec(all.subrange(0, i as int)),
        decreases names.len() - i,
    {
        let ghost r_before = r.deep_view();
        if names[i].len() > 0 {
            let name = names[i][0].clone();
            r.push(name);
            proof {
                lemma_names_deep_view(r);
                assert(r.deep_view() =~= r_before.push(all[i as int][0]));
            }
        }
        proof {
            let pref = all.subrange(0, i + 1);
            assert(pref.drop_last() =~= all.subrange(0, i as int));
            assert(pref.last() == all[i as int]);
            assert(r.deep_view() =~= first_names_spec(pref));
        }
        i = i + 1;
    }
    proof {
        assert(all.subrange(0, all.len() as int) =~= all);
    }
    r
}

/// No composite part remains.
pub open spec fn follow_none(f: FollowUp) -> bool {
    f.ups@.len() == 0 && f.fetch is None
}

/// The operation is over with this result.
pub open spec fn finishes(post: OpMachine, out: Outcome, res: Result<Reply, OpError>) -> bool {
    post.phase is Finished && out == Outcome::Finish(res)
}

/// The executor broke the protocol; the operation is abandoned.
pub open spec fn protocol_fault(post: OpMachine, out: Outcome) -> bool {
    finishes(post, out, Err(OpError::Protocol))
}

/// Resolution of `name` begins, with `cmd` to follow and no composite rest.
pub open spec fn starts_resolving(
    post: OpMachine,
    out: Outcome,
    cmd: PendingCmd,
    name: String,
) -> bool {
    &&& post.phase matches Phase::Resolving { cmd: c, follow } && c == cmd && follow_none(follow)
    &&& out == Outcome::Emit(Action::GetLink { name })
}

/// What follows when the part under way has completed: bring up the next
/// link, or fetch the final address listing, or finish.
pub open spec fn proceed_rel(follow: FollowUp, post: OpMachine, out: Outcome) -> bool {
    if follow.ups@.len() > 0 {
        &&& post.phase matches Phase::ResolvingUp { follow: f2 } && f2.ups@ == follow.ups@.skip(1)
            && f2.fetch == follow.fetch
        &&& out == Outcome::Emit(Action::GetLink { name: follow.ups@[0] })
    } else {
        match follow.fetch {
            Some(name) => {
                &&& post.phase matches Phase::Resolving { cmd, follow: f2 }
                    && cmd == PendingCmd::FetchAddresses && follow_none(f2)
                &&& out == Outcome::Emit(Action::GetLink { name })
            },
            None => finishes(post, out, Ok(Reply::Ack)),
        }
    }
}

/// How an operation begins: which phase it enters and which action it
/// emits first. No kernel index exists yet, so the first action is always
/// keyed by name — except the mixed-family tunnel, which is rejected
/// before any kernel action.
pub open spec fn start_rel(req: Request, post: OpMachine, out: Outcome) -> bool {
    match req {
        Request::SetIfaceUp { iface } => starts_resolving(post, out, PendingCmd::Up, iface),
        Request::SetIfaceDown { iface } => starts_resolving(post, out, PendingCmd::Down, iface),
        Request::CheckIfaceExists { iface } => starts_resolving(
            post,
            out,
            PendingCmd::Probe,
            iface,
        ),
        Request::MoveIfaceToDefaultNs { iface } => starts_resolving(
            post,
            out,
            PendingCmd::MoveToDefaultNs,
            iface,
        ),
        Request::SetIfaceMac { iface, mac } => starts_resolving(
            post,
            out,
            PendingCmd::SetMac { mac },
            iface,
        ),
        Request::SetIfaceName { iface, new_name } => starts_resolving(
            post,
            out,
            PendingCmd::SetName { name: new_name },
            iface,
        ),
        Request::DelIfaceAddress { iface, addr } => starts_resolving(
            post,
            out,
            PendingCmd::FindDelete { target: addr },
            iface,
        ),
        Request::GetIfaceAddresses { iface } => starts_resolving(
            post,
            out,
            PendingCmd::FetchAddresses,
            iface,
        ),
        Request::AddIfaceAddress { iface, addr } => match addr {
            Some((a, prefix)) => {
                &&& post.phase matches Phase::Resolving { cmd, follow }
                    && cmd == (PendingCmd::AddAddress { addr: a, prefix }) && follow.ups@.len()
                    == 0 && follow.fetch == Some(iface)
                &&& out == Outcome::Emit(Action::GetLink { name: iface })
            },
            None => {
                &&& post.phase matches Phase::AwaitingDhcp { follow } && follow.ups@.len() == 0
                    && follow.fetch == Some(iface)
                &&& out == Outcome::Emit(Action::RunDhcp { iface })
            },
        },
        Request::SetIfaceMaster { iface, master } => starts_resolving(
            post,
            out,
            PendingCmd::ResolveMasterOf { master },
            iface,
        ),
        Request::DelIfaceMaster { iface } => starts_resolving(
            post,
            out,
            PendingCmd::NoMaster,
            iface,
        ),
        Request::DelIface { iface } => starts_resolving(post, out, PendingCmd::Del, iface),
        Request::AddPtpVxlan { iface, dev, vni, local, remote, port } => {
            if local@.is_v4() != remote@.is_v4() {
                finishes(post, out, Err(OpError::MixedAddressFamilies))
            } else {
                starts_resolving(
                    post,
                    out,
                    PendingCmd::AddVxlanPtp { name: iface, vni, local, remote, port },
                    dev,
                )
            }
        },
        Request::AddMcastVxlan { iface, dev, vni, group, port } => {
            &&& post.phase matches Phase::Resolving { cmd, follow } && cmd == (
            PendingCmd::AddVxlanMcast { name: iface, vni, group, port }) && follow.ups@ == seq![
                iface,
            ] && follow.fetch is None
            &&& out == Outcome::Emit(Action::GetLink { name: dev })
        },
        Request::AddVlan { iface, dev, tag } => {
            &&& post.phase matches Phase::Resolving { cmd, follow } && cmd == (PendingCmd::AddVlan {
                name: iface,
                tag,
            }) && follow.ups@ == seq![iface] && follow.fetch is None
            &&& out == Outcome::Emit(Action::GetLink { name: dev })
        },
        Request::AddVeth { iface_i, iface_e } => {
            &&& post.phase matches Phase::Acting { follow } && follow.ups@ == seq![
                iface_i,
                iface_e,
            ] && follow.fetch is None
            &&& out == Outcome::Emit(Action::AddVeth { iface_i, iface_e })
        },
        Request::AddBridge { name } => {
            &&& post.phase matches Phase::Acting { follow } && follow.ups@ == seq![name]
                && follow.fetch is None
            &&& out == Outcome::Emit(Action::AddBridge { name })
        },
        Request::ListIfaces => {
            &&& post.phase is Listing
            &&& out == Outcome::Emit(Action::ListLinks)
        },
    }
}

/// How an operation advances: for the phase it is in and the event that
/// answered, which phase comes next and what is emitted or replied.
pub open spec fn step_rel(pre: OpMachine, ev: Event, post: OpMachine, out: Outcome) -> bool {
    match pre.phase {
        Phase::Resolving { cmd, follow } => match ev {
            Event::LinkFound { index } => match cmd {
                PendingCmd::Probe => finishes(post, out, Ok(Reply::Presence(true))),
                PendingCmd::ResolveMasterOf { master } => {
                    &&& post.phase matches Phase::ResolvingMaster { link, follow: f2 } && link
                        == index && f2 == follow
                    &&& out == Outcome::Emit(Action::GetLink { name: master })
                },
                PendingCmd::FetchAddresses => {
                    &&& post.phase is Fetching
                    &&& out == Outcome::Emit(Action::GetAddresses { link: index })
                },
                PendingCmd::FindDelete { target } => {
                    &&& post.phase matches Phase::FindingDelete { link, target: t2 } && link
                        == index && t2 == target
                    &&& out == Outcome::Emit(Action::GetAddresses { link: index })
                },
                PendingCmd::Del => acts(post, out, follow, Action::DelLink { link: index }),
                PendingCmd::NoMaster => acts(post, out, follow, Action::NoMaster { link: index }),
                PendingCmd::Up => acts(post, out, follow, Action::SetUp { link: index }),
                PendingCmd::Down => acts(post, out, follow, Action::SetDown { link: index }),
                PendingCmd::MoveToDefaultNs => acts(
                    post,
                    out,
                    follow,
                    Action::MoveToDefaultNs { link: index },
                ),
                PendingCmd::SetName { name } => acts(
                    post,
                    out,
                    follow,
                    Action::SetName { link: index, name },
                ),
                PendingCmd::SetMac { mac } => acts(
                    post,
                    out,
                    follow,
                    Action::SetMac { link: index, mac },
                ),
                PendingCmd::AddAddress { addr, prefix } => acts(
                    post,
                    out,
                    follow,
                    Action::AddAddress { link: index, addr, prefix },
                ),
                PendingCmd::AddVlan { name, tag } => acts(
                    post,
                    out,
                    follow,
                    Action::AddVlan { name, parent: index, tag },
                ),
                PendingCmd::AddVxlanMcast { name, vni, group, port } => acts(
                    post,
                    out,
                    follow,
                    Action::AddVxlanMcast { name, parent: index, vni, group, port },
                ),
                PendingCmd::AddVxlanPtp { name, vni, local, remote, port } => acts(
                    post,
                    out,
                    follow,
                    Action::AddVxlanPtp { name, parent: index, vni, local, remote, port },
                ),
            },
            Event::LinkMissing => {
                if cmd is Probe {
                    finishes(post, out, Ok(Reply::Presence(false)))
                } else {
                    finishes(post, out, Err(OpError::NotFound))
                }
            },
            Event::Failed { message } => finishes(post, out, Err(OpError::Transport(message))),
            _ => protocol_fault(post, out),
        },
        Phase::ResolvingMaster { link, follow } => match ev {
            Event::LinkFound { index } => acts(
                post,
                out,
                follow,
                Action::SetMaster { link, master: index },
            ),
            Event::LinkMissing => finishes(post, out, Err(OpError::NotFound)),
            Event::Failed { message } => finishes(post, out, Err(OpError::Transport(message))),
            _ => protocol_fault(post, out),
        },
        Phase::Acting { follow } => match ev {
            Event::Confirmed => proceed_rel(follow, post, out),
            Event::Failed { message } => finishes(post, out, Err(OpError::Transport(message))),
            _ => protocol_fault(post, out),
        },
        Phase::ResolvingUp { follow } => match ev {
            Event::LinkFound { index } => acts(post, out, follow, Action::SetUp { link: index }),
            Event::LinkMissing => finishes(post, out, Err(OpError::NotFound)),
            Event::Failed { message } => finishes(post, out, Err(OpError::Transport(message))),
            _ => protocol_fault(post, out),
        },
        Phase::Fetching => match ev {
            Event::AddressDump { entries } => {
                &&& post.phase is Finished
                &&& out matches Outcome::Finish(res) && res matches Ok(Reply::Addresses(a))
                    && a.deep_view() == flatten_spec(entries.deep_view())
            },
            Event::Failed { message } => finishes(post, out, Err(OpError::Transport(message))),
            _ => protocol_fault(post, out),
        },
        Phase::FindingDelete { link, target } => match ev {
            Event::AddressDump { entries } => match first_match(
                entries.deep_view(),
                target@.octets(),
            ) {
                Some(i) => {
                    &&& post.phase is Deleting
                    &&& out matches Outcome::Emit(Action::DelAddressAt { link: l, entry }) && l
                        == link && entry as int == i
                },
                None => finishes(post, out, Err(OpError::NotFound)),
            },
            Event::Failed { message } => finishes(post, out, Err(OpError::Transport(message))),
            _ => protocol_fault(post, out),
        },
        Phase::Deleting => match ev {
            Event::Confirmed => finishes(post, out, Ok(Reply::Ack)),
            Event::Failed { message } => finishes(post, out, Err(OpError::Transport(message))),
            _ => protocol_fault(post, out),
        },
        Phase::AwaitingDhcp { follow } => match ev {
            Event::DhcpExited => proceed_rel(follow, post, out),
            Event::Failed { message } => finishes(post, out, Err(OpError::Transport(message))),
            _ => protocol_fault(post, out),
        },
        Phase::Listing => match ev {
            Event::LinkDump { names } => {
                &&& post.phase is Finished
                &&& out matches Outcome::Finish(res) && res matches Ok(Reply::LinkNames(l))
                    && l.deep_view() == first_names_spec(names.deep_view())
            },
            Event::Failed { message } => finishes(post, out, Err(OpError::Transport(message))),
            _ => protocol_fault(post, out),
        },
        Phase::Finished => protocol_fault(post, out),
    }
}

/// A mutation is issued; the composite rest is carried along.
pub open spec fn acts(post: OpMachine, out: Outcome, follow: FollowUp, a: Action) -> bool {
    &&& post.phase matches Phase::Acting { follow: f2 } && f2 == follow
    &&& out == Outcome::Emit(a)
}

impl OpMachine {
    /// Begins an operation: the machine to drive and the first action — or,
    /// for the mixed-family tunnel, the immediate rejection. An operation
    /// never succeeds without the kernel's answers, so an immediate finish
    /// is always that rejection.
    pub fn start(req: Request) -> (r: (OpMachine, Outcome))
        ensures
            start_rel(req, r.0, r.1),
            r.1 matches Outcome::Finish(res) ==> res == Err::<Reply, OpError>(
                OpError::MixedAddressFamilies,
            ),
    {
        match req {
            Request::SetIfaceUp { iface } => resolve_then(PendingCmd::Up, iface),
            Request::SetIfaceDown { iface } => resolve_then(PendingCmd::Down, iface),
            Request::CheckIfaceExists { iface } => resolve_then(PendingCmd::Probe, iface),
            Request::MoveIfaceToDefaultNs { iface } => resolve_then(
                PendingCmd::MoveToDefaultNs,
                iface,
            ),
            Request::SetIfaceMac { iface, mac } => resolve_then(PendingCmd::SetMac { mac }, iface),
            Request::SetIfaceName { iface, new_name } => resolve_then(
                PendingCmd::SetName { name: new_name },
                iface,
            ),
            Request::DelIfaceAddress { iface, addr } => resolve_then(
                PendingCmd::FindDelete { target: addr },
                iface,
            ),
            Request::GetIfaceAddresses { iface } => resolve_then(PendingCmd::FetchAddresses, iface),
            Request::AddIfaceAddress { iface, addr } => match addr {
                Some((a, prefix)) => {
                    let fetch_name = iface.clone();
                    let m = OpMachine {
                        phase: Phase::Resolving {
                            cmd: PendingCmd::AddAddress { addr: a, prefix },
                            follow: FollowUp { ups: Vec::new(), fetch: Some(fetch_name) },
                        },
                    };
                    (m, Outcome::Emit(Action::GetLink { name: iface }))
                },
                None => {
                    let fetch_name = iface.clone();
                    let m = OpMachine {
                        phase: Phase::AwaitingDhcp {
                            follow: FollowUp { ups: Vec::new(), fetch: Some(fetch_name) },
                        },
                    };
                    (m, Outcome::Emit(Action::RunDhcp { iface }))
                },
            },
            Request::SetIfaceMaster { iface, master } => resolve_then(
                PendingCmd::ResolveMasterOf { master },
                iface,
            ),
            Request::DelIfaceMaster { iface } => resolve_then(PendingCmd::NoMaster, iface),
            Request::DelIface { iface } => resolve_then(PendingCmd::Del, iface),
            Request::AddPtpVxlan { iface, dev, vni, local, remote, port } => {
                if !local.same_family(&remote) {
                    (
                        OpMachine { phase: Phase::Finished },
                        Outcome::Finish(Err(OpError::MixedAddressFamilies)),
                    )
                } else {
                    resolve_then(
                        PendingCmd::AddVxlanPtp { name: iface, vni, local, remote, port },
                        dev,
                    )
                }
            },
            Request::AddMcastVxlan { iface, dev, vni, group, port } => {
                let mut ups: Vec<String> = Vec::new();
                ups.push(iface.clone());
                proof {
                    assert(ups@ =~= seq![iface]);
                }
                let m = OpMachine {
                    phase: Phase::Resolving {
                        cmd: PendingCmd::AddVxlanMcast { name: iface, vni, group, port },
                        follow: FollowUp { ups, fetch: None },
                    },
                };
                (m, Outcome::Emit(Action::GetLink { name: dev }))
            },
            Request::AddVlan { iface, dev, tag } => {
                let mut ups: Vec<String> = Vec::new();
                ups.push(iface.clone());
                proof {
                    assert(ups@ =~= seq![iface]);
                }
                let m = OpMachine {
                    phase: Phase::Resolving {
                        cmd: PendingCmd::AddVlan { name: iface, tag },
                        follow: FollowUp { ups, fetch: None },
                    },
                };
                (m, Outcome::Emit(Action::GetLink { name: dev }))
            },
            Request::AddVeth { iface_i, iface_e } => {
                let mut ups: Vec<String> = Vec::new();
                ups.push(iface_i.clone());
                ups.push(iface_e.clone());
                proof {
                    assert(ups@ =~= seq![iface_i, iface_e]);
                }
                let m = OpMachine {
                    phase: Phase::Acting { follow: FollowUp { ups, fetch: None } },
                };
                (m, Outcome::Emit(Action::AddVeth { iface_i, iface_e }))
            },
            Request::AddBridge { name } => {
                let mut ups: Vec<String> = Vec::new();
                ups.push(name.clone());
                proof {
                    assert(ups@ =~= seq![name]);
                }
                let m = OpMachine {
                    phase: Phase::Acting { follow: FollowUp { ups, fetch: None } },
                };
                (m, Outcome::Emit(Action::AddBridge { name }))
            },
            Request::ListIfaces => (
                OpMachine { phase: Phase::Listing },
                Outcome::Emit(Action::ListLinks),
            ),
        }
    }

    /// Advances the operation by the event the executor observed.
    pub fn step(self, ev: Event) -> (r: (OpMachine, Outcome))
        ensures
            step_rel(self, ev, r.0, r.1),
    {
        match self.phase {
            Phase::Resolving { cmd, follow } => match ev {
                Event::LinkFound { index } => match cmd {
                    PendingCmd::Probe => finish(Ok(Reply::Presence(true))),
                    PendingCmd::ResolveMasterOf { master } => (
                        OpMachine { phase: Phase::ResolvingMaster { link: index, follow } },
                        Outcome::Emit(Action::GetLink { name: master }),
                    ),
                    PendingCmd::FetchAddresses => (
                        OpMachine { phase: Phase::Fetching },
                        Outcome::Emit(Action::GetAddresses { link: index }),
                    ),
                    PendingCmd::FindDelete { target } => (
                        OpMachine { phase: Phase::FindingDelete { link: index, target } },
                        Outcome::Emit(Action::GetAddresses { link: index }),
                    ),
                    PendingCmd::Del => act(follow, Action::DelLink { link: index }),
                    PendingCmd::NoMaster => act(follow, Action::NoMaster { link: index }),
                    PendingCmd::Up => act(follow, Action::SetUp { link: index }),
                    PendingCmd::Down => act(follow, Action::SetDown { link: index }),
                    PendingCmd::MoveToDefaultNs => act(
                        follow,
                        Action::MoveToDefaultNs { link: index },
                    ),
                    PendingCmd::SetName { name } => act(
                        follow,
                        Action::SetName { link: index, name },
                    ),
                    PendingCmd::SetMac { mac } => act(follow, Action::SetMac { link: index, mac }),
                    PendingCmd::AddAddress { addr, prefix } => act(
                        follow,
                        Action::AddAddress { link: index, addr, prefix },
                    ),
                    PendingCmd::AddVlan { name, tag } => act(
                        follow,
                        Action::AddVlan { name, parent: index, tag },
                    ),
                    PendingCmd::AddVxlanMcast { name, vni, group, port } => act(
                        follow,
                        Action::AddVxlanMcast { name, parent: index, vni, group, port },
                    ),
                    PendingCmd::AddVxlanPtp { name, vni, local, remote, port } => act(
                        follow,
                        Action::AddVxlanPtp { name, parent: index, vni, local, remote, port },
                    ),
                },
                Event::LinkMissing => match cmd {
                    PendingCmd::Probe => finish(Ok(Reply::Presence(false))),
                    _ => finish(Err(OpError::NotFound)),
                },
                Event::Failed { message } => finish(Err(OpError::Transport(message))),
                _ => finish(Err(OpError::Protocol)),
            },
            Phase::ResolvingMaster { link, follow } => match ev {
                Event::LinkFound { index } => act(follow, Action::SetMaster { link, master: index }),
                Event::LinkMissing => finish(Err(OpError::NotFound)),
                Event::Failed { message } => finish(Err(OpError::Transport(message))),
                _ => finish(Err(OpError::Protocol)),
            },
            Phase::Acting { follow } => match ev {
                Event::Confirmed => proceed(follow),
                Event::Failed { message } => finish(Err(OpError::Transport(message))),
                _ => finish(Err(OpError::Protocol)),
            },
            Phase::ResolvingUp { follow } => match ev {
                Event::LinkFound { index } => act(follow, Action::SetUp { link: index }),
                Event::LinkMissing => finish(Err(OpError::NotFound)),
                Event::Failed { message } => finish(Err(OpError::Transport(message))),
                _ => finish(Err(OpError::Protocol)),
            },
            Phase::Fetching => match ev {
                Event::AddressDump { entries } => finish(
                    Ok(Reply::Addresses(flatten_addresses(entries))),
                ),
                Event::Failed { message } => finish(Err(OpError::Transport(message))),
                _ => finish(Err(OpError::Protocol)),
            },
            Phase::FindingDelete { link, target } => match ev {
                Event::AddressDump { entries } => match find_address(&entries, &target) {
                    Some(entry) => (
                        OpMachine { phase: Phase::Deleting },
                        Outcome::Emit(Action::DelAddressAt { link, entry }),
                    ),
                    None => finish(Err(OpError::NotFound)),
                },
                Event::Failed { message } => finish(Err(OpError::Transport(message))),
                _ => finish(Err(OpError::Protocol)),
            },
            Phase::Deleting => match ev {
                Event::Confirmed => finish(Ok(Reply::Ack)),
                Event::Failed { message } => finish(Err(OpError::Transport(message))),
                _ => finish(Err(OpError::Protocol)),
            },
            Phase::AwaitingDhcp { follow } => match ev {
                Event::DhcpExited => proceed(follow),
                Event::Failed { message } => finish(Err(OpError::Transport(message))),
                _ => finish(Err(OpError::Protocol)),
            },
            Phase::Listing => match ev {
                Event::LinkDump { names } => finish(Ok(Reply::LinkNames(first_names(names)))),
                Event::Failed { message } => finish(Err(OpError::Transport(message))),
                _ => finish(Err(OpError::Protocol)),
            },
            Phase::Finished => finish(Err(OpError::Protocol)),
        }
    }
}

/// Begins resolving `name` with `cmd` to follow and no composite rest.
fn resolve_then(cmd: PendingCmd, name: String) -> (r: (OpMachine, Outcome))
    ensures
        starts_resolving(r.0, r.1, cmd, name),
{
    let m = OpMachine {
        phase: Phase::Resolving { cmd, follow: FollowUp { ups: Vec::new(), fetch: None } },
    };
    (m, Outcome::Emit(Action::GetLink { name }))
}

/// Issues a mutation, carrying the composite rest along.
fn act(follow: FollowUp, a: Action) -> (r: (OpMachine, Outcome))
    ensures
        acts(r.0, r.1, follow, a),
{
    (OpMachine { phase: Phase::Acting { follow } }, Outcome::Emit(a))
}

/// Ends the operation with the given result.
fn finish(res: Result<Reply, OpError>) -> (r: (OpMachine, Outcome))
    ensures
        finishes(r.0, r.1, res),
{
    (OpMachine { phase: Phase::Finished }, Outcome::Finish(res))
}

/// How much work a composite rest still holds.
pub open spec fn follow_measure(f: FollowUp) -> nat {
    3 * f.ups@.len() + if f.fetch is Some {
        4nat
    } else {
        0nat
    }
}

/// How far a phase is from finishing, counted in protocol steps.
pub open spec fn phase_measure(p: Phase) -> nat {
    match p {
        Phase::Finished => 0,
        Phase::Deleting => 1,
        Phase::Fetching => 1,
        Phase::Listing => 1,
        Phase::FindingDelete { .. } => 2,
        Phase::Acting { follow } => 1 + follow_measure(follow),
        Phase::AwaitingDhcp { follow } => 1 + follow_measure(follow),
        Phase::ResolvingMaster { follow, .. } => 2 + follow_measure(follow),
        Phase::ResolvingUp { follow } => 2 + follow_measure(follow),
        Phase::Resolving { cmd, follow } => 2 + follow_measure(follow) + match cmd {
            PendingCmd::ResolveMasterOf { .. } => 1nat,
            PendingCmd::FetchAddresses => 1nat,
            PendingCmd::FindDelete { .. } => 2nat,
            _ => 0nat,
        },
    }
}

/// Progress: every step either ends the operation or brings it strictly
/// closer to its end, whatever the kernel answers — an operation always
/// runs to completion within boundedly many protocol steps, and the result
/// arrives exactly when the machine is done.
pub proof fn lemma_step_progress(pre: OpMachine, ev: Event, post: OpMachine, out: Outcome)
    requires
        step_rel(pre, ev, post, out),
    ensures
        out is Finish <==> post.phase is Finished,
        !(pre.phase is Finished) ==> phase_measure(post.phase) < phase_measure(pre.phase),
{
}

/// An operation begins with work ahead of it, or already rejected.
pub proof fn lemma_start_progress(req: Request, post: OpMachine, out: Outcome)
    requires
        start_rel(req, post, out),
    ensures
        out is Finish <==> post.phase is Finished,
{
}

/// An action that carries no kernel index: it is keyed by name, or by
/// nothing at all.
pub open spec fn index_free(a: Action) -> bool {
    match a {
        Action::GetLink { .. } => true,
        Action::AddBridge { .. } => true,
        Action::AddVeth { .. } => true,
        Action::ListLinks => true,
        Action::RunDhcp { .. } => true,
        _ => false,
    }
}

/// Resolution freshness, at the operation's start: no kernel index exists
/// yet, so the first action is keyed by name and the machine holds no
/// index — nothing cached from an earlier operation can be acted on.
pub proof fn lemma_start_holds_no_index(req: Request, post: OpMachine, out: Outcome)
    requires
        start_rel(req, post, out),
    ensures
        out matches Outcome::Emit(a) ==> index_free(a),
        !(post.phase matches Phase::ResolvingMaster { .. }),
        !(post.phase matches Phase::FindingDelete { .. }),
{
}

/// The action acts on the kernel index `i`.
pub open spec fn action_uses(a: Action, i: u32) -> bool {
    match a {
        Action::AddVlan { parent, .. } => parent == i,
        Action::AddVxlanMcast { parent, .. } => parent == i,
        Action::AddVxlanPtp { parent, .. } => parent == i,
        Action::DelLink { link } => link == i,
        Action::SetMaster { link, master } => link == i || master == i,
        Action::NoMaster { link } => link == i,
        Action::AddAddress { link, .. } => link == i,
        Action::GetAddresses { link } => link == i,
        Action::DelAddressAt { link, .. } => link == i,
        Action::SetName { link, .. } => link == i,
        Action::SetMac { link, .. } => link == i,
        Action::MoveToDefaultNs { link } => link == i,
        Action::SetUp { link } => link == i,
        Action::SetDown { link } => link == i,
        _ => false,
    }
}

/// The machine's phase holds the kernel index `i` for later use.
pub open spec fn phase_holds(p: Phase, i: u32) -> bool {
    ||| p matches Phase::ResolvingMaster { link, .. } && link == i
    ||| p matches Phase::FindingDelete { link, .. } && link == i
}

/// One step's index provenance: an index acted on or retained came from
/// this step's resolution or was already held.
pub proof fn lemma_step_index_provenance(
    pre: OpMachine,
    ev: Event,
    post: OpMachine,
    out: Outcome,
    i: u32,
)
    requires
        step_rel(pre, ev, post, out),
    ensures
        (out matches Outcome::Emit(a) && action_uses(a, i)) ==> (ev == (Event::LinkFound {
            index: i,
        }) || phase_holds(pre.phase, i)),
        phase_holds(post.phase, i) ==> (ev == (Event::LinkFound { index: i }) || phase_holds(
            pre.phase,
            i,
        )),
{
}

/// A run of one operation: each machine steps to the next by the event the
/// executor observed.
pub open spec fn chain(ms: Seq<OpMachine>, evs: Seq<Event>, outs: Seq<Outcome>) -> bool {
    &&& ms.len() == evs.len() + 1
    &&& outs.len() == evs.len()
    &&& forall|k: int| 0 <= k < evs.len() ==> step_rel(ms[k], evs[k], ms[k + 1], outs[k])
}

/// An index held at position `k` of a run was delivered by an earlier
/// resolution of the same run.
proof fn lemma_chain_phase_provenance(
    ms: Seq<OpMachine>,
    evs: Seq<Event>,
    outs: Seq<Outcome>,
    k: int,
    i: u32,
)
    requires
        chain(ms, evs, outs),
        !phase_holds(ms[0].phase, i),
        0 <= k < ms.len(),
        phase_holds(ms[k].phase, i),
    ensures
        exists|j: int| 0 <= j < k && evs[j] == (Event::LinkFound { index: i }),
    decreases k,
{
    lemma_step_index_provenance(ms[k - 1], evs[k - 1], ms[k], outs[k - 1], i);
    if evs[k - 1] == (Event::LinkFound { index: i }) {
        assert(0 <= k - 1 < k && evs[k - 1] == (Event::LinkFound { index: i }));
    } else {
        lemma_chain_phase_provenance(ms, evs, outs, k - 1, i);
        let j0 = choose|j: int| 0 <= j < k - 1 && evs[j] == (Event::LinkFound { index: i });
        assert(0 <= j0 < k && evs[j0] == (Event::LinkFound { index: i }));
    }
}

/// Resolution freshness over a whole run: whenever an operation begun by
/// `req` acts on a kernel index, one of this same run's resolutions
/// delivered that index at or before that step — no operation ever acts
/// through an index resolved outside it, so deleted links cannot be
/// reached through stale state.
pub proof fn lemma_freshness_over_run(
    req: Request,
    out0: Outcome,
    ms: Seq<OpMachine>,
    evs: Seq<Event>,
    outs: Seq<Outcome>,
    k: int,
    i: u32,
)
    requires
        start_rel(req, ms[0], out0),
        chain(ms, evs, outs),
        0 <= k < evs.len(),
        outs[k] matches Outcome::Emit(a) && action_uses(a, i),
    ensures
        exists|j: int| 0 <= j <= k && evs[j] == (Event::LinkFound { index: i }),
{
    lemma_start_holds_no_index(req, ms[0], out0);
    lemma_step_index_provenance(ms[k], evs[k], ms[k + 1], outs[k], i);
    if evs[k] == (Event::LinkFound { index: i }) {
        assert(0 <= k <= k && evs[k] == (Event::LinkFound { index: i }));
    } else {
        lemma_chain_phase_provenance(ms, evs, outs, k, i);
        let j0 = choose|j: int| 0 <= j < k && evs[j] == (Event::LinkFound { index: i });
        assert(0 <= j0 <= k && evs[j0] == (Event::LinkFound { index: i }));
    }
}

/// Resolution freshness, the failing side: when the resolved name is
/// absent — deleted, or never created — the operation reports NotFound and
/// issues nothing; only the existence probe answers, with `false`.
pub proof fn lemma_missing_link_is_not_found(pre: OpMachine, post: OpMachine, out: Outcome)
    requires
        step_rel(pre, Event::LinkMissing, post, out),
        pre.phase matches Phase::Resolving { .. } || pre.phase matches Phase::ResolvingMaster {
            ..
        } || pre.phase matches Phase::ResolvingUp { .. },
    ensures
        pre.phase matches Phase::Resolving { cmd: PendingCmd::Probe, .. } ==> finishes(
            post,
            out,
            Ok(Reply::Presence(false)),
        ),
        !(pre.phase matches Phase::Resolving { cmd: PendingCmd::Probe, .. }) ==> finishes(
            post,
            out,
            Err(OpError::NotFound),
        ),
{
}

/// A failed part ends the whole operation with that failure: composites
/// stop at the first error and attempt nothing further.
pub proof fn lemma_fail_fast(pre: OpMachine, message: String, post: OpMachine, out: Outcome)
    requires
        step_rel(pre, Event::Failed { message }, post, out),
        !(pre.phase is Finished),
    ensures
        finishes(post, out, Err(OpError::Transport(message))),
{
}

/// An action that removes kernel state.
pub open spec fn is_delete(a: Action) -> bool {
    a is DelLink || a is DelAddressAt
}

/// A phase from which no deletion can ever be issued.
pub open spec fn deletion_free(p: Phase) -> bool {
    match p {
        Phase::Resolving { cmd, .. } => !(cmd is Del) && !(cmd is FindDelete),
        Phase::FindingDelete { .. } => false,
        Phase::Deleting => false,
        _ => true,
    }
}

/// An operation whose purpose is removal.
pub open spec fn is_delete_request(req: Request) -> bool {
    req is DelIface || req is DelIfaceAddress
}

/// No rollback, at the start: an operation that is not a deletion begins
/// in a deletion-free phase and issues no deletion.
pub proof fn lemma_no_rollback_start(req: Request, post: OpMachine, out: Outcome)
    requires
        start_rel(req, post, out),
        !is_delete_request(req),
    ensures
        deletion_free(post.phase),
        out matches Outcome::Emit(a) ==> !is_delete(a),
{
}

/// No rollback, at every step: deletion-freedom is preserved whatever the
/// kernel answers, and no deletion is issued from a deletion-free phase. A
/// composite whose later part fails therefore leaves its earlier parts
/// applied — the failure is surfaced, not compensated.
pub proof fn lemma_no_rollback_step(pre: OpMachine, ev: Event, post: OpMachine, out: Outcome)
    requires
        step_rel(pre, ev, post, out),
        deletion_free(pre.phase),
    ensures
        deletion_free(post.phase),
        out matches Outcome::Emit(a) ==> !is_delete(a),
{
}

/// Address removal targets the first exact byte match: when the link's
/// dump holds an entry whose raw bytes equal the target's — and only then —
/// the deletion of the least-positioned such entry is issued; otherwise
/// the operation is NotFound. Equality is byte-for-byte, blind to the
/// family tag.
pub proof fn lemma_delete_targets_exact_match(
    link: u32,
    target: IpAddress,
    entries: Vec<Vec<u8>>,
    post: OpMachine,
    out: Outcome,
)
    requires
        step_rel(
            OpMachine { phase: Phase::FindingDelete { link, target } },
            Event::AddressDump { entries },
            post,
            out,
        ),
    ensures
        (exists|j: int|
            0 <= j < entries.deep_view().len() && entries.deep_view()[j] == target@.octets())
            <==> out is Emit,
        out matches Outcome::Emit(a) ==> a matches Action::DelAddressAt { link: l, entry } && l
            == link && entry < entries.deep_view().len() && entries.deep_view()[entry as int]
            == target@.octets() && (forall|j: int|
            0 <= j < entry ==> entries.deep_view()[j] != target@.octets()),
        !(exists|j: int|
            0 <= j < entries.deep_view().len() && entries.deep_view()[j] == target@.octets())
            ==> finishes(post, out, Err(OpError::NotFound)),
{
    lemma_first_match_is_least(entries.deep_view(), target@.octets());
}

/// The bridge composite in full: create the bridge, resolve the new name
/// afresh, bring it up, and acknowledge — and when the up-step fails
/// instead, that failure is surfaced while the creation stands, since no
/// step of the composite deletes anything (see the no-rollback lemmas).
pub proof fn lemma_bridge_composite(
    name: String,
    i: u32,
    msg: String,
    m0: OpMachine,
    out0: Outcome,
    m1: OpMachine,
    out1: Outcome,
    m2: OpMachine,
    out2: Outcome,
    m3: OpMachine,
    out3: Outcome,
    m3f: OpMachine,
    out3f: Outcome,
)
    requires
        start_rel(Request::AddBridge { name }, m0, out0),
        step_rel(m0, Event::Confirmed, m1, out1),
        step_rel(m1, Event::LinkFound { index: i }, m2, out2),
        step_rel(m2, Event::Confirmed, m3, out3),
        step_rel(m2, Event::Failed { message: msg }, m3f, out3f),
    ensures
        out0 == Outcome::Emit(Action::AddBridge { name }),
        out1 == Outcome::Emit(Action::GetLink { name }),
        out2 == Outcome::Emit(Action::SetUp { link: i }),
        out3 == Outcome::Finish(Ok(Reply::Ack)),
        out3f == Outcome::Finish(Err(OpError::Transport(msg))),
{
}

/// A point-to-point tunnel whose endpoints are of differing address
/// families is rejected at the start, before any kernel action, with the
/// dedicated error.
pub proof fn lemma_mixed_family_rejected(req: Request, post: OpMachine, out: Outcome)
    requires
        start_rel(req, post, out),
        req matches Request::AddPtpVxlan { local, remote, .. } && local@.is_v4()
            != remote@.is_v4(),
    ensures
        finishes(post, out, Err(OpError::MixedAddressFamilies)),
{
}

/// Continues a composite once the part under way completed: the next link
/// to bring up, the final address listing, or the reply.
fn proceed(follow: FollowUp) -> (r: (OpMachine, Outcome))
    ensures
        proceed_rel(follow, r.0, r.1),
{
    let FollowUp { mut ups, fetch } = follow;
    if ups.len() > 0 {
        let head = ups.remove(0);
        proof {
            assert(ups@ =~= follow.ups@.skip(1));
        }
        let m = OpMachine { phase: Phase::ResolvingUp { follow: FollowUp { ups, fetch } } };
        (m, Outcome::Emit(Action::GetLink { name: head }))
    } else {
        match fetch {
            Some(name) => {
                let m = OpMachine {
                    phase: Phase::Resolving {
                        cmd: PendingCmd::FetchAddresses,
                        follow: FollowUp { ups, fetch: None },
                    },
                };
                (m, Outcome::Emit(Action::GetLink { name }))
            },
            None => finish(Ok(Reply::Ack)),
        }
    }
}

} // verus!
