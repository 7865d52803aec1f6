use netns_manager::addr::IpAddress;
use netns_manager::machine::{Action, Event, OpError, OpMachine, Outcome, Reply, Request};

/// An in-memory stand-in for the kernel side of the protocol: it answers
/// each action the way the kernel control channel would, so operations can
/// be driven end to end.
struct MockKernel {
    links: Vec<MockLink>,
    next_index: u32,
    /// When set, every up/down action fails with this message.
    fail_admin: Option<String>,
    /// Addresses the simulated DHCP client binds on exit.
    dhcp_lease: Option<Vec<u8>>,
    /// Every action performed, by a short tag.
    performed: Vec<&'static str>,
}

struct MockLink {
    name: String,
    index: u32,
    up: bool,
    master: Option<u32>,
    mac: Vec<u8>,
    addrs: Vec<Vec<u8>>,
}

impl MockKernel {
    fn new() -> MockKernel {
        MockKernel {
            links: Vec::new(),
            next_index: 1,
            fail_admin: None,
            dhcp_lease: None,
            performed: Vec::new(),
        }
    }

    fn add_link(&mut self, name: &str) -> u32 {
        let index = self.next_index;
        self.next_index += 1;
        self.links.push(MockLink {
            name: name.to_string(),
            index,
            up: false,
            master: None,
            mac: Vec::new(),
            addrs: Vec::new(),
        });
        index
    }

    fn pos_by_index(&self, index: u32) -> usize {
        self.links.iter().position(|l| l.index == index).expect("no such link index")
    }

    fn link(&self, name: &str) -> Option<&MockLink> {
        self.links.iter().find(|l| l.name == name)
    }

    fn perform(&mut self, action: Action) -> Event {
        match action {
            Action::GetLink { name } => {
                self.performed.push("get_link");
                match self.links.iter().find(|l| l.name == name) {
                    Some(l) => Event::LinkFound { index: l.index },
                    None => Event::LinkMissing,
                }
            }
            Action::AddBridge { name } => {
                self.performed.push("add_bridge");
                self.add_link(&name);
                Event::Confirmed
            }
            Action::AddVeth { iface_i, iface_e } => {
                self.performed.push("add_veth");
                self.add_link(&iface_i);
                self.add_link(&iface_e);
                Event::Confirmed
            }
            Action::AddVlan { name, parent, tag: _ } => {
                self.performed.push("add_vlan");
                assert!(self.links.iter().any(|l| l.index == parent));
                self.add_link(&name);
                Event::Confirmed
            }
            Action::AddVxlanMcast { name, parent, .. } => {
                self.performed.push("add_vxlan_mcast");
                assert!(self.links.iter().any(|l| l.index == parent));
                self.add_link(&name);
                Event::Confirmed
            }
            Action::AddVxlanPtp { name, parent, local, remote, .. } => {
                self.performed.push("add_vxlan_ptp");
                assert!(self.links.iter().any(|l| l.index == parent));
                // The kernel itself refuses mixed-family tunnel endpoints.
                if local.same_family(&remote) {
                    self.add_link(&name);
                    Event::Confirmed
                } else {
                    Event::Failed { message: "invalid tunnel endpoints".to_string() }
                }
            }
            Action::DelLink { link } => {
                self.performed.push("del_link");
                let pos = self.pos_by_index(link);
                self.links.remove(pos);
                Event::Confirmed
            }
            Action::SetMaster { link, master } => {
                self.performed.push("set_master");
                let pos = self.pos_by_index(link);
                self.links[pos].master = Some(master);
                Event::Confirmed
            }
            Action::NoMaster { link } => {
                self.performed.push("no_master");
                let pos = self.pos_by_index(link);
                self.links[pos].master = None;
                Event::Confirmed
            }
            Action::AddAddress { link, addr, prefix: _ } => {
                self.performed.push("add_address");
                let pos = self.pos_by_index(link);
                let octets = addr.octets();
                self.links[pos].addrs.push(octets);
                Event::Confirmed
            }
            Action::GetAddresses { link } => {
                self.performed.push("get_addresses");
                let pos = self.pos_by_index(link);
                Event::AddressDump { entries: self.links[pos].addrs.clone() }
            }
            Action::DelAddressAt { link, entry } => {
                self.performed.push("del_address");
                let pos = self.pos_by_index(link);
                self.links[pos].addrs.remove(entry);
                Event::Confirmed
            }
            Action::SetName { link, name } => {
                self.performed.push("set_name");
                let pos = self.pos_by_index(link);
                self.links[pos].name = name;
                Event::Confirmed
            }
            Action::SetMac { link, mac } => {
                self.performed.push("set_mac");
                let pos = self.pos_by_index(link);
                self.links[pos].mac = mac;
                Event::Confirmed
            }
            Action::MoveToDefaultNs { link } => {
                self.performed.push("move_default_ns");
                // The link leaves this namespace's view.
                let pos = self.pos_by_index(link);
                self.links.remove(pos);
                Event::Confirmed
            }
            Action::SetUp { link } => {
                self.performed.push("set_up");
                if let Some(message) = &self.fail_admin {
                    return Event::Failed { message: message.clone() };
                }
                let pos = self.pos_by_index(link);
                self.links[pos].up = true;
                Event::Confirmed
            }
            Action::SetDown { link } => {
                self.performed.push("set_down");
                if let Some(message) = &self.fail_admin {
                    return Event::Failed { message: message.clone() };
                }
                let pos = self.pos_by_index(link);
                self.links[pos].up = false;
                Event::Confirmed
            }
            Action::ListLinks => {
                self.performed.push("list_links");
                Event::LinkDump {
                    names: self.links.iter().map(|l| vec![l.name.clone()]).collect(),
                }
            }
            Action::RunDhcp { iface } => {
                self.performed.push("run_dhcp");
                if let Some(lease) = &self.dhcp_lease {
                    let lease = lease.clone();
                    if let Some(pos) = self.links.iter().position(|l| l.name == iface) {
                        self.links[pos].addrs.push(lease);
                    }
                }
                Event::DhcpExited
            }
        }
    }
}

/// Drives one operation to completion against the mock kernel, exactly as
/// the executor drives it against the real one: one action in flight at a
/// time, its observed event handed back.
fn run(kernel: &mut MockKernel, req: Request) -> Result<Reply, OpError> {
    let (mut machine, mut outcome) = OpMachine::start(req);
    loop {
        match outcome {
            Outcome::Emit(action) => {
                let event = kernel.perform(action);
                let (next, out) = machine.step(event);
                machine = next;
                outcome = out;
            }
            Outcome::Finish(result) => return result,
        }
    }
}

fn v4(a: u8, b: u8, c: u8, d: u8) -> IpAddress {
    IpAddress::V4(vec![a, b, c, d])
}

fn v6(last: u8) -> IpAddress {
    let mut octets = vec![0u8; 16];
    octets[0] = 0x20;
    octets[1] = 0x01;
    octets[15] = last;
    IpAddress::V6(octets)
}

fn s(text: &str) -> String {
    text.to_string()
}

#[test]
fn resolution_is_fresh_after_deletion() {
    // A link deleted between two calls is observed as absent by the second
    // call: nothing stale is acted on.
    let mut k = MockKernel::new();
    assert_eq!(run(&mut k, Request::AddBridge { name: s("br0") }), Ok(Reply::Ack));
    assert_eq!(run(&mut k, Request::SetIfaceUp { iface: s("br0") }), Ok(Reply::Ack));
    assert_eq!(run(&mut k, Request::DelIface { iface: s("br0") }), Ok(Reply::Ack));
    assert_eq!(run(&mut k, Request::SetIfaceUp { iface: s("br0") }), Err(OpError::NotFound));
    assert_eq!(
        run(&mut k, Request::GetIfaceAddresses { iface: s("br0") }),
        Err(OpError::NotFound)
    );
}

#[test]
fn serialized_create_delete_pairs_have_whole_outcomes() {
    // Operations are totally ordered by the single executor; each pair lands
    // as create-then-delete or delete(NotFound)-then-create, never torn.
    let mut k = MockKernel::new();
    for i in 0..8 {
        let name = format!("pair{}", i);
        if i % 2 == 0 {
            assert_eq!(run(&mut k, Request::AddBridge { name: name.clone() }), Ok(Reply::Ack));
            assert_eq!(run(&mut k, Request::DelIface { iface: name.clone() }), Ok(Reply::Ack));
            assert_eq!(
                run(&mut k, Request::CheckIfaceExists { iface: name }),
                Ok(Reply::Presence(false))
            );
        } else {
            assert_eq!(
                run(&mut k, Request::DelIface { iface: name.clone() }),
                Err(OpError::NotFound)
            );
            assert_eq!(run(&mut k, Request::AddBridge { name: name.clone() }), Ok(Reply::Ack));
            assert_eq!(
                run(&mut k, Request::CheckIfaceExists { iface: name }),
                Ok(Reply::Presence(true))
            );
        }
    }
}

#[test]
fn bridge_composite_creates_and_brings_up() {
    let mut k = MockKernel::new();
    assert_eq!(run(&mut k, Request::AddBridge { name: s("br0") }), Ok(Reply::Ack));
    assert_eq!(
        run(&mut k, Request::CheckIfaceExists { iface: s("br0") }),
        Ok(Reply::Presence(true))
    );
    assert!(k.link("br0").unwrap().up);
}

#[test]
fn failed_up_step_does_not_roll_back_creation() {
    let mut k = MockKernel::new();
    k.fail_admin = Some(s("transport broke"));
    assert_eq!(
        run(&mut k, Request::AddBridge { name: s("br0") }),
        Err(OpError::Transport(s("transport broke")))
    );
    // The bridge was created and stays: the failure is surfaced, not
    // compensated.
    assert_eq!(
        run(&mut k, Request::CheckIfaceExists { iface: s("br0") }),
        Ok(Reply::Presence(true))
    );
    assert!(!k.link("br0").unwrap().up);
}

#[test]
fn address_round_trip() {
    let mut k = MockKernel::new();
    k.add_link("veth0");
    let bound = run(
        &mut k,
        Request::AddIfaceAddress { iface: s("veth0"), addr: Some((v4(192, 0, 2, 1), 24)) },
    );
    assert_eq!(bound, Ok(Reply::Addresses(vec![v4(192, 0, 2, 1)])));
    assert_eq!(
        run(&mut k, Request::GetIfaceAddresses { iface: s("veth0") }),
        Ok(Reply::Addresses(vec![v4(192, 0, 2, 1)]))
    );
    assert_eq!(
        run(&mut k, Request::DelIfaceAddress { iface: s("veth0"), addr: v4(192, 0, 2, 1) }),
        Ok(Reply::Ack)
    );
    assert_eq!(
        run(&mut k, Request::GetIfaceAddresses { iface: s("veth0") }),
        Ok(Reply::Addresses(vec![]))
    );
    // Removing an address that is not present is NotFound.
    assert_eq!(
        run(&mut k, Request::DelIfaceAddress { iface: s("veth0"), addr: v4(192, 0, 2, 1) }),
        Err(OpError::NotFound)
    );
}

#[test]
fn del_address_on_missing_link_is_not_found() {
    let mut k = MockKernel::new();
    assert_eq!(
        run(&mut k, Request::DelIfaceAddress { iface: s("nope"), addr: v4(10, 0, 0, 1) }),
        Err(OpError::NotFound)
    );
}

#[test]
fn mixed_family_tunnel_is_rejected_before_any_kernel_action() {
    let mut k = MockKernel::new();
    k.add_link("eth0");
    let r = run(
        &mut k,
        Request::AddPtpVxlan {
            iface: s("vx0"),
            dev: s("eth0"),
            vni: 42,
            local: v4(10, 0, 0, 1),
            remote: v6(2),
            port: 4789,
        },
    );
    assert_eq!(r, Err(OpError::MixedAddressFamilies));
    assert!(k.performed.is_empty());
    assert_eq!(
        run(&mut k, Request::CheckIfaceExists { iface: s("vx0") }),
        Ok(Reply::Presence(false))
    );
}

#[test]
fn same_family_tunnel_is_created_and_left_down() {
    let mut k = MockKernel::new();
    k.add_link("eth0");
    let r = run(
        &mut k,
        Request::AddPtpVxlan {
            iface: s("vx0"),
            dev: s("eth0"),
            vni: 42,
            local: v4(10, 0, 0, 1),
            remote: v4(10, 0, 0, 2),
            port: 4789,
        },
    );
    assert_eq!(r, Ok(Reply::Ack));
    let vx = k.link("vx0").unwrap();
    // The point-to-point path creates only; it does not bring the device up.
    assert!(!vx.up);
}

#[test]
fn six_to_six_tunnel_is_accepted() {
    let mut k = MockKernel::new();
    k.add_link("eth0");
    let r = run(
        &mut k,
        Request::AddPtpVxlan {
            iface: s("vx6"),
            dev: s("eth0"),
            vni: 7,
            local: v6(1),
            remote: v6(2),
            port: 4789,
        },
    );
    assert_eq!(r, Ok(Reply::Ack));
}

#[test]
fn enumeration_reflects_deletion() {
    let mut k = MockKernel::new();
    assert_eq!(run(&mut k, Request::AddBridge { name: s("a") }), Ok(Reply::Ack));
    assert_eq!(run(&mut k, Request::AddBridge { name: s("b") }), Ok(Reply::Ack));
    assert_eq!(run(&mut k, Request::AddBridge { name: s("c") }), Ok(Reply::Ack));
    assert_eq!(run(&mut k, Request::DelIface { iface: s("b") }), Ok(Reply::Ack));
    match run(&mut k, Request::ListIfaces) {
        Ok(Reply::LinkNames(names)) => {
            assert!(names.contains(&s("a")));
            assert!(names.contains(&s("c")));
            assert!(!names.contains(&s("b")));
        }
        other => panic!("unexpected reply: {:?}", other),
    }
}

#[test]
fn link_dump_takes_each_links_first_name() {
    // Links without a name attribute are left out; of several name
    // attributes the first counts.
    let (machine, outcome) = OpMachine::start(Request::ListIfaces);
    assert_eq!(outcome, Outcome::Emit(Action::ListLinks));
    let dump = Event::LinkDump {
        names: vec![vec![s("eth0"), s("alias0")], vec![], vec![s("lo")]],
    };
    let (_, outcome) = machine.step(dump);
    assert_eq!(outcome, Outcome::Finish(Ok(Reply::LinkNames(vec![s("eth0"), s("lo")]))));
}

#[test]
fn veth_composite_brings_both_ends_up() {
    let mut k = MockKernel::new();
    assert_eq!(
        run(&mut k, Request::AddVeth { iface_i: s("vi"), iface_e: s("ve") }),
        Ok(Reply::Ack)
    );
    assert!(k.link("vi").unwrap().up);
    assert!(k.link("ve").unwrap().up);
}

#[test]
fn vlan_composite_needs_its_parent() {
    let mut k = MockKernel::new();
    assert_eq!(
        run(&mut k, Request::AddVlan { iface: s("eth0.100"), dev: s("eth0"), tag: 100 }),
        Err(OpError::NotFound)
    );
    k.add_link("eth0");
    assert_eq!(
        run(&mut k, Request::AddVlan { iface: s("eth0.100"), dev: s("eth0"), tag: 100 }),
        Ok(Reply::Ack)
    );
    assert!(k.link("eth0.100").unwrap().up);
}

#[test]
fn mcast_vxlan_composite_creates_and_brings_up() {
    let mut k = MockKernel::new();
    assert_eq!(
        run(
            &mut k,
            Request::AddMcastVxlan {
                iface: s("vxm"),
                dev: s("missing"),
                vni: 9,
                group: v4(239, 1, 1, 1),
                port: 4789,
            }
        ),
        Err(OpError::NotFound)
    );
    k.add_link("eth0");
    assert_eq!(
        run(
            &mut k,
            Request::AddMcastVxlan {
                iface: s("vxm"),
                dev: s("eth0"),
                vni: 9,
                group: v4(239, 1, 1, 1),
                port: 4789,
            }
        ),
        Ok(Reply::Ack)
    );
    assert!(k.link("vxm").unwrap().up);
}

#[test]
fn master_is_set_and_cleared() {
    let mut k = MockKernel::new();
    let br = k.add_link("br0");
    k.add_link("veth0");
    assert_eq!(
        run(&mut k, Request::SetIfaceMaster { iface: s("veth0"), master: s("br0") }),
        Ok(Reply::Ack)
    );
    assert_eq!(k.link("veth0").unwrap().master, Some(br));
    assert_eq!(run(&mut k, Request::DelIfaceMaster { iface: s("veth0") }), Ok(Reply::Ack));
    assert_eq!(k.link("veth0").unwrap().master, None);
}

#[test]
fn master_resolution_failures_are_not_found() {
    let mut k = MockKernel::new();
    k.add_link("veth0");
    assert_eq!(
        run(&mut k, Request::SetIfaceMaster { iface: s("veth0"), master: s("br0") }),
        Err(OpError::NotFound)
    );
    assert_eq!(
        run(&mut k, Request::SetIfaceMaster { iface: s("ghost"), master: s("veth0") }),
        Err(OpError::NotFound)
    );
}

#[test]
fn attribute_mutations_act_on_the_resolved_link() {
    let mut k = MockKernel::new();
    k.add_link("veth0");
    assert_eq!(
        run(&mut k, Request::SetIfaceMac { iface: s("veth0"), mac: vec![2, 0, 0, 0, 0, 1] }),
        Ok(Reply::Ack)
    );
    assert_eq!(k.link("veth0").unwrap().mac, vec![2, 0, 0, 0, 0, 1]);
    assert_eq!(
        run(&mut k, Request::SetIfaceName { iface: s("veth0"), new_name: s("wan0") }),
        Ok(Reply::Ack)
    );
    assert!(k.link("veth0").is_none());
    assert!(k.link("wan0").is_some());
    assert_eq!(run(&mut k, Request::SetIfaceUp { iface: s("wan0") }), Ok(Reply::Ack));
    assert!(k.link("wan0").unwrap().up);
    assert_eq!(run(&mut k, Request::SetIfaceDown { iface: s("wan0") }), Ok(Reply::Ack));
    assert!(!k.link("wan0").unwrap().up);
    assert_eq!(
        run(&mut k, Request::MoveIfaceToDefaultNs { iface: s("wan0") }),
        Ok(Reply::Ack)
    );
    assert!(k.link("wan0").is_none());
}

#[test]
fn mutations_on_missing_links_are_not_found() {
    let mut k = MockKernel::new();
    assert_eq!(run(&mut k, Request::SetIfaceUp { iface: s("x") }), Err(OpError::NotFound));
    assert_eq!(run(&mut k, Request::SetIfaceDown { iface: s("x") }), Err(OpError::NotFound));
    assert_eq!(
        run(&mut k, Request::SetIfaceMac { iface: s("x"), mac: vec![0; 6] }),
        Err(OpError::NotFound)
    );
    assert_eq!(
        run(&mut k, Request::SetIfaceName { iface: s("x"), new_name: s("y") }),
        Err(OpError::NotFound)
    );
    assert_eq!(run(&mut k, Request::DelIfaceMaster { iface: s("x") }), Err(OpError::NotFound));
    assert_eq!(run(&mut k, Request::DelIface { iface: s("x") }), Err(OpError::NotFound));
    assert_eq!(
        run(&mut k, Request::MoveIfaceToDefaultNs { iface: s("x") }),
        Err(OpError::NotFound)
    );
    assert_eq!(
        run(&mut k, Request::AddIfaceAddress { iface: s("x"), addr: Some((v4(10, 0, 0, 1), 8)) }),
        Err(OpError::NotFound)
    );
}

#[test]
fn exists_answers_without_failing() {
    let mut k = MockKernel::new();
    assert_eq!(
        run(&mut k, Request::CheckIfaceExists { iface: s("lo") }),
        Ok(Reply::Presence(false))
    );
    k.add_link("lo");
    assert_eq!(
        run(&mut k, Request::CheckIfaceExists { iface: s("lo") }),
        Ok(Reply::Presence(true))
    );
}

#[test]
fn dhcp_path_waits_then_reports_bound_addresses() {
    let mut k = MockKernel::new();
    k.add_link("veth0");
    k.dhcp_lease = Some(vec![203, 0, 113, 77]);
    let r = run(&mut k, Request::AddIfaceAddress { iface: s("veth0"), addr: None });
    assert_eq!(r, Ok(Reply::Addresses(vec![v4(203, 0, 113, 77)])));
    assert_eq!(k.performed.first(), Some(&"run_dhcp"));
}

#[test]
fn transport_failure_carries_the_message() {
    let mut k = MockKernel::new();
    k.add_link("veth0");
    k.fail_admin = Some(s("netlink: permission denied"));
    assert_eq!(
        run(&mut k, Request::SetIfaceUp { iface: s("veth0") }),
        Err(OpError::Transport(s("netlink: permission denied")))
    );
}

#[test]
fn resolution_transport_failure_is_surfaced() {
    let (machine, _) = OpMachine::start(Request::SetIfaceUp { iface: s("veth0") });
    let (_, outcome) = machine.step(Event::Failed { message: s("socket closed") });
    assert_eq!(outcome, Outcome::Finish(Err(OpError::Transport(s("socket closed")))));
}

#[test]
fn dhcp_spawn_failure_is_surfaced_as_transport() {
    let (machine, outcome) = OpMachine::start(Request::AddIfaceAddress { iface: s("veth0"), addr: None });
    assert_eq!(outcome, Outcome::Emit(Action::RunDhcp { iface: s("veth0") }));
    let (_, outcome) = machine.step(Event::Failed { message: s("no such file or directory") });
    assert_eq!(
        outcome,
        Outcome::Finish(Err(OpError::Transport(s("no such file or directory"))))
    );
}

#[test]
fn protocol_violation_aborts_the_operation() {
    let (machine, outcome) = OpMachine::start(Request::GetIfaceAddresses { iface: s("veth0") });
    assert!(matches!(outcome, Outcome::Emit(Action::GetLink { .. })));
    let (machine, outcome) = machine.step(Event::LinkFound { index: 3 });
    assert_eq!(outcome, Outcome::Emit(Action::GetAddresses { link: 3 }));
    // The executor answers with something that does not answer an address
    // dump request: the operation is abandoned, not misread.
    let (machine, outcome) = machine.step(Event::Confirmed);
    assert_eq!(outcome, Outcome::Finish(Err(OpError::Protocol)));
    let (_, outcome) = machine.step(Event::Confirmed);
    assert_eq!(outcome, Outcome::Finish(Err(OpError::Protocol)));
}

#[test]
fn add_address_reports_the_full_binding_afterwards() {
    let mut k = MockKernel::new();
    let idx = k.add_link("veth0");
    let pos = k.pos_by_index(idx);
    k.links[pos].addrs.push(vec![10, 0, 0, 1]);
    let r = run(
        &mut k,
        Request::AddIfaceAddress { iface: s("veth0"), addr: Some((v4(192, 0, 2, 1), 24)) },
    );
    assert_eq!(r, Ok(Reply::Addresses(vec![v4(10, 0, 0, 1), v4(192, 0, 2, 1)])));
}
