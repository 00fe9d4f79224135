//! What the server tells clients of its network identity, for waking it
//! over the network later.
use vstd::prelude::*;
use crate::text::{str_chars, string_of};
use crate::library::opt_view;

verus! {

/// A network interface as the machine reports it: its MAC address where
/// one could be read.
pub struct InterfaceReading {
    pub name: String,
    pub is_loopback: bool,
    pub ipv4: Option<String>,
    pub mac: Option<String>,
}

/// An interface worth telling a client of.
pub struct NetworkInterface {
    pub name: String,
    pub mac: String,
    pub ipv4: Option<String>,
}

pub struct InterfaceView {
    pub name: Seq<char>,
    pub mac: Seq<char>,
    pub ipv4: Option<Seq<char>>,
}

impl View for NetworkInterface {
    type V = InterfaceView;

    open spec fn view(&self) -> InterfaceView {
        InterfaceView { name: self.name@, mac: self.mac@, ipv4: opt_view(self.ipv4) }
    }
}

/// Whether an interface is kept: it is not the loopback and has a MAC
/// address that is not empty.
pub open spec fn kept_interface(r: InterfaceReading) -> bool {
    !r.is_loopback && match r.mac {
        Some(m) => m@.len() > 0,
        None => false,
    }
}

/// The kept interfaces, in the order the machine reports them.
pub open spec fn kept_interfaces(rs: Seq<InterfaceReading>) -> Seq<InterfaceView>
    decreases rs.len(),
{
    if rs.len() == 0 {
        Seq::empty()
    } else {
        let prev = kept_interfaces(rs.drop_last());
        let r = rs.last();
        if kept_interface(r) {
            prev.push(InterfaceView { name: r.name@, mac: r.mac.unwrap()@, ipv4: opt_view(r.ipv4) })
        } else {
            prev
        }
    }
}

pub open spec fn interface_views(is: Seq<NetworkInterface>) -> Seq<InterfaceView> {
    is.map_values(|i: NetworkInterface| i@)
}

fn copy_string(s: &String) -> (r: String)
    ensures
        r@ == s@,
{
    string_of(&str_chars(s.as_str()))
}

/// The interfaces a client can wake the server through.
pub fn network_interfaces(readings: &Vec<InterfaceReading>) -> (r: Vec<NetworkInterface>)
    ensures
        interface_views(r@) == kept_interfaces(readings@),
{
    let mut r: Vec<NetworkInterface> = Vec::new();
    let mut i: usize = 0;
    while i < readings.len()
        invariant
            i <= readings.len(),
            interface_views(r@) == kept_interfaces(readings@.take(i as int)),
        decreases readings.len() - i,
    {
        let x = &readings[i];
        assert(readings@.take(i + 1).drop_last() =~= readings@.take(i as int));
        assert(readings@.take(i + 1).last() == readings@[i as int]);
        let ghost before = r@;
        if !x.is_loopback {
            match &x.mac {
                Some(m) => {
                    if m.as_str().unicode_len() > 0 {
                        let ipv4 = match &x.ipv4 {
                            Some(a) => Some(copy_string(a)),
                            None => None,
                        };
                        let k = NetworkInterface { name: copy_string(&x.name), mac: copy_string(m), ipv4 };
                        r.push(k);
                        assert(interface_views(r@) =~= interface_views(before).push(k@));
                    }
                },
                None => {},
            }
        }
        i += 1;
    }
    assert(readings@.take(readings.len() as int) =~= readings@);
    r
}

/// The position of the first interface from `i` on that has an IPv4 address.
pub open spec fn first_with_ipv4(is: Seq<InterfaceView>, i: int) -> Option<int>
    decreases is.len() - i,
{
    if i < 0 || i >= is.len() {
        None
    } else if is[i].ipv4 is Some {
        Some(i)
    } else {
        first_with_ipv4(is, i + 1)
    }
}

/// The MAC address to wake the server by: that of the first interface with
/// an IPv4 address, else that of the first interface.
pub open spec fn primary_mac_spec(is: Seq<InterfaceView>) -> Option<Seq<char>> {
    match first_with_ipv4(is, 0) {
        Some(k) => Some(is[k].mac),
        None => if is.len() > 0 {
            Some(is[0].mac)
        } else {
            None
        },
    }
}

pub fn primary_mac(interfaces: &Vec<NetworkInterface>) -> (r: Option<String>)
    ensures
        opt_view(r) == primary_mac_spec(interface_views(interfaces@)),
{
    let ghost vs = interface_views(interfaces@);
    let mut k: usize = 0;
    while k < interfaces.len()
        invariant
            k <= interfaces.len(),
            vs == interface_views(interfaces@),
            first_with_ipv4(vs, 0) == first_with_ipv4(vs, k as int),
        decreases interfaces.len() - k,
    {
        assert(vs[k as int] == interfaces@[k as int]@);
        if interfaces[k].ipv4.is_some() {
            return Some(copy_string(&interfaces[k].mac));
        }
        k += 1;
    }
    if interfaces.len() > 0 {
        assert(vs[0] == interfaces@[0]@);
        Some(copy_string(&interfaces[0].mac))
    } else {
        None
    }
}


/// The service type the server advertises.
pub open spec fn service_type() -> Seq<char> {
    seq!['_', 'c', 'a', 's', 't', '-', 'm', 'e', 'd', 'i', 'a', '.', '_', 't', 'c', 'p']
}

/// The program and arguments that advertise the server through the system's
/// responder: `dns-sd -R <name> <type> local <port>` on macOS,
/// `avahi-publish-service <name> <type>. <port>` elsewhere.
pub open spec fn advertise_command_spec(macos: bool, name: Seq<char>, port: u16) -> (Seq<char>, Seq<Seq<char>>) {
    let p = crate::text::decimal(port as nat);
    if macos {
        (seq!['d', 'n', 's', '-', 's', 'd'], seq![seq!['-', 'R'], name, service_type(), seq!['l', 'o', 'c', 'a', 'l'], p])
    } else {
        (
            seq!['a', 'v', 'a', 'h', 'i', '-', 'p', 'u', 'b', 'l', 'i', 's', 'h', '-', 's', 'e', 'r', 'v', 'i', 'c', 'e'],
            seq![name, service_type().push('.'), p],
        )
    }
}

pub fn advertise_command(macos: bool, name: &str, port: u16) -> (r: (String, Vec<String>))
    ensures
        r.0@ == advertise_command_spec(macos, name@, port).0,
        r.1@.map_values(|t: String| t@) == advertise_command_spec(macos, name@, port).1,
{
    let p = string_of(&crate::text::decimal_exec(port as u64));
    let st = vec!['_', 'c', 'a', 's', 't', '-', 'm', 'e', 'd', 'i', 'a', '.', '_', 't', 'c', 'p'];
    assert(st@ =~= service_type());
    if macos {
        let args = vec![
            string_of(&vec!['-', 'R']),
            copy_string_str(name),
            string_of(&st),
            string_of(&vec!['l', 'o', 'c', 'a', 'l']),
            p,
        ];
        let prog = string_of(&vec!['d', 'n', 's', '-', 's', 'd']);
        assert(args@.map_values(|t: String| t@) =~= advertise_command_spec(macos, name@, port).1);
        assert(prog@ =~= advertise_command_spec(macos, name@, port).0);
        (prog, args)
    } else {
        let mut dotted = st;
        dotted.push('.');
        let args = vec![copy_string_str(name), string_of(&dotted), p];
        let prog = string_of(
            &vec!['a', 'v', 'a', 'h', 'i', '-', 'p', 'u', 'b', 'l', 'i', 's', 'h', '-', 's', 'e', 'r', 'v', 'i', 'c', 'e'],
        );
        assert(args@.map_values(|t: String| t@) =~= advertise_command_spec(macos, name@, port).1);
        assert(prog@ =~= advertise_command_spec(macos, name@, port).0);
        (prog, args)
    }
}

fn copy_string_str(s: &str) -> (r: String)
    ensures
        r@ == s@,
{
    string_of(&str_chars(s))
}

} // verus!
