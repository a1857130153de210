//! The network section: one block for every interface.

use crate::section::{header_text, push_header, Section};
use crate::style::{Palette, PaletteView};
use crate::text::{hex_byte, texts};
use vstd::prelude::*;

verus! {

/// One network interface: its name, its IP networks as text in the order
/// reported, and the six bytes of its MAC address.
#[derive(Debug, PartialEq, Eq)]
pub struct InterfaceInfo {
    pub name: String,
    pub ip_networks: Vec<String>,
    pub mac_address: [u8; 6],
}

/// An interface as plain values.
pub struct InterfaceView {
    pub name: Seq<char>,
    pub ip_networks: Seq<Seq<char>>,
    pub mac_address: Seq<u8>,
}

impl View for InterfaceInfo {
    type V = InterfaceView;

    open spec fn view(&self) -> InterfaceView {
        InterfaceView {
            name: self.name@,
            ip_networks: texts(self.ip_networks@),
            mac_address: self.mac_address@,
        }
    }
}

/// A list of interfaces as plain values, in the same order.
pub open spec fn interface_views(interfaces: Seq<InterfaceInfo>) -> Seq<InterfaceView> {
    interfaces.map_values(|interface: InterfaceInfo| interface@)
}

/// A MAC address as text: its six bytes in hexadecimal, two lower-case
/// digits each, with colons between them.
pub open spec fn mac_text(mac: Seq<u8>) -> Seq<char>
    recommends
        mac.len() == 6,
{
    hex_byte(mac[0]) + seq![':'] + hex_byte(mac[1]) + seq![':'] + hex_byte(mac[2]) + seq![':']
        + hex_byte(mac[3]) + seq![':'] + hex_byte(mac[4]) + seq![':'] + hex_byte(mac[5])
}

/// The line of one IP network.
pub open spec fn ip_line(network: Seq<char>) -> Seq<char> {
    "IP Network: "@ + network + "\n"@
}

/// The lines of a list of IP networks, one after the other in the order of
/// the list.
pub open spec fn ip_lines(networks: Seq<Seq<char>>) -> Seq<char>
    decreases networks.len(),
{
    if networks.len() == 0 {
        Seq::empty()
    } else {
        ip_lines(networks.drop_last()) + ip_line(networks.last())
    }
}

/// The block of one interface: an empty line, the name, a line for every
/// IP network, and the MAC address.
pub open spec fn interface_block(interface: InterfaceView) -> Seq<char> {
    "\n"@ + "Interface: "@ + interface.name + "\n"@ + ip_lines(interface.ip_networks)
        + "MAC Address: "@ + mac_text(interface.mac_address) + "\n"@
}

/// The blocks of a list of interfaces, one after the other in the order of
/// the list.
pub open spec fn interface_blocks(interfaces: Seq<InterfaceView>) -> Seq<char>
    decreases interfaces.len(),
{
    if interfaces.len() == 0 {
        Seq::empty()
    } else {
        interface_blocks(interfaces.drop_last()) + interface_block(interfaces.last())
    }
}

/// The whole network section.
pub open spec fn network_text(interfaces: Seq<InterfaceView>, palette: PaletteView) -> Seq<char> {
    header_text(Section::Network, palette) + interface_blocks(interfaces)
}

/// What sysinfo's `MacAddr` formats as. sysinfo writes each of the six
/// bytes as two lower-case hexadecimal digits, with a colon between one
/// byte and the next.
#[verifier::external_body]
fn mac_address_string(mac: &[u8; 6]) -> (r: String)
    ensures
        r@ == mac_text(mac@),
{
    format!("{}", sysinfo::MacAddr(*mac))
}

/// Appends the lines of a list of IP networks to `out`.
fn push_ip_lines(out: &mut String, networks: &Vec<String>)
    ensures
        final(out)@ == old(out)@ + ip_lines(texts(networks@)),
{
    let ghost lines = texts(networks@);
    assert(out@ =~= old(out)@ + ip_lines(lines.take(0)));
    let mut i: usize = 0;
    while i < networks.len()
        invariant
            i <= networks.len(),
            lines == texts(networks@),
            out@ == old(out)@ + ip_lines(lines.take(i as int)),
        decreases networks.len() - i,
    {
        out.append("IP Network: ");
        out.append(networks[i].as_str());
        out.append("\n");
        proof {
            let done = lines.take(i as int + 1);
            assert(done.drop_last() =~= lines.take(i as int));
            assert(done.last() == networks@[i as int]@);
            assert(out@ =~= old(out)@ + ip_lines(done));
        }
        i += 1;
    }
    proof {
        assert(lines.take(i as int) =~= lines);
    }
}

/// Appends the block of one interface to `out`.
fn push_interface_block(out: &mut String, interface: &InterfaceInfo)
    ensures
        final(out)@ == old(out)@ + interface_block(interface@),
{
    out.append("\n");
    out.append("Interface: ");
    out.append(interface.name.as_str());
    out.append("\n");
    push_ip_lines(out, &interface.ip_networks);
    out.append("MAC Address: ");
    let mac = mac_address_string(&interface.mac_address);
    out.append(mac.as_str());
    out.append("\n");
    assert(out@ =~= old(out)@ + interface_block(interface@));
}

/// The network section of a report: the header, then one block for every
/// interface in the order given, with the IP networks of each in the order
/// given. Without interfaces it is the header alone.
pub fn render_networks(interfaces: &Vec<InterfaceInfo>, palette: &Palette) -> (r: String)
    ensures
        r@ == network_text(interface_views(interfaces@), palette@),
        interfaces@.len() == 0 ==> r@ == header_text(Section::Network, palette@),
{
    let ghost views = interface_views(interfaces@);
    let mut out = String::new();
    push_header(&mut out, Section::Network, palette);
    assert(out@ =~= network_text(views.take(0), palette@));
    let mut i: usize = 0;
    while i < interfaces.len()
        invariant
            i <= interfaces.len(),
            views == interface_views(interfaces@),
            out@ == network_text(views.take(i as int), palette@),
        decreases interfaces.len() - i,
    {
        push_interface_block(&mut out, &interfaces[i]);
        proof {
            let done = views.take(i as int + 1);
            assert(done.drop_last() =~= views.take(i as int));
            assert(done.last() == interfaces@[i as int]@);
            assert(out@ =~= network_text(done, palette@));
        }
        i += 1;
    }
    proof {
        assert(views.take(i as int) =~= views);
        if interfaces@.len() == 0 {
            assert(out@ =~= header_text(Section::Network, palette@));
        }
    }
    out
}

/// The blocks of two lists of interfaces one after the other are the blocks
/// of the first followed by the blocks of the second: each interface has
/// one block, and the blocks keep the order of the list.
pub proof fn lemma_interface_blocks_concat(first: Seq<InterfaceView>, second: Seq<InterfaceView>)
    ensures
        interface_blocks(first + second) == interface_blocks(first) + interface_blocks(second),
    decreases second.len(),
{
    if second.len() == 0 {
        assert(first + second =~= first);
        assert(interface_blocks(first) + interface_blocks(second) =~= interface_blocks(first));
    } else {
        lemma_interface_blocks_concat(first, second.drop_last());
        assert((first + second).drop_last() =~= first + second.drop_last());
        assert((first + second).last() == second.last());
        assert(interface_blocks(first + second) =~= interface_blocks(first) + interface_blocks(
            second,
        ));
    }
}

/// Without interfaces the section is its header alone.
pub proof fn lemma_no_interfaces_no_blocks(palette: PaletteView)
    ensures
        network_text(Seq::empty(), palette) == header_text(Section::Network, palette),
{
    assert(network_text(Seq::empty(), palette) =~= header_text(Section::Network, palette));
}

} // verus!
