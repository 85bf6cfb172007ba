use vstd::prelude::*;

verus! {

/// One modem-class device from the host's inventory: its name, its
/// reported status, and the serial port it is attached to — the join
/// key into the enumerated ports.
pub struct ModemDescriptor {
    pub name: String,
    pub status: String,
    pub attached_port: String,
}

/// Choose the target port among the resolved modem devices: the first
/// candidate's attached port, and nothing when there is no candidate —
/// in which case startup is fatal, since the duplex loop needs a
/// concrete port name.
pub fn choose_port(modems: &Vec<ModemDescriptor>) -> (port: Option<String>)
    ensures
        modems@.len() == 0 <==> port is None,
        modems@.len() > 0 ==> (port matches Some(name) && name@ == modems@[0].attached_port@),
{
    if modems.len() == 0 {
        None
    } else {
        Some(modems[0].attached_port.clone())
    }
}

} // verus!
