//! The record that the cache keeps for one device.

use crate::address::SocketAddress;
use crate::store::BindingView;
use crate::store::StoredBinding;
use vstd::prelude::*;

verus! {

/// Free-form details of a device, as stored beside its binding.
#[derive(Debug)]
pub struct MacControlInfo {
    pub ip: String,
}

impl Clone for MacControlInfo {
    fn clone(&self) -> (copy: Self)
        ensures
            copy.ip@ == self.ip@,
    {
        MacControlInfo { ip: self.ip.clone() }
    }
}

impl Default for MacControlInfo {
    fn default() -> (info: Self)
        ensures
            info.ip@ == Seq::<char>::empty(),
    {
        MacControlInfo { ip: String::new() }
    }
}

/// The registration state of one device.
///
/// An empty `mac_id` marks a blank record: one that was made for a device
/// the store did not know, and behind which no row is known to stand. The
/// device is written into a record when it is made from a row, or when the
/// store has inserted the row for it, and never changes after that.
#[derive(Debug)]
pub struct MacControl {
    /// Where the device was last seen. Advisory only.
    pub socket_addr: SocketAddress,
    /// The device; empty until a row stands behind the record.
    pub mac_id: String,
    /// The peer that may connect to the device.
    pub allowed_id: String,
}

/// A record over character sequences.
pub struct MacControlView {
    pub socket_addr: SocketAddress,
    pub mac_id: Seq<char>,
    pub allowed_id: Seq<char>,
}

impl View for MacControl {
    type V = MacControlView;

    open spec fn view(&self) -> MacControlView {
        MacControlView {
            socket_addr: self.socket_addr,
            mac_id: self.mac_id@,
            allowed_id: self.allowed_id@,
        }
    }
}

impl MacControlView {
    /// The record of a device of which nothing is known.
    pub open spec fn blank() -> MacControlView {
        MacControlView {
            socket_addr: SocketAddress::unspecified(),
            mac_id: Seq::empty(),
            allowed_id: Seq::empty(),
        }
    }

    /// The record made from a row of the store: it carries the row's pair,
    /// and the address is the unspecified one.
    pub open spec fn loaded(row: BindingView) -> MacControlView {
        MacControlView {
            socket_addr: SocketAddress::unspecified(),
            mac_id: row.mac_id,
            allowed_id: row.allowed_id,
        }
    }

    /// No row stands behind the record.
    pub open spec fn is_blank(self) -> bool {
        self.mac_id.len() == 0
    }

    /// The record after a registration with `allowed_id`, seen at `addr`: the
    /// address and the peer are overwritten, the device is left as it is.
    pub open spec fn registered(self, allowed_id: Seq<char>, addr: SocketAddress) -> MacControlView {
        MacControlView { socket_addr: addr, mac_id: self.mac_id, allowed_id }
    }

    /// The record once the row of `mac_id` stands behind it.
    pub open spec fn backed_by(self, mac_id: Seq<char>) -> MacControlView {
        MacControlView { socket_addr: self.socket_addr, mac_id, allowed_id: self.allowed_id }
    }
}

impl Clone for MacControl {
    fn clone(&self) -> (copy: Self)
        ensures
            copy@ == self@,
    {
        MacControl {
            socket_addr: self.socket_addr,
            mac_id: self.mac_id.clone(),
            allowed_id: self.allowed_id.clone(),
        }
    }
}

impl Default for MacControl {
    fn default() -> (record: Self)
        ensures
            record@ == MacControlView::blank(),
    {
        MacControl {
            socket_addr: SocketAddress::new_unspecified(),
            mac_id: String::new(),
            allowed_id: String::new(),
        }
    }
}

impl MacControl {
    /// The record for a row that a lookup brought.
    pub fn from_stored(row: StoredBinding) -> (record: Self)
        ensures
            record@ == MacControlView::loaded(row@),
    {
        MacControl {
            socket_addr: SocketAddress::new_unspecified(),
            mac_id: row.mac_id,
            allowed_id: row.allowed_id,
        }
    }

    /// Whether no row stands behind the record.
    pub fn is_blank(&self) -> (blank: bool)
        ensures
            blank == self@.is_blank(),
    {
        self.mac_id.as_str().is_empty()
    }
}

} // verus!
