//! Peer lifecycle status. The peer record itself (addresses, last-seen
//! bookkeeping) belongs to the network layer outside the verified core;
//! only the closed status and its storage-boundary text codec live here.

use vstd::prelude::*;

use crate::text::{eq_ignore_ascii_case, str_eq_ignore_ascii_case};

verus! {

/// Status of a network peer.
#[derive(Debug, Clone, Copy, PartialEq, Eq, Structural)]
pub enum PeerStatus {
    Connected,
    Disconnected,
    Banned,
    Syncing,
}

impl PeerStatus {
    /// The canonical storage-boundary text of this status.
    pub open spec fn spec_text(self) -> Seq<char> {
        match self {
            PeerStatus::Connected => "connected"@,
            PeerStatus::Disconnected => "disconnected"@,
            PeerStatus::Banned => "banned"@,
            PeerStatus::Syncing => "syncing"@,
        }
    }

    /// Encode the status as its canonical text.
    pub fn text(&self) -> (r: String)
        ensures
            r@ == self.spec_text(),
    {
        match self {
            PeerStatus::Connected => String::from_str("connected"),
            PeerStatus::Disconnected => String::from_str("disconnected"),
            PeerStatus::Banned => String::from_str("banned"),
            PeerStatus::Syncing => String::from_str("syncing"),
        }
    }

    /// Decode a status from its text, matched up to ASCII case as the
    /// storage boundary decodes; any unrecognized text is the defined
    /// fallback error.
    pub fn from_text(s: &str) -> (r: Result<PeerStatus, String>)
        ensures
            r matches Ok(v) ==> eq_ignore_ascii_case(s@, v.spec_text()),
            r matches Err(m) ==> m@ == "Invalid peer status"@ && forall|v: PeerStatus|
                !eq_ignore_ascii_case(s@, #[trigger] v.spec_text()),
    {
        if str_eq_ignore_ascii_case(s, "connected") {
            Ok(PeerStatus::Connected)
        } else if str_eq_ignore_ascii_case(s, "disconnected") {
            Ok(PeerStatus::Disconnected)
        } else if str_eq_ignore_ascii_case(s, "banned") {
            Ok(PeerStatus::Banned)
        } else if str_eq_ignore_ascii_case(s, "syncing") {
            Ok(PeerStatus::Syncing)
        } else {
            proof {
                assert forall|v: PeerStatus| !eq_ignore_ascii_case(
                    s@,
                    #[trigger] v.spec_text(),
                ) by {
                    assert(v is Connected || v is Disconnected || v is Banned || v is Syncing);
                }
            }
            Err(String::from_str("Invalid peer status"))
        }
    }
}

} // verus!
