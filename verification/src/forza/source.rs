//! The Forza source: where it listens, how its frames are labelled, and
//! which received datagrams it republishes.
use vstd::prelude::*;
use vstd::string::*;

use crate::forza::packet::{parse, parses_as, ForzaPacket};

verus! {

/// Listens for Forza's "Data Out" UDP packets and republishes them as
/// normalized telemetry frames.
///
/// Point the game's Settings > HUD and Gameplay > Data Out "IP Address" /
/// "Port" at the machine and port this is bound to.
pub struct ForzaSource {
    bind_addr: String,
    game_label: String,
}

impl ForzaSource {
    /// The address the source binds and listens on.
    pub closed spec fn spec_bind_addr(&self) -> Seq<char> {
        self.bind_addr@
    }

    /// The title frames from this source are tagged with.
    pub closed spec fn spec_game_label(&self) -> Seq<char> {
        self.game_label@
    }

    /// A source listening on `bind_addr`, tagging its frames with the
    /// generic label "forza".
    pub fn new(bind_addr: &str) -> (source: ForzaSource)
        ensures
            source.spec_bind_addr() == bind_addr@,
            source.spec_game_label() == "forza"@,
    {
        ForzaSource { bind_addr: String::from_str(bind_addr), game_label: String::from_str("forza") }
    }

    /// Tag frames from this source with a specific title, e.g.
    /// "forza_horizon_5", "forza_horizon_6", "forza_motorsport". Defaults to
    /// the generic "forza".
    pub fn with_game_label(self, label: &str) -> (source: ForzaSource)
        ensures
            source.spec_bind_addr() == self.spec_bind_addr(),
            source.spec_game_label() == label@,
    {
        ForzaSource { bind_addr: self.bind_addr, game_label: String::from_str(label) }
    }

    /// Stable id used in logs and config.
    pub fn id(&self) -> (id: &'static str)
        ensures
            id@ == "forza"@,
    {
        "forza"
    }

    /// The address the source binds and listens on.
    pub fn bind_addr(&self) -> (addr: &str)
        ensures
            addr@ == self.spec_bind_addr(),
    {
        self.bind_addr.as_str()
    }

    /// The title frames from this source are tagged with.
    pub fn game_label(&self) -> (label: &str)
        ensures
            label@ == self.spec_game_label(),
    {
        self.game_label.as_str()
    }

    /// What to do with one received datagram: the parsed packet to publish,
    /// or `None` when it is too short to be a Data Out packet or when the
    /// game reports no race running (paused, in a menu), whose telemetry
    /// should not drive outputs.
    pub fn packet_to_publish(&self, datagram: &[u8]) -> (packet: Option<ForzaPacket>)
        ensures
            match packet {
                Some(p) => parses_as(datagram@, Some(p)) && p.sled.is_race_on,
                None => forall|p: ForzaPacket|
                    parses_as(datagram@, Some(p)) ==> !p.sled.is_race_on,
            },
    {
        match parse(datagram) {
            Some(p) => {
                if p.sled.is_race_on {
                    Some(p)
                } else {
                    None
                }
            },
            None => None,
        }
    }
}

} // verus!
