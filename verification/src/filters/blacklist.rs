//! Refusal by membership: listed authors, listed origins, and origins inside
//! listed networks do not get through.

use crate::listing::{is_listed_opt, lists_opt};
use crate::messages::{Action, InputMessage, OutputMessage, Verdict};
use crate::note_filter::NoteFilter;
use ipnetwork::IpNetwork;
use std::str::FromStr;
use vstd::prelude::*;

verus! {

/// The reason given to whoever is listed.
pub const BLACKLISTED: &'static str = "blocked: pubkey/ip is blacklisted";

/// What `ipnetwork` makes of a network in CIDR notation and an address, both
/// as text: whether the network holds the address, or nothing where one of
/// the two does not parse.
pub uninterp spec fn cidr_membership(cidr: Seq<char>, ip: Seq<char>) -> Option<bool>;

/// Parses `cidr` with `IpNetwork::from_str` and `ip` as an IP address, and
/// asks `IpNetwork::contains` whether the network holds the address. The
/// answer depends on the two texts alone. It is `None` where either text
/// does not parse.
#[verifier::external_body]
fn cidr_contains(cidr: &str, ip: &str) -> (held: Option<bool>)
    ensures
        held == cidr_membership(cidr@, ip@),
{
    let network = match IpNetwork::from_str(cidr) {
        Ok(network) => network,
        Err(_) => return None,
    };
    match ip.parse() {
        Ok(address) => Some(network.contains(address)),
        Err(_) => None,
    }
}

/// Whether one of `cidrs` is a network that holds `ip`.
pub open spec fn in_networks(cidrs: Seq<String>, ip: Seq<char>) -> bool {
    exists|i: int|
        0 <= i < cidrs.len() && cidr_membership((#[trigger] cidrs[i])@, ip) == Some(true)
}

/// Refuses what comes from a listed author, a listed origin or an origin
/// inside a listed network.
pub struct Blacklist {
    pub pubkeys: Option<Vec<String>>,
    pub ips: Option<Vec<String>>,
    pub cidrs: Option<Vec<String>>,
}

impl Blacklist {
    /// Whether the origin `ip` is refused: it lies in a listed network or is
    /// listed itself.
    pub open spec fn blocks_ip(&self, ip: Seq<char>) -> bool {
        ||| self.cidrs matches Some(cidrs) && in_networks(cidrs@, ip)
        ||| lists_opt(self.ips, ip)
    }

    /// The verdict on `msg`, given whether its origin is refused.
    pub open spec fn verdict_given(&self, msg: &InputMessage, ip_blocked: bool) -> Verdict {
        if lists_opt(self.pubkeys, msg.event.pubkey@) || ip_blocked {
            Verdict::reject(msg.event.id@, BLACKLISTED@)
        } else {
            Verdict::accept(msg.event.id@)
        }
    }

    /// The verdict on `msg`.
    pub open spec fn verdict(&self, msg: &InputMessage) -> Verdict {
        self.verdict_given(msg, self.blocks_ip(msg.source_info@))
    }

    /// Whether the origin `ip` is refused.
    pub fn is_ip_blocked(&self, ip: &String) -> (blocked: bool)
        ensures
            blocked == self.blocks_ip(ip@),
    {
        if let Some(cidrs) = &self.cidrs {
            let mut i: usize = 0;
            while i < cidrs.len()
                invariant
                    i <= cidrs@.len(),
                    self.cidrs == Some(*cidrs),
                    forall|j: int|
                        0 <= j < i ==> cidr_membership((#[trigger] cidrs@[j])@, ip@) != Some(true),
                decreases cidrs.len() - i,
            {
                if let Some(true) = cidr_contains(cidrs[i].as_str(), ip.as_str()) {
                    return true;
                }
                i = i + 1;
            }
        }
        is_listed_opt(&self.ips, ip)
    }

    /// Judges `msg`, given whether its origin is refused.
    pub fn judge(&self, msg: &InputMessage, ip_blocked: bool) -> (out: OutputMessage)
        ensures
            out@ == self.verdict_given(msg, ip_blocked),
    {
        if is_listed_opt(&self.pubkeys, &msg.event.pubkey) || ip_blocked {
            OutputMessage::new(msg.event.id.clone(), Action::Reject, Some(BLACKLISTED.to_owned()))
        } else {
            OutputMessage::new(msg.event.id.clone(), Action::Accept, None)
        }
    }
}

impl Default for Blacklist {
    fn default() -> (empty: Self)
        ensures
            empty.pubkeys is None,
            empty.ips is None,
            empty.cidrs is None,
    {
        Blacklist { pubkeys: None, ips: None, cidrs: None }
    }
}

impl NoteFilter for Blacklist {
    open spec fn admits(&self, msg: &InputMessage, out: Verdict) -> bool {
        out == self.verdict(msg)
    }

    fn filter_note(&mut self, msg: &InputMessage) -> (out: OutputMessage)
        ensures
            out@ == old(self).verdict(msg),
            *final(self) == *old(self),
    {
        let ip_blocked = self.is_ip_blocked(&msg.source_info);
        self.judge(msg, ip_blocked)
    }

    fn name(&self) -> (key: &'static str)
        ensures
            key@ == "blacklist"@,
    {
        "blacklist"
    }
}

} // verus!
