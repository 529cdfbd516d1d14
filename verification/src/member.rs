//! The member descriptor handed to the gossip engine: one entry per peer
//! line of the watched file.

use vstd::prelude::*;

verus! {

/// Mathematical model of a [`Member`]: the same fields, with strings as
/// character sequences.
#[verifier::ext_equal]
pub struct MemberV {
    pub id: Seq<char>,
    pub address: Seq<char>,
    pub swim_port: u16,
    pub gossip_port: u16,
}

/// A gossip-cluster participant parsed from one line of the peer file.
///
/// `id` is an opaque identifier that a downstream component assigns; it is
/// always left empty here. `address` is the textual IP address of the peer,
/// and the single port carried by the peer line serves as both the SWIM and
/// the gossip port.
#[derive(Debug, Clone)]
pub struct Member {
    pub id: String,
    pub address: String,
    pub swim_port: u16,
    pub gossip_port: u16,
}

impl View for Member {
    type V = MemberV;

    open spec fn view(&self) -> MemberV {
        MemberV {
            id: self.id@,
            address: self.address@,
            swim_port: self.swim_port,
            gossip_port: self.gossip_port,
        }
    }
}

/// A member produced by this component carries the one port of its peer
/// line in both port roles.
pub open spec fn member_wf(m: MemberV) -> bool {
    m.swim_port == m.gossip_port && m.id.len() == 0
}

/// The member that a resolved peer address denotes, as a model value.
pub open spec fn member_of_address(address: Seq<char>, port: u16) -> MemberV {
    MemberV { id: Seq::empty(), address: address, swim_port: port, gossip_port: port }
}

impl Member {
    /// Builds the member for one resolved peer address: the address text is
    /// kept verbatim, the single resolved port fills both port roles, and
    /// the identifier is left empty.
    pub fn from_resolved(address: String, port: u16) -> (m: Member)
        ensures
            m@ == member_of_address(address@, port),
            member_wf(m@),
    {
        let m = Member { id: String::new(), address, swim_port: port, gossip_port: port };
        proof {
            assert(m@ =~= member_of_address(m.address@, port));
        }
        m
    }
}

impl PartialEq for Member {
    fn eq(&self, other: &Member) -> (r: bool) {
        let r = self.id == other.id && self.address == other.address
            && self.swim_port == other.swim_port && self.gossip_port == other.gossip_port;
        proof {
            if r {
                assert(self@ =~= other@);
            }
        }
        r
    }
}

impl vstd::std_specs::cmp::PartialEqSpecImpl for Member {
    open spec fn obeys_eq_spec() -> bool {
        true
    }

    open spec fn eq_spec(&self, other: &Member) -> bool {
        self@ == other@
    }
}

impl Eq for Member {

}

} // verus!
