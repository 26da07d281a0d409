//! Guest-side daemon decisions: address selection and the readiness
//! transition.

use vstd::prelude::*;

use crate::error::CzError;
use crate::state::{transition_allowed, State};

verus! {

/// What the guest publishes about itself: its first usable IPv4 address.
#[derive(Debug)]
pub struct Info {
    pub ip: String,
}

/// An IPv4 address as its four octets.
pub type Ipv4 = (u8, u8, u8, u8);

/// An address the guest may publish: not loopback, not link-local, not the
/// broadcast address.
pub open spec fn spec_ipv4_usable(ip: Ipv4) -> bool {
    &&& ip.0 != 127
    &&& !(ip.0 == 169 && ip.1 == 254)
    &&& !(ip.0 == 255 && ip.1 == 255 && ip.2 == 255 && ip.3 == 255)
}

/// The first usable IPv4 address of an interface listing, in listing order:
/// exactly the address the daemon publishes to the info file.
pub fn first_usable_ipv4(addrs: &Vec<Ipv4>) -> (r: Option<Ipv4>)
    ensures
        r matches Some(ip) ==> exists|i: int|
            #![trigger addrs@[i]]
            {
                &&& 0 <= i < addrs@.len()
                &&& addrs@[i] == ip
                &&& spec_ipv4_usable(ip)
                &&& forall|j: int| 0 <= j < i ==> !spec_ipv4_usable(#[trigger] addrs@[j])
            },
        r is None ==> forall|j: int| 0 <= j < addrs@.len() ==> !spec_ipv4_usable(#[trigger] addrs@[j]),
{
    let mut k: usize = 0;
    while k < addrs.len()
        invariant
            k <= addrs@.len(),
            forall|j: int| 0 <= j < k ==> !spec_ipv4_usable(#[trigger] addrs@[j]),
        decreases addrs@.len() - k,
    {
        let ip = addrs[k];
        let usable = ip.0 != 127 && !(ip.0 == 169 && ip.1 == 254) && !(ip.0 == 255 && ip.1 == 255
            && ip.2 == 255 && ip.3 == 255);
        if usable {
            return Some(ip);
        }
        k += 1;
    }
    None
}

/// The daemon's final startup step: whatever state the sidecar held is
/// taken to `Running`.  Already `Running` means nothing to write; a state
/// with no legal edge to `Running` is refused, as the state machine says.
pub fn ready_transition(cur: State) -> (r: Result<Option<State>, CzError>)
    ensures
        cur == State::Running ==> r == Result::<Option<State>, CzError>::Ok(None::<State>),
        cur != State::Running && transition_allowed(cur, State::Running) ==> r == Result::<
            Option<State>,
            CzError,
        >::Ok(Some(State::Running)),
        cur != State::Running && !transition_allowed(cur, State::Running) ==> r == Result::<
            Option<State>,
            CzError,
        >::Err(CzError::IllegalTransition { from: cur, to: State::Running }),
{
    match cur.check_update(State::Running) {
        Ok(true) => Ok(None),
        Ok(false) => Ok(Some(State::Running)),
        Err(e) => Err(e),
    }
}

} // verus!
