//! Broadcaster: turns one dispatcher-produced message into the concrete
//! per-session writes.
//!
//! Two delivery modes exist. A broadcast addresses every currently
//! registered session, in registration order; a private response addresses
//! exactly one session, looked up by identifier, and a lookup miss (the
//! target already disconnected) is a silent no-op. Either way each message
//! is framed with a single trailing newline.

use crate::registry::Registry;
use crate::registry::SessionSpec;
use crate::registry::first_id_match;
use vstd::prelude::*;
use vstd::string::*;

verus! {

/// One outbound write: the target session's identifier and the full
/// newline-terminated text to write to it.
pub struct Delivery {
    pub target: u64,
    pub text: String,
}

/// Mathematical model of a [`Delivery`].
pub ghost struct DeliverySpec {
    pub target: u64,
    pub text: Seq<char>,
}

impl DeepView for Delivery {
    type V = DeliverySpec;

    open spec fn deep_view(&self) -> DeliverySpec {
        DeliverySpec { target: self.target, text: self.text@ }
    }
}

/// A message as written to a socket: the text with its single trailing
/// newline delimiter.
pub open spec fn framed(text: Seq<char>) -> Seq<char> {
    text + "\n"@
}

/// The deliveries of a broadcast of `text`: one per registered session, in
/// registration order (the sender included; echo is the specified
/// behaviour).
pub open spec fn broadcast_out(ss: Seq<SessionSpec>, text: Seq<char>) -> Seq<DeliverySpec> {
    Seq::new(ss.len(), |i: int| DeliverySpec { target: ss[i].id, text: framed(text) })
}

/// The deliveries of a private response of `text` to session `id`: exactly
/// one while the session is registered, none once it is gone.
pub open spec fn private_out(ss: Seq<SessionSpec>, id: u64, text: Seq<char>) -> Seq<DeliverySpec> {
    if first_id_match(ss, id) is Some {
        seq![DeliverySpec { target: id, text: framed(text) }]
    } else {
        Seq::<DeliverySpec>::empty()
    }
}

/// `text` with the trailing newline appended.
fn frame_line(text: &str) -> (r: String)
    ensures
        r@ == framed(text@),
{
    let s: String = text.to_owned();
    s.concat("\n")
}

/// An empty delivery list.
pub fn no_deliveries() -> (out: Vec<Delivery>)
    ensures
        out.deep_view() == Seq::<DeliverySpec>::empty(),
{
    let out: Vec<Delivery> = Vec::new();
    proof {
        assert(out.deep_view() =~= Seq::<DeliverySpec>::empty());
    }
    out
}

impl Registry {
    /// Deliver `text` to every registered session, in registration order.
    pub fn broadcast(&self, text: &str) -> (out: Vec<Delivery>)
        ensures
            out.deep_view() == broadcast_out(self@, text@),
    {
        let framed_text = frame_line(text);
        let n = self.session_count();
        let mut out: Vec<Delivery> = Vec::new();
        let mut i: usize = 0;
        while i < n
            invariant
                i <= n,
                n == self@.len(),
                out@.len() == i,
                framed_text@ == framed(text@),
                forall|j: int|
                    0 <= j < i ==> out@[j].deep_view() == (DeliverySpec {
                        target: self@[j].id,
                        text: framed(text@),
                    }),
            decreases n - i,
        {
            let id = self.id_at(i);
            out.push(Delivery { target: id, text: framed_text.clone() });
            i = i + 1;
        }
        proof {
            assert(out.deep_view() =~= broadcast_out(self@, text@));
        }
        out
    }

    /// Deliver `text` to exactly the session with identifier `id`; if that
    /// session is no longer registered, deliver nothing.
    pub fn private_response(&self, id: u64, text: &str) -> (out: Vec<Delivery>)
        ensures
            out.deep_view() == private_out(self@, id, text@),
    {
        match self.find_index_by_id(id) {
            Option::None => {
                let out: Vec<Delivery> = Vec::new();
                proof {
                    assert(out.deep_view() =~= private_out(self@, id, text@));
                }
                out
            },
            Option::Some(_) => {
                let mut out: Vec<Delivery> = Vec::new();
                out.push(Delivery { target: id, text: frame_line(text) });
                proof {
                    assert(out.deep_view() =~= private_out(self@, id, text@));
                }
                out
            },
        }
    }
}

} // verus!
