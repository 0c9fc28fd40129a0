use vstd::prelude::*;

use crate::contract::{init_state, post_state, sender_is_owner};
use crate::msg::{ExecuteMsg, InstantiateMsg};
use crate::state::StateModel;

verus! {

/// One action request as the host delivers it: the authenticated caller and
/// the message.
pub struct Call {
    pub sender: Seq<char>,
    pub msg: ExecuteMsg,
}

/// The record after a whole sequence of action requests, processed in order.
pub open spec fn run(st: Option<StateModel>, calls: Seq<Call>) -> Option<StateModel>
    decreases calls.len(),
{
    if calls.len() == 0 {
        st
    } else {
        run(post_state(st, calls[0].sender, calls[0].msg), calls.subrange(1, calls.len() as int))
    }
}

/// Owner immutability: once a record exists, no sequence of action requests,
/// from any callers whatever, changes the stored owner — or destroys the
/// record.
pub proof fn lemma_owner_immutable(st: Option<StateModel>, calls: Seq<Call>)
    requires
        st is Some,
    ensures
        run(st, calls) matches Some(after) && after.owner == st->0.owner,
    decreases calls.len(),
{
    if calls.len() > 0 {
        lemma_owner_immutable(
            post_state(st, calls[0].sender, calls[0].msg),
            calls.subrange(1, calls.len() as int),
        );
    }
}

/// Authorization: an action request whose caller is not the recorded owner
/// leaves the record exactly as it was.
pub proof fn lemma_unauthorized_no_change(
    st: Option<StateModel>,
    sender: Seq<char>,
    msg: ExecuteMsg,
)
    requires
        !sender_is_owner(st, sender),
    ensures
        post_state(st, sender, msg) == st,
{
}

/// Update visibility: after the owner sets the convert fraction to `p`, the
/// record holds exactly `p` with the owner unchanged — what the very next
/// query reads back.
pub proof fn lemma_update_visible(st: Option<StateModel>, sender: Seq<char>, p: u128)
    requires
        sender_is_owner(st, sender),
    ensures
        post_state(st, sender, ExecuteMsg::UpdateConvertFraction { percentage: p }) == Some(
            StateModel { convert_fraction: p, owner: st->0.owner },
        ),
{
}

/// Collect-and-convert never touches the record, whoever calls it.
pub proof fn lemma_collect_preserves_state(st: Option<StateModel>, sender: Seq<char>)
    ensures
        post_state(st, sender, ExecuteMsg::CollectAndConvert {}) == st,
{
}

/// Round trip: initializing with any payload records exactly that convert
/// fraction and exactly the deployer as owner — the record every later
/// query returns until the owner updates it.
pub proof fn lemma_init_round_trip(msg: InstantiateMsg, sender: Seq<char>)
    ensures
        init_state(msg, sender).convert_fraction == msg.convert_fraction,
        init_state(msg, sender).owner == sender,
{
}

} // verus!
