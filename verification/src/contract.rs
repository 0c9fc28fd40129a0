use vstd::prelude::*;

use crate::error::ContractError;
use crate::msg::{Env, ExecuteMsg, InstantiateMsg, MessageInfo, QueryMsg};
use crate::response::Response;
use crate::state::{State, StateModel, Storage};

verus! {

/// The record the initializer writes: the deployer becomes the permanent
/// owner, the payload seeds the convert fraction.
pub open spec fn init_state(msg: InstantiateMsg, sender: Seq<char>) -> StateModel {
    StateModel { convert_fraction: msg.convert_fraction, owner: sender }
}

/// Does the store hold a record whose owner is exactly `sender`? Character
/// for character: no normalization, case-folding or checksum validation is
/// applied to identities.
pub open spec fn sender_is_owner(st: Option<StateModel>, sender: Seq<char>) -> bool {
    st matches Some(s) && s.owner == sender
}

/// The record after one action message is processed against the record
/// before it: an update by the owner overwrites the convert fraction and
/// nothing else; every other action, and every refused one, leaves the
/// record as it was.
pub open spec fn post_state(st: Option<StateModel>, sender: Seq<char>, msg: ExecuteMsg) -> Option<
    StateModel,
> {
    if sender_is_owner(st, sender) {
        match msg {
            ExecuteMsg::UpdateConvertFraction { percentage } => Some(
                StateModel { convert_fraction: percentage, owner: st->0.owner },
            ),
            ExecuteMsg::CollectAndConvert {} => st,
        }
    } else {
        st
    }
}

/// The `action` attribute value a successful action emits.
pub open spec fn action_tag(msg: ExecuteMsg) -> Seq<char> {
    match msg {
        ExecuteMsg::UpdateConvertFraction { .. } => "update_percentage"@,
        ExecuteMsg::CollectAndConvert {} => "collect_and_convert"@,
    }
}

/// A successful action's acknowledgement: exactly one attribute,
/// `action = tag`.
pub open spec fn single_action_attr(r: Response, tag: Seq<char>) -> bool {
    r.attrs().len() == 1 && r.attrs()[0] == ("action"@, tag)
}

/// Initializer. Runs once per deployment (the host guarantees that; it is
/// not re-checked here): records the caller as the permanent owner, seeds
/// the convert fraction from the payload, persists the record under the
/// fixed key, and returns a neutral acknowledgement.
pub fn instantiate(
    storage: &mut Storage,
    _env: &Env,
    info: &MessageInfo,
    msg: InstantiateMsg,
) -> (r: Result<Response, ContractError>)
    ensures
        final(storage)@ == Some(init_state(msg, info.sender@)),
        r matches Ok(resp) && resp.attrs().len() == 0,
{
    let state = State { convert_fraction: msg.convert_fraction, owner: info.sender.clone() };
    storage.save(state);
    Ok(Response::default())
}

/// Action dispatcher: routes a tagged action message to its handler. The
/// store afterwards is exactly `post_state` of the store before; success,
/// and the attribute emitted with it, comes precisely when the caller is the
/// recorded owner.
pub fn execute(
    storage: &mut Storage,
    env: &Env,
    info: &MessageInfo,
    msg: ExecuteMsg,
) -> (r: Result<Response, ContractError>)
    ensures
        final(storage)@ == post_state(old(storage)@, info.sender@, msg),
        old(storage)@ is None ==> (r matches Err(e) && e.is_not_found_state()),
        old(storage)@ is Some && !sender_is_owner(old(storage)@, info.sender@) ==> (r matches Err(e)
            && e is Unauthorized),
        sender_is_owner(old(storage)@, info.sender@) ==> (r matches Ok(resp)
            && single_action_attr(resp, action_tag(msg))),
{
    match msg {
        ExecuteMsg::UpdateConvertFraction { percentage } => execute_update_percentage(
            storage,
            info,
            percentage,
        ),
        ExecuteMsg::CollectAndConvert {} => execute_collect_and_convert(storage, env, info),
    }
}

/// Parameter update. Atomic: either the caller is the owner, the new
/// percentage is persisted (owner untouched) and the one attribute
/// `action = update_percentage` is emitted, or the store is left exactly as
/// it was and an error says why.
pub fn execute_update_percentage(
    storage: &mut Storage,
    info: &MessageInfo,
    percentage: u128,
) -> (r: Result<Response, ContractError>)
    ensures
        final(storage)@ == post_state(
            old(storage)@,
            info.sender@,
            ExecuteMsg::UpdateConvertFraction { percentage },
        ),
        old(storage)@ is None ==> (r matches Err(e) && e.is_not_found_state()),
        old(storage)@ is Some && !sender_is_owner(old(storage)@, info.sender@) ==> (r matches Err(e)
            && e is Unauthorized),
        sender_is_owner(old(storage)@, info.sender@) ==> (r matches Ok(resp)
            && single_action_attr(resp, "update_percentage"@)),
{
    let loaded = match storage.load() {
        Some(s) => s,
        None => {
            return Err(ContractError::not_found_state());
        },
    };
    if info.sender == loaded.owner {
        let mut state = loaded;
        state.convert_fraction = percentage;
        storage.save(state);
        Ok(Response::new().add_attribute("action", "update_percentage"))
    } else {
        Err(ContractError::Unauthorized)
    }
}

/// Collect-and-convert trigger. Authorization is the same owner check as the
/// parameter update. The reward-collection engine it will delegate to is an
/// external collaborator that is not implemented yet, so on success the
/// handler only emits its attribute; it never modifies the record — any
/// parameter change belongs to the update handler alone.
pub fn execute_collect_and_convert(
    storage: &mut Storage,
    _env: &Env,
    info: &MessageInfo,
) -> (r: Result<Response, ContractError>)
    ensures
        final(storage)@ == old(storage)@,
        old(storage)@ is None ==> (r matches Err(e) && e.is_not_found_state()),
        old(storage)@ is Some && !sender_is_owner(old(storage)@, info.sender@) ==> (r matches Err(e)
            && e is Unauthorized),
        sender_is_owner(old(storage)@, info.sender@) ==> (r matches Ok(resp)
            && single_action_attr(resp, "collect_and_convert"@)),
{
    let state = match storage.load() {
        Some(s) => s,
        None => {
            return Err(ContractError::not_found_state());
        },
    };
    if info.sender == state.owner {
        Ok(Response::new().add_attribute("action", "collect_and_convert"))
    } else {
        Err(ContractError::Unauthorized)
    }
}

/// Read dispatcher: routes a tagged query to its handler. Read-only by
/// construction — it borrows the store immutably, so it can neither write
/// it nor schedule outbound calls.
pub fn query(storage: &Storage, _env: &Env, msg: QueryMsg) -> (r: Result<State, ContractError>)
    ensures
        storage@ matches Some(m) ==> (r matches Ok(s) && s@ == m),
        storage@ is None ==> (r matches Err(e) && e.is_not_found_state()),
{
    match msg {
        QueryMsg::GetState {} => query_state(storage),
    }
}

/// The one recognized query: the full persistent record, both fields, as
/// last written; `NotFound` only before initialization.
pub fn query_state(storage: &Storage) -> (r: Result<State, ContractError>)
    ensures
        storage@ matches Some(m) ==> (r matches Ok(s) && s@ == m),
        storage@ is None ==> (r matches Err(e) && e.is_not_found_state()),
{
    match storage.load() {
        Some(s) => Ok(s),
        None => Err(ContractError::not_found_state()),
    }
}

} // verus!
