//! A stand-in for the environment of the service, for exercising the
//! engine outside of it: who calls, what the time is, how many cycles are
//! left.

use crate::identity_list::list_without;
use crate::identity_list::listed;
use crate::identity_list::without;
use crate::identity::principal_from_text;
use crate::identity::Identity;
use vstd::prelude::*;

verus! {

/// The text of the service's own id.
pub const MOCK_ID: &'static str = "732uv-piaaa-aaaag-abkoq-cai";

/// The text of the id of service 0.
pub const MOCK_CANISTER_0: &'static str = "a4gq6-oaaaa-aaaab-qaa4q-cai";

/// The text of the id of service 1.
pub const MOCK_CANISTER_1: &'static str = "mxzaz-hqaaa-aaaar-qaada-cai";

/// The text of the id of service 2.
pub const MOCK_CANISTER_2: &'static str = "3e3x2-xyaaa-aaaaq-aaalq-cai";

/// The text of the id of service 3.
pub const MOCK_CANISTER_3: &'static str = "2jvtu-yqaaa-aaaaq-aaama-cai";

/// The text of the id of user 0.
pub const MOCK_USER_0: &'static str = "4wcqb-taebw-q5ohj-iwsve-rkznz-aep3a-iv7wl-a5ycz-ajkay-3wmxt-eae";

/// The text of the id of user 1.
pub const MOCK_USER_1: &'static str = "zlyyc-cf25m-zxq5j-xxy2p-2mmg2-5bv7b-4urrf-tmhkd-reoee-exfr6-kae";

/// The text of the id of user 2.
pub const MOCK_USER_2: &'static str = "z7zpk-qms36-hlrrb-ofttm-4jais-bk2be-kpyi4-s2w4g-mso4z-h72do-gqe";

/// The text of the id of user 3.
pub const MOCK_USER_3: &'static str = "ocm3z-6jyo2-xypcq-uchk4-7mhnj-q3wyb-slscx-37fbv-zjeuh-5mfqm-eae";

/// The stand-in environment as a mathematical value.
pub struct MockState {
    pub caller: Identity,
    pub id: Identity,
    pub version: u64,
    pub canister_balance: u128,
    pub time: Option<u64>,
    pub instruction_counter: Option<u64>,
    pub controllers: Seq<Identity>,
}

impl MockState {
    /// The environment of a service with the given id before anything was
    /// set: the caller is anonymous, the clock is not set.
    pub open spec fn init(id: Identity, caller: Identity) -> MockState {
        MockState {
            caller,
            id,
            version: 0,
            canister_balance: 1000000000000,
            time: None,
            instruction_counter: Some(1000000),
            controllers: Seq::empty(),
        }
    }
}

/// The stand-in environment.
pub struct MockData {
    caller: Identity,
    id: Identity,
    version: u64,
    canister_balance: u128,
    time: Option<u64>,
    instruction_counter: Option<u64>,
    controllers: Vec<Identity>,
}

impl View for MockData {
    type V = MockState;

    closed spec fn view(&self) -> MockState {
        MockState {
            caller: self.caller,
            id: self.id,
            version: self.version,
            canister_balance: self.canister_balance,
            time: self.time,
            instruction_counter: self.instruction_counter,
            controllers: self.controllers@,
        }
    }
}

impl MockData {
    /// The environment of a service with the given id: the caller is
    /// anonymous, the version is 0, the balance is 10^12 cycles, the clock
    /// is not set, the instruction counter stands at 10^6, and there is no
    /// controller.
    pub fn with_id(id: Identity) -> (data: MockData)
        ensures
            data@.caller.is_anonymous_spec(),
            data@ == MockState::init(id, data@.caller),
    {
        MockData {
            caller: Identity::anonymous(),
            id,
            version: 0,
            canister_balance: 1000000000000,
            time: None,
            instruction_counter: Some(1000000),
            controllers: Vec::new(),
        }
    }

    /// The environment of the service whose id is `MOCK_ID`, if that text
    /// names a principal.
    pub fn new() -> (r: Option<MockData>)
        ensures
            r is Some <==> principal_from_text(MOCK_ID@) is Some,
            r matches Some(data) ==> principal_from_text(MOCK_ID@) == Some(data@.id@),
            r matches Some(data) ==> data@.caller.is_anonymous_spec(),
            r matches Some(data) ==> data@ == MockState::init(data@.id, data@.caller),
    {
        match Identity::from_text(MOCK_ID) {
            Some(id) => Some(MockData::with_id(id)),
            None => None,
        }
    }
}

/// Sets the caller.
pub fn set_mock_caller(data: &mut MockData, caller: Identity)
    ensures
        final(data)@ == (MockState { caller, ..old(data)@ }),
{
    data.caller = caller;
}

/// Sets the service's own id.
pub fn set_mock_id(data: &mut MockData, id: Identity)
    ensures
        final(data)@ == (MockState { id, ..old(data)@ }),
{
    data.id = id;
}

/// Sets the system's version of the service.
pub fn set_mock_version(data: &mut MockData, version: u64)
    ensures
        final(data)@ == (MockState { version, ..old(data)@ }),
{
    data.version = version;
}

/// Sets the balance.
pub fn set_mock_balance(data: &mut MockData, balance: u128)
    ensures
        final(data)@ == (MockState { canister_balance: balance, ..old(data)@ }),
{
    data.canister_balance = balance;
}

/// Sets the clock.
pub fn set_mock_time(data: &mut MockData, time: u64)
    ensures
        final(data)@ == (MockState { time: Some(time), ..old(data)@ }),
{
    data.time = Some(time);
}

/// Sets the instruction counter.
pub fn set_mock_instruction_counter(data: &mut MockData, counter: u64)
    ensures
        final(data)@ == (MockState { instruction_counter: Some(counter), ..old(data)@ }),
{
    data.instruction_counter = Some(counter);
}

/// Adds a controller.
pub fn add_mock_controller(data: &mut MockData, controller: Identity)
    ensures
        final(data)@ == (MockState {
            controllers: old(data)@.controllers.push(controller),
            ..old(data)@
        }),
{
    data.controllers.push(controller);
}

/// Removes a controller, wherever it is listed.
pub fn remove_mock_controller(data: &mut MockData, controller: Identity)
    ensures
        final(data)@ == (MockState {
            controllers: without(old(data)@.controllers, controller),
            ..old(data)@
        }),
{
    data.controllers = list_without(&data.controllers, &controller);
}

/// The caller.
pub fn mock_caller(data: &MockData) -> (r: Identity)
    ensures
        r == data@.caller,
{
    data.caller
}

/// The service's own id.
pub fn mock_id(data: &MockData) -> (r: Identity)
    ensures
        r == data@.id,
{
    data.id
}

/// The system's version of the service.
pub fn mock_version(data: &MockData) -> (r: u64)
    ensures
        r == data@.version,
{
    data.version
}

/// The balance.
pub fn mock_balance(data: &MockData) -> (r: u128)
    ensures
        r == data@.canister_balance,
{
    data.canister_balance
}

/// The time: what the clock was set to, or `clock` if it was not set.
pub fn mock_time(data: &MockData, clock: u64) -> (r: u64)
    ensures
        data@.time is Some ==> r == data@.time->0,
        data@.time is None ==> r == clock,
{
    if let Some(time) = data.time {
        time
    } else {
        clock
    }
}

/// The instruction counter, 0 if it was not set.
pub fn mock_instruction_counter(data: &MockData) -> (r: u64)
    ensures
        data@.instruction_counter is Some ==> r == data@.instruction_counter->0,
        data@.instruction_counter is None ==> r == 0,
{
    if let Some(counter) = data.instruction_counter {
        counter
    } else {
        0
    }
}

/// Whether `controller` is listed as a controller.
pub fn is_mock_controller(data: &MockData, controller: &Identity) -> (r: bool)
    ensures
        r == data@.controllers.contains(*controller),
{
    listed(&data.controllers, controller)
}

} // verus!
