//! The exchange that retrieves a device's data: one request for the device
//! listing, a pause, and, where the history is asked for, one request for the
//! history of the selected device and a second pause.
//!
//! The exchange is a state machine. It performs no I/O: each step names the
//! action that the driver is to perform, and the driver reports the outcome as
//! the next event.

use vstd::prelude::*;
use crate::address::{is_plain, json_string_text, request_address, unquoted};
use crate::credentials::{AmbientWeatherAPICredentials, CredentialsView};
use crate::error::FetchError;
use crate::json::{
    lemma_array_view, lemma_object_view, lookup, member, optional_view, take_item, take_member,
    Json, JsonView,
};
use crate::url::{api_url, get_aw_api_url};

verus! {

/// The pause after each answered request, in milliseconds: a guard against
/// the vendor's limit on the frequency of requests.
pub const GUARD_DELAY_MS: u64 = 1000;

/// What the driver reports back to the machine.
#[derive(Debug, PartialEq)]
pub enum FetchEvent {
    /// The request was answered with this HTTP status. `body` is the JSON
    /// value of the response body, or nothing where the body is not JSON.
    Response { status: u16, body: Option<Json> },
    /// The request was not answered.
    TransportFailed,
    /// The pause is over.
    Slept,
}

/// An event as a mathematical value.
pub enum EventView {
    Response { status: u16, body: Option<JsonView> },
    TransportFailed,
    Slept,
}

impl View for FetchEvent {
    type V = EventView;

    open spec fn view(&self) -> EventView {
        match self {
            FetchEvent::Response { status, body } => EventView::Response {
                status: *status,
                body: optional_view(*body),
            },
            FetchEvent::TransportFailed => EventView::TransportFailed,
            FetchEvent::Slept => EventView::Slept,
        }
    }
}

/// What the machine asks of the driver.
#[derive(Debug, PartialEq)]
pub enum FetchAction {
    /// Send a GET request to this URL, and report the outcome.
    Get(String),
    /// Pause for this many milliseconds, and report `Slept`.
    Sleep(u64),
    /// The fetch is complete, with this result.
    Done(Json),
    /// The fetch has failed.
    Fail(FetchError),
}

/// An action as a mathematical value.
pub enum ActionView {
    Get(Seq<char>),
    Sleep(u64),
    Done(JsonView),
    Fail(FetchError),
}

impl View for FetchAction {
    type V = ActionView;

    open spec fn view(&self) -> ActionView {
        match self {
            FetchAction::Get(url) => ActionView::Get(url@),
            FetchAction::Sleep(ms) => ActionView::Sleep(*ms),
            FetchAction::Done(json) => ActionView::Done(json@),
            FetchAction::Fail(e) => ActionView::Fail(*e),
        }
    }
}

/// Where an exchange stands.
pub enum PhaseView {
    /// The listing was requested.
    AwaitListing,
    /// The listing was answered and the pause is running; the fetch then
    /// ends with this value.
    GuardLatest(JsonView),
    /// The listing was answered and the pause is running; the history of
    /// the device with this address is requested next.
    GuardHistory(Seq<char>),
    /// The history was requested.
    AwaitHistory,
    /// The history was answered and the pause is running; the fetch then
    /// ends with this value.
    GuardResult(JsonView),
    /// The fetch has ended.
    Finished,
}

/// An exchange as a mathematical value.
pub struct FetchView {
    pub credentials: CredentialsView,
    pub retrieve_history: bool,
    pub phase: PhaseView,
}

#[derive(Debug)]
enum Phase {
    AwaitListing,
    GuardLatest(Json),
    GuardHistory(String),
    AwaitHistory,
    GuardResult(Json),
    Finished,
}

/// A running exchange.
#[derive(Debug)]
pub struct Fetch {
    credentials: AmbientWeatherAPICredentials,
    retrieve_history: bool,
    phase: Phase,
}

impl View for Fetch {
    type V = FetchView;

    closed spec fn view(&self) -> FetchView {
        FetchView {
            credentials: self.credentials@,
            retrieve_history: self.retrieve_history,
            phase: match self.phase {
                Phase::AwaitListing => PhaseView::AwaitListing,
                Phase::GuardLatest(payload) => PhaseView::GuardLatest(payload@),
                Phase::GuardHistory(address) => PhaseView::GuardHistory(address@),
                Phase::AwaitHistory => PhaseView::AwaitHistory,
                Phase::GuardResult(body) => PhaseView::GuardResult(body@),
                Phase::Finished => PhaseView::Finished,
            },
        }
    }
}

/// Whether an HTTP status reports success.
pub open spec fn is_success(status: u16) -> bool {
    200 <= status <= 299
}

/// What an event gives as the answer to a request: the JSON body of a
/// response that reports success; a transport error where no response came
/// or the response reports no success; a decode error where the body of a
/// successful response is not JSON. An event that is no answer to a request
/// counts as a failed exchange.
pub open spec fn answer(event: EventView) -> Result<JsonView, FetchError> {
    match event {
        EventView::Response { status, body } => if !is_success(status) {
            Err(FetchError::Transport)
        } else {
            match body {
                Some(json) => Ok(json),
                None => Err(FetchError::Decode),
            }
        },
        EventView::TransportFailed => Err(FetchError::Transport),
        EventView::Slept => Err(FetchError::Transport),
    }
}

/// The element at `device_id` in the listing, whatever it is: an index
/// error where the listing is shorter, a decode error where the listing is
/// not an array.
pub open spec fn select_device(listing: JsonView, device_id: usize) -> Result<
    JsonView,
    FetchError,
> {
    match listing {
        JsonView::Array(devices) => if device_id < devices.len() {
            Ok(devices[device_id as int])
        } else {
            Err(FetchError::Index)
        },
        _ => Err(FetchError::Decode),
    }
}

/// The value of the member `name` of a JSON value: null where the value is
/// no object or has no such member.
pub open spec fn member_or_null(json: JsonView, name: Seq<char>) -> JsonView {
    match json {
        JsonView::Object(members) => match member(members, name) {
            Some(value) => value,
            None => JsonView::Null,
        },
        _ => JsonView::Null,
    }
}

/// The latest reading of a device: its `lastData` member, or null where the
/// device is no object or has no such member.
pub open spec fn last_data(device: JsonView) -> JsonView {
    member_or_null(device, "lastData"@)
}

/// The address that the listing gives for a device: its `macAddress`
/// member, where the device is an object and that member is a string.
pub open spec fn listed_address(device: JsonView) -> Option<Seq<char>> {
    match member_or_null(device, "macAddress"@) {
        JsonView::Text(address) => Some(address),
        _ => None,
    }
}

/// The address under which the history of a device is requested: the JSON
/// text of its listed address without the surrounding quotes. A device
/// without a listed address is a decode error.
pub open spec fn device_address(device: JsonView) -> Result<Seq<char>, FetchError> {
    match listed_address(device) {
        Some(address) => Ok(unquoted(json_string_text(address))),
        None => Err(FetchError::Decode),
    }
}

/// The listed address of the device that an answer to the listing request
/// selects for a history fetch, where that address is plain.
pub open spec fn plain_selection(state: FetchView, event: EventView) -> Option<Seq<char>> {
    match (state.phase, answer(event)) {
        (PhaseView::AwaitListing, Ok(listing)) => match select_device(
            listing,
            state.credentials.device_id,
        ) {
            Ok(device) => match listed_address(device) {
                Some(address) => if state.retrieve_history && is_plain(address) {
                    Some(address)
                } else {
                    None
                },
                None => None,
            },
            Err(_) => None,
        },
        _ => None,
    }
}

/// The exchange that ends with a failure.
pub open spec fn failed(state: FetchView, e: FetchError) -> (FetchView, ActionView) {
    (FetchView { phase: PhaseView::Finished, ..state }, ActionView::Fail(e))
}

/// The step that an answer to the listing request causes. A fetch of the
/// latest reading goes on with the `lastData` of whatever the listing holds
/// at the index; a fetch of the history needs the listed address of a device
/// there.
pub open spec fn after_listing(state: FetchView, listing: JsonView) -> (
    FetchView,
    ActionView,
) {
    match select_device(listing, state.credentials.device_id) {
        Ok(device) => if state.retrieve_history {
            match device_address(device) {
                Ok(address) => (
                    FetchView { phase: PhaseView::GuardHistory(address), ..state },
                    ActionView::Sleep(GUARD_DELAY_MS),
                ),
                Err(e) => failed(state, e),
            }
        } else {
            (
                FetchView { phase: PhaseView::GuardLatest(last_data(device)), ..state },
                ActionView::Sleep(GUARD_DELAY_MS),
            )
        },
        Err(e) => failed(state, e),
    }
}

/// The state after one event, and the action that the driver is to perform
/// next. An event that does not answer the outstanding action ends the fetch
/// as a failed exchange, and so does any event after the end.
pub open spec fn step_spec(state: FetchView, event: EventView) -> (FetchView, ActionView) {
    match state.phase {
        PhaseView::AwaitListing => match answer(event) {
            Ok(listing) => after_listing(state, listing),
            Err(e) => failed(state, e),
        },
        PhaseView::AwaitHistory => match answer(event) {
            Ok(body) => (
                FetchView { phase: PhaseView::GuardResult(body), ..state },
                ActionView::Sleep(GUARD_DELAY_MS),
            ),
            Err(e) => failed(state, e),
        },
        PhaseView::GuardLatest(payload) => if event is Slept {
            (FetchView { phase: PhaseView::Finished, ..state }, ActionView::Done(payload))
        } else {
            failed(state, FetchError::Transport)
        },
        PhaseView::GuardHistory(address) => if event is Slept {
            (
                FetchView { phase: PhaseView::AwaitHistory, ..state },
                ActionView::Get(api_url(state.credentials, address)),
            )
        } else {
            failed(state, FetchError::Transport)
        },
        PhaseView::GuardResult(body) => if event is Slept {
            (FetchView { phase: PhaseView::Finished, ..state }, ActionView::Done(body))
        } else {
            failed(state, FetchError::Transport)
        },
        PhaseView::Finished => failed(state, FetchError::Transport),
    }
}

/// The state in which an exchange starts: the listing was requested.
pub open spec fn begin_spec(credentials: CredentialsView, retrieve_history: bool) -> FetchView {
    FetchView { credentials, retrieve_history, phase: PhaseView::AwaitListing }
}

/// The actions that the machine names in answer to `events`, one for each
/// event up to the end of the fetch.
pub open spec fn actions_after(state: FetchView, events: Seq<EventView>) -> Seq<ActionView>
    decreases events.len(),
{
    if events.len() == 0 || state.phase is Finished {
        Seq::empty()
    } else {
        let (next, action) = step_spec(state, events[0]);
        seq![action] + actions_after(next, events.drop_first())
    }
}

/// All actions of an exchange that is driven by `events`: the first
/// request, and then the answers of the machine.
pub open spec fn transcript(
    credentials: CredentialsView,
    device_mac_address: Seq<char>,
    retrieve_history: bool,
    events: Seq<EventView>,
) -> Seq<ActionView> {
    seq![ActionView::Get(api_url(credentials, device_mac_address))] + actions_after(
        begin_spec(credentials, retrieve_history),
        events,
    )
}

/// Every exchange opens with the request to the device endpoint it was
/// started for, and any later request is the third action: it follows the
/// pause after the answered listing, is made only where the history was
/// asked for, and goes to the endpoint of the device that the listing holds
/// at the index of the credentials, under the address that this device
/// lists.
pub proof fn lemma_requests_follow_the_protocol(
    credentials: CredentialsView,
    device_mac_address: Seq<char>,
    retrieve_history: bool,
    events: Seq<EventView>,
)
    ensures
        ({
            let actions = transcript(credentials, device_mac_address, retrieve_history, events);
            &&& actions[0] == ActionView::Get(api_url(credentials, device_mac_address))
            &&& forall|j: int|
                0 < j < actions.len() && (#[trigger] actions[j]) is Get ==> {
                    &&& j == 2
                    &&& retrieve_history
                    &&& actions[1] == ActionView::Sleep(GUARD_DELAY_MS)
                    &&& answer(events[0]) matches Ok(listing)
                    &&& select_device(listing, credentials.device_id) matches Ok(device)
                    &&& listed_address(device) matches Some(address)
                    &&& actions[j] == ActionView::Get(
                        api_url(credentials, unquoted(json_string_text(address))),
                    )
                }
        }),
{
    reveal_with_fuel(actions_after, 6);
}

/// A fetch of the latest reading whose listing request is answered with
/// an array that reaches the device index makes one request, pauses once,
/// and hands out the `lastData` of the element at that index: null where the
/// element is no object or has no such member.
pub proof fn lemma_latest_exchange(
    credentials: CredentialsView,
    device_mac_address: Seq<char>,
    events: Seq<EventView>,
    devices: Seq<JsonView>,
)
    requires
        events.len() >= 2,
        answer(events[0]) == Ok::<JsonView, FetchError>(JsonView::Array(devices)),
        credentials.device_id < devices.len(),
        events[1] is Slept,
    ensures
        transcript(credentials, device_mac_address, false, events) == seq![
            ActionView::Get(api_url(credentials, device_mac_address)),
            ActionView::Sleep(GUARD_DELAY_MS),
            ActionView::Done(last_data(devices[credentials.device_id as int])),
        ],
{
    reveal_with_fuel(actions_after, 4);
}

/// A fetch of the history whose two requests are answered makes the
/// second request under the address of the selected device, pauses after
/// each answer, and hands out the second answer unchanged.
pub proof fn lemma_history_exchange(
    credentials: CredentialsView,
    device_mac_address: Seq<char>,
    events: Seq<EventView>,
    devices: Seq<JsonView>,
    address: Seq<char>,
    history: JsonView,
)
    requires
        events.len() >= 4,
        answer(events[0]) == Ok::<JsonView, FetchError>(JsonView::Array(devices)),
        credentials.device_id < devices.len(),
        listed_address(devices[credentials.device_id as int]) == Some(address),
        events[1] is Slept,
        answer(events[2]) == Ok::<JsonView, FetchError>(history),
        events[3] is Slept,
    ensures
        transcript(credentials, device_mac_address, true, events) == seq![
            ActionView::Get(api_url(credentials, device_mac_address)),
            ActionView::Sleep(GUARD_DELAY_MS),
            ActionView::Get(api_url(credentials, unquoted(json_string_text(address)))),
            ActionView::Sleep(GUARD_DELAY_MS),
            ActionView::Done(history),
        ],
{
    reveal_with_fuel(actions_after, 6);
}

/// The latest reading of an element that is no object, or that has no
/// `lastData` member, is null.
pub proof fn lemma_last_data_defaults_to_null(device: JsonView)
    requires
        !(device is Object) || member(device->Object_0, "lastData"@) is None,
    ensures
        last_data(device) == JsonView::Null,
{
}

/// A fetch of the history whose listing holds no listed address at the
/// device index, because the element there is no object or its `macAddress`
/// is no string, ends with a decode error, and no second request is made.
pub proof fn lemma_history_needs_a_listed_address(
    credentials: CredentialsView,
    device_mac_address: Seq<char>,
    events: Seq<EventView>,
    devices: Seq<JsonView>,
)
    requires
        events.len() >= 1,
        answer(events[0]) == Ok::<JsonView, FetchError>(JsonView::Array(devices)),
        credentials.device_id < devices.len(),
        listed_address(devices[credentials.device_id as int]) is None,
    ensures
        transcript(credentials, device_mac_address, true, events) == seq![
            ActionView::Get(api_url(credentials, device_mac_address)),
            ActionView::Fail(FetchError::Decode),
        ],
{
    reveal_with_fuel(actions_after, 3);
}

/// A device index beyond the end of the listing ends the exchange with an
/// index error, and no second request is made.
pub proof fn lemma_index_error_ends_the_exchange(
    credentials: CredentialsView,
    device_mac_address: Seq<char>,
    retrieve_history: bool,
    events: Seq<EventView>,
)
    requires
        events.len() > 0,
        answer(events[0]) matches Ok(JsonView::Array(devices)) && credentials.device_id
            >= devices.len(),
    ensures
        transcript(credentials, device_mac_address, retrieve_history, events) == seq![
            ActionView::Get(api_url(credentials, device_mac_address)),
            ActionView::Fail(FetchError::Index),
        ],
{
    reveal_with_fuel(actions_after, 3);
}

/// Two requests of one exchange are separated by the guard delay: the
/// action that follows the first of them is the pause, and the second comes
/// only after it. A result, too, is handed out only after a pause.
pub proof fn lemma_guard_delay_separates_requests(
    credentials: CredentialsView,
    device_mac_address: Seq<char>,
    retrieve_history: bool,
    events: Seq<EventView>,
)
    ensures
        ({
            let actions = transcript(credentials, device_mac_address, retrieve_history, events);
            &&& forall|i: int, j: int|
                0 <= i < j < actions.len() && (#[trigger] actions[i]) is Get
                    && (#[trigger] actions[j]) is Get ==> i + 1 < j && actions[i + 1]
                    == ActionView::Sleep(GUARD_DELAY_MS)
            &&& forall|k: int|
                0 <= k < actions.len() && (#[trigger] actions[k]) is Done ==> k > 0 && actions[k
                    - 1] == ActionView::Sleep(GUARD_DELAY_MS)
        }),
{
    reveal_with_fuel(actions_after, 6);
}

/// Whether an HTTP status reports success.
pub fn status_is_success(status: u16) -> (success: bool)
    ensures
        success == is_success(status),
{
    200 <= status && status <= 299
}

fn read_answer(event: FetchEvent) -> (read: Result<Json, FetchError>)
    ensures
        match read {
            Ok(json) => answer(event@) == Ok::<JsonView, FetchError>(json@),
            Err(e) => answer(event@) == Err::<JsonView, FetchError>(e),
        },
{
    match event {
        FetchEvent::Response { status, body } => {
            if !status_is_success(status) {
                Err(FetchError::Transport)
            } else {
                match body {
                    Some(json) => Ok(json),
                    None => Err(FetchError::Decode),
                }
            }
        },
        FetchEvent::TransportFailed => Err(FetchError::Transport),
        FetchEvent::Slept => Err(FetchError::Transport),
    }
}

fn choose_device(listing: Json, device_id: usize) -> (chosen: Result<Json, FetchError>)
    ensures
        match chosen {
            Ok(device) => select_device(listing@, device_id) == Ok::<JsonView, FetchError>(
                device@,
            ),
            Err(e) => select_device(listing@, device_id) == Err::<JsonView, FetchError>(e),
        },
{
    match listing {
        Json::Array(devices) => {
            proof {
                lemma_array_view(devices);
            }
            match take_item(devices, device_id) {
                Some(device) => Ok(device),
                None => Err(FetchError::Index),
            }
        },
        _ => Err(FetchError::Decode),
    }
}

fn take_last_data(device: Json) -> (payload: Json)
    ensures
        payload@ == last_data(device@),
{
    match device {
        Json::Object(members) => {
            proof {
                lemma_object_view(members);
            }
            match take_member(members, "lastData") {
                Some(value) => value,
                None => Json::Null,
            }
        },
        _ => Json::Null,
    }
}

fn history_address(device: &Json) -> (found: Result<String, FetchError>)
    ensures
        match found {
            Ok(address) => device_address(device@) == Ok::<Seq<char>, FetchError>(address@),
            Err(e) => device_address(device@) == Err::<Seq<char>, FetchError>(e),
        },
        match listed_address(device@) {
            Some(listed) => is_plain(listed) ==> found == Ok::<String, FetchError>(
                found->Ok_0,
            ) && found->Ok_0@ == listed,
            None => true,
        },
{
    match device {
        Json::Object(members) => {
            proof {
                lemma_object_view(*members);
            }
            match lookup(members, "macAddress") {
                Some(Json::Text(address)) => Ok(request_address(address.as_str())),
                _ => Err(FetchError::Decode),
            }
        },
        _ => Err(FetchError::Decode),
    }
}

impl Fetch {
    /// Starts an exchange. The first action is the request to the device
    /// endpoint for `device_mac_address`; the empty address asks for the
    /// listing of all devices.
    pub fn begin(
        credentials: &AmbientWeatherAPICredentials,
        device_mac_address: &str,
        retrieve_history: bool,
    ) -> (started: (Fetch, FetchAction))
        ensures
            started.0@ == begin_spec(credentials@, retrieve_history),
            started.1@ == ActionView::Get(api_url(credentials@, device_mac_address@)),
    {
        let url = get_aw_api_url(credentials, device_mac_address);
        let fetch = Fetch {
            credentials: credentials.duplicate(),
            retrieve_history,
            phase: Phase::AwaitListing,
        };
        (fetch, FetchAction::Get(url))
    }

    /// Takes the outcome of the last action and names the next one. Where
    /// the listing gives a plain address for the selected device, the
    /// history is requested under that very address.
    pub fn step(self, event: FetchEvent) -> (stepped: (Fetch, FetchAction))
        ensures
            (stepped.0@, stepped.1@) == step_spec(self@, event@),
            match plain_selection(self@, event@) {
                Some(listed) => stepped.0@.phase == PhaseView::GuardHistory(listed),
                None => true,
            },
    {
        let Fetch { credentials, retrieve_history, phase } = self;
        match phase {
            Phase::AwaitListing => match read_answer(event) {
                Ok(listing) => match choose_device(listing, credentials.device_id) {
                    Ok(device) => {
                        if retrieve_history {
                            match history_address(&device) {
                                Ok(address) => (
                                    Fetch {
                                        credentials,
                                        retrieve_history,
                                        phase: Phase::GuardHistory(address),
                                    },
                                    FetchAction::Sleep(GUARD_DELAY_MS),
                                ),
                                Err(e) => (
                                    Fetch { credentials, retrieve_history, phase: Phase::Finished },
                                    FetchAction::Fail(e),
                                ),
                            }
                        } else {
                            let payload = take_last_data(device);
                            (
                                Fetch {
                                    credentials,
                                    retrieve_history,
                                    phase: Phase::GuardLatest(payload),
                                },
                                FetchAction::Sleep(GUARD_DELAY_MS),
                            )
                        }
                    },
                    Err(e) => (
                        Fetch { credentials, retrieve_history, phase: Phase::Finished },
                        FetchAction::Fail(e),
                    ),
                },
                Err(e) => (
                    Fetch { credentials, retrieve_history, phase: Phase::Finished },
                    FetchAction::Fail(e),
                ),
            },
            Phase::AwaitHistory => match read_answer(event) {
                Ok(body) => (
                    Fetch { credentials, retrieve_history, phase: Phase::GuardResult(body) },
                    FetchAction::Sleep(GUARD_DELAY_MS),
                ),
                Err(e) => (
                    Fetch { credentials, retrieve_history, phase: Phase::Finished },
                    FetchAction::Fail(e),
                ),
            },
            Phase::GuardLatest(payload) => match event {
                FetchEvent::Slept => (
                    Fetch { credentials, retrieve_history, phase: Phase::Finished },
                    FetchAction::Done(payload),
                ),
                _ => (
                    Fetch { credentials, retrieve_history, phase: Phase::Finished },
                    FetchAction::Fail(FetchError::Transport),
                ),
            },
            Phase::GuardHistory(address) => match event {
                FetchEvent::Slept => {
                    let url = get_aw_api_url(&credentials, address.as_str());
                    (
                        Fetch { credentials, retrieve_history, phase: Phase::AwaitHistory },
                        FetchAction::Get(url),
                    )
                },
                _ => (
                    Fetch { credentials, retrieve_history, phase: Phase::Finished },
                    FetchAction::Fail(FetchError::Transport),
                ),
            },
            Phase::GuardResult(body) => match event {
                FetchEvent::Slept => (
                    Fetch { credentials, retrieve_history, phase: Phase::Finished },
                    FetchAction::Done(body),
                ),
                _ => (
                    Fetch { credentials, retrieve_history, phase: Phase::Finished },
                    FetchAction::Fail(FetchError::Transport),
                ),
            },
            Phase::Finished => (
                Fetch { credentials, retrieve_history, phase: Phase::Finished },
                FetchAction::Fail(FetchError::Transport),
            ),
        }
    }
}

} // verus!
