use ambient_weather_api::fetch::{
    status_is_success, Fetch, FetchAction, FetchEvent, GUARD_DELAY_MS,
};
use ambient_weather_api::{decode_many, decode_one};
use ambient_weather_api::{AmbientWeatherAPICredentials, FetchError, Json, Number, WeatherData};

fn credentials(device_id: usize) -> AmbientWeatherAPICredentials {
    AmbientWeatherAPICredentials {
        api_key: String::from("K"),
        app_key: String::from("A"),
        device_id,
        use_new_api_endpoint: false,
    }
}

fn object(members: Vec<(&str, Json)>) -> Json {
    Json::Object(
        members
            .into_iter()
            .map(|(name, value)| (name.to_string(), value))
            .collect(),
    )
}

fn decimal(value: f64) -> Json {
    Json::Number(Number::Real {
        bits: value.to_bits(),
    })
}

fn text(value: &str) -> Json {
    Json::Text(value.to_string())
}

fn device(address: &str, tempf: f64) -> Json {
    object(vec![
        ("macAddress", text(address)),
        ("lastData", object(vec![("tempf", decimal(tempf))])),
    ])
}

/// A successful response with a JSON body.
fn answered(body: Json) -> FetchEvent {
    FetchEvent::Response {
        status: 200,
        body: Some(body),
    }
}

/// A successful response whose body is not JSON.
fn not_json() -> FetchEvent {
    FetchEvent::Response {
        status: 200,
        body: None,
    }
}

const LISTING_URL: &str = "https://api.ambientweather.net/v1/devices/?applicationKey=A&apiKey=K";

/// Feeds the events to a new exchange and collects every action.
fn drive(
    credentials: &AmbientWeatherAPICredentials,
    retrieve_history: bool,
    events: Vec<FetchEvent>,
) -> Vec<FetchAction> {
    let (mut fetch, first) = Fetch::begin(credentials, "", retrieve_history);
    let mut actions = vec![first];
    for event in events {
        let (next, action) = fetch.step(event);
        fetch = next;
        actions.push(action);
    }
    actions
}

#[test]
fn guard_delay_is_one_second() {
    assert_eq!(GUARD_DELAY_MS, 1000);
}

#[test]
fn first_request_goes_to_the_listing() {
    let (_, action) = Fetch::begin(&credentials(0), "", false);
    assert_eq!(action, FetchAction::Get(LISTING_URL.to_string()));
    let (_, action) = Fetch::begin(&credentials(0), "", true);
    assert_eq!(action, FetchAction::Get(LISTING_URL.to_string()));
}

#[test]
fn first_request_for_a_given_address() {
    let (_, action) = Fetch::begin(&credentials(0), "AA:BB", false);
    assert_eq!(
        action,
        FetchAction::Get(
            "https://api.ambientweather.net/v1/devices/AA:BB?applicationKey=A&apiKey=K"
                .to_string()
        )
    );
}

#[test]
fn latest_reading_of_the_only_device() {
    let listing = Json::Array(vec![device("AA:BB", 72.5)]);
    let mut actions = drive(
        &credentials(0),
        false,
        vec![answered(listing), FetchEvent::Slept],
    );
    assert_eq!(actions.len(), 3);
    let last = actions.pop().unwrap();
    assert_eq!(actions[0], FetchAction::Get(LISTING_URL.to_string()));
    assert_eq!(actions[1], FetchAction::Sleep(1000));
    let payload = match last {
        FetchAction::Done(payload) => payload,
        other => panic!("the fetch ended with {:?}", other),
    };
    assert_eq!(payload, object(vec![("tempf", decimal(72.5))]));
    let record = decode_one(&payload);
    let expected = WeatherData {
        tempf: Some(Number::Real {
            bits: 72.5f64.to_bits(),
        }),
        ..WeatherData::default()
    };
    assert_eq!(record, expected);
    match record.tempf {
        Some(Number::Real { bits }) => assert_eq!(f64::from_bits(bits), 72.5),
        other => panic!("the temperature is {:?}", other),
    }
}

#[test]
fn latest_reading_of_the_second_device() {
    let listing = Json::Array(vec![device("AA:BB", 1.0), device("CC:DD", 2.0)]);
    let actions = drive(
        &credentials(1),
        false,
        vec![answered(listing), FetchEvent::Slept],
    );
    assert_eq!(
        actions[2],
        FetchAction::Done(object(vec![("tempf", decimal(2.0))]))
    );
}

#[test]
fn device_without_last_data_gives_null_and_the_empty_record() {
    let listing = Json::Array(vec![object(vec![("macAddress", text("AA:BB"))])]);
    let mut actions = drive(
        &credentials(0),
        false,
        vec![answered(listing), FetchEvent::Slept],
    );
    let last = actions.pop().unwrap();
    assert_eq!(last, FetchAction::Done(Json::Null));
    assert_eq!(decode_one(&Json::Null), WeatherData::default());
}

#[test]
fn latest_reading_does_not_need_an_address() {
    let listing = Json::Array(vec![object(vec![(
        "lastData",
        object(vec![("uv", Json::Number(Number::Int(4)))]),
    )])]);
    let actions = drive(
        &credentials(0),
        false,
        vec![answered(listing), FetchEvent::Slept],
    );
    assert_eq!(
        actions[2],
        FetchAction::Done(object(vec![("uv", Json::Number(Number::Int(4)))]))
    );
}

#[test]
fn history_of_the_selected_device() {
    let listing = Json::Array(vec![device("AA:BB", 1.0), device("CC:DD:EE", 2.0)]);
    let history = || {
        Json::Array(vec![
            object(vec![("tempf", decimal(72.0))]),
            object(vec![("tempf", decimal(71.0))]),
        ])
    };
    let actions = drive(
        &credentials(1),
        true,
        vec![
            answered(listing),
            FetchEvent::Slept,
            answered(history()),
            FetchEvent::Slept,
        ],
    );
    assert_eq!(
        actions,
        vec![
            FetchAction::Get(LISTING_URL.to_string()),
            FetchAction::Sleep(1000),
            FetchAction::Get(
                "https://api.ambientweather.net/v1/devices/CC:DD:EE?applicationKey=A&apiKey=K"
                    .to_string()
            ),
            FetchAction::Sleep(1000),
            FetchAction::Done(history()),
        ]
    );
    let records = decode_many(&history()).unwrap();
    assert_eq!(records.len(), 2);
    assert_eq!(
        records[0].tempf,
        Some(Number::Real {
            bits: 72.0f64.to_bits()
        })
    );
    assert_eq!(
        records[1].tempf,
        Some(Number::Real {
            bits: 71.0f64.to_bits()
        })
    );
}

#[test]
fn history_on_the_alternate_host() {
    let mut c = credentials(0);
    c.use_new_api_endpoint = true;
    let listing = Json::Array(vec![device("AA:BB", 1.0)]);
    let actions = drive(
        &c,
        true,
        vec![answered(listing), FetchEvent::Slept],
    );
    assert_eq!(
        actions[0],
        FetchAction::Get(
            "https://rt.ambientweather.net/v1/devices/?applicationKey=A&apiKey=K".to_string()
        )
    );
    assert_eq!(
        actions[2],
        FetchAction::Get(
            "https://rt.ambientweather.net/v1/devices/AA:BB?applicationKey=A&apiKey=K".to_string()
        )
    );
}

#[test]
fn history_address_keeps_the_escapes_of_its_json_text() {
    let listing = Json::Array(vec![device("A\"B", 1.0)]);
    let actions = drive(
        &credentials(0),
        true,
        vec![answered(listing), FetchEvent::Slept],
    );
    assert_eq!(
        actions[2],
        FetchAction::Get(
            "https://api.ambientweather.net/v1/devices/A\\\"B?applicationKey=A&apiKey=K"
                .to_string()
        )
    );
}

#[test]
fn history_body_is_handed_out_unchanged() {
    let listing = Json::Array(vec![device("AA:BB", 1.0)]);
    let actions = drive(
        &credentials(0),
        true,
        vec![
            answered(listing),
            FetchEvent::Slept,
            answered(text("not a list")),
            FetchEvent::Slept,
        ],
    );
    assert_eq!(actions[4], FetchAction::Done(text("not a list")));
    assert_eq!(decode_many(&text("not a list")), Err(FetchError::Decode));
}

#[test]
fn index_beyond_the_listing_fails_before_a_second_request() {
    for retrieve_history in [false, true] {
        let listing = Json::Array(vec![device("AA:BB", 1.0), device("CC:DD", 2.0)]);
        let actions = drive(
            &credentials(5),
            retrieve_history,
            vec![answered(listing)],
        );
        assert_eq!(
            actions,
            vec![
                FetchAction::Get(LISTING_URL.to_string()),
                FetchAction::Fail(FetchError::Index),
            ]
        );
    }
}

#[test]
fn index_at_the_end_of_the_listing_fails() {
    let listing = Json::Array(vec![device("AA:BB", 1.0), device("CC:DD", 2.0)]);
    let actions = drive(&credentials(2), true, vec![answered(listing)]);
    assert_eq!(actions[1], FetchAction::Fail(FetchError::Index));
    let actions = drive(
        &credentials(0),
        false,
        vec![answered(Json::Array(vec![]))],
    );
    assert_eq!(actions[1], FetchAction::Fail(FetchError::Index));
}

#[test]
fn listing_that_is_no_array_is_a_decode_error() {
    for listing in [Json::Null, device("AA:BB", 1.0), text("[]")] {
        let actions = drive(&credentials(0), false, vec![answered(listing)]);
        assert_eq!(actions[1], FetchAction::Fail(FetchError::Decode));
    }
}

#[test]
fn history_of_a_device_that_is_no_object_is_a_decode_error() {
    for element in [
        text("device"),
        Json::Null,
        Json::Number(Number::Int(3)),
        Json::Array(vec![]),
    ] {
        let listing = Json::Array(vec![device("AA:BB", 1.0), element]);
        let actions = drive(&credentials(1), true, vec![answered(listing)]);
        assert_eq!(
            actions,
            vec![
                FetchAction::Get(LISTING_URL.to_string()),
                FetchAction::Fail(FetchError::Decode),
            ]
        );
    }
}

#[test]
fn latest_reading_of_a_device_that_is_no_object_is_null() {
    for element in [
        text("device"),
        Json::Null,
        Json::Bool(true),
        Json::Number(Number::Int(3)),
        Json::Array(vec![object(vec![("lastData", decimal(1.0))])]),
    ] {
        let listing = Json::Array(vec![device("AA:BB", 1.0), element]);
        let actions = drive(
            &credentials(1),
            false,
            vec![answered(listing), FetchEvent::Slept],
        );
        assert_eq!(
            actions,
            vec![
                FetchAction::Get(LISTING_URL.to_string()),
                FetchAction::Sleep(1000),
                FetchAction::Done(Json::Null),
            ]
        );
    }
    assert_eq!(decode_one(&Json::Null), WeatherData::default());
}

#[test]
fn latest_reading_that_is_no_object_gives_the_empty_record() {
    for last_data in [
        Json::Null,
        Json::Number(Number::Int(3)),
        text("x"),
        Json::Array(vec![]),
    ] {
        let expected = match &last_data {
            Json::Null => Json::Null,
            Json::Number(n) => Json::Number(*n),
            Json::Text(t) => Json::Text(t.clone()),
            _ => Json::Array(vec![]),
        };
        let listing = Json::Array(vec![object(vec![
            ("macAddress", text("AA:BB")),
            ("lastData", last_data),
        ])]);
        let mut actions = drive(
            &credentials(0),
            false,
            vec![answered(listing), FetchEvent::Slept],
        );
        assert_eq!(actions[1], FetchAction::Sleep(1000));
        let payload = match actions.pop().unwrap() {
            FetchAction::Done(payload) => payload,
            other => panic!("the fetch ended with {:?}", other),
        };
        assert_eq!(payload, expected);
        assert_eq!(decode_one(&payload), WeatherData::default());
    }
}

#[test]
fn latest_reading_depends_on_the_selected_element_alone() {
    let selected = || object(vec![("lastData", object(vec![("tempf", decimal(60.5))]))]);
    let first = Json::Array(vec![device("AA:BB", 1.0), selected(), Json::Null]);
    let second = Json::Array(vec![text("other"), selected()]);
    let mut other_keys = credentials(1);
    other_keys.api_key = String::from("another");
    other_keys.use_new_api_endpoint = true;
    let a = drive(
        &credentials(1),
        false,
        vec![answered(first), FetchEvent::Slept],
    );
    let b = drive(&other_keys, false, vec![answered(second), FetchEvent::Slept]);
    assert_eq!(a[2], FetchAction::Done(object(vec![("tempf", decimal(60.5))])));
    assert_eq!(a[2], b[2]);
}

#[test]
fn history_needs_a_listed_address() {
    let without = object(vec![("lastData", object(vec![]))]);
    let with_number = object(vec![("macAddress", Json::Number(Number::Int(12)))]);
    let with_null = object(vec![("macAddress", Json::Null)]);
    for device in [without, with_number, with_null] {
        let actions = drive(
            &credentials(0),
            true,
            vec![answered(Json::Array(vec![device]))],
        );
        assert_eq!(
            actions,
            vec![
                FetchAction::Get(LISTING_URL.to_string()),
                FetchAction::Fail(FetchError::Decode),
            ]
        );
    }
}

#[test]
fn body_that_is_not_json_is_a_decode_error() {
    let actions = drive(&credentials(0), false, vec![not_json()]);
    assert_eq!(actions[1], FetchAction::Fail(FetchError::Decode));
    let listing = Json::Array(vec![device("AA:BB", 1.0)]);
    let actions = drive(
        &credentials(0),
        true,
        vec![answered(listing), FetchEvent::Slept, not_json()],
    );
    assert_eq!(actions[3], FetchAction::Fail(FetchError::Decode));
}

#[test]
fn failed_request_is_a_transport_error() {
    let actions = drive(&credentials(0), false, vec![FetchEvent::TransportFailed]);
    assert_eq!(
        actions,
        vec![
            FetchAction::Get(LISTING_URL.to_string()),
            FetchAction::Fail(FetchError::Transport),
        ]
    );
    let listing = Json::Array(vec![device("AA:BB", 1.0)]);
    let actions = drive(
        &credentials(0),
        true,
        vec![
            answered(listing),
            FetchEvent::Slept,
            FetchEvent::TransportFailed,
        ],
    );
    assert_eq!(actions[3], FetchAction::Fail(FetchError::Transport));
}

#[test]
fn response_without_success_is_a_transport_error() {
    for status in [0u16, 100, 199, 300, 301, 400, 401, 404, 429, 500, 503, u16::MAX] {
        for body in [None, Some(Json::Array(vec![device("AA:BB", 1.0)]))] {
            let actions = drive(
                &credentials(0),
                false,
                vec![FetchEvent::Response { status, body }],
            );
            assert_eq!(actions[1], FetchAction::Fail(FetchError::Transport));
        }
    }
    let listing = Json::Array(vec![device("AA:BB", 1.0)]);
    let actions = drive(
        &credentials(0),
        true,
        vec![
            answered(listing),
            FetchEvent::Slept,
            FetchEvent::Response {
                status: 500,
                body: Some(Json::Array(vec![])),
            },
        ],
    );
    assert_eq!(actions[3], FetchAction::Fail(FetchError::Transport));
}

#[test]
fn every_status_from_200_to_299_is_a_success() {
    for status in [200u16, 201, 204, 250, 299] {
        let listing = Json::Array(vec![device("AA:BB", 1.0)]);
        let actions = drive(
            &credentials(0),
            false,
            vec![FetchEvent::Response {
                status,
                body: Some(listing),
            }],
        );
        assert_eq!(actions[1], FetchAction::Sleep(1000));
        assert_eq!(status_is_success(status), true);
    }
    assert_eq!(status_is_success(199), false);
    assert_eq!(status_is_success(300), false);
}

#[test]
fn event_out_of_turn_ends_the_fetch() {
    let actions = drive(&credentials(0), false, vec![FetchEvent::Slept]);
    assert_eq!(actions[1], FetchAction::Fail(FetchError::Transport));

    let listing = || Json::Array(vec![device("AA:BB", 1.0)]);
    let actions = drive(
        &credentials(0),
        false,
        vec![answered(listing()), answered(listing())],
    );
    assert_eq!(actions[2], FetchAction::Fail(FetchError::Transport));

    let actions = drive(
        &credentials(0),
        true,
        vec![
            answered(listing()),
            FetchEvent::Slept,
            FetchEvent::Slept,
        ],
    );
    assert_eq!(actions[3], FetchAction::Fail(FetchError::Transport));
}

#[test]
fn event_after_the_end_is_a_failure() {
    let listing = Json::Array(vec![device("AA:BB", 1.0)]);
    let actions = drive(
        &credentials(0),
        false,
        vec![
            answered(listing),
            FetchEvent::Slept,
            FetchEvent::Slept,
        ],
    );
    assert_eq!(actions[3], FetchAction::Fail(FetchError::Transport));
}

#[test]
fn pause_stands_between_the_two_requests() {
    let listing = Json::Array(vec![device("AA:BB", 1.0)]);
    let actions = drive(
        &credentials(0),
        true,
        vec![
            answered(listing),
            FetchEvent::Slept,
            answered(Json::Array(vec![])),
            FetchEvent::Slept,
        ],
    );
    let requests: Vec<usize> = actions
        .iter()
        .enumerate()
        .filter(|(_, action)| matches!(action, FetchAction::Get(_)))
        .map(|(i, _)| i)
        .collect();
    assert_eq!(requests, vec![0, 2]);
    assert_eq!(actions[1], FetchAction::Sleep(GUARD_DELAY_MS));
    assert_eq!(actions[3], FetchAction::Sleep(GUARD_DELAY_MS));
}
