use raw_input::error::{win32_status, ERROR_INSUFFICIENT_BUFFER, ERROR_INVALID_DATA};
use raw_input::query::{begin_query, query_sized, QueryAction, QueryReply, QueryState, QUERY_FAILED};
use raw_input::registration::{
    check_requests, keyboard_requests, register_raw_input, RegistrationError, RegistrationRequest,
};
use raw_input::window::{
    create_window, register_window_class, window_handle_message, MessageRoute, WindowError,
    WindowHandle, WM_INPUT, WM_INPUT_DEVICE_CHANGE,
};

fn reply(returned: u32, size: u32, last_error: u32) -> QueryReply {
    QueryReply { returned, size, last_error }
}

#[test]
fn query_begins_with_the_probe() {
    assert_eq!(begin_query(), QueryAction::Probe);
    assert_eq!(begin_query().awaits(), Some(QueryState::Probing));
}

#[test]
fn probe_is_followed_by_a_fill_of_the_size_asked_for() {
    assert_eq!(
        query_sized(QueryState::Probing, reply(0, 32, 0)),
        QueryAction::Fill { capacity: 32 }
    );
    assert_eq!(
        QueryAction::Fill { capacity: 32 }.awaits(),
        Some(QueryState::Filling { capacity: 32 })
    );
}

#[test]
fn probe_that_asks_for_nothing_finishes_empty() {
    assert_eq!(query_sized(QueryState::Probing, reply(0, 0, 0)), QueryAction::Finish { filled: 0 });
    assert_eq!(QueryAction::Finish { filled: 0 }.awaits(), None);
}

#[test]
fn failed_probe_fails_the_query() {
    assert_eq!(
        query_sized(QueryState::Probing, reply(QUERY_FAILED, 0, 6)),
        QueryAction::Fail { os_code: 6 }
    );
    assert_eq!(
        query_sized(QueryState::Probing, reply(QUERY_FAILED, 7, ERROR_INSUFFICIENT_BUFFER)),
        QueryAction::Fail { os_code: ERROR_INSUFFICIENT_BUFFER }
    );
    assert_eq!(QueryAction::Fail { os_code: 6 }.awaits(), None);
}

#[test]
fn fill_finishes_with_what_was_filled() {
    assert_eq!(
        query_sized(QueryState::Filling { capacity: 4 }, reply(3, 4, 0)),
        QueryAction::Finish { filled: 3 }
    );
    assert_eq!(
        query_sized(QueryState::Filling { capacity: 4 }, reply(4, 4, 0)),
        QueryAction::Finish { filled: 4 }
    );
}

#[test]
fn fill_into_too_small_a_buffer_starts_over() {
    let action = query_sized(
        QueryState::Filling { capacity: 2 },
        reply(QUERY_FAILED, 3, ERROR_INSUFFICIENT_BUFFER),
    );
    assert_eq!(action, QueryAction::Probe);
    assert_eq!(action.awaits(), Some(QueryState::Probing));
    assert_eq!(
        query_sized(QueryState::Probing, reply(0, 3, 0)),
        QueryAction::Fill { capacity: 3 }
    );
}

#[test]
fn failed_fill_fails_the_query() {
    assert_eq!(
        query_sized(QueryState::Filling { capacity: 2 }, reply(QUERY_FAILED, 2, 5)),
        QueryAction::Fail { os_code: 5 }
    );
}

#[test]
fn fill_that_claims_too_much_fails_the_query() {
    assert_eq!(
        query_sized(QueryState::Filling { capacity: 2 }, reply(3, 2, 0)),
        QueryAction::Fail { os_code: ERROR_INVALID_DATA }
    );
    assert_eq!(ERROR_INSUFFICIENT_BUFFER, 122);
    assert_eq!(QUERY_FAILED, u32::MAX);
}

#[test]
fn keyboard_interest_is_one_request() {
    assert_eq!(
        keyboard_requests(0x55),
        vec![RegistrationRequest { usage_page: 1, usage: 6, flags: 0x30, target_window: 0x55 }]
    );
}

#[test]
fn empty_registration_is_refused() {
    assert_eq!(check_requests(&[]), Err(RegistrationError::NoRequests));
    assert_eq!(register_raw_input(&[], Ok(())), Err(RegistrationError::NoRequests));
    assert_eq!(register_raw_input(&[], Err(87)), Err(RegistrationError::NoRequests));
}

#[test]
fn registration_follows_the_answer() {
    let requests = keyboard_requests(1);
    assert_eq!(check_requests(&requests), Ok(()));
    assert_eq!(register_raw_input(&requests, Ok(())), Ok(()));
    assert_eq!(
        register_raw_input(&requests, Err(87)),
        Err(RegistrationError::Rejected { os_code: 87 })
    );
}

#[test]
fn registering_twice_gives_the_same_outcome() {
    let requests = keyboard_requests(1);
    assert_eq!(register_raw_input(&requests, Ok(())), register_raw_input(&requests, Ok(())));
}

#[test]
fn window_class_atom_zero_is_a_failure() {
    assert_eq!(
        register_window_class(0, 1410),
        Err(WindowError::ClassRegistration { os_code: 1410 })
    );
    assert_eq!(register_window_class(0xC001, 1410), Ok(0xC001));
}

#[test]
fn window_handle_zero_is_a_failure() {
    assert_eq!(create_window(0, 1407), Err(WindowError::Creation { os_code: 1407 }));
    assert_eq!(create_window(0x20A4, 1407), Ok(WindowHandle { raw: 0x20A4 }));
}

#[test]
fn messages_are_routed_by_kind() {
    assert_eq!(window_handle_message(WM_INPUT), MessageRoute::Decode);
    assert_eq!(window_handle_message(0x00FF), MessageRoute::Decode);
    assert_eq!(window_handle_message(WM_INPUT_DEVICE_CHANGE), MessageRoute::DeviceChange);
    assert_eq!(window_handle_message(0x00FE), MessageRoute::DeviceChange);
    assert_eq!(window_handle_message(0), MessageRoute::Default);
    assert_eq!(window_handle_message(0x0100), MessageRoute::Default);
}

#[test]
fn wrapped_status_codes_are_unwrapped() {
    assert_eq!(win32_status(0x8007_007A), ERROR_INSUFFICIENT_BUFFER);
    assert_eq!(win32_status(0x8007_000D), ERROR_INVALID_DATA);
    assert_eq!(win32_status(0x8007_0000), 0);
    assert_eq!(win32_status(0x8007_FFFF), 0xFFFF);
}

#[test]
fn other_codes_stand_for_themselves() {
    assert_eq!(win32_status(0), 0);
    assert_eq!(win32_status(122), 122);
    assert_eq!(win32_status(0x8006_FFFF), 0x8006_FFFF);
    assert_eq!(win32_status(0x8008_0000), 0x8008_0000);
    assert_eq!(win32_status(0x8000_4005), 0x8000_4005);
    assert_eq!(win32_status(u32::MAX), u32::MAX);
}
