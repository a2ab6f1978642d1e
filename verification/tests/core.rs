use esp_remote::api::{decode_send_message, decode_updates, Esp32Api, EspBotError};
use esp_remote::config::{create_config, select_auth, ConfigError, WifiAuth};
use esp_remote::dispatch::{parse_action, plan, pulse_sequence, Action, PinLevel, PulseStep};
use esp_remote::poller::{handle_poll_response, initial_offset, process_batch};
use esp_remote::transport::{classify_response, error_snippet, read_body_chunked};
use esp_remote::types::{Message, Update, UpdateContent};

fn msg(chat_id: i64, text: Option<&str>) -> Message {
    Message { message_id: 1, chat_id, text: text.map(|t| t.to_string()) }
}

// Transport: a success body survives chunked reading unchanged.

#[test]
fn chunked_read_empty_body() {
    let body: Vec<u8> = Vec::new();
    assert_eq!(read_body_chunked(&body, 4), body);
}

#[test]
fn chunked_read_exact_multiple() {
    let body: Vec<u8> = vec![1, 2, 3, 4];
    assert_eq!(read_body_chunked(&body, 4), body);
}

#[test]
fn chunked_read_partial_last_chunk() {
    let body: Vec<u8> = vec![1, 2, 3, 4, 5];
    assert_eq!(read_body_chunked(&body, 4), body);
}

#[test]
fn chunked_read_large_body() {
    let body: Vec<u8> = (0..1024u32).map(|i| (i % 251) as u8).collect();
    assert_eq!(read_body_chunked(&body, 4), body);
    assert_eq!(read_body_chunked(&body, 3), body);
    assert_eq!(read_body_chunked(&body, 1000), body);
}

#[test]
fn classify_success_returns_body_unmodified() {
    let body: Vec<u8> = vec![9, 8, 7];
    match classify_response(200, body.clone()) {
        Ok(b) => assert_eq!(b, body),
        Err(_) => panic!("2xx must succeed"),
    }
    assert!(classify_response(299, vec![]).is_ok());
}

#[test]
fn classify_error_snippet_is_truncated() {
    let body: Vec<u8> = (0..1000u32).map(|i| (i % 7) as u8).collect();
    match classify_response(500, body.clone()) {
        Ok(_) => panic!("5xx must fail"),
        Err(e) => {
            assert_eq!(e.code, 500);
            assert_eq!(e.snippet.len(), 256);
            assert_eq!(&e.snippet[..], &body[..256]);
        }
    }
}

#[test]
fn classify_error_tolerates_invalid_encoding() {
    // A body that is not valid UTF-8 and longer than the snippet bound.
    let body: Vec<u8> = vec![0xFF; 400];
    match classify_response(404, body) {
        Ok(_) => panic!("404 must fail"),
        Err(e) => {
            assert_eq!(e.code, 404);
            assert_eq!(e.snippet, vec![0xFF; 256]);
        }
    }
}

#[test]
fn short_error_body_kept_whole() {
    let body: Vec<u8> = vec![1, 2, 3];
    assert_eq!(error_snippet(&body), body);
}

// Client: URL building and request encoding.

#[test]
fn api_url_appends_credential() {
    let api = Esp32Api::new("abc123");
    assert_eq!(api.api_url, "https://api.telegram.org/botabc123");
    assert_eq!(api.method_url("getUpdates"), "https://api.telegram.org/botabc123/getUpdates");
}

#[test]
fn get_updates_request_encodes_params() {
    let api = Esp32Api::new("t");
    let (url, body) = api.get_updates_request(Some(1), Some(120), Some(3));
    assert_eq!(url, "https://api.telegram.org/bott/getUpdates");
    assert_eq!(body, br#"{"offset":3,"limit":1,"timeout":120}"#.to_vec());
}

#[test]
fn get_updates_request_omits_absent_params() {
    let api = Esp32Api::new("t");
    let (_, body) = api.get_updates_request(Some(1), None, Some(-1));
    assert_eq!(body, br#"{"offset":-1,"limit":1}"#.to_vec());
}

#[test]
fn send_message_request_encodes_params() {
    let api = Esp32Api::new("t");
    let (url, body) = api.send_message_request(99, "Power on");
    assert_eq!(url, "https://api.telegram.org/bott/sendMessage");
    assert_eq!(body, br#"{"chat_id":99,"text":"Power on"}"#.to_vec());
}

#[test]
fn paramless_request_sends_empty_body() {
    let api = Esp32Api::new("t");
    let (url, body) = api.request_without_params("getMe");
    assert_eq!(url, "https://api.telegram.org/bott/getMe");
    assert!(body.is_empty());
}

#[test]
fn form_data_requests_are_refused_without_io() {
    let api = Esp32Api::new("t");
    assert!(matches!(api.request_with_form_data("sendDocument"), Err(EspBotError::Unsupported)));
}

// Client: the two-step decode fallback.

#[test]
fn decode_updates_success_envelope() {
    let body = br#"{"ok":true,"result":[{"update_id":10,"message":{"message_id":5,"date":0,"chat":{"id":99,"type":"private"},"text":"/reboot"}}]}"#.to_vec();
    match decode_updates(&body) {
        Ok(us) => {
            assert_eq!(us.len(), 1);
            assert_eq!(us[0].update_id, 10);
            match &us[0].content {
                UpdateContent::Message(m) => {
                    assert_eq!(m.message_id, 5);
                    assert_eq!(m.chat_id, 99);
                    assert_eq!(m.text.as_deref(), Some("/reboot"));
                }
                UpdateContent::Other => panic!("expected a message update"),
            }
        }
        Err(_) => panic!("well-formed success envelope must decode"),
    }
}

#[test]
fn decode_updates_unhandled_kind_is_other() {
    let body = br#"{"ok":true,"result":[{"update_id":11,"poll_answer":{"poll_id":"p","user":{"id":1,"is_bot":false,"first_name":"x"},"option_ids":[],"option_persistent_ids":[]}}]}"#.to_vec();
    match decode_updates(&body) {
        Ok(us) => {
            assert_eq!(us.len(), 1);
            assert_eq!(us[0].update_id, 11);
            assert!(matches!(us[0].content, UpdateContent::Other));
        }
        Err(_) => panic!("well-formed envelope must decode"),
    }
}

#[test]
fn decode_updates_error_envelope() {
    let body = br#"{"ok":false,"error_code":404,"description":"Not Found"}"#.to_vec();
    match decode_updates(&body) {
        Err(EspBotError::Api(info)) => {
            assert_eq!(info.error_code, 404);
            assert_eq!(info.description, "Not Found");
        }
        _ => panic!("error envelope must map to the remote-API error"),
    }
}

#[test]
fn decode_updates_garbage_is_serialization_error() {
    let body = b"not json at all".to_vec();
    match decode_updates(&body) {
        Err(EspBotError::Serde(msg)) => assert!(!msg.is_empty()),
        _ => panic!("undecodable bytes must yield the serialization error"),
    }
}

#[test]
fn decode_send_message_fallback_chain() {
    let ok = br#"{"ok":true,"result":{"message_id":7,"date":0,"chat":{"id":99,"type":"private"},"text":"Power on"}}"#.to_vec();
    match decode_send_message(&ok) {
        Ok(m) => {
            assert_eq!(m.message_id, 7);
            assert_eq!(m.chat_id, 99);
        }
        Err(_) => panic!("well-formed reply must decode"),
    }
    let err = br#"{"ok":false,"error_code":400,"description":"Bad Request"}"#.to_vec();
    assert!(matches!(decode_send_message(&err), Err(EspBotError::Api(_))));
    let garbage = br#"{"ok":true}"#.to_vec();
    assert!(matches!(decode_send_message(&garbage), Err(EspBotError::Serde(_))));
}

// Poller: the offset cursor.

#[test]
fn initial_offset_without_history_is_zero() {
    assert_eq!(initial_offset(None), 0);
}

#[test]
fn initial_offset_is_one_past_latest() {
    assert_eq!(initial_offset(Some(41)), 42);
}

#[test]
fn batch_advances_offset_past_every_update() {
    let batch = vec![
        Update { update_id: 5, content: UpdateContent::Other },
        Update { update_id: 6, content: UpdateContent::Message(msg(99, Some("/reboot"))) },
        Update { update_id: 8, content: UpdateContent::Other },
    ];
    let (off, msgs) = process_batch(0, batch);
    assert_eq!(off, 9);
    assert_eq!(msgs.len(), 1);
    assert_eq!(msgs[0].chat_id, 99);
}

#[test]
fn unhandled_update_still_advances_offset() {
    let batch = vec![Update { update_id: 12, content: UpdateContent::Other }];
    let (off, msgs) = process_batch(10, batch);
    assert_eq!(off, 13);
    assert!(msgs.is_empty());
}

#[test]
fn empty_batch_keeps_offset() {
    let (off, msgs) = process_batch(7, Vec::new());
    assert_eq!(off, 7);
    assert!(msgs.is_empty());
}

#[test]
fn offset_tracks_max_over_successive_batches() {
    let mut off = initial_offset(None);
    let batches = vec![vec![3i64, 4], vec![5], vec![], vec![6, 9]];
    let mut max_seen: Option<i64> = None;
    for ids in batches {
        let batch: Vec<Update> = ids
            .iter()
            .map(|&id| Update { update_id: id, content: UpdateContent::Other })
            .collect();
        for &id in &ids {
            max_seen = Some(max_seen.map_or(id, |m| m.max(id)));
        }
        let (next, _) = process_batch(off, batch);
        assert!(next >= off);
        off = next;
    }
    assert_eq!(off, max_seen.unwrap() + 1);
}

#[test]
fn poll_response_handled_end_to_end() {
    let body = br#"{"ok":true,"result":[{"update_id":10,"message":{"message_id":5,"date":0,"chat":{"id":99,"type":"private"},"text":"/poweron"}}]}"#.to_vec();
    match handle_poll_response(4, &body) {
        Ok((off, msgs)) => {
            assert_eq!(off, 11);
            assert_eq!(msgs.len(), 1);
            assert_eq!(msgs[0].text.as_deref(), Some("/poweron"));
        }
        Err(_) => panic!("well-formed poll response must be handled"),
    }
    let garbage = b"{{".to_vec();
    assert!(matches!(handle_poll_response(4, &garbage), Err(EspBotError::Serde(_))));
}

// Dispatcher: authorization and the pulse timelines.

#[test]
fn stranger_never_actuates_nor_replies() {
    for text in [Some("/poweron"), Some("/poweroff"), Some("/reboot"), Some("hello"), None] {
        let p = plan(99, &msg(42, text));
        assert_eq!(p.action, Action::Ignore);
        assert!(p.pulses.is_empty());
        assert!(p.reply.is_none());
    }
}

#[test]
fn reboot_from_owner_has_exact_pulse_timeline() {
    let p = plan(99, &msg(99, Some("/reboot")));
    assert_eq!(p.action, Action::Reboot);
    assert_eq!(
        p.pulses,
        vec![
            PulseStep { level: PinLevel::Low, hold_ms: Some(5000) },
            PulseStep { level: PinLevel::High, hold_ms: Some(3000) },
            PulseStep { level: PinLevel::Low, hold_ms: Some(1000) },
            PulseStep { level: PinLevel::High, hold_ms: None },
        ]
    );
    assert_eq!(p.reply.as_deref(), Some("Rebooting"));
}

#[test]
fn power_on_and_off_share_one_pulse() {
    let on = plan(99, &msg(99, Some("/poweron")));
    let off = plan(99, &msg(99, Some("/poweroff")));
    assert_eq!(on.action, Action::PowerOn);
    assert_eq!(off.action, Action::PowerOff);
    assert_eq!(on.pulses, off.pulses);
    assert_eq!(
        on.pulses,
        vec![
            PulseStep { level: PinLevel::Low, hold_ms: Some(1000) },
            PulseStep { level: PinLevel::High, hold_ms: None },
        ]
    );
    assert_eq!(on.reply.as_deref(), Some("Power on"));
    assert_eq!(off.reply.as_deref(), Some("Power off"));
}

#[test]
fn command_match_is_exact_and_case_sensitive() {
    assert_eq!(parse_action(&"/poweron".to_string()), Action::PowerOn);
    assert_eq!(parse_action(&"/PowerOn".to_string()), Action::Ignore);
    assert_eq!(parse_action(&"/poweron now".to_string()), Action::Ignore);
    assert_eq!(parse_action(&"".to_string()), Action::Ignore);
    assert_eq!(pulse_sequence(Action::Ignore), Vec::new());
}

// Configuration and WiFi bring-up decisions.

#[test]
fn config_rejected_when_wifi_fields_both_empty() {
    let r = create_config(String::new(), String::new(), "tok".to_string(), 1);
    assert!(matches!(r, Err(ConfigError::MissingWifiSettings)));
}

#[test]
fn config_keeps_values() {
    match create_config("net".to_string(), "pw".to_string(), "tok".to_string(), 7) {
        Ok(c) => {
            assert_eq!(c.wifi_ssid, "net");
            assert_eq!(c.wifi_pass, "pw");
            assert_eq!(c.bot_token, "tok");
            assert_eq!(c.bot_owner_id, 7);
        }
        Err(_) => panic!("present settings must be accepted"),
    }
}

#[test]
fn auth_selection() {
    assert!(matches!(select_auth("", "pw"), Err(ConfigError::MissingWifiName)));
    assert_eq!(select_auth("net", "").unwrap(), WifiAuth::Open);
    assert_eq!(select_auth("net", "pw").unwrap(), WifiAuth::Wpa2Personal);
}
