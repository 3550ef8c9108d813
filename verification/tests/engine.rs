use tgbotapi::bot::{plan_request, api_url, PartBody, RequestBody};
use tgbotapi::methods::{GetMe, Methods, SendMessage, SendPhoto};
use tgbotapi::types::{ChatId, FileBody, InputFile};

#[test]
fn get_me_plans_json_with_empty_object() {
    let req = GetMe::new();
    let plan = plan_request(&req);
    assert_eq!(plan.endpoint, "getMe");
    match plan.body {
        RequestBody::Json(b) => assert_eq!(b, b"{}".to_vec()),
        RequestBody::Multipart(_) => panic!("empty slot set must use the JSON path"),
    }
}

#[test]
fn send_message_plans_json() {
    let req = SendMessage::new(ChatId::IntType(7), String::from("hi"));
    let plan = plan_request(&req);
    assert_eq!(plan.endpoint, "sendMessage");
    match plan.body {
        RequestBody::Json(b) => {
            assert_eq!(b, b"{\"chat_id\":7,\"text\":\"hi\"}".to_vec());
        },
        RequestBody::Multipart(_) => panic!("no file slots, so no multipart"),
    }
}

#[test]
fn send_message_optional_fields_appear_when_set() {
    let mut req = SendMessage::new(ChatId::StringType(String::from("@chan")), String::from("x"));
    req.parse_mode = Some(String::from("Markdown"));
    req.disable_notification = Some(true);
    let plan = plan_request(&req);
    match plan.body {
        RequestBody::Json(b) => {
            let text = String::from_utf8(b).unwrap();
            assert_eq!(
                text,
                "{\"chat_id\":\"@chan\",\"text\":\"x\",\"parse_mode\":\"Markdown\",\"disable_notification\":true}"
            );
        },
        RequestBody::Multipart(_) => panic!("no file slots, so no multipart"),
    }
}

#[test]
fn send_photo_by_id_takes_json_path() {
    let req = SendPhoto::new(ChatId::IntType(1), InputFile::FileID(String::from("AABBCC")));
    let plan = plan_request(&req);
    assert_eq!(plan.endpoint, "sendPhoto");
    match plan.body {
        RequestBody::Json(b) => {
            assert_eq!(b, b"{\"chat_id\":1,\"photo\":\"AABBCC\"}".to_vec());
        },
        RequestBody::Multipart(_) => panic!("a file id resolves to text: JSON path"),
    }
}

#[test]
fn send_photo_by_url_takes_json_path() {
    let req = SendPhoto::new(
        ChatId::IntType(1),
        InputFile::FileURL(String::from("https://example.org/p.png")),
    );
    let plan = plan_request(&req);
    match plan.body {
        RequestBody::Json(b) => {
            assert_eq!(
                b,
                b"{\"chat_id\":1,\"photo\":\"https://example.org/p.png\"}".to_vec()
            );
        },
        RequestBody::Multipart(_) => panic!("a URL resolves to text: JSON path"),
    }
}

#[test]
fn send_photo_local_path_takes_multipart_path() {
    let req = SendPhoto::new(ChatId::IntType(1), InputFile::FilePath(String::from("/tmp/a.jpg")));
    let plan = plan_request(&req);
    match plan.body {
        RequestBody::Json(_) => panic!("a local path forces multipart"),
        RequestBody::Multipart(parts) => {
            // One text part for the parameter map, one binary part named "photo".
            assert_eq!(parts.len(), 2);
            assert_eq!(parts[0].name, "chat_id");
            match &parts[0].body {
                PartBody::Text(t) => assert_eq!(t, &b"1".to_vec()),
                PartBody::File(_) => panic!("parameters are text parts"),
            }
            assert_eq!(parts[1].name, "photo");
            match &parts[1].body {
                PartBody::File(p) => {
                    assert_eq!(p.file_name, "a.jpg");
                    match &p.body {
                        FileBody::LocalFile(path) => assert_eq!(path, "/tmp/a.jpg"),
                        FileBody::Bytes(_) => panic!("a path is streamed, not inlined"),
                    }
                },
                PartBody::Text(_) => panic!("the photo slot must be a binary part"),
            }
        },
    }
}

#[test]
fn send_photo_in_memory_takes_multipart_path() {
    let req = SendPhoto::new(
        ChatId::IntType(5),
        InputFile::FileBytes(String::from("p.png"), vec![1u8, 2, 3]),
    );
    let plan = plan_request(&req);
    match plan.body {
        RequestBody::Json(_) => panic!("in-memory bytes force multipart"),
        RequestBody::Multipart(parts) => {
            assert_eq!(parts.len(), 2);
            assert_eq!(parts[1].name, "photo");
            match &parts[1].body {
                PartBody::File(p) => {
                    assert_eq!(p.file_name, "p.png");
                    match &p.body {
                        FileBody::Bytes(b) => assert_eq!(b, &vec![1u8, 2, 3]),
                        FileBody::LocalFile(_) => panic!("bytes stay in memory"),
                    }
                },
                PartBody::Text(_) => panic!("the photo slot must be a binary part"),
            }
        },
    }
}

#[test]
fn attach_token_slot_resolves_to_text() {
    // An attachment token is already plain text for the wire: JSON path.
    let req = SendPhoto::new(
        ChatId::IntType(1),
        InputFile::FileAttach(String::from("attach://file-0")),
    );
    let plan = plan_request(&req);
    match plan.body {
        RequestBody::Json(b) => {
            assert_eq!(b, b"{\"chat_id\":1,\"photo\":\"attach://file-0\"}".to_vec());
        },
        RequestBody::Multipart(_) => panic!("an attach token needs no upload"),
    }
}

#[test]
fn api_url_joins_base_token_and_endpoint() {
    let url = api_url("https://api.telegram.org/bot", "SECRET-REDACTED", "getMe");
    assert_eq!(url, "https://api.telegram.org/botSECRET-REDACTED/getMe");
}

#[test]
fn endpoints_are_fixed_and_non_empty() {
    assert_eq!(GetMe::new().endpoint(), "getMe");
    let m = SendMessage::new(ChatId::IntType(0), String::new());
    assert_eq!(m.endpoint(), "sendMessage");
    assert_eq!(m.endpoint(), "sendMessage");
}
