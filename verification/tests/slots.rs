use tgbotapi::bot::{plan_request, PartBody, RequestBody};
use tgbotapi::methods::{
    Methods, SendAudio, SendDocument, SendPoll, SetPassportDataErrors, SetWebhook,
};
use tgbotapi::types::{
    ChatId, InputFile, InputMedia, InputMediaVideo, PassportElementError,
    PassportElementErrorDataField, ShippingOption, LabeledPrice,
};

#[test]
fn audio_exposes_audio_then_thumb_slot() {
    let mut req = SendAudio::new(ChatId::IntType(1), InputFile::FileID(String::from("a")));
    req.thumb = Some(InputFile::FileBytes(String::from("t.jpg"), vec![1u8]));
    let slots = req.files();
    assert_eq!(slots.len(), 2);
    assert_eq!(slots[0].0, "audio");
    assert_eq!(slots[1].0, "thumb");
}

#[test]
fn document_without_thumb_has_one_slot() {
    let req = SendDocument::new(ChatId::IntType(1), InputFile::FileID(String::from("d")));
    let slots = req.files();
    assert_eq!(slots.len(), 1);
    assert_eq!(slots[0].0, "document");
}

#[test]
fn one_upload_among_text_slots_forces_multipart() {
    // The audio itself is already hosted, only the thumbnail needs an
    // upload: the whole call still goes multipart.
    let mut req = SendAudio::new(ChatId::IntType(2), InputFile::FileID(String::from("a")));
    req.thumb = Some(InputFile::FileBytes(String::from("t.jpg"), vec![1u8]));
    let plan = plan_request(&req);
    match plan.body {
        RequestBody::Json(_) => panic!("an uploading slot forces multipart"),
        RequestBody::Multipart(parts) => {
            // The thumbnail is not excluded from the parameter map, so it
            // appears twice: stringified among the parameters and again as
            // the binary part of its slot.
            assert_eq!(parts.len(), 4);
            assert_eq!(parts[0].name, "chat_id");
            assert_eq!(parts[1].name, "thumb");
            match &parts[1].body {
                PartBody::Text(t) => assert_eq!(t, &b"[\"t.jpg\",[1]]".to_vec()),
                PartBody::File(_) => panic!("parameters are text parts"),
            }
            assert_eq!(parts[2].name, "audio");
            match &parts[2].body {
                PartBody::Text(t) => assert_eq!(t, &b"a".to_vec()),
                PartBody::File(_) => panic!("a file id resolves to text"),
            }
            assert_eq!(parts[3].name, "thumb");
            match &parts[3].body {
                PartBody::File(p) => assert_eq!(p.file_name, "t.jpg"),
                PartBody::Text(_) => panic!("the slot itself is a binary part"),
            }
        },
    }
}

#[test]
fn non_upload_thumbnail_is_kept_in_the_rewrite() {
    let mut video = InputMediaVideo::new(InputFile::FileID(String::from("vid")));
    video.thumb = Some(InputFile::FileID(String::from("small")));
    let rewritten = InputMedia::InputMediaVideo(video).prepare_input_media_param(0);
    match rewritten {
        InputMedia::InputMediaVideo(v) => match v.thumb {
            Some(InputFile::FileID(s)) => assert_eq!(s, "small"),
            _ => panic!("a thumbnail that needs no upload stays as it is"),
        },
        _ => panic!("the variant is kept"),
    }
}

#[test]
fn webhook_certificate_is_an_optional_slot() {
    let req = SetWebhook::new(String::from("https://example.org/hook"));
    assert_eq!(req.files().len(), 0);
    let mut with_cert = SetWebhook::new(String::from("https://example.org/hook"));
    with_cert.certificate = Some(InputFile::FilePath(String::from("/etc/cert.pem")));
    let slots = with_cert.files();
    assert_eq!(slots.len(), 1);
    assert_eq!(slots[0].0, "certificate");
}

#[test]
fn poll_options_render_as_a_string_array() {
    let req = SendPoll::new(
        ChatId::IntType(1),
        String::from("tea?"),
        vec![String::from("yes"), String::from("no")],
    );
    let plan = plan_request(&req);
    match plan.body {
        RequestBody::Json(b) => {
            assert_eq!(
                b,
                b"{\"chat_id\":1,\"question\":\"tea?\",\"options\":[\"yes\",\"no\"]}".to_vec()
            );
        },
        RequestBody::Multipart(_) => panic!("no file slots on this call"),
    }
}

#[test]
fn passport_errors_carry_their_variant_name() {
    let err = PassportElementError::PassportElementErrorDataField(
        PassportElementErrorDataField::new_passport(
            String::from("data"),
            String::from("first_name"),
            String::from("hash=="),
            String::from("bad field"),
        ),
    );
    let req = SetPassportDataErrors::new(3, vec![err]);
    let plan = plan_request(&req);
    match plan.body {
        RequestBody::Json(b) => {
            let v: serde_json::Value = serde_json::from_slice(&b).unwrap();
            let errors = v.get("errors").unwrap().as_array().unwrap();
            let inner = errors[0].get("PassportElementErrorDataField").unwrap();
            assert_eq!(inner.get("source").unwrap(), "data");
            assert_eq!(inner.get("type").unwrap(), "passport");
            assert_eq!(inner.get("field_name").unwrap(), "first_name");
        },
        RequestBody::Multipart(_) => panic!("no file slots on this call"),
    }
}

#[test]
fn shipping_option_nests_its_prices() {
    let option = ShippingOption::new(
        String::from("s1"),
        String::from("standard"),
        vec![LabeledPrice::new(String::from("base"), 500)],
    );
    let b = tgbotapi::json::json_value_bytes(&option.to_json());
    assert_eq!(
        b,
        b"{\"id\":\"s1\",\"title\":\"standard\",\"prices\":[{\"label\":\"base\",\"amount\":500}]}"
            .to_vec()
    );
}

#[test]
fn json_path_keeps_one_copy_of_a_serialized_slot() {
    // A textual thumbnail is already serialized among the parameters;
    // resolving the slot adds no second member of the same name.
    let mut req = SendAudio::new(ChatId::IntType(2), InputFile::FileID(String::from("a")));
    req.thumb = Some(InputFile::FileID(String::from("small")));
    let plan = plan_request(&req);
    match plan.body {
        RequestBody::Json(b) => {
            assert_eq!(
                b,
                b"{\"chat_id\":2,\"thumb\":\"small\",\"audio\":\"a\"}".to_vec()
            );
        },
        RequestBody::Multipart(_) => panic!("nothing to upload: JSON path"),
    }
}
