use tgbotapi::bot::{plan_request, PartBody, RequestBody};
use tgbotapi::methods::{Methods, SendMediaGroup};
use tgbotapi::types::{ChatId, FileBody, InputFile, InputMedia, InputMediaPhoto, InputMediaVideo};

fn group_of_three() -> SendMediaGroup {
    SendMediaGroup::new(
        ChatId::IntType(9),
        vec![
            InputMedia::InputMediaPhoto(InputMediaPhoto::new(InputFile::FileID(String::from(
                "id0",
            )))),
            InputMedia::InputMediaPhoto(InputMediaPhoto::new(InputFile::FileBytes(
                String::from("one.png"),
                vec![7u8, 8],
            ))),
            InputMedia::InputMediaPhoto(InputMediaPhoto::new(InputFile::FilePath(String::from(
                "/tmp/c.mp4",
            )))),
        ],
    )
}

#[test]
fn mixed_group_takes_multipart_path() {
    let plan = plan_request(&group_of_three());
    assert_eq!(plan.endpoint, "sendMediaGroup");
    match plan.body {
        RequestBody::Json(_) => panic!("two items need an upload: multipart"),
        RequestBody::Multipart(parts) => {
            // Parameter parts first: chat_id and media.
            assert_eq!(parts.len(), 4);
            assert_eq!(parts[0].name, "chat_id");
            assert_eq!(parts[1].name, "media");
            let media_text = match &parts[1].body {
                PartBody::Text(t) => String::from_utf8(t.clone()).unwrap(),
                PartBody::File(_) => panic!("the media array is a text part"),
            };
            let v: serde_json::Value = serde_json::from_str(&media_text).unwrap();
            let arr = v.as_array().unwrap();
            assert_eq!(arr.len(), 3);
            // Item 0 keeps its reference, items 1 and 2 carry tokens.
            assert_eq!(arr[0].get("media").unwrap(), "id0");
            assert_eq!(arr[1].get("media").unwrap(), "attach://file-1");
            assert_eq!(arr[2].get("media").unwrap(), "attach://file-2");
            // Exactly two binary parts, named by position.
            assert_eq!(parts[2].name, "file-1");
            match &parts[2].body {
                PartBody::File(p) => {
                    assert_eq!(p.file_name, "one.png");
                    match &p.body {
                        FileBody::Bytes(b) => assert_eq!(b, &vec![7u8, 8]),
                        FileBody::LocalFile(_) => panic!("bytes stay in memory"),
                    }
                },
                PartBody::Text(_) => panic!("file-1 is a binary part"),
            }
            assert_eq!(parts[3].name, "file-2");
            match &parts[3].body {
                PartBody::File(p) => {
                    assert_eq!(p.file_name, "c.mp4");
                    match &p.body {
                        FileBody::LocalFile(path) => assert_eq!(path, "/tmp/c.mp4"),
                        FileBody::Bytes(_) => panic!("a path is streamed"),
                    }
                },
                PartBody::Text(_) => panic!("file-2 is a binary part"),
            }
        },
    }
}

#[test]
fn reference_only_group_takes_json_path() {
    let req = SendMediaGroup::new(
        ChatId::IntType(4),
        vec![
            InputMedia::InputMediaPhoto(InputMediaPhoto::new(InputFile::FileID(String::from(
                "a",
            )))),
            InputMedia::InputMediaPhoto(InputMediaPhoto::new(InputFile::FileURL(String::from(
                "https://example.org/b",
            )))),
        ],
    );
    let plan = plan_request(&req);
    match plan.body {
        RequestBody::Json(b) => {
            let v: serde_json::Value = serde_json::from_slice(&b).unwrap();
            let arr = v.get("media").unwrap().as_array().unwrap();
            assert_eq!(arr[0].get("media").unwrap(), "a");
            assert_eq!(arr[1].get("media").unwrap(), "https://example.org/b");
        },
        RequestBody::Multipart(_) => panic!("nothing to upload: JSON path"),
    }
}

#[test]
fn prepare_param_replaces_only_uploads() {
    let keep = InputMedia::InputMediaPhoto(InputMediaPhoto::new(InputFile::FileID(
        String::from("abc"),
    )));
    let kept = keep.prepare_input_media_param(0);
    match kept {
        InputMedia::InputMediaPhoto(p) => match p.media {
            InputFile::FileID(s) => assert_eq!(s, "abc"),
            _ => panic!("a file id is left as it is"),
        },
        _ => panic!("the variant is kept"),
    }
    let replace = InputMedia::InputMediaPhoto(InputMediaPhoto::new(InputFile::FileBytes(
        String::from("n"),
        vec![1u8],
    )));
    let replaced = replace.prepare_input_media_param(3);
    match replaced {
        InputMedia::InputMediaPhoto(p) => match p.media {
            InputFile::FileAttach(s) => assert_eq!(s, "attach://file-3"),
            _ => panic!("an upload is replaced by its token"),
        },
        _ => panic!("the variant is kept"),
    }
}

#[test]
fn prepare_param_rewrites_upload_thumbnail() {
    let mut video = InputMediaVideo::new(InputFile::FileID(String::from("vid")));
    video.thumb = Some(InputFile::FileBytes(String::from("t.jpg"), vec![9u8]));
    let item = InputMedia::InputMediaVideo(video);
    let rewritten = item.prepare_input_media_param(2);
    match rewritten {
        InputMedia::InputMediaVideo(v) => {
            match v.media {
                InputFile::FileID(s) => assert_eq!(s, "vid"),
                _ => panic!("the primary reference is kept"),
            }
            match v.thumb {
                Some(InputFile::FileAttach(s)) => assert_eq!(s, "attach://file-2-thumb"),
                _ => panic!("the thumbnail is replaced by its token"),
            }
        },
        _ => panic!("the variant is kept"),
    }
}

#[test]
fn prepare_file_names_parts_by_position() {
    let mut video = InputMediaVideo::new(InputFile::FileBytes(String::from("v.mp4"), vec![1u8]));
    video.thumb = Some(InputFile::FileBytes(String::from("t.jpg"), vec![2u8]));
    let item = InputMedia::InputMediaVideo(video);
    let parts = item.prepare_input_media_file(5);
    assert_eq!(parts.len(), 2);
    assert_eq!(parts[0].0, "file-5");
    assert_eq!(parts[1].0, "file-5-thumb");

    let nothing = InputMedia::InputMediaPhoto(InputMediaPhoto::new(InputFile::FileID(
        String::from("x"),
    )));
    assert_eq!(nothing.prepare_input_media_file(0).len(), 0);
}

#[test]
fn token_count_matches_upload_count() {
    let req = group_of_three();
    // Two of the three references require an upload.
    let slots = req.files();
    assert_eq!(slots.len(), 2);
    assert_eq!(slots[0].0, "file-1");
    assert_eq!(slots[1].0, "file-2");
}
