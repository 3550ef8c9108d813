use tgbotapi::bot::{plan_request, RequestBody};
use tgbotapi::json::json_value_bytes;
use tgbotapi::methods::{SetChatMenuButton, SetMyCommands};
use tgbotapi::types::{
    BotCommand, BotCommandScope, BotCommandScopeChat, ChatId, InlineKeyboardButton,
    InlineKeyboardMarkup, MenuButton, MenuButtonCommands, MessageEntity, ReplyMarkup, User,
};

#[test]
fn message_entity_renders_with_its_wire_names() {
    let e = MessageEntity::new(String::from("bold"), 0, 4);
    let b = json_value_bytes(&e.to_json());
    assert_eq!(b, b"{\"type\":\"bold\",\"offset\":0,\"length\":4}".to_vec());
}

#[test]
fn message_entity_helpers_pick_the_kind() {
    let e = MessageEntity::new_mention(3, 5);
    assert_eq!(e.kind, "mention");
    assert_eq!(e.offset, 3);
    assert_eq!(e.length, 5);
    assert_eq!(MessageEntity::new_italic(0, 1).kind, "italic");
    assert_eq!(MessageEntity::new_text_link(0, 1).kind, "text_link");
}

#[test]
fn entity_with_user_nests_the_user_object() {
    let mut e = MessageEntity::new(String::from("text_mention"), 1, 2);
    e.user = Some(User::new(10, false, String::from("Ann")));
    let b = json_value_bytes(&e.to_json());
    let v: serde_json::Value = serde_json::from_slice(&b).unwrap();
    assert_eq!(v.get("user").unwrap().get("id").unwrap(), 10);
    assert_eq!(v.get("user").unwrap().get("first_name").unwrap(), "Ann");
}

#[test]
fn inline_keyboard_renders_rows() {
    let mut b1 = InlineKeyboardButton::new(String::from("go"));
    b1.callback_data = Some(String::from("x"));
    let b2 = InlineKeyboardButton::new(String::from("stop"));
    let markup = InlineKeyboardMarkup::new(vec![vec![b1], vec![b2]]);
    let b = json_value_bytes(&ReplyMarkup::InlineKeyboardMarkup(markup).to_json());
    assert_eq!(
        b,
        b"{\"inline_keyboard\":[[{\"text\":\"go\",\"callback_data\":\"x\"}],[{\"text\":\"stop\"}]]}"
            .to_vec()
    );
}

#[test]
fn command_scope_carries_its_tag_first() {
    let scope = BotCommandScope::BotCommandScopeChat(BotCommandScopeChat::new(
        ChatId::IntType(12),
    ));
    let b = json_value_bytes(&scope.to_json());
    assert_eq!(b, b"{\"type\":\"chat\",\"chat_id\":12}".to_vec());
}

#[test]
fn menu_button_carries_its_tag() {
    let button = MenuButton::MenuButtonCommands(MenuButtonCommands::new());
    let b = json_value_bytes(&button.to_json());
    assert_eq!(b, b"{\"type\":\"commands\"}".to_vec());
}

#[test]
fn set_my_commands_serializes_the_command_list() {
    let req = SetMyCommands::new(vec![
        BotCommand::new(String::from("start"), String::from("begin")),
        BotCommand::new(String::from("help"), String::from("show help")),
    ]);
    let plan = plan_request(&req);
    match plan.body {
        RequestBody::Json(b) => {
            assert_eq!(
                b,
                b"{\"commands\":[{\"command\":\"start\",\"description\":\"begin\"},{\"command\":\"help\",\"description\":\"show help\"}]}".to_vec()
            );
        },
        RequestBody::Multipart(_) => panic!("no file slots on this call"),
    }
}

#[test]
fn set_chat_menu_button_omits_absent_fields() {
    let req = SetChatMenuButton::new();
    let plan = plan_request(&req);
    match plan.body {
        RequestBody::Json(b) => assert_eq!(b, b"{}".to_vec()),
        RequestBody::Multipart(_) => panic!("no file slots on this call"),
    }
}
