//! The request descriptors: the contract every remote method satisfies
//! (endpoint name, parameter map, file slots) and the concrete request
//! records of the protocol.

use crate::json::{
    bool_member, fields_view, i64_member, i64s_json, i64s_jvals, member, obj_push, obj_push_bool,
    obj_push_i64, obj_push_opt_bool, obj_push_opt_i64, obj_push_opt_str, obj_push_opt_val,
    obj_push_str, opt_bool_member, opt_i64_member, opt_member, opt_str_member, str_member,
    strings_json, strings_jvals, JVal, JsonValue,
};
use crate::types::{
    bot_commands_json, bot_commands_jvals, entities_json, entities_jvals, labeled_prices_json,
    labeled_prices_jvals, opt_slot, passport_errors_json, passport_errors_jvals,
    shipping_options_json, shipping_options_jvals, slot, slots_view, BotCommand, BotCommandScope,
    ChatAdministratorRights, ChatId, ChatPermissions, InlineKeyboardMarkup, InputFile,
    InputFileView, InputMedia, LabeledPrice, MenuButton, MessageEntity, Params,
    PassportElementError, ReplyMarkup, ShippingOption,
};
use vstd::prelude::*;
use vstd::string::StringExecFns;

verus! {

broadcast use
    vstd::std_specs::vec::group_vec_axioms,
    vstd::seq::group_seq_axioms,
    crate::json::lemma_jfields_view,
    crate::types::lemma_slots_view;

/// The contract every request descriptor satisfies: a fixed, non-empty
/// endpoint name, a parameter map of the non-file fields, and a set of
/// named file slots, empty for most requests. All three are functions of
/// the descriptor's value alone, so the engine may probe them twice and
/// see the same answer.
pub trait Methods {
    /// The endpoint name this descriptor is sent to.
    spec fn endpoint_view(&self) -> Seq<char>;

    /// The denotation of the parameter map.
    spec fn params_view(&self) -> Seq<(Seq<char>, JVal)>;

    /// The denotation of the file slots.
    spec fn files_view(&self) -> Seq<(Seq<char>, InputFileView)>;

    fn endpoint(&self) -> (r: String)
        ensures
            r@ == self.endpoint_view(),
            r@.len() > 0,
    ;

    fn params(&self) -> (r: Params)
        ensures
            fields_view(r@) == self.params_view(),
    ;

    fn files(&self) -> (r: Vec<(String, InputFile)>)
        ensures
            slots_view(r@) == self.files_view(),
    ;
}

/// A simple method for testing the authentication token. No parameters;
/// returns basic information about the bot.
pub struct GetMe {}

impl GetMe {
    pub fn new() -> (r: Self) {
        Self {  }
    }
}

impl Methods for GetMe {
    open spec fn endpoint_view(&self) -> Seq<char> {
        "getMe"@
    }

    open spec fn params_view(&self) -> Seq<(Seq<char>, JVal)> {
        Seq::empty()
    }

    open spec fn files_view(&self) -> Seq<(Seq<char>, InputFileView)> {
        Seq::empty()
    }

    fn endpoint(&self) -> (r: String)
        ensures
            r@ == self.endpoint_view(),
            r@.len() > 0,
    {
        proof {
            reveal_strlit("getMe");
        }
        String::from_str("getMe")
    }

    fn params(&self) -> (r: Params)
        ensures
            fields_view(r@) == self.params_view(),
    {
        let r: Params = Vec::new();
        proof {
            assert(fields_view(r@) =~= Seq::<(Seq<char>, JVal)>::empty());
        }
        r
    }

    fn files(&self) -> (r: Vec<(String, InputFile)>)
        ensures
            slots_view(r@) == self.files_view(),
    {
        let r: Vec<(String, InputFile)> = Vec::new();
        proof {
            assert(slots_view(r@) =~= Seq::<(Seq<char>, InputFileView)>::empty());
        }
        r
    }
}

/// Logs out from the cloud API server before running the bot locally.
pub struct LogOut {}

impl LogOut {
    pub fn new() -> (r: Self) {
        Self {  }
    }
}

impl Methods for LogOut {
    open spec fn endpoint_view(&self) -> Seq<char> {
        "logOut"@
    }

    open spec fn params_view(&self) -> Seq<(Seq<char>, JVal)> {
        Seq::empty()
    }

    open spec fn files_view(&self) -> Seq<(Seq<char>, InputFileView)> {
        Seq::empty()
    }

    fn endpoint(&self) -> (r: String)
        ensures
            r@ == self.endpoint_view(),
            r@.len() > 0,
    {
        proof {
            reveal_strlit("logOut");
        }
        String::from_str("logOut")
    }

    fn params(&self) -> (r: Params)
        ensures
            fields_view(r@) == self.params_view(),
    {
        let r: Params = Vec::new();
        proof {
            assert(fields_view(r@) =~= Seq::<(Seq<char>, JVal)>::empty());
        }
        r
    }

    fn files(&self) -> (r: Vec<(String, InputFile)>)
        ensures
            slots_view(r@) == self.files_view(),
    {
        let r: Vec<(String, InputFile)> = Vec::new();
        proof {
            assert(slots_view(r@) =~= Seq::<(Seq<char>, InputFileView)>::empty());
        }
        r
    }
}

/// Closes the bot instance before moving it between local servers.
pub struct Close {}

impl Close {
    pub fn new() -> (r: Self) {
        Self {  }
    }
}

impl Methods for Close {
    open spec fn endpoint_view(&self) -> Seq<char> {
        "close"@
    }

    open spec fn params_view(&self) -> Seq<(Seq<char>, JVal)> {
        Seq::empty()
    }

    open spec fn files_view(&self) -> Seq<(Seq<char>, InputFileView)> {
        Seq::empty()
    }

    fn endpoint(&self) -> (r: String)
        ensures
            r@ == self.endpoint_view(),
            r@.len() > 0,
    {
        proof {
            reveal_strlit("close");
        }
        String::from_str("close")
    }

    fn params(&self) -> (r: Params)
        ensures
            fields_view(r@) == self.params_view(),
    {
        let r: Params = Vec::new();
        proof {
            assert(fields_view(r@) =~= Seq::<(Seq<char>, JVal)>::empty());
        }
        r
    }

    fn files(&self) -> (r: Vec<(String, InputFile)>)
        ensures
            slots_view(r@) == self.files_view(),
    {
        let r: Vec<(String, InputFile)> = Vec::new();
        proof {
            assert(slots_view(r@) =~= Seq::<(Seq<char>, InputFileView)>::empty());
        }
        r
    }
}


/// Sends a group of photos, videos, documents or audios as one album.
pub struct SendMediaGroup {
    /// Unique identifier for the target chat or username of the target channel.
    pub chat_id: ChatId,
    /// The items to send, two to ten of them upstream.
    pub media: Vec<InputMedia>,
    /// Sends the messages silently.
    pub disable_notification: Option<bool>,
    /// Protects the contents of the sent messages from forwarding and saving.
    pub protect_content: Option<bool>,
    /// If the messages are a reply, ID of the original message.
    pub reply_to_message_id: Option<i64>,
    /// Pass true to send the messages even when the replied-to message is not found.
    pub allow_sending_without_reply: Option<bool>,
}

impl SendMediaGroup {
    pub fn new(chat_id: ChatId, media: Vec<InputMedia>) -> (r: Self)
        ensures
            r.chat_id == chat_id,
            r.media == media,
            r.disable_notification is None,
            r.protect_content is None,
            r.reply_to_message_id is None,
            r.allow_sending_without_reply is None,
    {
        Self {
            chat_id,
            media,
            disable_notification: None,
            protect_content: None,
            reply_to_message_id: None,
            allow_sending_without_reply: None,
        }
    }
}

/// The `media` array as it goes into the JSON document: the item at
/// position `i` rewritten with the tokens of position `i`.
pub open spec fn media_group_jvals(m: Seq<crate::types::InputMediaView>) -> Seq<JVal> {
    Seq::new(m.len(), |i: int| m[i].prepare_param_spec(i).to_jval())
}

impl Methods for SendMediaGroup {
    open spec fn endpoint_view(&self) -> Seq<char> {
        "sendMediaGroup"@
    }

    open spec fn params_view(&self) -> Seq<(Seq<char>, JVal)> {
        member("chat_id"@, self.chat_id@.to_jval()) + member(
            "media"@,
            JVal::Arr(media_group_jvals(self.media.deep_view())),
        ) + opt_bool_member("disable_notification"@, self.disable_notification) + opt_bool_member(
            "protect_content"@,
            self.protect_content,
        ) + opt_i64_member("reply_to_message_id"@, self.reply_to_message_id) + opt_bool_member(
            "allow_sending_without_reply"@,
            self.allow_sending_without_reply,
        )
    }

    /// The group's pending parts are its file slots: one per
    /// upload-requiring reference, named by position.
    open spec fn files_view(&self) -> Seq<(Seq<char>, InputFileView)> {
        crate::types::group_pending(self.media.deep_view())
    }

    fn endpoint(&self) -> (r: String)
        ensures
            r@ == self.endpoint_view(),
            r@.len() > 0,
    {
        proof {
            reveal_strlit("sendMediaGroup");
        }
        String::from_str("sendMediaGroup")
    }

    fn params(&self) -> (r: Params)
        ensures
            fields_view(r@) == self.params_view(),
    {
        let mut r: Params = Vec::new();
        obj_push(&mut r, "chat_id", self.chat_id.to_json());
        let mut arr: Vec<JsonValue> = Vec::new();
        let mut i: usize = 0;
        while i < self.media.len()
            invariant
                i <= self.media@.len(),
                arr@.len() == i as int,
                forall|j: int|
                    0 <= j < i ==> (#[trigger] arr@[j])@ == self.media.deep_view()[j].prepare_param_spec(
                        j,
                    ).to_jval(),
            decreases self.media@.len() - i,
        {
            let item = self.media[i].prepare_param_at(i as u64);
            arr.push(item.to_json());
            i += 1;
        }
        let media_json = JsonValue::Arr(arr);
        proof {
            broadcast use crate::json::lemma_jvals_view;

            assert(crate::json::jvals_view(media_json->Arr_0@) =~= media_group_jvals(
                self.media.deep_view(),
            ));
            assert(media_json@ =~~= JVal::Arr(media_group_jvals(self.media.deep_view())));
        }
        obj_push(&mut r, "media", media_json);
        obj_push_opt_bool(&mut r, "disable_notification", &self.disable_notification);
        obj_push_opt_bool(&mut r, "protect_content", &self.protect_content);
        obj_push_opt_i64(&mut r, "reply_to_message_id", &self.reply_to_message_id);
        obj_push_opt_bool(&mut r, "allow_sending_without_reply", &self.allow_sending_without_reply);
        r
    }

    fn files(&self) -> (r: Vec<(String, InputFile)>)
        ensures
            slots_view(r@) == self.files_view(),
    {
        let mut r: Vec<(String, InputFile)> = Vec::new();
        let mut i: usize = 0;
        while i < self.media.len()
            invariant
                i <= self.media@.len(),
                slots_view(r@) == crate::types::group_pending(
                    self.media.deep_view().take(i as int),
                ),
            decreases self.media@.len() - i,
        {
            let ghost done: Seq<(String, InputFile)> = r@;
            let mut parts = self.media[i].prepare_file_at(i as u64);
            let ghost parts_v: Seq<(String, InputFile)> = parts@;
            r.append(&mut parts);
            proof {
                broadcast use crate::types::lemma_slots_view;

                let m = self.media.deep_view();
                assert(m.take(i + 1).drop_last() =~= m.take(i as int));
                assert(m.take(i + 1).last() == m[i as int]);
                assert(slots_view(r@) =~= slots_view(done) + slots_view(parts_v));
                assert(slots_view(r@) =~= crate::types::group_pending(m.take(i + 1)));
            }
            i += 1;
        }
        proof {
            assert(self.media.deep_view().take(self.media@.len() as int)
                =~= self.media.deep_view());
        }
        r
    }
}

/// Use this method to send text messages. On success, the sent Message is returned.
pub struct SendMessage {
    pub chat_id: ChatId,
    pub text: String,
    pub parse_mode: Option<String>,
    pub entities: Option<Vec<MessageEntity>>,
    pub disable_web_page_preview: Option<bool>,
    pub disable_notification: Option<bool>,
    pub protect_content: Option<bool>,
    pub reply_to_message_id: Option<i64>,
    pub allow_sending_without_reply: Option<bool>,
    pub reply_markup: Option<ReplyMarkup>,
}

impl SendMessage {
    pub fn new(chat_id: ChatId, text: String) -> (r: Self)
        ensures
            r.chat_id == chat_id,
            r.text == text,
            r.parse_mode is None,
            r.entities is None,
            r.disable_web_page_preview is None,
            r.disable_notification is None,
            r.protect_content is None,
            r.reply_to_message_id is None,
            r.allow_sending_without_reply is None,
            r.reply_markup is None,
    {
        Self {
            chat_id,
            text,
            parse_mode: None,
            entities: None,
            disable_web_page_preview: None,
            disable_notification: None,
            protect_content: None,
            reply_to_message_id: None,
            allow_sending_without_reply: None,
            reply_markup: None,
        }
    }
}

impl Methods for SendMessage {
    open spec fn endpoint_view(&self) -> Seq<char> {
        "sendMessage"@
    }

    open spec fn params_view(&self) -> Seq<(Seq<char>, JVal)> {
        member("chat_id"@, self.chat_id@.to_jval()) + str_member("text"@, self.text@) + opt_str_member("parse_mode"@, self.parse_mode.deep_view()) + opt_member("entities"@, match self.entities.deep_view() {
            Option::Some(x) => Some(JVal::Arr(entities_jvals(x))),
            Option::None => None,
        }) + opt_bool_member("disable_web_page_preview"@, self.disable_web_page_preview) + opt_bool_member("disable_notification"@, self.disable_notification) + opt_bool_member("protect_content"@, self.protect_content) + opt_i64_member("reply_to_message_id"@, self.reply_to_message_id) + opt_bool_member("allow_sending_without_reply"@, self.allow_sending_without_reply) + opt_member("reply_markup"@, match self.reply_markup.deep_view() {
            Option::Some(x) => Some(x.to_jval()),
            Option::None => None,
        })
    }

    open spec fn files_view(&self) -> Seq<(Seq<char>, InputFileView)> {
        Seq::empty()
    }

    fn endpoint(&self) -> (r: String)
        ensures
            r@ == self.endpoint_view(),
            r@.len() > 0,
    {
        proof {
            reveal_strlit("sendMessage");
        }
        String::from_str("sendMessage")
    }

    fn params(&self) -> (r: Params)
        ensures
            fields_view(r@) == self.params_view(),
    {
        let mut r: Params = Vec::new();
        obj_push(&mut r, "chat_id", self.chat_id.to_json());
        obj_push_str(&mut r, "text", &self.text);
        obj_push_opt_str(&mut r, "parse_mode", &self.parse_mode);
        let v_entities: Option<JsonValue> = match &self.entities {
            Option::Some(x) => Some(entities_json(x)),
            Option::None => None,
        };
        obj_push_opt_val(&mut r, "entities", v_entities);
        obj_push_opt_bool(&mut r, "disable_web_page_preview", &self.disable_web_page_preview);
        obj_push_opt_bool(&mut r, "disable_notification", &self.disable_notification);
        obj_push_opt_bool(&mut r, "protect_content", &self.protect_content);
        obj_push_opt_i64(&mut r, "reply_to_message_id", &self.reply_to_message_id);
        obj_push_opt_bool(&mut r, "allow_sending_without_reply", &self.allow_sending_without_reply);
        let v_reply_markup: Option<JsonValue> = match &self.reply_markup {
            Option::Some(x) => Some(x.to_json()),
            Option::None => None,
        };
        obj_push_opt_val(&mut r, "reply_markup", v_reply_markup);
        r
    }

    fn files(&self) -> (r: Vec<(String, InputFile)>)
        ensures
            slots_view(r@) == self.files_view(),
    {
        let mut r: Vec<(String, InputFile)> = Vec::new();
        proof {
            broadcast use crate::types::lemma_slots_view;

            assert(slots_view(r@) =~= self.files_view());
        }
        r
    }
}

/// Use this method to forward messages of any kind. Service messages can't be forwarded. On success, the sent ...
pub struct ForwardMessage {
    pub chat_id: ChatId,
    pub from_chat_id: ChatId,
    pub disable_notification: Option<bool>,
    pub protect_content: Option<bool>,
    pub message_id: i64,
}

impl ForwardMessage {
    pub fn new(chat_id: ChatId, from_chat_id: ChatId, message_id: i64) -> (r: Self)
        ensures
            r.chat_id == chat_id,
            r.from_chat_id == from_chat_id,
            r.disable_notification is None,
            r.protect_content is None,
            r.message_id == message_id,
    {
        Self {
            chat_id,
            from_chat_id,
            disable_notification: None,
            protect_content: None,
            message_id,
        }
    }
}

impl Methods for ForwardMessage {
    open spec fn endpoint_view(&self) -> Seq<char> {
        "forwardMessage"@
    }

    open spec fn params_view(&self) -> Seq<(Seq<char>, JVal)> {
        member("chat_id"@, self.chat_id@.to_jval()) + member("from_chat_id"@, self.from_chat_id@.to_jval()) + opt_bool_member("disable_notification"@, self.disable_notification) + opt_bool_member("protect_content"@, self.protect_content) + i64_member("message_id"@, self.message_id)
    }

    open spec fn files_view(&self) -> Seq<(Seq<char>, InputFileView)> {
        Seq::empty()
    }

    fn endpoint(&self) -> (r: String)
        ensures
            r@ == self.endpoint_view(),
            r@.len() > 0,
    {
        proof {
            reveal_strlit("forwardMessage");
        }
        String::from_str("forwardMessage")
    }

    fn params(&self) -> (r: Params)
        ensures
            fields_view(r@) == self.params_view(),
    {
        let mut r: Params = Vec::new();
        obj_push(&mut r, "chat_id", self.chat_id.to_json());
        obj_push(&mut r, "from_chat_id", self.from_chat_id.to_json());
        obj_push_opt_bool(&mut r, "disable_notification", &self.disable_notification);
        obj_push_opt_bool(&mut r, "protect_content", &self.protect_content);
        obj_push_i64(&mut r, "message_id", self.message_id);
        r
    }

    fn files(&self) -> (r: Vec<(String, InputFile)>)
        ensures
            slots_view(r@) == self.files_view(),
    {
        let mut r: Vec<(String, InputFile)> = Vec::new();
        proof {
            broadcast use crate::types::lemma_slots_view;

            assert(slots_view(r@) =~= self.files_view());
        }
        r
    }
}

/// Use this method to copy messages of any kind. Service messages and invoice messages can't be copied. A quiz...
pub struct CopyMessage {
    pub chat_id: ChatId,
    pub from_chat_id: ChatId,
    pub message_id: i64,
    pub caption: Option<String>,
    pub parse_mode: Option<String>,
    pub caption_entities: Option<Vec<MessageEntity>>,
    pub disable_notification: Option<bool>,
    pub protect_content: Option<bool>,
    pub reply_to_message_id: Option<i64>,
    pub allow_sending_without_reply: Option<bool>,
    pub reply_markup: Option<ReplyMarkup>,
}

impl CopyMessage {
    pub fn new(chat_id: ChatId, from_chat_id: ChatId, message_id: i64) -> (r: Self)
        ensures
            r.chat_id == chat_id,
            r.from_chat_id == from_chat_id,
            r.message_id == message_id,
            r.caption is None,
            r.parse_mode is None,
            r.caption_entities is None,
            r.disable_notification is None,
            r.protect_content is None,
            r.reply_to_message_id is None,
            r.allow_sending_without_reply is None,
            r.reply_markup is None,
    {
        Self {
            chat_id,
            from_chat_id,
            message_id,
            caption: None,
            parse_mode: None,
            caption_entities: None,
            disable_notification: None,
            protect_content: None,
            reply_to_message_id: None,
            allow_sending_without_reply: None,
            reply_markup: None,
        }
    }
}

impl Methods for CopyMessage {
    open spec fn endpoint_view(&self) -> Seq<char> {
        "copyMessage"@
    }

    open spec fn params_view(&self) -> Seq<(Seq<char>, JVal)> {
        member("chat_id"@, self.chat_id@.to_jval()) + member("from_chat_id"@, self.from_chat_id@.to_jval()) + i64_member("message_id"@, self.message_id) + opt_str_member("caption"@, self.caption.deep_view()) + opt_str_member("parse_mode"@, self.parse_mode.deep_view()) + opt_member("caption_entities"@, match self.caption_entities.deep_view() {
            Option::Some(x) => Some(JVal::Arr(entities_jvals(x))),
            Option::None => None,
        }) + opt_bool_member("disable_notification"@, self.disable_notification) + opt_bool_member("protect_content"@, self.protect_content) + opt_i64_member("reply_to_message_id"@, self.reply_to_message_id) + opt_bool_member("allow_sending_without_reply"@, self.allow_sending_without_reply) + opt_member("reply_markup"@, match self.reply_markup.deep_view() {
            Option::Some(x) => Some(x.to_jval()),
            Option::None => None,
        })
    }

    open spec fn files_view(&self) -> Seq<(Seq<char>, InputFileView)> {
        Seq::empty()
    }

    fn endpoint(&self) -> (r: String)
        ensures
            r@ == self.endpoint_view(),
            r@.len() > 0,
    {
        proof {
            reveal_strlit("copyMessage");
        }
        String::from_str("copyMessage")
    }

    fn params(&self) -> (r: Params)
        ensures
            fields_view(r@) == self.params_view(),
    {
        let mut r: Params = Vec::new();
        obj_push(&mut r, "chat_id", self.chat_id.to_json());
        obj_push(&mut r, "from_chat_id", self.from_chat_id.to_json());
        obj_push_i64(&mut r, "message_id", self.message_id);
        obj_push_opt_str(&mut r, "caption", &self.caption);
        obj_push_opt_str(&mut r, "parse_mode", &self.parse_mode);
        let v_caption_entities: Option<JsonValue> = match &self.caption_entities {
            Option::Some(x) => Some(entities_json(x)),
            Option::None => None,
        };
        obj_push_opt_val(&mut r, "caption_entities", v_caption_entities);
        obj_push_opt_bool(&mut r, "disable_notification", &self.disable_notification);
        obj_push_opt_bool(&mut r, "protect_content", &self.protect_content);
        obj_push_opt_i64(&mut r, "reply_to_message_id", &self.reply_to_message_id);
        obj_push_opt_bool(&mut r, "allow_sending_without_reply", &self.allow_sending_without_reply);
        let v_reply_markup: Option<JsonValue> = match &self.reply_markup {
            Option::Some(x) => Some(x.to_json()),
            Option::None => None,
        };
        obj_push_opt_val(&mut r, "reply_markup", v_reply_markup);
        r
    }

    fn files(&self) -> (r: Vec<(String, InputFile)>)
        ensures
            slots_view(r@) == self.files_view(),
    {
        let mut r: Vec<(String, InputFile)> = Vec::new();
        proof {
            broadcast use crate::types::lemma_slots_view;

            assert(slots_view(r@) =~= self.files_view());
        }
        r
    }
}

/// Use this method to send photos. On success, the sent Message is returned.
pub struct SendPhoto {
    pub chat_id: ChatId,
    pub photo: InputFile,
    pub caption: Option<String>,
    pub parse_mode: Option<String>,
    pub caption_entities: Option<Vec<MessageEntity>>,
    pub disable_notification: Option<bool>,
    pub protect_content: Option<bool>,
    pub reply_to_message_id: Option<i64>,
    pub allow_sending_without_reply: Option<bool>,
    pub reply_markup: Option<ReplyMarkup>,
}

impl SendPhoto {
    pub fn new(chat_id: ChatId, photo: InputFile) -> (r: Self)
        ensures
            r.chat_id == chat_id,
            r.photo == photo,
            r.caption is None,
            r.parse_mode is None,
            r.caption_entities is None,
            r.disable_notification is None,
            r.protect_content is None,
            r.reply_to_message_id is None,
            r.allow_sending_without_reply is None,
            r.reply_markup is None,
    {
        Self {
            chat_id,
            photo,
            caption: None,
            parse_mode: None,
            caption_entities: None,
            disable_notification: None,
            protect_content: None,
            reply_to_message_id: None,
            allow_sending_without_reply: None,
            reply_markup: None,
        }
    }
}

impl Methods for SendPhoto {
    open spec fn endpoint_view(&self) -> Seq<char> {
        "sendPhoto"@
    }

    open spec fn params_view(&self) -> Seq<(Seq<char>, JVal)> {
        member("chat_id"@, self.chat_id@.to_jval()) + opt_str_member("caption"@, self.caption.deep_view()) + opt_str_member("parse_mode"@, self.parse_mode.deep_view()) + opt_member("caption_entities"@, match self.caption_entities.deep_view() {
            Option::Some(x) => Some(JVal::Arr(entities_jvals(x))),
            Option::None => None,
        }) + opt_bool_member("disable_notification"@, self.disable_notification) + opt_bool_member("protect_content"@, self.protect_content) + opt_i64_member("reply_to_message_id"@, self.reply_to_message_id) + opt_bool_member("allow_sending_without_reply"@, self.allow_sending_without_reply) + opt_member("reply_markup"@, match self.reply_markup.deep_view() {
            Option::Some(x) => Some(x.to_jval()),
            Option::None => None,
        })
    }

    open spec fn files_view(&self) -> Seq<(Seq<char>, InputFileView)> {
        slot("photo"@, self.photo@)
    }

    fn endpoint(&self) -> (r: String)
        ensures
            r@ == self.endpoint_view(),
            r@.len() > 0,
    {
        proof {
            reveal_strlit("sendPhoto");
        }
        String::from_str("sendPhoto")
    }

    fn params(&self) -> (r: Params)
        ensures
            fields_view(r@) == self.params_view(),
    {
        let mut r: Params = Vec::new();
        obj_push(&mut r, "chat_id", self.chat_id.to_json());
        obj_push_opt_str(&mut r, "caption", &self.caption);
        obj_push_opt_str(&mut r, "parse_mode", &self.parse_mode);
        let v_caption_entities: Option<JsonValue> = match &self.caption_entities {
            Option::Some(x) => Some(entities_json(x)),
            Option::None => None,
        };
        obj_push_opt_val(&mut r, "caption_entities", v_caption_entities);
        obj_push_opt_bool(&mut r, "disable_notification", &self.disable_notification);
        obj_push_opt_bool(&mut r, "protect_content", &self.protect_content);
        obj_push_opt_i64(&mut r, "reply_to_message_id", &self.reply_to_message_id);
        obj_push_opt_bool(&mut r, "allow_sending_without_reply", &self.allow_sending_without_reply);
        let v_reply_markup: Option<JsonValue> = match &self.reply_markup {
            Option::Some(x) => Some(x.to_json()),
            Option::None => None,
        };
        obj_push_opt_val(&mut r, "reply_markup", v_reply_markup);
        r
    }

    fn files(&self) -> (r: Vec<(String, InputFile)>)
        ensures
            slots_view(r@) == self.files_view(),
    {
        let mut r: Vec<(String, InputFile)> = Vec::new();
        r.push((String::from_str("photo"), self.photo.duplicate()));
        proof {
            broadcast use crate::types::lemma_slots_view;

            assert(slots_view(r@) =~= self.files_view());
        }
        r
    }
}

/// Use this method to send audio files, if you want Telegram clients to display them in the music player. Your...
pub struct SendAudio {
    pub chat_id: ChatId,
    pub audio: InputFile,
    pub caption: Option<String>,
    pub parse_mode: Option<String>,
    pub caption_entities: Option<Vec<MessageEntity>>,
    pub duration: Option<i64>,
    pub performer: Option<String>,
    pub title: Option<String>,
    pub thumb: Option<InputFile>,
    pub disable_notification: Option<bool>,
    pub protect_content: Option<bool>,
    pub reply_to_message_id: Option<i64>,
    pub allow_sending_without_reply: Option<bool>,
    pub reply_markup: Option<ReplyMarkup>,
}

impl SendAudio {
    pub fn new(chat_id: ChatId, audio: InputFile) -> (r: Self)
        ensures
            r.chat_id == chat_id,
            r.audio == audio,
            r.caption is None,
            r.parse_mode is None,
            r.caption_entities is None,
            r.duration is None,
            r.performer is None,
            r.title is None,
            r.thumb is None,
            r.disable_notification is None,
            r.protect_content is None,
            r.reply_to_message_id is None,
            r.allow_sending_without_reply is None,
            r.reply_markup is None,
    {
        Self {
            chat_id,
            audio,
            caption: None,
            parse_mode: None,
            caption_entities: None,
            duration: None,
            performer: None,
            title: None,
            thumb: None,
            disable_notification: None,
            protect_content: None,
            reply_to_message_id: None,
            allow_sending_without_reply: None,
            reply_markup: None,
        }
    }
}

impl Methods for SendAudio {
    open spec fn endpoint_view(&self) -> Seq<char> {
        "sendAudio"@
    }

    open spec fn params_view(&self) -> Seq<(Seq<char>, JVal)> {
        member("chat_id"@, self.chat_id@.to_jval()) + opt_str_member("caption"@, self.caption.deep_view()) + opt_str_member("parse_mode"@, self.parse_mode.deep_view()) + opt_member("caption_entities"@, match self.caption_entities.deep_view() {
            Option::Some(x) => Some(JVal::Arr(entities_jvals(x))),
            Option::None => None,
        }) + opt_i64_member("duration"@, self.duration) + opt_str_member("performer"@, self.performer.deep_view()) + opt_str_member("title"@, self.title.deep_view()) + opt_member("thumb"@, match self.thumb.deep_view() {
            Option::Some(x) => Some(x.to_jval()),
            Option::None => None,
        }) + opt_bool_member("disable_notification"@, self.disable_notification) + opt_bool_member("protect_content"@, self.protect_content) + opt_i64_member("reply_to_message_id"@, self.reply_to_message_id) + opt_bool_member("allow_sending_without_reply"@, self.allow_sending_without_reply) + opt_member("reply_markup"@, match self.reply_markup.deep_view() {
            Option::Some(x) => Some(x.to_jval()),
            Option::None => None,
        })
    }

    open spec fn files_view(&self) -> Seq<(Seq<char>, InputFileView)> {
        slot("audio"@, self.audio@) + opt_slot("thumb"@, self.thumb.deep_view())
    }

    fn endpoint(&self) -> (r: String)
        ensures
            r@ == self.endpoint_view(),
            r@.len() > 0,
    {
        proof {
            reveal_strlit("sendAudio");
        }
        String::from_str("sendAudio")
    }

    fn params(&self) -> (r: Params)
        ensures
            fields_view(r@) == self.params_view(),
    {
        let mut r: Params = Vec::new();
        obj_push(&mut r, "chat_id", self.chat_id.to_json());
        obj_push_opt_str(&mut r, "caption", &self.caption);
        obj_push_opt_str(&mut r, "parse_mode", &self.parse_mode);
        let v_caption_entities: Option<JsonValue> = match &self.caption_entities {
            Option::Some(x) => Some(entities_json(x)),
            Option::None => None,
        };
        obj_push_opt_val(&mut r, "caption_entities", v_caption_entities);
        obj_push_opt_i64(&mut r, "duration", &self.duration);
        obj_push_opt_str(&mut r, "performer", &self.performer);
        obj_push_opt_str(&mut r, "title", &self.title);
        let v_thumb: Option<JsonValue> = match &self.thumb {
            Option::Some(x) => Some(x.to_json()),
            Option::None => None,
        };
        obj_push_opt_val(&mut r, "thumb", v_thumb);
        obj_push_opt_bool(&mut r, "disable_notification", &self.disable_notification);
        obj_push_opt_bool(&mut r, "protect_content", &self.protect_content);
        obj_push_opt_i64(&mut r, "reply_to_message_id", &self.reply_to_message_id);
        obj_push_opt_bool(&mut r, "allow_sending_without_reply", &self.allow_sending_without_reply);
        let v_reply_markup: Option<JsonValue> = match &self.reply_markup {
            Option::Some(x) => Some(x.to_json()),
            Option::None => None,
        };
        obj_push_opt_val(&mut r, "reply_markup", v_reply_markup);
        r
    }

    fn files(&self) -> (r: Vec<(String, InputFile)>)
        ensures
            slots_view(r@) == self.files_view(),
    {
        let mut r: Vec<(String, InputFile)> = Vec::new();
        r.push((String::from_str("audio"), self.audio.duplicate()));
        match &self.thumb {
            Option::Some(x) => {
                r.push((String::from_str("thumb"), x.duplicate()));
            },
            Option::None => {},
        }
        proof {
            broadcast use crate::types::lemma_slots_view;

            assert(slots_view(r@) =~= self.files_view());
        }
        r
    }
}

/// Use this method to send general files. On success, the sent Message is returned. Bots can currently send fi...
pub struct SendDocument {
    pub chat_id: ChatId,
    pub document: InputFile,
    pub thumb: Option<InputFile>,
    pub caption: Option<String>,
    pub parse_mode: Option<String>,
    pub caption_entities: Option<Vec<MessageEntity>>,
    pub disable_content_type_detection: Option<bool>,
    pub disable_notification: Option<bool>,
    pub protect_content: Option<bool>,
    pub reply_to_message_id: Option<i64>,
    pub allow_sending_without_reply: Option<bool>,
    pub reply_markup: Option<ReplyMarkup>,
}

impl SendDocument {
    pub fn new(chat_id: ChatId, document: InputFile) -> (r: Self)
        ensures
            r.chat_id == chat_id,
            r.document == document,
            r.thumb is None,
            r.caption is None,
            r.parse_mode is None,
            r.caption_entities is None,
            r.disable_content_type_detection is None,
            r.disable_notification is None,
            r.protect_content is None,
            r.reply_to_message_id is None,
            r.allow_sending_without_reply is None,
            r.reply_markup is None,
    {
        Self {
            chat_id,
            document,
            thumb: None,
            caption: None,
            parse_mode: None,
            caption_entities: None,
            disable_content_type_detection: None,
            disable_notification: None,
            protect_content: None,
            reply_to_message_id: None,
            allow_sending_without_reply: None,
            reply_markup: None,
        }
    }
}

impl Methods for SendDocument {
    open spec fn endpoint_view(&self) -> Seq<char> {
        "sendDocument"@
    }

    open spec fn params_view(&self) -> Seq<(Seq<char>, JVal)> {
        member("chat_id"@, self.chat_id@.to_jval()) + opt_member("thumb"@, match self.thumb.deep_view() {
            Option::Some(x) => Some(x.to_jval()),
            Option::None => None,
        }) + opt_str_member("caption"@, self.caption.deep_view()) + opt_str_member("parse_mode"@, self.parse_mode.deep_view()) + opt_member("caption_entities"@, match self.caption_entities.deep_view() {
            Option::Some(x) => Some(JVal::Arr(entities_jvals(x))),
            Option::None => None,
        }) + opt_bool_member("disable_content_type_detection"@, self.disable_content_type_detection) + opt_bool_member("disable_notification"@, self.disable_notification) + opt_bool_member("protect_content"@, self.protect_content) + opt_i64_member("reply_to_message_id"@, self.reply_to_message_id) + opt_bool_member("allow_sending_without_reply"@, self.allow_sending_without_reply) + opt_member("reply_markup"@, match self.reply_markup.deep_view() {
            Option::Some(x) => Some(x.to_jval()),
            Option::None => None,
        })
    }

    open spec fn files_view(&self) -> Seq<(Seq<char>, InputFileView)> {
        slot("document"@, self.document@) + opt_slot("thumb"@, self.thumb.deep_view())
    }

    fn endpoint(&self) -> (r: String)
        ensures
            r@ == self.endpoint_view(),
            r@.len() > 0,
    {
        proof {
            reveal_strlit("sendDocument");
        }
        String::from_str("sendDocument")
    }

    fn params(&self) -> (r: Params)
        ensures
            fields_view(r@) == self.params_view(),
    {
        let mut r: Params = Vec::new();
        obj_push(&mut r, "chat_id", self.chat_id.to_json());
        let v_thumb: Option<JsonValue> = match &self.thumb {
            Option::Some(x) => Some(x.to_json()),
            Option::None => None,
        };
        obj_push_opt_val(&mut r, "thumb", v_thumb);
        obj_push_opt_str(&mut r, "caption", &self.caption);
        obj_push_opt_str(&mut r, "parse_mode", &self.parse_mode);
        let v_caption_entities: Option<JsonValue> = match &self.caption_entities {
            Option::Some(x) => Some(entities_json(x)),
            Option::None => None,
        };
        obj_push_opt_val(&mut r, "caption_entities", v_caption_entities);
        obj_push_opt_bool(&mut r, "disable_content_type_detection", &self.disable_content_type_detection);
        obj_push_opt_bool(&mut r, "disable_notification", &self.disable_notification);
        obj_push_opt_bool(&mut r, "protect_content", &self.protect_content);
        obj_push_opt_i64(&mut r, "reply_to_message_id", &self.reply_to_message_id);
        obj_push_opt_bool(&mut r, "allow_sending_without_reply", &self.allow_sending_without_reply);
        let v_reply_markup: Option<JsonValue> = match &self.reply_markup {
            Option::Some(x) => Some(x.to_json()),
            Option::None => None,
        };
        obj_push_opt_val(&mut r, "reply_markup", v_reply_markup);
        r
    }

    fn files(&self) -> (r: Vec<(String, InputFile)>)
        ensures
            slots_view(r@) == self.files_view(),
    {
        let mut r: Vec<(String, InputFile)> = Vec::new();
        r.push((String::from_str("document"), self.document.duplicate()));
        match &self.thumb {
            Option::Some(x) => {
                r.push((String::from_str("thumb"), x.duplicate()));
            },
            Option::None => {},
        }
        proof {
            broadcast use crate::types::lemma_slots_view;

            assert(slots_view(r@) =~= self.files_view());
        }
        r
    }
}

/// Use this method to send video files, Telegram clients support MPEG4 videos (other formats may be sent as Do...
pub struct SendVideo {
    pub chat_id: ChatId,
    pub video: InputFile,
    pub duration: Option<i64>,
    pub width: Option<i64>,
    pub height: Option<i64>,
    pub thumb: Option<InputFile>,
    pub caption: Option<String>,
    pub parse_mode: Option<String>,
    pub caption_entities: Option<Vec<MessageEntity>>,
    pub supports_streaming: Option<bool>,
    pub disable_notification: Option<bool>,
    pub protect_content: Option<bool>,
    pub reply_to_message_id: Option<i64>,
    pub allow_sending_without_reply: Option<bool>,
    pub reply_markup: Option<ReplyMarkup>,
}

impl SendVideo {
    pub fn new(chat_id: ChatId, video: InputFile) -> (r: Self)
        ensures
            r.chat_id == chat_id,
            r.video == video,
            r.duration is None,
            r.width is None,
            r.height is None,
            r.thumb is None,
            r.caption is None,
            r.parse_mode is None,
            r.caption_entities is None,
            r.supports_streaming is None,
            r.disable_notification is None,
            r.protect_content is None,
            r.reply_to_message_id is None,
            r.allow_sending_without_reply is None,
            r.reply_markup is None,
    {
        Self {
            chat_id,
            video,
            duration: None,
            width: None,
            height: None,
            thumb: None,
            caption: None,
            parse_mode: None,
            caption_entities: None,
            supports_streaming: None,
            disable_notification: None,
            protect_content: None,
            reply_to_message_id: None,
            allow_sending_without_reply: None,
            reply_markup: None,
        }
    }
}

impl Methods for SendVideo {
    open spec fn endpoint_view(&self) -> Seq<char> {
        "sendVideo"@
    }

    open spec fn params_view(&self) -> Seq<(Seq<char>, JVal)> {
        member("chat_id"@, self.chat_id@.to_jval()) + opt_i64_member("duration"@, self.duration) + opt_i64_member("width"@, self.width) + opt_i64_member("height"@, self.height) + opt_member("thumb"@, match self.thumb.deep_view() {
            Option::Some(x) => Some(x.to_jval()),
            Option::None => None,
        }) + opt_str_member("caption"@, self.caption.deep_view()) + opt_str_member("parse_mode"@, self.parse_mode.deep_view()) + opt_member("caption_entities"@, match self.caption_entities.deep_view() {
            Option::Some(x) => Some(JVal::Arr(entities_jvals(x))),
            Option::None => None,
        }) + opt_bool_member("supports_streaming"@, self.supports_streaming) + opt_bool_member("disable_notification"@, self.disable_notification) + opt_bool_member("protect_content"@, self.protect_content) + opt_i64_member("reply_to_message_id"@, self.reply_to_message_id) + opt_bool_member("allow_sending_without_reply"@, self.allow_sending_without_reply) + opt_member("reply_markup"@, match self.reply_markup.deep_view() {
            Option::Some(x) => Some(x.to_jval()),
            Option::None => None,
        })
    }

    open spec fn files_view(&self) -> Seq<(Seq<char>, InputFileView)> {
        slot("video"@, self.video@) + opt_slot("thumb"@, self.thumb.deep_view())
    }

    fn endpoint(&self) -> (r: String)
        ensures
            r@ == self.endpoint_view(),
            r@.len() > 0,
    {
        proof {
            reveal_strlit("sendVideo");
        }
        String::from_str("sendVideo")
    }

    fn params(&self) -> (r: Params)
        ensures
            fields_view(r@) == self.params_view(),
    {
        let mut r: Params = Vec::new();
        obj_push(&mut r, "chat_id", self.chat_id.to_json());
        obj_push_opt_i64(&mut r, "duration", &self.duration);
        obj_push_opt_i64(&mut r, "width", &self.width);
        obj_push_opt_i64(&mut r, "height", &self.height);
        let v_thumb: Option<JsonValue> = match &self.thumb {
            Option::Some(x) => Some(x.to_json()),
            Option::None => None,
        };
        obj_push_opt_val(&mut r, "thumb", v_thumb);
        obj_push_opt_str(&mut r, "caption", &self.caption);
        obj_push_opt_str(&mut r, "parse_mode", &self.parse_mode);
        let v_caption_entities: Option<JsonValue> = match &self.caption_entities {
            Option::Some(x) => Some(entities_json(x)),
            Option::None => None,
        };
        obj_push_opt_val(&mut r, "caption_entities", v_caption_entities);
        obj_push_opt_bool(&mut r, "supports_streaming", &self.supports_streaming);
        obj_push_opt_bool(&mut r, "disable_notification", &self.disable_notification);
        obj_push_opt_bool(&mut r, "protect_content", &self.protect_content);
        obj_push_opt_i64(&mut r, "reply_to_message_id", &self.reply_to_message_id);
        obj_push_opt_bool(&mut r, "allow_sending_without_reply", &self.allow_sending_without_reply);
        let v_reply_markup: Option<JsonValue> = match &self.reply_markup {
            Option::Some(x) => Some(x.to_json()),
            Option::None => None,
        };
        obj_push_opt_val(&mut r, "reply_markup", v_reply_markup);
        r
    }

    fn files(&self) -> (r: Vec<(String, InputFile)>)
        ensures
            slots_view(r@) == self.files_view(),
    {
        let mut r: Vec<(String, InputFile)> = Vec::new();
        r.push((String::from_str("video"), self.video.duplicate()));
        match &self.thumb {
            Option::Some(x) => {
                r.push((String::from_str("thumb"), x.duplicate()));
            },
            Option::None => {},
        }
        proof {
            broadcast use crate::types::lemma_slots_view;

            assert(slots_view(r@) =~= self.files_view());
        }
        r
    }
}

/// Use this method to send animation files (GIF or H.264/MPEG-4 AVC video without sound). On success, the sent...
pub struct SendAnimation {
    pub chat_id: ChatId,
    pub animation: InputFile,
    pub duration: Option<i64>,
    pub width: Option<i64>,
    pub height: Option<i64>,
    pub thumb: Option<InputFile>,
    pub caption: Option<String>,
    pub parse_mode: Option<String>,
    pub caption_entities: Option<Vec<MessageEntity>>,
    pub disable_notification: Option<bool>,
    pub protect_content: Option<bool>,
    pub reply_to_message_id: Option<i64>,
    pub allow_sending_without_reply: Option<bool>,
    pub reply_markup: Option<ReplyMarkup>,
}

impl SendAnimation {
    pub fn new(chat_id: ChatId, animation: InputFile) -> (r: Self)
        ensures
            r.chat_id == chat_id,
            r.animation == animation,
            r.duration is None,
            r.width is None,
            r.height is None,
            r.thumb is None,
            r.caption is None,
            r.parse_mode is None,
            r.caption_entities is None,
            r.disable_notification is None,
            r.protect_content is None,
            r.reply_to_message_id is None,
            r.allow_sending_without_reply is None,
            r.reply_markup is None,
    {
        Self {
            chat_id,
            animation,
            duration: None,
            width: None,
            height: None,
            thumb: None,
            caption: None,
            parse_mode: None,
            caption_entities: None,
            disable_notification: None,
            protect_content: None,
            reply_to_message_id: None,
            allow_sending_without_reply: None,
            reply_markup: None,
        }
    }
}

impl Methods for SendAnimation {
    open spec fn endpoint_view(&self) -> Seq<char> {
        "sendAnimation"@
    }

    open spec fn params_view(&self) -> Seq<(Seq<char>, JVal)> {
        member("chat_id"@, self.chat_id@.to_jval()) + opt_i64_member("duration"@, self.duration) + opt_i64_member("width"@, self.width) + opt_i64_member("height"@, self.height) + opt_member("thumb"@, match self.thumb.deep_view() {
            Option::Some(x) => Some(x.to_jval()),
            Option::None => None,
        }) + opt_str_member("caption"@, self.caption.deep_view()) + opt_str_member("parse_mode"@, self.parse_mode.deep_view()) + opt_member("caption_entities"@, match self.caption_entities.deep_view() {
            Option::Some(x) => Some(JVal::Arr(entities_jvals(x))),
            Option::None => None,
        }) + opt_bool_member("disable_notification"@, self.disable_notification) + opt_bool_member("protect_content"@, self.protect_content) + opt_i64_member("reply_to_message_id"@, self.reply_to_message_id) + opt_bool_member("allow_sending_without_reply"@, self.allow_sending_without_reply) + opt_member("reply_markup"@, match self.reply_markup.deep_view() {
            Option::Some(x) => Some(x.to_jval()),
            Option::None => None,
        })
    }

    open spec fn files_view(&self) -> Seq<(Seq<char>, InputFileView)> {
        slot("animation"@, self.animation@) + opt_slot("thumb"@, self.thumb.deep_view())
    }

    fn endpoint(&self) -> (r: String)
        ensures
            r@ == self.endpoint_view(),
            r@.len() > 0,
    {
        proof {
            reveal_strlit("sendAnimation");
        }
        String::from_str("sendAnimation")
    }

    fn params(&self) -> (r: Params)
        ensures
            fields_view(r@) == self.params_view(),
    {
        let mut r: Params = Vec::new();
        obj_push(&mut r, "chat_id", self.chat_id.to_json());
        obj_push_opt_i64(&mut r, "duration", &self.duration);
        obj_push_opt_i64(&mut r, "width", &self.width);
        obj_push_opt_i64(&mut r, "height", &self.height);
        let v_thumb: Option<JsonValue> = match &self.thumb {
            Option::Some(x) => Some(x.to_json()),
            Option::None => None,
        };
        obj_push_opt_val(&mut r, "thumb", v_thumb);
        obj_push_opt_str(&mut r, "caption", &self.caption);
        obj_push_opt_str(&mut r, "parse_mode", &self.parse_mode);
        let v_caption_entities: Option<JsonValue> = match &self.caption_entities {
            Option::Some(x) => Some(entities_json(x)),
            Option::None => None,
        };
        obj_push_opt_val(&mut r, "caption_entities", v_caption_entities);
        obj_push_opt_bool(&mut r, "disable_notification", &self.disable_notification);
        obj_push_opt_bool(&mut r, "protect_content", &self.protect_content);
        obj_push_opt_i64(&mut r, "reply_to_message_id", &self.reply_to_message_id);
        obj_push_opt_bool(&mut r, "allow_sending_without_reply", &self.allow_sending_without_reply);
        let v_reply_markup: Option<JsonValue> = match &self.reply_markup {
            Option::Some(x) => Some(x.to_json()),
            Option::None => None,
        };
        obj_push_opt_val(&mut r, "reply_markup", v_reply_markup);
        r
    }

    fn files(&self) -> (r: Vec<(String, InputFile)>)
        ensures
            slots_view(r@) == self.files_view(),
    {
        let mut r: Vec<(String, InputFile)> = Vec::new();
        r.push((String::from_str("animation"), self.animation.duplicate()));
        match &self.thumb {
            Option::Some(x) => {
                r.push((String::from_str("thumb"), x.duplicate()));
            },
            Option::None => {},
        }
        proof {
            broadcast use crate::types::lemma_slots_view;

            assert(slots_view(r@) =~= self.files_view());
        }
        r
    }
}

/// Use this method to send audio files, if you want Telegram clients to display the file as a playable voice m...
pub struct SendVoice {
    pub chat_id: ChatId,
    pub voice: InputFile,
    pub caption: Option<String>,
    pub parse_mode: Option<String>,
    pub caption_entities: Option<Vec<MessageEntity>>,
    pub duration: Option<i64>,
    pub disable_notification: Option<bool>,
    pub protect_content: Option<bool>,
    pub reply_to_message_id: Option<i64>,
    pub allow_sending_without_reply: Option<bool>,
    pub reply_markup: Option<ReplyMarkup>,
}

impl SendVoice {
    pub fn new(chat_id: ChatId, voice: InputFile) -> (r: Self)
        ensures
            r.chat_id == chat_id,
            r.voice == voice,
            r.caption is None,
            r.parse_mode is None,
            r.caption_entities is None,
            r.duration is None,
            r.disable_notification is None,
            r.protect_content is None,
            r.reply_to_message_id is None,
            r.allow_sending_without_reply is None,
            r.reply_markup is None,
    {
        Self {
            chat_id,
            voice,
            caption: None,
            parse_mode: None,
            caption_entities: None,
            duration: None,
            disable_notification: None,
            protect_content: None,
            reply_to_message_id: None,
            allow_sending_without_reply: None,
            reply_markup: None,
        }
    }
}

impl Methods for SendVoice {
    open spec fn endpoint_view(&self) -> Seq<char> {
        "sendVoice"@
    }

    open spec fn params_view(&self) -> Seq<(Seq<char>, JVal)> {
        member("chat_id"@, self.chat_id@.to_jval()) + opt_str_member("caption"@, self.caption.deep_view()) + opt_str_member("parse_mode"@, self.parse_mode.deep_view()) + opt_member("caption_entities"@, match self.caption_entities.deep_view() {
            Option::Some(x) => Some(JVal::Arr(entities_jvals(x))),
            Option::None => None,
        }) + opt_i64_member("duration"@, self.duration) + opt_bool_member("disable_notification"@, self.disable_notification) + opt_bool_member("protect_content"@, self.protect_content) + opt_i64_member("reply_to_message_id"@, self.reply_to_message_id) + opt_bool_member("allow_sending_without_reply"@, self.allow_sending_without_reply) + opt_member("reply_markup"@, match self.reply_markup.deep_view() {
            Option::Some(x) => Some(x.to_jval()),
            Option::None => None,
        })
    }

    open spec fn files_view(&self) -> Seq<(Seq<char>, InputFileView)> {
        slot("voice"@, self.voice@)
    }

    fn endpoint(&self) -> (r: String)
        ensures
            r@ == self.endpoint_view(),
            r@.len() > 0,
    {
        proof {
            reveal_strlit("sendVoice");
        }
        String::from_str("sendVoice")
    }

    fn params(&self) -> (r: Params)
        ensures
            fields_view(r@) == self.params_view(),
    {
        let mut r: Params = Vec::new();
        obj_push(&mut r, "chat_id", self.chat_id.to_json());
        obj_push_opt_str(&mut r, "caption", &self.caption);
        obj_push_opt_str(&mut r, "parse_mode", &self.parse_mode);
        let v_caption_entities: Option<JsonValue> = match &self.caption_entities {
            Option::Some(x) => Some(entities_json(x)),
            Option::None => None,
        };
        obj_push_opt_val(&mut r, "caption_entities", v_caption_entities);
        obj_push_opt_i64(&mut r, "duration", &self.duration);
        obj_push_opt_bool(&mut r, "disable_notification", &self.disable_notification);
        obj_push_opt_bool(&mut r, "protect_content", &self.protect_content);
        obj_push_opt_i64(&mut r, "reply_to_message_id", &self.reply_to_message_id);
        obj_push_opt_bool(&mut r, "allow_sending_without_reply", &self.allow_sending_without_reply);
        let v_reply_markup: Option<JsonValue> = match &self.reply_markup {
            Option::Some(x) => Some(x.to_json()),
            Option::None => None,
        };
        obj_push_opt_val(&mut r, "reply_markup", v_reply_markup);
        r
    }

    fn files(&self) -> (r: Vec<(String, InputFile)>)
        ensures
            slots_view(r@) == self.files_view(),
    {
        let mut r: Vec<(String, InputFile)> = Vec::new();
        r.push((String::from_str("voice"), self.voice.duplicate()));
        proof {
            broadcast use crate::types::lemma_slots_view;

            assert(slots_view(r@) =~= self.files_view());
        }
        r
    }
}

/// As of v.4.0, Telegram clients support rounded square MPEG4 videos of up to 1 minute long. Use this method t...
pub struct SendVideoNote {
    pub chat_id: ChatId,
    pub video_note: InputFile,
    pub duration: Option<i64>,
    pub length: Option<i64>,
    pub thumb: Option<InputFile>,
    pub disable_notification: Option<bool>,
    pub protect_content: Option<bool>,
    pub reply_to_message_id: Option<i64>,
    pub allow_sending_without_reply: Option<bool>,
    pub reply_markup: Option<ReplyMarkup>,
}

impl SendVideoNote {
    pub fn new(chat_id: ChatId, video_note: InputFile) -> (r: Self)
        ensures
            r.chat_id == chat_id,
            r.video_note == video_note,
            r.duration is None,
            r.length is None,
            r.thumb is None,
            r.disable_notification is None,
            r.protect_content is None,
            r.reply_to_message_id is None,
            r.allow_sending_without_reply is None,
            r.reply_markup is None,
    {
        Self {
            chat_id,
            video_note,
            duration: None,
            length: None,
            thumb: None,
            disable_notification: None,
            protect_content: None,
            reply_to_message_id: None,
            allow_sending_without_reply: None,
            reply_markup: None,
        }
    }
}

impl Methods for SendVideoNote {
    open spec fn endpoint_view(&self) -> Seq<char> {
        "sendVideoNote"@
    }

    open spec fn params_view(&self) -> Seq<(Seq<char>, JVal)> {
        member("chat_id"@, self.chat_id@.to_jval()) + opt_i64_member("duration"@, self.duration) + opt_i64_member("length"@, self.length) + opt_member("thumb"@, match self.thumb.deep_view() {
            Option::Some(x) => Some(x.to_jval()),
            Option::None => None,
        }) + opt_bool_member("disable_notification"@, self.disable_notification) + opt_bool_member("protect_content"@, self.protect_content) + opt_i64_member("reply_to_message_id"@, self.reply_to_message_id) + opt_bool_member("allow_sending_without_reply"@, self.allow_sending_without_reply) + opt_member("reply_markup"@, match self.reply_markup.deep_view() {
            Option::Some(x) => Some(x.to_jval()),
            Option::None => None,
        })
    }

    open spec fn files_view(&self) -> Seq<(Seq<char>, InputFileView)> {
        slot("video_note"@, self.video_note@) + opt_slot("thumb"@, self.thumb.deep_view())
    }

    fn endpoint(&self) -> (r: String)
        ensures
            r@ == self.endpoint_view(),
            r@.len() > 0,
    {
        proof {
            reveal_strlit("sendVideoNote");
        }
        String::from_str("sendVideoNote")
    }

    fn params(&self) -> (r: Params)
        ensures
            fields_view(r@) == self.params_view(),
    {
        let mut r: Params = Vec::new();
        obj_push(&mut r, "chat_id", self.chat_id.to_json());
        obj_push_opt_i64(&mut r, "duration", &self.duration);
        obj_push_opt_i64(&mut r, "length", &self.length);
        let v_thumb: Option<JsonValue> = match &self.thumb {
            Option::Some(x) => Some(x.to_json()),
            Option::None => None,
        };
        obj_push_opt_val(&mut r, "thumb", v_thumb);
        obj_push_opt_bool(&mut r, "disable_notification", &self.disable_notification);
        obj_push_opt_bool(&mut r, "protect_content", &self.protect_content);
        obj_push_opt_i64(&mut r, "reply_to_message_id", &self.reply_to_message_id);
        obj_push_opt_bool(&mut r, "allow_sending_without_reply", &self.allow_sending_without_reply);
        let v_reply_markup: Option<JsonValue> = match &self.reply_markup {
            Option::Some(x) => Some(x.to_json()),
            Option::None => None,
        };
        obj_push_opt_val(&mut r, "reply_markup", v_reply_markup);
        r
    }

    fn files(&self) -> (r: Vec<(String, InputFile)>)
        ensures
            slots_view(r@) == self.files_view(),
    {
        let mut r: Vec<(String, InputFile)> = Vec::new();
        r.push((String::from_str("video_note"), self.video_note.duplicate()));
        match &self.thumb {
            Option::Some(x) => {
                r.push((String::from_str("thumb"), x.duplicate()));
            },
            Option::None => {},
        }
        proof {
            broadcast use crate::types::lemma_slots_view;

            assert(slots_view(r@) =~= self.files_view());
        }
        r
    }
}

/// Use this method to stop updating a live location message before live_period expires. On success, if the mes...
pub struct StopMessageLiveLocation {
    pub chat_id: Option<ChatId>,
    pub message_id: Option<i64>,
    pub inline_message_id: Option<String>,
    pub reply_markup: Option<InlineKeyboardMarkup>,
}

impl StopMessageLiveLocation {
    pub fn new() -> (r: Self)
        ensures
            r.chat_id is None,
            r.message_id is None,
            r.inline_message_id is None,
            r.reply_markup is None,
    {
        Self {
            chat_id: None,
            message_id: None,
            inline_message_id: None,
            reply_markup: None,
        }
    }
}

impl Methods for StopMessageLiveLocation {
    open spec fn endpoint_view(&self) -> Seq<char> {
        "stopMessageLiveLocation"@
    }

    open spec fn params_view(&self) -> Seq<(Seq<char>, JVal)> {
        opt_member("chat_id"@, match self.chat_id.deep_view() {
            Option::Some(x) => Some(x.to_jval()),
            Option::None => None,
        }) + opt_i64_member("message_id"@, self.message_id) + opt_str_member("inline_message_id"@, self.inline_message_id.deep_view()) + opt_member("reply_markup"@, match self.reply_markup.deep_view() {
            Option::Some(x) => Some(x.to_jval()),
            Option::None => None,
        })
    }

    open spec fn files_view(&self) -> Seq<(Seq<char>, InputFileView)> {
        Seq::empty()
    }

    fn endpoint(&self) -> (r: String)
        ensures
            r@ == self.endpoint_view(),
            r@.len() > 0,
    {
        proof {
            reveal_strlit("stopMessageLiveLocation");
        }
        String::from_str("stopMessageLiveLocation")
    }

    fn params(&self) -> (r: Params)
        ensures
            fields_view(r@) == self.params_view(),
    {
        let mut r: Params = Vec::new();
        let v_chat_id: Option<JsonValue> = match &self.chat_id {
            Option::Some(x) => Some(x.to_json()),
            Option::None => None,
        };
        obj_push_opt_val(&mut r, "chat_id", v_chat_id);
        obj_push_opt_i64(&mut r, "message_id", &self.message_id);
        obj_push_opt_str(&mut r, "inline_message_id", &self.inline_message_id);
        let v_reply_markup: Option<JsonValue> = match &self.reply_markup {
            Option::Some(x) => Some(x.to_json()),
            Option::None => None,
        };
        obj_push_opt_val(&mut r, "reply_markup", v_reply_markup);
        r
    }

    fn files(&self) -> (r: Vec<(String, InputFile)>)
        ensures
            slots_view(r@) == self.files_view(),
    {
        let mut r: Vec<(String, InputFile)> = Vec::new();
        proof {
            broadcast use crate::types::lemma_slots_view;

            assert(slots_view(r@) =~= self.files_view());
        }
        r
    }
}

/// Use this method to send phone contacts. On success, the sent Message is returned.
pub struct SendContact {
    pub chat_id: ChatId,
    pub phone_number: String,
    pub first_name: String,
    pub last_name: Option<String>,
    pub vcard: Option<String>,
    pub disable_notification: Option<bool>,
    pub protect_content: Option<bool>,
    pub reply_to_message_id: Option<i64>,
    pub allow_sending_without_reply: Option<bool>,
    pub reply_markup: Option<ReplyMarkup>,
}

impl SendContact {
    pub fn new(chat_id: ChatId, phone_number: String, first_name: String) -> (r: Self)
        ensures
            r.chat_id == chat_id,
            r.phone_number == phone_number,
            r.first_name == first_name,
            r.last_name is None,
            r.vcard is None,
            r.disable_notification is None,
            r.protect_content is None,
            r.reply_to_message_id is None,
            r.allow_sending_without_reply is None,
            r.reply_markup is None,
    {
        Self {
            chat_id,
            phone_number,
            first_name,
            last_name: None,
            vcard: None,
            disable_notification: None,
            protect_content: None,
            reply_to_message_id: None,
            allow_sending_without_reply: None,
            reply_markup: None,
        }
    }
}

impl Methods for SendContact {
    open spec fn endpoint_view(&self) -> Seq<char> {
        "sendContact"@
    }

    open spec fn params_view(&self) -> Seq<(Seq<char>, JVal)> {
        member("chat_id"@, self.chat_id@.to_jval()) + str_member("phone_number"@, self.phone_number@) + str_member("first_name"@, self.first_name@) + opt_str_member("last_name"@, self.last_name.deep_view()) + opt_str_member("vcard"@, self.vcard.deep_view()) + opt_bool_member("disable_notification"@, self.disable_notification) + opt_bool_member("protect_content"@, self.protect_content) + opt_i64_member("reply_to_message_id"@, self.reply_to_message_id) + opt_bool_member("allow_sending_without_reply"@, self.allow_sending_without_reply) + opt_member("reply_markup"@, match self.reply_markup.deep_view() {
            Option::Some(x) => Some(x.to_jval()),
            Option::None => None,
        })
    }

    open spec fn files_view(&self) -> Seq<(Seq<char>, InputFileView)> {
        Seq::empty()
    }

    fn endpoint(&self) -> (r: String)
        ensures
            r@ == self.endpoint_view(),
            r@.len() > 0,
    {
        proof {
            reveal_strlit("sendContact");
        }
        String::from_str("sendContact")
    }

    fn params(&self) -> (r: Params)
        ensures
            fields_view(r@) == self.params_view(),
    {
        let mut r: Params = Vec::new();
        obj_push(&mut r, "chat_id", self.chat_id.to_json());
        obj_push_str(&mut r, "phone_number", &self.phone_number);
        obj_push_str(&mut r, "first_name", &self.first_name);
        obj_push_opt_str(&mut r, "last_name", &self.last_name);
        obj_push_opt_str(&mut r, "vcard", &self.vcard);
        obj_push_opt_bool(&mut r, "disable_notification", &self.disable_notification);
        obj_push_opt_bool(&mut r, "protect_content", &self.protect_content);
        obj_push_opt_i64(&mut r, "reply_to_message_id", &self.reply_to_message_id);
        obj_push_opt_bool(&mut r, "allow_sending_without_reply", &self.allow_sending_without_reply);
        let v_reply_markup: Option<JsonValue> = match &self.reply_markup {
            Option::Some(x) => Some(x.to_json()),
            Option::None => None,
        };
        obj_push_opt_val(&mut r, "reply_markup", v_reply_markup);
        r
    }

    fn files(&self) -> (r: Vec<(String, InputFile)>)
        ensures
            slots_view(r@) == self.files_view(),
    {
        let mut r: Vec<(String, InputFile)> = Vec::new();
        proof {
            broadcast use crate::types::lemma_slots_view;

            assert(slots_view(r@) =~= self.files_view());
        }
        r
    }
}

/// Use this method to send a native poll. On success, the sent Message is returned.
pub struct SendPoll {
    pub chat_id: ChatId,
    pub question: String,
    pub options: Vec<String>,
    pub is_anonymous: Option<bool>,
    pub kind: Option<String>,
    pub allows_multiple_answers: Option<bool>,
    pub correct_option_id: Option<i64>,
    pub explanation: Option<String>,
    pub explanation_parse_mode: Option<String>,
    pub explanation_entities: Option<Vec<MessageEntity>>,
    pub open_period: Option<i64>,
    pub close_date: Option<i64>,
    pub is_closed: Option<bool>,
    pub disable_notification: Option<bool>,
    pub protect_content: Option<bool>,
    pub reply_to_message_id: Option<i64>,
    pub allow_sending_without_reply: Option<bool>,
    pub reply_markup: Option<ReplyMarkup>,
}

impl SendPoll {
    pub fn new(chat_id: ChatId, question: String, options: Vec<String>) -> (r: Self)
        ensures
            r.chat_id == chat_id,
            r.question == question,
            r.options == options,
            r.is_anonymous is None,
            r.kind is None,
            r.allows_multiple_answers is None,
            r.correct_option_id is None,
            r.explanation is None,
            r.explanation_parse_mode is None,
            r.explanation_entities is None,
            r.open_period is None,
            r.close_date is None,
            r.is_closed is None,
            r.disable_notification is None,
            r.protect_content is None,
            r.reply_to_message_id is None,
            r.allow_sending_without_reply is None,
            r.reply_markup is None,
    {
        Self {
            chat_id,
            question,
            options,
            is_anonymous: None,
            kind: None,
            allows_multiple_answers: None,
            correct_option_id: None,
            explanation: None,
            explanation_parse_mode: None,
            explanation_entities: None,
            open_period: None,
            close_date: None,
            is_closed: None,
            disable_notification: None,
            protect_content: None,
            reply_to_message_id: None,
            allow_sending_without_reply: None,
            reply_markup: None,
        }
    }
}

impl Methods for SendPoll {
    open spec fn endpoint_view(&self) -> Seq<char> {
        "sendPoll"@
    }

    open spec fn params_view(&self) -> Seq<(Seq<char>, JVal)> {
        member("chat_id"@, self.chat_id@.to_jval()) + str_member("question"@, self.question@) + member("options"@, JVal::Arr(strings_jvals(self.options.deep_view()))) + opt_bool_member("is_anonymous"@, self.is_anonymous) + opt_str_member("type"@, self.kind.deep_view()) + opt_bool_member("allows_multiple_answers"@, self.allows_multiple_answers) + opt_i64_member("correct_option_id"@, self.correct_option_id) + opt_str_member("explanation"@, self.explanation.deep_view()) + opt_str_member("explanation_parse_mode"@, self.explanation_parse_mode.deep_view()) + opt_member("explanation_entities"@, match self.explanation_entities.deep_view() {
            Option::Some(x) => Some(JVal::Arr(entities_jvals(x))),
            Option::None => None,
        }) + opt_i64_member("open_period"@, self.open_period) + opt_i64_member("close_date"@, self.close_date) + opt_bool_member("is_closed"@, self.is_closed) + opt_bool_member("disable_notification"@, self.disable_notification) + opt_bool_member("protect_content"@, self.protect_content) + opt_i64_member("reply_to_message_id"@, self.reply_to_message_id) + opt_bool_member("allow_sending_without_reply"@, self.allow_sending_without_reply) + opt_member("reply_markup"@, match self.reply_markup.deep_view() {
            Option::Some(x) => Some(x.to_jval()),
            Option::None => None,
        })
    }

    open spec fn files_view(&self) -> Seq<(Seq<char>, InputFileView)> {
        Seq::empty()
    }

    fn endpoint(&self) -> (r: String)
        ensures
            r@ == self.endpoint_view(),
            r@.len() > 0,
    {
        proof {
            reveal_strlit("sendPoll");
        }
        String::from_str("sendPoll")
    }

    fn params(&self) -> (r: Params)
        ensures
            fields_view(r@) == self.params_view(),
    {
        let mut r: Params = Vec::new();
        obj_push(&mut r, "chat_id", self.chat_id.to_json());
        obj_push_str(&mut r, "question", &self.question);
        obj_push(&mut r, "options", strings_json(&self.options));
        obj_push_opt_bool(&mut r, "is_anonymous", &self.is_anonymous);
        obj_push_opt_str(&mut r, "type", &self.kind);
        obj_push_opt_bool(&mut r, "allows_multiple_answers", &self.allows_multiple_answers);
        obj_push_opt_i64(&mut r, "correct_option_id", &self.correct_option_id);
        obj_push_opt_str(&mut r, "explanation", &self.explanation);
        obj_push_opt_str(&mut r, "explanation_parse_mode", &self.explanation_parse_mode);
        let v_explanation_entities: Option<JsonValue> = match &self.explanation_entities {
            Option::Some(x) => Some(entities_json(x)),
            Option::None => None,
        };
        obj_push_opt_val(&mut r, "explanation_entities", v_explanation_entities);
        obj_push_opt_i64(&mut r, "open_period", &self.open_period);
        obj_push_opt_i64(&mut r, "close_date", &self.close_date);
        obj_push_opt_bool(&mut r, "is_closed", &self.is_closed);
        obj_push_opt_bool(&mut r, "disable_notification", &self.disable_notification);
        obj_push_opt_bool(&mut r, "protect_content", &self.protect_content);
        obj_push_opt_i64(&mut r, "reply_to_message_id", &self.reply_to_message_id);
        obj_push_opt_bool(&mut r, "allow_sending_without_reply", &self.allow_sending_without_reply);
        let v_reply_markup: Option<JsonValue> = match &self.reply_markup {
            Option::Some(x) => Some(x.to_json()),
            Option::None => None,
        };
        obj_push_opt_val(&mut r, "reply_markup", v_reply_markup);
        r
    }

    fn files(&self) -> (r: Vec<(String, InputFile)>)
        ensures
            slots_view(r@) == self.files_view(),
    {
        let mut r: Vec<(String, InputFile)> = Vec::new();
        proof {
            broadcast use crate::types::lemma_slots_view;

            assert(slots_view(r@) =~= self.files_view());
        }
        r
    }
}

/// Use this method to send an animated emoji that will display a random value. On success, the sent Message is...
pub struct SendDice {
    pub chat_id: ChatId,
    pub emoji: Option<String>,
    pub disable_notification: Option<bool>,
    pub protect_content: Option<bool>,
    pub reply_to_message_id: Option<i64>,
    pub allow_sending_without_reply: Option<bool>,
    pub reply_markup: Option<ReplyMarkup>,
}

impl SendDice {
    pub fn new(chat_id: ChatId) -> (r: Self)
        ensures
            r.chat_id == chat_id,
            r.emoji is None,
            r.disable_notification is None,
            r.protect_content is None,
            r.reply_to_message_id is None,
            r.allow_sending_without_reply is None,
            r.reply_markup is None,
    {
        Self {
            chat_id,
            emoji: None,
            disable_notification: None,
            protect_content: None,
            reply_to_message_id: None,
            allow_sending_without_reply: None,
            reply_markup: None,
        }
    }
}

impl Methods for SendDice {
    open spec fn endpoint_view(&self) -> Seq<char> {
        "sendDice"@
    }

    open spec fn params_view(&self) -> Seq<(Seq<char>, JVal)> {
        member("chat_id"@, self.chat_id@.to_jval()) + opt_str_member("emoji"@, self.emoji.deep_view()) + opt_bool_member("disable_notification"@, self.disable_notification) + opt_bool_member("protect_content"@, self.protect_content) + opt_i64_member("reply_to_message_id"@, self.reply_to_message_id) + opt_bool_member("allow_sending_without_reply"@, self.allow_sending_without_reply) + opt_member("reply_markup"@, match self.reply_markup.deep_view() {
            Option::Some(x) => Some(x.to_jval()),
            Option::None => None,
        })
    }

    open spec fn files_view(&self) -> Seq<(Seq<char>, InputFileView)> {
        Seq::empty()
    }

    fn endpoint(&self) -> (r: String)
        ensures
            r@ == self.endpoint_view(),
            r@.len() > 0,
    {
        proof {
            reveal_strlit("sendDice");
        }
        String::from_str("sendDice")
    }

    fn params(&self) -> (r: Params)
        ensures
            fields_view(r@) == self.params_view(),
    {
        let mut r: Params = Vec::new();
        obj_push(&mut r, "chat_id", self.chat_id.to_json());
        obj_push_opt_str(&mut r, "emoji", &self.emoji);
        obj_push_opt_bool(&mut r, "disable_notification", &self.disable_notification);
        obj_push_opt_bool(&mut r, "protect_content", &self.protect_content);
        obj_push_opt_i64(&mut r, "reply_to_message_id", &self.reply_to_message_id);
        obj_push_opt_bool(&mut r, "allow_sending_without_reply", &self.allow_sending_without_reply);
        let v_reply_markup: Option<JsonValue> = match &self.reply_markup {
            Option::Some(x) => Some(x.to_json()),
            Option::None => None,
        };
        obj_push_opt_val(&mut r, "reply_markup", v_reply_markup);
        r
    }

    fn files(&self) -> (r: Vec<(String, InputFile)>)
        ensures
            slots_view(r@) == self.files_view(),
    {
        let mut r: Vec<(String, InputFile)> = Vec::new();
        proof {
            broadcast use crate::types::lemma_slots_view;

            assert(slots_view(r@) =~= self.files_view());
        }
        r
    }
}

/// Use this method when you need to tell the user that something is happening on the bot's side. The status is...
pub struct SendChatAction {
    pub chat_id: ChatId,
    pub action: String,
}

impl SendChatAction {
    pub fn new(chat_id: ChatId, action: String) -> (r: Self)
        ensures
            r.chat_id == chat_id,
            r.action == action,
    {
        Self {
            chat_id,
            action,
        }
    }
}

impl Methods for SendChatAction {
    open spec fn endpoint_view(&self) -> Seq<char> {
        "sendChatAction"@
    }

    open spec fn params_view(&self) -> Seq<(Seq<char>, JVal)> {
        member("chat_id"@, self.chat_id@.to_jval()) + str_member("action"@, self.action@)
    }

    open spec fn files_view(&self) -> Seq<(Seq<char>, InputFileView)> {
        Seq::empty()
    }

    fn endpoint(&self) -> (r: String)
        ensures
            r@ == self.endpoint_view(),
            r@.len() > 0,
    {
        proof {
            reveal_strlit("sendChatAction");
        }
        String::from_str("sendChatAction")
    }

    fn params(&self) -> (r: Params)
        ensures
            fields_view(r@) == self.params_view(),
    {
        let mut r: Params = Vec::new();
        obj_push(&mut r, "chat_id", self.chat_id.to_json());
        obj_push_str(&mut r, "action", &self.action);
        r
    }

    fn files(&self) -> (r: Vec<(String, InputFile)>)
        ensures
            slots_view(r@) == self.files_view(),
    {
        let mut r: Vec<(String, InputFile)> = Vec::new();
        proof {
            broadcast use crate::types::lemma_slots_view;

            assert(slots_view(r@) =~= self.files_view());
        }
        r
    }
}

/// Use this method to get a list of profile pictures for a user. Returns a UserProfilePhotos object.
pub struct GetUserProfilePhotos {
    pub user_id: i64,
    pub offset: Option<i64>,
    pub limit: Option<i64>,
}

impl GetUserProfilePhotos {
    pub fn new(user_id: i64) -> (r: Self)
        ensures
            r.user_id == user_id,
            r.offset is None,
            r.limit is None,
    {
        Self {
            user_id,
            offset: None,
            limit: None,
        }
    }
}

impl Methods for GetUserProfilePhotos {
    open spec fn endpoint_view(&self) -> Seq<char> {
        "getUserProfilePhotos"@
    }

    open spec fn params_view(&self) -> Seq<(Seq<char>, JVal)> {
        i64_member("user_id"@, self.user_id) + opt_i64_member("offset"@, self.offset) + opt_i64_member("limit"@, self.limit)
    }

    open spec fn files_view(&self) -> Seq<(Seq<char>, InputFileView)> {
        Seq::empty()
    }

    fn endpoint(&self) -> (r: String)
        ensures
            r@ == self.endpoint_view(),
            r@.len() > 0,
    {
        proof {
            reveal_strlit("getUserProfilePhotos");
        }
        String::from_str("getUserProfilePhotos")
    }

    fn params(&self) -> (r: Params)
        ensures
            fields_view(r@) == self.params_view(),
    {
        let mut r: Params = Vec::new();
        obj_push_i64(&mut r, "user_id", self.user_id);
        obj_push_opt_i64(&mut r, "offset", &self.offset);
        obj_push_opt_i64(&mut r, "limit", &self.limit);
        r
    }

    fn files(&self) -> (r: Vec<(String, InputFile)>)
        ensures
            slots_view(r@) == self.files_view(),
    {
        let mut r: Vec<(String, InputFile)> = Vec::new();
        proof {
            broadcast use crate::types::lemma_slots_view;

            assert(slots_view(r@) =~= self.files_view());
        }
        r
    }
}

/// Use this method to get basic information about a file and prepare it for downloading. For the moment, bots ...
pub struct GetFile {
    pub file_id: String,
}

impl GetFile {
    pub fn new(file_id: String) -> (r: Self)
        ensures
            r.file_id == file_id,
    {
        Self {
            file_id,
        }
    }
}

impl Methods for GetFile {
    open spec fn endpoint_view(&self) -> Seq<char> {
        "getFile"@
    }

    open spec fn params_view(&self) -> Seq<(Seq<char>, JVal)> {
        str_member("file_id"@, self.file_id@)
    }

    open spec fn files_view(&self) -> Seq<(Seq<char>, InputFileView)> {
        Seq::empty()
    }

    fn endpoint(&self) -> (r: String)
        ensures
            r@ == self.endpoint_view(),
            r@.len() > 0,
    {
        proof {
            reveal_strlit("getFile");
        }
        String::from_str("getFile")
    }

    fn params(&self) -> (r: Params)
        ensures
            fields_view(r@) == self.params_view(),
    {
        let mut r: Params = Vec::new();
        obj_push_str(&mut r, "file_id", &self.file_id);
        r
    }

    fn files(&self) -> (r: Vec<(String, InputFile)>)
        ensures
            slots_view(r@) == self.files_view(),
    {
        let mut r: Vec<(String, InputFile)> = Vec::new();
        proof {
            broadcast use crate::types::lemma_slots_view;

            assert(slots_view(r@) =~= self.files_view());
        }
        r
    }
}

/// Use this method to ban a user in a group, a supergroup or a channel. In the case of supergroups and channel...
pub struct BanChatMember {
    pub chat_id: ChatId,
    pub user_id: i64,
    pub until_date: Option<i64>,
    pub revoke_messages: Option<bool>,
}

impl BanChatMember {
    pub fn new(chat_id: ChatId, user_id: i64) -> (r: Self)
        ensures
            r.chat_id == chat_id,
            r.user_id == user_id,
            r.until_date is None,
            r.revoke_messages is None,
    {
        Self {
            chat_id,
            user_id,
            until_date: None,
            revoke_messages: None,
        }
    }
}

impl Methods for BanChatMember {
    open spec fn endpoint_view(&self) -> Seq<char> {
        "banChatMember"@
    }

    open spec fn params_view(&self) -> Seq<(Seq<char>, JVal)> {
        member("chat_id"@, self.chat_id@.to_jval()) + i64_member("user_id"@, self.user_id) + opt_i64_member("until_date"@, self.until_date) + opt_bool_member("revoke_messages"@, self.revoke_messages)
    }

    open spec fn files_view(&self) -> Seq<(Seq<char>, InputFileView)> {
        Seq::empty()
    }

    fn endpoint(&self) -> (r: String)
        ensures
            r@ == self.endpoint_view(),
            r@.len() > 0,
    {
        proof {
            reveal_strlit("banChatMember");
        }
        String::from_str("banChatMember")
    }

    fn params(&self) -> (r: Params)
        ensures
            fields_view(r@) == self.params_view(),
    {
        let mut r: Params = Vec::new();
        obj_push(&mut r, "chat_id", self.chat_id.to_json());
        obj_push_i64(&mut r, "user_id", self.user_id);
        obj_push_opt_i64(&mut r, "until_date", &self.until_date);
        obj_push_opt_bool(&mut r, "revoke_messages", &self.revoke_messages);
        r
    }

    fn files(&self) -> (r: Vec<(String, InputFile)>)
        ensures
            slots_view(r@) == self.files_view(),
    {
        let mut r: Vec<(String, InputFile)> = Vec::new();
        proof {
            broadcast use crate::types::lemma_slots_view;

            assert(slots_view(r@) =~= self.files_view());
        }
        r
    }
}

/// Use this method to unban a previously banned user in a supergroup or channel. The user will not to the grou...
pub struct UnbanChatMember {
    pub chat_id: ChatId,
    pub user_id: i64,
    pub only_if_banned: Option<bool>,
}

impl UnbanChatMember {
    pub fn new(chat_id: ChatId, user_id: i64) -> (r: Self)
        ensures
            r.chat_id == chat_id,
            r.user_id == user_id,
            r.only_if_banned is None,
    {
        Self {
            chat_id,
            user_id,
            only_if_banned: None,
        }
    }
}

impl Methods for UnbanChatMember {
    open spec fn endpoint_view(&self) -> Seq<char> {
        "unbanChatMember"@
    }

    open spec fn params_view(&self) -> Seq<(Seq<char>, JVal)> {
        member("chat_id"@, self.chat_id@.to_jval()) + i64_member("user_id"@, self.user_id) + opt_bool_member("only_if_banned"@, self.only_if_banned)
    }

    open spec fn files_view(&self) -> Seq<(Seq<char>, InputFileView)> {
        Seq::empty()
    }

    fn endpoint(&self) -> (r: String)
        ensures
            r@ == self.endpoint_view(),
            r@.len() > 0,
    {
        proof {
            reveal_strlit("unbanChatMember");
        }
        String::from_str("unbanChatMember")
    }

    fn params(&self) -> (r: Params)
        ensures
            fields_view(r@) == self.params_view(),
    {
        let mut r: Params = Vec::new();
        obj_push(&mut r, "chat_id", self.chat_id.to_json());
        obj_push_i64(&mut r, "user_id", self.user_id);
        obj_push_opt_bool(&mut r, "only_if_banned", &self.only_if_banned);
        r
    }

    fn files(&self) -> (r: Vec<(String, InputFile)>)
        ensures
            slots_view(r@) == self.files_view(),
    {
        let mut r: Vec<(String, InputFile)> = Vec::new();
        proof {
            broadcast use crate::types::lemma_slots_view;

            assert(slots_view(r@) =~= self.files_view());
        }
        r
    }
}

/// Use this method to restrict a user in a supergroup. The bot must be an administrator in the supergroup for ...
pub struct RestrictChatMember {
    pub chat_id: ChatId,
    pub user_id: i64,
    pub permissions: ChatPermissions,
    pub until_date: Option<i64>,
}

impl RestrictChatMember {
    pub fn new(chat_id: ChatId, user_id: i64, permissions: ChatPermissions) -> (r: Self)
        ensures
            r.chat_id == chat_id,
            r.user_id == user_id,
            r.permissions == permissions,
            r.until_date is None,
    {
        Self {
            chat_id,
            user_id,
            permissions,
            until_date: None,
        }
    }
}

impl Methods for RestrictChatMember {
    open spec fn endpoint_view(&self) -> Seq<char> {
        "restrictChatMember"@
    }

    open spec fn params_view(&self) -> Seq<(Seq<char>, JVal)> {
        member("chat_id"@, self.chat_id@.to_jval()) + i64_member("user_id"@, self.user_id) + member("permissions"@, self.permissions@.to_jval()) + opt_i64_member("until_date"@, self.until_date)
    }

    open spec fn files_view(&self) -> Seq<(Seq<char>, InputFileView)> {
        Seq::empty()
    }

    fn endpoint(&self) -> (r: String)
        ensures
            r@ == self.endpoint_view(),
            r@.len() > 0,
    {
        proof {
            reveal_strlit("restrictChatMember");
        }
        String::from_str("restrictChatMember")
    }

    fn params(&self) -> (r: Params)
        ensures
            fields_view(r@) == self.params_view(),
    {
        let mut r: Params = Vec::new();
        obj_push(&mut r, "chat_id", self.chat_id.to_json());
        obj_push_i64(&mut r, "user_id", self.user_id);
        obj_push(&mut r, "permissions", self.permissions.to_json());
        obj_push_opt_i64(&mut r, "until_date", &self.until_date);
        r
    }

    fn files(&self) -> (r: Vec<(String, InputFile)>)
        ensures
            slots_view(r@) == self.files_view(),
    {
        let mut r: Vec<(String, InputFile)> = Vec::new();
        proof {
            broadcast use crate::types::lemma_slots_view;

            assert(slots_view(r@) =~= self.files_view());
        }
        r
    }
}

/// Use this method to promote or demote a user in a supergroup or a channel. The bot must be an administrator ...
pub struct PromoteChatMember {
    pub chat_id: ChatId,
    pub user_id: i64,
    pub is_anonymous: Option<bool>,
    pub can_manage_chat: Option<bool>,
    pub can_post_messages: Option<bool>,
    pub can_edit_messages: Option<bool>,
    pub can_delete_messages: Option<bool>,
    pub can_manage_video_chats: Option<bool>,
    pub can_restrict_members: Option<bool>,
    pub can_promote_members: Option<bool>,
    pub can_change_info: Option<bool>,
    pub can_invite_users: Option<bool>,
    pub can_pin_messages: Option<bool>,
}

impl PromoteChatMember {
    pub fn new(chat_id: ChatId, user_id: i64) -> (r: Self)
        ensures
            r.chat_id == chat_id,
            r.user_id == user_id,
            r.is_anonymous is None,
            r.can_manage_chat is None,
            r.can_post_messages is None,
            r.can_edit_messages is None,
            r.can_delete_messages is None,
            r.can_manage_video_chats is None,
            r.can_restrict_members is None,
            r.can_promote_members is None,
            r.can_change_info is None,
            r.can_invite_users is None,
            r.can_pin_messages is None,
    {
        Self {
            chat_id,
            user_id,
            is_anonymous: None,
            can_manage_chat: None,
            can_post_messages: None,
            can_edit_messages: None,
            can_delete_messages: None,
            can_manage_video_chats: None,
            can_restrict_members: None,
            can_promote_members: None,
            can_change_info: None,
            can_invite_users: None,
            can_pin_messages: None,
        }
    }
}

impl Methods for PromoteChatMember {
    open spec fn endpoint_view(&self) -> Seq<char> {
        "promoteChatMember"@
    }

    open spec fn params_view(&self) -> Seq<(Seq<char>, JVal)> {
        member("chat_id"@, self.chat_id@.to_jval()) + i64_member("user_id"@, self.user_id) + opt_bool_member("is_anonymous"@, self.is_anonymous) + opt_bool_member("can_manage_chat"@, self.can_manage_chat) + opt_bool_member("can_post_messages"@, self.can_post_messages) + opt_bool_member("can_edit_messages"@, self.can_edit_messages) + opt_bool_member("can_delete_messages"@, self.can_delete_messages) + opt_bool_member("can_manage_video_chats"@, self.can_manage_video_chats) + opt_bool_member("can_restrict_members"@, self.can_restrict_members) + opt_bool_member("can_promote_members"@, self.can_promote_members) + opt_bool_member("can_change_info"@, self.can_change_info) + opt_bool_member("can_invite_users"@, self.can_invite_users) + opt_bool_member("can_pin_messages"@, self.can_pin_messages)
    }

    open spec fn files_view(&self) -> Seq<(Seq<char>, InputFileView)> {
        Seq::empty()
    }

    fn endpoint(&self) -> (r: String)
        ensures
            r@ == self.endpoint_view(),
            r@.len() > 0,
    {
        proof {
            reveal_strlit("promoteChatMember");
        }
        String::from_str("promoteChatMember")
    }

    fn params(&self) -> (r: Params)
        ensures
            fields_view(r@) == self.params_view(),
    {
        let mut r: Params = Vec::new();
        obj_push(&mut r, "chat_id", self.chat_id.to_json());
        obj_push_i64(&mut r, "user_id", self.user_id);
        obj_push_opt_bool(&mut r, "is_anonymous", &self.is_anonymous);
        obj_push_opt_bool(&mut r, "can_manage_chat", &self.can_manage_chat);
        obj_push_opt_bool(&mut r, "can_post_messages", &self.can_post_messages);
        obj_push_opt_bool(&mut r, "can_edit_messages", &self.can_edit_messages);
        obj_push_opt_bool(&mut r, "can_delete_messages", &self.can_delete_messages);
        obj_push_opt_bool(&mut r, "can_manage_video_chats", &self.can_manage_video_chats);
        obj_push_opt_bool(&mut r, "can_restrict_members", &self.can_restrict_members);
        obj_push_opt_bool(&mut r, "can_promote_members", &self.can_promote_members);
        obj_push_opt_bool(&mut r, "can_change_info", &self.can_change_info);
        obj_push_opt_bool(&mut r, "can_invite_users", &self.can_invite_users);
        obj_push_opt_bool(&mut r, "can_pin_messages", &self.can_pin_messages);
        r
    }

    fn files(&self) -> (r: Vec<(String, InputFile)>)
        ensures
            slots_view(r@) == self.files_view(),
    {
        let mut r: Vec<(String, InputFile)> = Vec::new();
        proof {
            broadcast use crate::types::lemma_slots_view;

            assert(slots_view(r@) =~= self.files_view());
        }
        r
    }
}

/// Use this method to set a custom title for an administrator in a supergroup promoted by the bot. Returns Tru...
pub struct SetChatAdministratorCustomTitle {
    pub chat_id: ChatId,
    pub user_id: i64,
    pub custom_title: String,
}

impl SetChatAdministratorCustomTitle {
    pub fn new(chat_id: ChatId, user_id: i64, custom_title: String) -> (r: Self)
        ensures
            r.chat_id == chat_id,
            r.user_id == user_id,
            r.custom_title == custom_title,
    {
        Self {
            chat_id,
            user_id,
            custom_title,
        }
    }
}

impl Methods for SetChatAdministratorCustomTitle {
    open spec fn endpoint_view(&self) -> Seq<char> {
        "setChatAdministratorCustomTitle"@
    }

    open spec fn params_view(&self) -> Seq<(Seq<char>, JVal)> {
        member("chat_id"@, self.chat_id@.to_jval()) + i64_member("user_id"@, self.user_id) + str_member("custom_title"@, self.custom_title@)
    }

    open spec fn files_view(&self) -> Seq<(Seq<char>, InputFileView)> {
        Seq::empty()
    }

    fn endpoint(&self) -> (r: String)
        ensures
            r@ == self.endpoint_view(),
            r@.len() > 0,
    {
        proof {
            reveal_strlit("setChatAdministratorCustomTitle");
        }
        String::from_str("setChatAdministratorCustomTitle")
    }

    fn params(&self) -> (r: Params)
        ensures
            fields_view(r@) == self.params_view(),
    {
        let mut r: Params = Vec::new();
        obj_push(&mut r, "chat_id", self.chat_id.to_json());
        obj_push_i64(&mut r, "user_id", self.user_id);
        obj_push_str(&mut r, "custom_title", &self.custom_title);
        r
    }

    fn files(&self) -> (r: Vec<(String, InputFile)>)
        ensures
            slots_view(r@) == self.files_view(),
    {
        let mut r: Vec<(String, InputFile)> = Vec::new();
        proof {
            broadcast use crate::types::lemma_slots_view;

            assert(slots_view(r@) =~= self.files_view());
        }
        r
    }
}

/// Use this method to ban a channel chat in a supergroup or a channel. Until the chat is unbanned, the owner o...
pub struct BanChatSenderChat {
    pub chat_id: ChatId,
    pub sender_chat_id: i64,
}

impl BanChatSenderChat {
    pub fn new(chat_id: ChatId, sender_chat_id: i64) -> (r: Self)
        ensures
            r.chat_id == chat_id,
            r.sender_chat_id == sender_chat_id,
    {
        Self {
            chat_id,
            sender_chat_id,
        }
    }
}

impl Methods for BanChatSenderChat {
    open spec fn endpoint_view(&self) -> Seq<char> {
        "banChatSenderChat"@
    }

    open spec fn params_view(&self) -> Seq<(Seq<char>, JVal)> {
        member("chat_id"@, self.chat_id@.to_jval()) + i64_member("sender_chat_id"@, self.sender_chat_id)
    }

    open spec fn files_view(&self) -> Seq<(Seq<char>, InputFileView)> {
        Seq::empty()
    }

    fn endpoint(&self) -> (r: String)
        ensures
            r@ == self.endpoint_view(),
            r@.len() > 0,
    {
        proof {
            reveal_strlit("banChatSenderChat");
        }
        String::from_str("banChatSenderChat")
    }

    fn params(&self) -> (r: Params)
        ensures
            fields_view(r@) == self.params_view(),
    {
        let mut r: Params = Vec::new();
        obj_push(&mut r, "chat_id", self.chat_id.to_json());
        obj_push_i64(&mut r, "sender_chat_id", self.sender_chat_id);
        r
    }

    fn files(&self) -> (r: Vec<(String, InputFile)>)
        ensures
            slots_view(r@) == self.files_view(),
    {
        let mut r: Vec<(String, InputFile)> = Vec::new();
        proof {
            broadcast use crate::types::lemma_slots_view;

            assert(slots_view(r@) =~= self.files_view());
        }
        r
    }
}

/// Use this method to unban a previously banned channel chat in a supergroup or channel. The bot must be an ad...
pub struct UnbanChatSenderChat {
    pub chat_id: ChatId,
    pub sender_chat_id: i64,
}

impl UnbanChatSenderChat {
    pub fn new(chat_id: ChatId, sender_chat_id: i64) -> (r: Self)
        ensures
            r.chat_id == chat_id,
            r.sender_chat_id == sender_chat_id,
    {
        Self {
            chat_id,
            sender_chat_id,
        }
    }
}

impl Methods for UnbanChatSenderChat {
    open spec fn endpoint_view(&self) -> Seq<char> {
        "unbanChatSenderChat"@
    }

    open spec fn params_view(&self) -> Seq<(Seq<char>, JVal)> {
        member("chat_id"@, self.chat_id@.to_jval()) + i64_member("sender_chat_id"@, self.sender_chat_id)
    }

    open spec fn files_view(&self) -> Seq<(Seq<char>, InputFileView)> {
        Seq::empty()
    }

    fn endpoint(&self) -> (r: String)
        ensures
            r@ == self.endpoint_view(),
            r@.len() > 0,
    {
        proof {
            reveal_strlit("unbanChatSenderChat");
        }
        String::from_str("unbanChatSenderChat")
    }

    fn params(&self) -> (r: Params)
        ensures
            fields_view(r@) == self.params_view(),
    {
        let mut r: Params = Vec::new();
        obj_push(&mut r, "chat_id", self.chat_id.to_json());
        obj_push_i64(&mut r, "sender_chat_id", self.sender_chat_id);
        r
    }

    fn files(&self) -> (r: Vec<(String, InputFile)>)
        ensures
            slots_view(r@) == self.files_view(),
    {
        let mut r: Vec<(String, InputFile)> = Vec::new();
        proof {
            broadcast use crate::types::lemma_slots_view;

            assert(slots_view(r@) =~= self.files_view());
        }
        r
    }
}

/// Use this method to set default chat permissions for all members. The bot must be an administrator in the gr...
pub struct SetChatPermissions {
    pub chat_id: ChatId,
    pub permissions: ChatPermissions,
}

impl SetChatPermissions {
    pub fn new(chat_id: ChatId, permissions: ChatPermissions) -> (r: Self)
        ensures
            r.chat_id == chat_id,
            r.permissions == permissions,
    {
        Self {
            chat_id,
            permissions,
        }
    }
}

impl Methods for SetChatPermissions {
    open spec fn endpoint_view(&self) -> Seq<char> {
        "setChatPermissions"@
    }

    open spec fn params_view(&self) -> Seq<(Seq<char>, JVal)> {
        member("chat_id"@, self.chat_id@.to_jval()) + member("permissions"@, self.permissions@.to_jval())
    }

    open spec fn files_view(&self) -> Seq<(Seq<char>, InputFileView)> {
        Seq::empty()
    }

    fn endpoint(&self) -> (r: String)
        ensures
            r@ == self.endpoint_view(),
            r@.len() > 0,
    {
        proof {
            reveal_strlit("setChatPermissions");
        }
        String::from_str("setChatPermissions")
    }

    fn params(&self) -> (r: Params)
        ensures
            fields_view(r@) == self.params_view(),
    {
        let mut r: Params = Vec::new();
        obj_push(&mut r, "chat_id", self.chat_id.to_json());
        obj_push(&mut r, "permissions", self.permissions.to_json());
        r
    }

    fn files(&self) -> (r: Vec<(String, InputFile)>)
        ensures
            slots_view(r@) == self.files_view(),
    {
        let mut r: Vec<(String, InputFile)> = Vec::new();
        proof {
            broadcast use crate::types::lemma_slots_view;

            assert(slots_view(r@) =~= self.files_view());
        }
        r
    }
}

/// Use this method to generate a new primary invite link for a chat; any previously generated primary link is ...
pub struct ExportChatInviteLink {
    pub chat_id: ChatId,
}

impl ExportChatInviteLink {
    pub fn new(chat_id: ChatId) -> (r: Self)
        ensures
            r.chat_id == chat_id,
    {
        Self {
            chat_id,
        }
    }
}

impl Methods for ExportChatInviteLink {
    open spec fn endpoint_view(&self) -> Seq<char> {
        "exportChatInviteLink"@
    }

    open spec fn params_view(&self) -> Seq<(Seq<char>, JVal)> {
        member("chat_id"@, self.chat_id@.to_jval())
    }

    open spec fn files_view(&self) -> Seq<(Seq<char>, InputFileView)> {
        Seq::empty()
    }

    fn endpoint(&self) -> (r: String)
        ensures
            r@ == self.endpoint_view(),
            r@.len() > 0,
    {
        proof {
            reveal_strlit("exportChatInviteLink");
        }
        String::from_str("exportChatInviteLink")
    }

    fn params(&self) -> (r: Params)
        ensures
            fields_view(r@) == self.params_view(),
    {
        let mut r: Params = Vec::new();
        obj_push(&mut r, "chat_id", self.chat_id.to_json());
        r
    }

    fn files(&self) -> (r: Vec<(String, InputFile)>)
        ensures
            slots_view(r@) == self.files_view(),
    {
        let mut r: Vec<(String, InputFile)> = Vec::new();
        proof {
            broadcast use crate::types::lemma_slots_view;

            assert(slots_view(r@) =~= self.files_view());
        }
        r
    }
}

/// Use this method to create an additional invite link for a chat. The bot must be an administrator in the cha...
pub struct CreateChatInviteLink {
    pub chat_id: ChatId,
    pub name: Option<String>,
    pub expire_date: Option<i64>,
    pub member_limit: Option<i64>,
    pub creates_join_request: Option<bool>,
}

impl CreateChatInviteLink {
    pub fn new(chat_id: ChatId) -> (r: Self)
        ensures
            r.chat_id == chat_id,
            r.name is None,
            r.expire_date is None,
            r.member_limit is None,
            r.creates_join_request is None,
    {
        Self {
            chat_id,
            name: None,
            expire_date: None,
            member_limit: None,
            creates_join_request: None,
        }
    }
}

impl Methods for CreateChatInviteLink {
    open spec fn endpoint_view(&self) -> Seq<char> {
        "createChatInviteLink"@
    }

    open spec fn params_view(&self) -> Seq<(Seq<char>, JVal)> {
        member("chat_id"@, self.chat_id@.to_jval()) + opt_str_member("name"@, self.name.deep_view()) + opt_i64_member("expire_date"@, self.expire_date) + opt_i64_member("member_limit"@, self.member_limit) + opt_bool_member("creates_join_request"@, self.creates_join_request)
    }

    open spec fn files_view(&self) -> Seq<(Seq<char>, InputFileView)> {
        Seq::empty()
    }

    fn endpoint(&self) -> (r: String)
        ensures
            r@ == self.endpoint_view(),
            r@.len() > 0,
    {
        proof {
            reveal_strlit("createChatInviteLink");
        }
        String::from_str("createChatInviteLink")
    }

    fn params(&self) -> (r: Params)
        ensures
            fields_view(r@) == self.params_view(),
    {
        let mut r: Params = Vec::new();
        obj_push(&mut r, "chat_id", self.chat_id.to_json());
        obj_push_opt_str(&mut r, "name", &self.name);
        obj_push_opt_i64(&mut r, "expire_date", &self.expire_date);
        obj_push_opt_i64(&mut r, "member_limit", &self.member_limit);
        obj_push_opt_bool(&mut r, "creates_join_request", &self.creates_join_request);
        r
    }

    fn files(&self) -> (r: Vec<(String, InputFile)>)
        ensures
            slots_view(r@) == self.files_view(),
    {
        let mut r: Vec<(String, InputFile)> = Vec::new();
        proof {
            broadcast use crate::types::lemma_slots_view;

            assert(slots_view(r@) =~= self.files_view());
        }
        r
    }
}

/// Use this method to edit a non-primary invite link created by the bot. The bot must be an administrator in t...
pub struct EditChatInviteLink {
    pub chat_id: ChatId,
    pub invite_link: String,
    pub name: Option<String>,
    pub expire_date: Option<i64>,
    pub member_limit: Option<i64>,
    pub creates_join_request: Option<bool>,
}

impl EditChatInviteLink {
    pub fn new(chat_id: ChatId, invite_link: String) -> (r: Self)
        ensures
            r.chat_id == chat_id,
            r.invite_link == invite_link,
            r.name is None,
            r.expire_date is None,
            r.member_limit is None,
            r.creates_join_request is None,
    {
        Self {
            chat_id,
            invite_link,
            name: None,
            expire_date: None,
            member_limit: None,
            creates_join_request: None,
        }
    }
}

impl Methods for EditChatInviteLink {
    open spec fn endpoint_view(&self) -> Seq<char> {
        "editChatInviteLink"@
    }

    open spec fn params_view(&self) -> Seq<(Seq<char>, JVal)> {
        member("chat_id"@, self.chat_id@.to_jval()) + str_member("invite_link"@, self.invite_link@) + opt_str_member("name"@, self.name.deep_view()) + opt_i64_member("expire_date"@, self.expire_date) + opt_i64_member("member_limit"@, self.member_limit) + opt_bool_member("creates_join_request"@, self.creates_join_request)
    }

    open spec fn files_view(&self) -> Seq<(Seq<char>, InputFileView)> {
        Seq::empty()
    }

    fn endpoint(&self) -> (r: String)
        ensures
            r@ == self.endpoint_view(),
            r@.len() > 0,
    {
        proof {
            reveal_strlit("editChatInviteLink");
        }
        String::from_str("editChatInviteLink")
    }

    fn params(&self) -> (r: Params)
        ensures
            fields_view(r@) == self.params_view(),
    {
        let mut r: Params = Vec::new();
        obj_push(&mut r, "chat_id", self.chat_id.to_json());
        obj_push_str(&mut r, "invite_link", &self.invite_link);
        obj_push_opt_str(&mut r, "name", &self.name);
        obj_push_opt_i64(&mut r, "expire_date", &self.expire_date);
        obj_push_opt_i64(&mut r, "member_limit", &self.member_limit);
        obj_push_opt_bool(&mut r, "creates_join_request", &self.creates_join_request);
        r
    }

    fn files(&self) -> (r: Vec<(String, InputFile)>)
        ensures
            slots_view(r@) == self.files_view(),
    {
        let mut r: Vec<(String, InputFile)> = Vec::new();
        proof {
            broadcast use crate::types::lemma_slots_view;

            assert(slots_view(r@) =~= self.files_view());
        }
        r
    }
}

/// Use this method to revoke an invite link created by the bot. If the primary link is revoked, a new link is ...
pub struct RevokeChatInviteLink {
    pub chat_id: ChatId,
    pub invite_link: String,
}

impl RevokeChatInviteLink {
    pub fn new(chat_id: ChatId, invite_link: String) -> (r: Self)
        ensures
            r.chat_id == chat_id,
            r.invite_link == invite_link,
    {
        Self {
            chat_id,
            invite_link,
        }
    }
}

impl Methods for RevokeChatInviteLink {
    open spec fn endpoint_view(&self) -> Seq<char> {
        "revokeChatInviteLink"@
    }

    open spec fn params_view(&self) -> Seq<(Seq<char>, JVal)> {
        member("chat_id"@, self.chat_id@.to_jval()) + str_member("invite_link"@, self.invite_link@)
    }

    open spec fn files_view(&self) -> Seq<(Seq<char>, InputFileView)> {
        Seq::empty()
    }

    fn endpoint(&self) -> (r: String)
        ensures
            r@ == self.endpoint_view(),
            r@.len() > 0,
    {
        proof {
            reveal_strlit("revokeChatInviteLink");
        }
        String::from_str("revokeChatInviteLink")
    }

    fn params(&self) -> (r: Params)
        ensures
            fields_view(r@) == self.params_view(),
    {
        let mut r: Params = Vec::new();
        obj_push(&mut r, "chat_id", self.chat_id.to_json());
        obj_push_str(&mut r, "invite_link", &self.invite_link);
        r
    }

    fn files(&self) -> (r: Vec<(String, InputFile)>)
        ensures
            slots_view(r@) == self.files_view(),
    {
        let mut r: Vec<(String, InputFile)> = Vec::new();
        proof {
            broadcast use crate::types::lemma_slots_view;

            assert(slots_view(r@) =~= self.files_view());
        }
        r
    }
}

/// Use this method to approve a chat join request. The bot must be an administrator in the chat for this to wo...
pub struct ApproveChatJoinRequest {
    pub chat_id: ChatId,
    pub user_id: i64,
}

impl ApproveChatJoinRequest {
    pub fn new(chat_id: ChatId, user_id: i64) -> (r: Self)
        ensures
            r.chat_id == chat_id,
            r.user_id == user_id,
    {
        Self {
            chat_id,
            user_id,
        }
    }
}

impl Methods for ApproveChatJoinRequest {
    open spec fn endpoint_view(&self) -> Seq<char> {
        "approveChatJoinRequest"@
    }

    open spec fn params_view(&self) -> Seq<(Seq<char>, JVal)> {
        member("chat_id"@, self.chat_id@.to_jval()) + i64_member("user_id"@, self.user_id)
    }

    open spec fn files_view(&self) -> Seq<(Seq<char>, InputFileView)> {
        Seq::empty()
    }

    fn endpoint(&self) -> (r: String)
        ensures
            r@ == self.endpoint_view(),
            r@.len() > 0,
    {
        proof {
            reveal_strlit("approveChatJoinRequest");
        }
        String::from_str("approveChatJoinRequest")
    }

    fn params(&self) -> (r: Params)
        ensures
            fields_view(r@) == self.params_view(),
    {
        let mut r: Params = Vec::new();
        obj_push(&mut r, "chat_id", self.chat_id.to_json());
        obj_push_i64(&mut r, "user_id", self.user_id);
        r
    }

    fn files(&self) -> (r: Vec<(String, InputFile)>)
        ensures
            slots_view(r@) == self.files_view(),
    {
        let mut r: Vec<(String, InputFile)> = Vec::new();
        proof {
            broadcast use crate::types::lemma_slots_view;

            assert(slots_view(r@) =~= self.files_view());
        }
        r
    }
}

/// Use this method to decline a chat join request. The bot must be an administrator in the chat for this to wo...
pub struct DeclineChatJoinRequest {
    pub chat_id: ChatId,
    pub user_id: i64,
}

impl DeclineChatJoinRequest {
    pub fn new(chat_id: ChatId, user_id: i64) -> (r: Self)
        ensures
            r.chat_id == chat_id,
            r.user_id == user_id,
    {
        Self {
            chat_id,
            user_id,
        }
    }
}

impl Methods for DeclineChatJoinRequest {
    open spec fn endpoint_view(&self) -> Seq<char> {
        "declineChatJoinRequest"@
    }

    open spec fn params_view(&self) -> Seq<(Seq<char>, JVal)> {
        member("chat_id"@, self.chat_id@.to_jval()) + i64_member("user_id"@, self.user_id)
    }

    open spec fn files_view(&self) -> Seq<(Seq<char>, InputFileView)> {
        Seq::empty()
    }

    fn endpoint(&self) -> (r: String)
        ensures
            r@ == self.endpoint_view(),
            r@.len() > 0,
    {
        proof {
            reveal_strlit("declineChatJoinRequest");
        }
        String::from_str("declineChatJoinRequest")
    }

    fn params(&self) -> (r: Params)
        ensures
            fields_view(r@) == self.params_view(),
    {
        let mut r: Params = Vec::new();
        obj_push(&mut r, "chat_id", self.chat_id.to_json());
        obj_push_i64(&mut r, "user_id", self.user_id);
        r
    }

    fn files(&self) -> (r: Vec<(String, InputFile)>)
        ensures
            slots_view(r@) == self.files_view(),
    {
        let mut r: Vec<(String, InputFile)> = Vec::new();
        proof {
            broadcast use crate::types::lemma_slots_view;

            assert(slots_view(r@) =~= self.files_view());
        }
        r
    }
}

/// Use this method to set a new profile photo for the chat. Photos can't be changed for private chats. The bot...
pub struct SetChatPhoto {
    pub chat_id: ChatId,
    pub photo: InputFile,
}

impl SetChatPhoto {
    pub fn new(chat_id: ChatId, photo: InputFile) -> (r: Self)
        ensures
            r.chat_id == chat_id,
            r.photo == photo,
    {
        Self {
            chat_id,
            photo,
        }
    }
}

impl Methods for SetChatPhoto {
    open spec fn endpoint_view(&self) -> Seq<char> {
        "setChatPhoto"@
    }

    open spec fn params_view(&self) -> Seq<(Seq<char>, JVal)> {
        member("chat_id"@, self.chat_id@.to_jval())
    }

    open spec fn files_view(&self) -> Seq<(Seq<char>, InputFileView)> {
        slot("photo"@, self.photo@)
    }

    fn endpoint(&self) -> (r: String)
        ensures
            r@ == self.endpoint_view(),
            r@.len() > 0,
    {
        proof {
            reveal_strlit("setChatPhoto");
        }
        String::from_str("setChatPhoto")
    }

    fn params(&self) -> (r: Params)
        ensures
            fields_view(r@) == self.params_view(),
    {
        let mut r: Params = Vec::new();
        obj_push(&mut r, "chat_id", self.chat_id.to_json());
        r
    }

    fn files(&self) -> (r: Vec<(String, InputFile)>)
        ensures
            slots_view(r@) == self.files_view(),
    {
        let mut r: Vec<(String, InputFile)> = Vec::new();
        r.push((String::from_str("photo"), self.photo.duplicate()));
        proof {
            broadcast use crate::types::lemma_slots_view;

            assert(slots_view(r@) =~= self.files_view());
        }
        r
    }
}

/// Use this method to delete a chat photo. Photos can't be changed for private chats. The bot must be an admin...
pub struct DeleteChatPhoto {
    pub chat_id: ChatId,
}

impl DeleteChatPhoto {
    pub fn new(chat_id: ChatId) -> (r: Self)
        ensures
            r.chat_id == chat_id,
    {
        Self {
            chat_id,
        }
    }
}

impl Methods for DeleteChatPhoto {
    open spec fn endpoint_view(&self) -> Seq<char> {
        "deleteChatPhoto"@
    }

    open spec fn params_view(&self) -> Seq<(Seq<char>, JVal)> {
        member("chat_id"@, self.chat_id@.to_jval())
    }

    open spec fn files_view(&self) -> Seq<(Seq<char>, InputFileView)> {
        Seq::empty()
    }

    fn endpoint(&self) -> (r: String)
        ensures
            r@ == self.endpoint_view(),
            r@.len() > 0,
    {
        proof {
            reveal_strlit("deleteChatPhoto");
        }
        String::from_str("deleteChatPhoto")
    }

    fn params(&self) -> (r: Params)
        ensures
            fields_view(r@) == self.params_view(),
    {
        let mut r: Params = Vec::new();
        obj_push(&mut r, "chat_id", self.chat_id.to_json());
        r
    }

    fn files(&self) -> (r: Vec<(String, InputFile)>)
        ensures
            slots_view(r@) == self.files_view(),
    {
        let mut r: Vec<(String, InputFile)> = Vec::new();
        proof {
            broadcast use crate::types::lemma_slots_view;

            assert(slots_view(r@) =~= self.files_view());
        }
        r
    }
}

/// Use this method to change the title of a chat. Titles can't be changed for private chats. The bot must be a...
pub struct SetChatTitle {
    pub chat_id: ChatId,
    pub title: String,
}

impl SetChatTitle {
    pub fn new(chat_id: ChatId, title: String) -> (r: Self)
        ensures
            r.chat_id == chat_id,
            r.title == title,
    {
        Self {
            chat_id,
            title,
        }
    }
}

impl Methods for SetChatTitle {
    open spec fn endpoint_view(&self) -> Seq<char> {
        "setChatTitle"@
    }

    open spec fn params_view(&self) -> Seq<(Seq<char>, JVal)> {
        member("chat_id"@, self.chat_id@.to_jval()) + str_member("title"@, self.title@)
    }

    open spec fn files_view(&self) -> Seq<(Seq<char>, InputFileView)> {
        Seq::empty()
    }

    fn endpoint(&self) -> (r: String)
        ensures
            r@ == self.endpoint_view(),
            r@.len() > 0,
    {
        proof {
            reveal_strlit("setChatTitle");
        }
        String::from_str("setChatTitle")
    }

    fn params(&self) -> (r: Params)
        ensures
            fields_view(r@) == self.params_view(),
    {
        let mut r: Params = Vec::new();
        obj_push(&mut r, "chat_id", self.chat_id.to_json());
        obj_push_str(&mut r, "title", &self.title);
        r
    }

    fn files(&self) -> (r: Vec<(String, InputFile)>)
        ensures
            slots_view(r@) == self.files_view(),
    {
        let mut r: Vec<(String, InputFile)> = Vec::new();
        proof {
            broadcast use crate::types::lemma_slots_view;

            assert(slots_view(r@) =~= self.files_view());
        }
        r
    }
}

/// Use this method to change the description of a group, a supergroup or a channel. The bot must be an adminis...
pub struct SetChatDescription {
    pub chat_id: ChatId,
    pub description: Option<String>,
}

impl SetChatDescription {
    pub fn new(chat_id: ChatId) -> (r: Self)
        ensures
            r.chat_id == chat_id,
            r.description is None,
    {
        Self {
            chat_id,
            description: None,
        }
    }
}

impl Methods for SetChatDescription {
    open spec fn endpoint_view(&self) -> Seq<char> {
        "setChatDescription"@
    }

    open spec fn params_view(&self) -> Seq<(Seq<char>, JVal)> {
        member("chat_id"@, self.chat_id@.to_jval()) + opt_str_member("description"@, self.description.deep_view())
    }

    open spec fn files_view(&self) -> Seq<(Seq<char>, InputFileView)> {
        Seq::empty()
    }

    fn endpoint(&self) -> (r: String)
        ensures
            r@ == self.endpoint_view(),
            r@.len() > 0,
    {
        proof {
            reveal_strlit("setChatDescription");
        }
        String::from_str("setChatDescription")
    }

    fn params(&self) -> (r: Params)
        ensures
            fields_view(r@) == self.params_view(),
    {
        let mut r: Params = Vec::new();
        obj_push(&mut r, "chat_id", self.chat_id.to_json());
        obj_push_opt_str(&mut r, "description", &self.description);
        r
    }

    fn files(&self) -> (r: Vec<(String, InputFile)>)
        ensures
            slots_view(r@) == self.files_view(),
    {
        let mut r: Vec<(String, InputFile)> = Vec::new();
        proof {
            broadcast use crate::types::lemma_slots_view;

            assert(slots_view(r@) =~= self.files_view());
        }
        r
    }
}

/// Use this method to add a message to the list of pinned messages in a chat. If the chat is not a private cha...
pub struct PinChatMessage {
    pub chat_id: ChatId,
    pub message_id: i64,
    pub disable_notification: Option<bool>,
}

impl PinChatMessage {
    pub fn new(chat_id: ChatId, message_id: i64) -> (r: Self)
        ensures
            r.chat_id == chat_id,
            r.message_id == message_id,
            r.disable_notification is None,
    {
        Self {
            chat_id,
            message_id,
            disable_notification: None,
        }
    }
}

impl Methods for PinChatMessage {
    open spec fn endpoint_view(&self) -> Seq<char> {
        "pinChatMessage"@
    }

    open spec fn params_view(&self) -> Seq<(Seq<char>, JVal)> {
        member("chat_id"@, self.chat_id@.to_jval()) + i64_member("message_id"@, self.message_id) + opt_bool_member("disable_notification"@, self.disable_notification)
    }

    open spec fn files_view(&self) -> Seq<(Seq<char>, InputFileView)> {
        Seq::empty()
    }

    fn endpoint(&self) -> (r: String)
        ensures
            r@ == self.endpoint_view(),
            r@.len() > 0,
    {
        proof {
            reveal_strlit("pinChatMessage");
        }
        String::from_str("pinChatMessage")
    }

    fn params(&self) -> (r: Params)
        ensures
            fields_view(r@) == self.params_view(),
    {
        let mut r: Params = Vec::new();
        obj_push(&mut r, "chat_id", self.chat_id.to_json());
        obj_push_i64(&mut r, "message_id", self.message_id);
        obj_push_opt_bool(&mut r, "disable_notification", &self.disable_notification);
        r
    }

    fn files(&self) -> (r: Vec<(String, InputFile)>)
        ensures
            slots_view(r@) == self.files_view(),
    {
        let mut r: Vec<(String, InputFile)> = Vec::new();
        proof {
            broadcast use crate::types::lemma_slots_view;

            assert(slots_view(r@) =~= self.files_view());
        }
        r
    }
}

/// Use this method to remove a message from the list of pinned messages in a chat. If the chat is not a privat...
pub struct UnpinChatMessage {
    pub chat_id: ChatId,
    pub message_id: Option<i64>,
}

impl UnpinChatMessage {
    pub fn new(chat_id: ChatId) -> (r: Self)
        ensures
            r.chat_id == chat_id,
            r.message_id is None,
    {
        Self {
            chat_id,
            message_id: None,
        }
    }
}

impl Methods for UnpinChatMessage {
    open spec fn endpoint_view(&self) -> Seq<char> {
        "unpinChatMessage"@
    }

    open spec fn params_view(&self) -> Seq<(Seq<char>, JVal)> {
        member("chat_id"@, self.chat_id@.to_jval()) + opt_i64_member("message_id"@, self.message_id)
    }

    open spec fn files_view(&self) -> Seq<(Seq<char>, InputFileView)> {
        Seq::empty()
    }

    fn endpoint(&self) -> (r: String)
        ensures
            r@ == self.endpoint_view(),
            r@.len() > 0,
    {
        proof {
            reveal_strlit("unpinChatMessage");
        }
        String::from_str("unpinChatMessage")
    }

    fn params(&self) -> (r: Params)
        ensures
            fields_view(r@) == self.params_view(),
    {
        let mut r: Params = Vec::new();
        obj_push(&mut r, "chat_id", self.chat_id.to_json());
        obj_push_opt_i64(&mut r, "message_id", &self.message_id);
        r
    }

    fn files(&self) -> (r: Vec<(String, InputFile)>)
        ensures
            slots_view(r@) == self.files_view(),
    {
        let mut r: Vec<(String, InputFile)> = Vec::new();
        proof {
            broadcast use crate::types::lemma_slots_view;

            assert(slots_view(r@) =~= self.files_view());
        }
        r
    }
}

/// Use this method to clear the list of pinned messages in a chat. If the chat is not a private chat, the bot ...
pub struct UnpinAllChatMessages {
    pub chat_id: ChatId,
}

impl UnpinAllChatMessages {
    pub fn new(chat_id: ChatId) -> (r: Self)
        ensures
            r.chat_id == chat_id,
    {
        Self {
            chat_id,
        }
    }
}

impl Methods for UnpinAllChatMessages {
    open spec fn endpoint_view(&self) -> Seq<char> {
        "unpinAllChatMessages"@
    }

    open spec fn params_view(&self) -> Seq<(Seq<char>, JVal)> {
        member("chat_id"@, self.chat_id@.to_jval())
    }

    open spec fn files_view(&self) -> Seq<(Seq<char>, InputFileView)> {
        Seq::empty()
    }

    fn endpoint(&self) -> (r: String)
        ensures
            r@ == self.endpoint_view(),
            r@.len() > 0,
    {
        proof {
            reveal_strlit("unpinAllChatMessages");
        }
        String::from_str("unpinAllChatMessages")
    }

    fn params(&self) -> (r: Params)
        ensures
            fields_view(r@) == self.params_view(),
    {
        let mut r: Params = Vec::new();
        obj_push(&mut r, "chat_id", self.chat_id.to_json());
        r
    }

    fn files(&self) -> (r: Vec<(String, InputFile)>)
        ensures
            slots_view(r@) == self.files_view(),
    {
        let mut r: Vec<(String, InputFile)> = Vec::new();
        proof {
            broadcast use crate::types::lemma_slots_view;

            assert(slots_view(r@) =~= self.files_view());
        }
        r
    }
}

/// Use this method for your bot to leave a group, supergroup or channel. Returns True on success.
pub struct LeaveChat {
    pub chat_id: ChatId,
}

impl LeaveChat {
    pub fn new(chat_id: ChatId) -> (r: Self)
        ensures
            r.chat_id == chat_id,
    {
        Self {
            chat_id,
        }
    }
}

impl Methods for LeaveChat {
    open spec fn endpoint_view(&self) -> Seq<char> {
        "leaveChat"@
    }

    open spec fn params_view(&self) -> Seq<(Seq<char>, JVal)> {
        member("chat_id"@, self.chat_id@.to_jval())
    }

    open spec fn files_view(&self) -> Seq<(Seq<char>, InputFileView)> {
        Seq::empty()
    }

    fn endpoint(&self) -> (r: String)
        ensures
            r@ == self.endpoint_view(),
            r@.len() > 0,
    {
        proof {
            reveal_strlit("leaveChat");
        }
        String::from_str("leaveChat")
    }

    fn params(&self) -> (r: Params)
        ensures
            fields_view(r@) == self.params_view(),
    {
        let mut r: Params = Vec::new();
        obj_push(&mut r, "chat_id", self.chat_id.to_json());
        r
    }

    fn files(&self) -> (r: Vec<(String, InputFile)>)
        ensures
            slots_view(r@) == self.files_view(),
    {
        let mut r: Vec<(String, InputFile)> = Vec::new();
        proof {
            broadcast use crate::types::lemma_slots_view;

            assert(slots_view(r@) =~= self.files_view());
        }
        r
    }
}

/// Use this method to get up to date information about the chat (current name of the user for one-on-one conve...
pub struct GetChat {
    pub chat_id: ChatId,
}

impl GetChat {
    pub fn new(chat_id: ChatId) -> (r: Self)
        ensures
            r.chat_id == chat_id,
    {
        Self {
            chat_id,
        }
    }
}

impl Methods for GetChat {
    open spec fn endpoint_view(&self) -> Seq<char> {
        "getChat"@
    }

    open spec fn params_view(&self) -> Seq<(Seq<char>, JVal)> {
        member("chat_id"@, self.chat_id@.to_jval())
    }

    open spec fn files_view(&self) -> Seq<(Seq<char>, InputFileView)> {
        Seq::empty()
    }

    fn endpoint(&self) -> (r: String)
        ensures
            r@ == self.endpoint_view(),
            r@.len() > 0,
    {
        proof {
            reveal_strlit("getChat");
        }
        String::from_str("getChat")
    }

    fn params(&self) -> (r: Params)
        ensures
            fields_view(r@) == self.params_view(),
    {
        let mut r: Params = Vec::new();
        obj_push(&mut r, "chat_id", self.chat_id.to_json());
        r
    }

    fn files(&self) -> (r: Vec<(String, InputFile)>)
        ensures
            slots_view(r@) == self.files_view(),
    {
        let mut r: Vec<(String, InputFile)> = Vec::new();
        proof {
            broadcast use crate::types::lemma_slots_view;

            assert(slots_view(r@) =~= self.files_view());
        }
        r
    }
}

/// Use this method to get a list of administrators in a chat, which aren't bots. Returns an Array of ChatMembe...
pub struct GetChatAdministrators {
    pub chat_id: ChatId,
}

impl GetChatAdministrators {
    pub fn new(chat_id: ChatId) -> (r: Self)
        ensures
            r.chat_id == chat_id,
    {
        Self {
            chat_id,
        }
    }
}

impl Methods for GetChatAdministrators {
    open spec fn endpoint_view(&self) -> Seq<char> {
        "getChatAdministrators"@
    }

    open spec fn params_view(&self) -> Seq<(Seq<char>, JVal)> {
        member("chat_id"@, self.chat_id@.to_jval())
    }

    open spec fn files_view(&self) -> Seq<(Seq<char>, InputFileView)> {
        Seq::empty()
    }

    fn endpoint(&self) -> (r: String)
        ensures
            r@ == self.endpoint_view(),
            r@.len() > 0,
    {
        proof {
            reveal_strlit("getChatAdministrators");
        }
        String::from_str("getChatAdministrators")
    }

    fn params(&self) -> (r: Params)
        ensures
            fields_view(r@) == self.params_view(),
    {
        let mut r: Params = Vec::new();
        obj_push(&mut r, "chat_id", self.chat_id.to_json());
        r
    }

    fn files(&self) -> (r: Vec<(String, InputFile)>)
        ensures
            slots_view(r@) == self.files_view(),
    {
        let mut r: Vec<(String, InputFile)> = Vec::new();
        proof {
            broadcast use crate::types::lemma_slots_view;

            assert(slots_view(r@) =~= self.files_view());
        }
        r
    }
}

/// Use this method to get the number of members in a chat. Returns Int on success.
pub struct GetChatMemberCount {
    pub chat_id: ChatId,
}

impl GetChatMemberCount {
    pub fn new(chat_id: ChatId) -> (r: Self)
        ensures
            r.chat_id == chat_id,
    {
        Self {
            chat_id,
        }
    }
}

impl Methods for GetChatMemberCount {
    open spec fn endpoint_view(&self) -> Seq<char> {
        "getChatMemberCount"@
    }

    open spec fn params_view(&self) -> Seq<(Seq<char>, JVal)> {
        member("chat_id"@, self.chat_id@.to_jval())
    }

    open spec fn files_view(&self) -> Seq<(Seq<char>, InputFileView)> {
        Seq::empty()
    }

    fn endpoint(&self) -> (r: String)
        ensures
            r@ == self.endpoint_view(),
            r@.len() > 0,
    {
        proof {
            reveal_strlit("getChatMemberCount");
        }
        String::from_str("getChatMemberCount")
    }

    fn params(&self) -> (r: Params)
        ensures
            fields_view(r@) == self.params_view(),
    {
        let mut r: Params = Vec::new();
        obj_push(&mut r, "chat_id", self.chat_id.to_json());
        r
    }

    fn files(&self) -> (r: Vec<(String, InputFile)>)
        ensures
            slots_view(r@) == self.files_view(),
    {
        let mut r: Vec<(String, InputFile)> = Vec::new();
        proof {
            broadcast use crate::types::lemma_slots_view;

            assert(slots_view(r@) =~= self.files_view());
        }
        r
    }
}

/// Use this method to get information about a member of a chat. Returns a ChatMember object on success.
pub struct GetChatMember {
    pub chat_id: ChatId,
    pub user_id: i64,
}

impl GetChatMember {
    pub fn new(chat_id: ChatId, user_id: i64) -> (r: Self)
        ensures
            r.chat_id == chat_id,
            r.user_id == user_id,
    {
        Self {
            chat_id,
            user_id,
        }
    }
}

impl Methods for GetChatMember {
    open spec fn endpoint_view(&self) -> Seq<char> {
        "getChatMember"@
    }

    open spec fn params_view(&self) -> Seq<(Seq<char>, JVal)> {
        member("chat_id"@, self.chat_id@.to_jval()) + i64_member("user_id"@, self.user_id)
    }

    open spec fn files_view(&self) -> Seq<(Seq<char>, InputFileView)> {
        Seq::empty()
    }

    fn endpoint(&self) -> (r: String)
        ensures
            r@ == self.endpoint_view(),
            r@.len() > 0,
    {
        proof {
            reveal_strlit("getChatMember");
        }
        String::from_str("getChatMember")
    }

    fn params(&self) -> (r: Params)
        ensures
            fields_view(r@) == self.params_view(),
    {
        let mut r: Params = Vec::new();
        obj_push(&mut r, "chat_id", self.chat_id.to_json());
        obj_push_i64(&mut r, "user_id", self.user_id);
        r
    }

    fn files(&self) -> (r: Vec<(String, InputFile)>)
        ensures
            slots_view(r@) == self.files_view(),
    {
        let mut r: Vec<(String, InputFile)> = Vec::new();
        proof {
            broadcast use crate::types::lemma_slots_view;

            assert(slots_view(r@) =~= self.files_view());
        }
        r
    }
}

/// Use this method to set a new group sticker set for a supergroup. The bot must be an administrator in the ch...
pub struct SetChatStickerSet {
    pub chat_id: ChatId,
    pub sticker_set_name: String,
}

impl SetChatStickerSet {
    pub fn new(chat_id: ChatId, sticker_set_name: String) -> (r: Self)
        ensures
            r.chat_id == chat_id,
            r.sticker_set_name == sticker_set_name,
    {
        Self {
            chat_id,
            sticker_set_name,
        }
    }
}

impl Methods for SetChatStickerSet {
    open spec fn endpoint_view(&self) -> Seq<char> {
        "setChatStickerSet"@
    }

    open spec fn params_view(&self) -> Seq<(Seq<char>, JVal)> {
        member("chat_id"@, self.chat_id@.to_jval()) + str_member("sticker_set_name"@, self.sticker_set_name@)
    }

    open spec fn files_view(&self) -> Seq<(Seq<char>, InputFileView)> {
        Seq::empty()
    }

    fn endpoint(&self) -> (r: String)
        ensures
            r@ == self.endpoint_view(),
            r@.len() > 0,
    {
        proof {
            reveal_strlit("setChatStickerSet");
        }
        String::from_str("setChatStickerSet")
    }

    fn params(&self) -> (r: Params)
        ensures
            fields_view(r@) == self.params_view(),
    {
        let mut r: Params = Vec::new();
        obj_push(&mut r, "chat_id", self.chat_id.to_json());
        obj_push_str(&mut r, "sticker_set_name", &self.sticker_set_name);
        r
    }

    fn files(&self) -> (r: Vec<(String, InputFile)>)
        ensures
            slots_view(r@) == self.files_view(),
    {
        let mut r: Vec<(String, InputFile)> = Vec::new();
        proof {
            broadcast use crate::types::lemma_slots_view;

            assert(slots_view(r@) =~= self.files_view());
        }
        r
    }
}

/// Use this method to delete a group sticker set from a supergroup. The bot must be an administrator in the ch...
pub struct DeleteChatStickerSet {
    pub chat_id: ChatId,
}

impl DeleteChatStickerSet {
    pub fn new(chat_id: ChatId) -> (r: Self)
        ensures
            r.chat_id == chat_id,
    {
        Self {
            chat_id,
        }
    }
}

impl Methods for DeleteChatStickerSet {
    open spec fn endpoint_view(&self) -> Seq<char> {
        "deleteChatStickerSet"@
    }

    open spec fn params_view(&self) -> Seq<(Seq<char>, JVal)> {
        member("chat_id"@, self.chat_id@.to_jval())
    }

    open spec fn files_view(&self) -> Seq<(Seq<char>, InputFileView)> {
        Seq::empty()
    }

    fn endpoint(&self) -> (r: String)
        ensures
            r@ == self.endpoint_view(),
            r@.len() > 0,
    {
        proof {
            reveal_strlit("deleteChatStickerSet");
        }
        String::from_str("deleteChatStickerSet")
    }

    fn params(&self) -> (r: Params)
        ensures
            fields_view(r@) == self.params_view(),
    {
        let mut r: Params = Vec::new();
        obj_push(&mut r, "chat_id", self.chat_id.to_json());
        r
    }

    fn files(&self) -> (r: Vec<(String, InputFile)>)
        ensures
            slots_view(r@) == self.files_view(),
    {
        let mut r: Vec<(String, InputFile)> = Vec::new();
        proof {
            broadcast use crate::types::lemma_slots_view;

            assert(slots_view(r@) =~= self.files_view());
        }
        r
    }
}

/// Use this method to send answers to callback queries sent from inline keyboards. The answer will be displaye...
pub struct AnswerCallbackQuery {
    pub callback_query_id: String,
    pub text: Option<String>,
    pub show_alert: Option<bool>,
    pub url: Option<String>,
}

impl AnswerCallbackQuery {
    pub fn new(callback_query_id: String) -> (r: Self)
        ensures
            r.callback_query_id == callback_query_id,
            r.text is None,
            r.show_alert is None,
            r.url is None,
    {
        Self {
            callback_query_id,
            text: None,
            show_alert: None,
            url: None,
        }
    }
}

impl Methods for AnswerCallbackQuery {
    open spec fn endpoint_view(&self) -> Seq<char> {
        "answerCallbackQuery"@
    }

    open spec fn params_view(&self) -> Seq<(Seq<char>, JVal)> {
        str_member("callback_query_id"@, self.callback_query_id@) + opt_str_member("text"@, self.text.deep_view()) + opt_bool_member("show_alert"@, self.show_alert) + opt_str_member("url"@, self.url.deep_view())
    }

    open spec fn files_view(&self) -> Seq<(Seq<char>, InputFileView)> {
        Seq::empty()
    }

    fn endpoint(&self) -> (r: String)
        ensures
            r@ == self.endpoint_view(),
            r@.len() > 0,
    {
        proof {
            reveal_strlit("answerCallbackQuery");
        }
        String::from_str("answerCallbackQuery")
    }

    fn params(&self) -> (r: Params)
        ensures
            fields_view(r@) == self.params_view(),
    {
        let mut r: Params = Vec::new();
        obj_push_str(&mut r, "callback_query_id", &self.callback_query_id);
        obj_push_opt_str(&mut r, "text", &self.text);
        obj_push_opt_bool(&mut r, "show_alert", &self.show_alert);
        obj_push_opt_str(&mut r, "url", &self.url);
        r
    }

    fn files(&self) -> (r: Vec<(String, InputFile)>)
        ensures
            slots_view(r@) == self.files_view(),
    {
        let mut r: Vec<(String, InputFile)> = Vec::new();
        proof {
            broadcast use crate::types::lemma_slots_view;

            assert(slots_view(r@) =~= self.files_view());
        }
        r
    }
}

/// Use this method to change the list of the bot's commands. See https://core.telegram.org/bots#commands for m...
pub struct SetMyCommands {
    pub commands: Vec<BotCommand>,
    pub scope: Option<BotCommandScope>,
    pub language_code: Option<String>,
}

impl SetMyCommands {
    pub fn new(commands: Vec<BotCommand>) -> (r: Self)
        ensures
            r.commands == commands,
            r.scope is None,
            r.language_code is None,
    {
        Self {
            commands,
            scope: None,
            language_code: None,
        }
    }
}

impl Methods for SetMyCommands {
    open spec fn endpoint_view(&self) -> Seq<char> {
        "setMyCommands"@
    }

    open spec fn params_view(&self) -> Seq<(Seq<char>, JVal)> {
        member("commands"@, JVal::Arr(bot_commands_jvals(self.commands.deep_view()))) + opt_member("scope"@, match self.scope.deep_view() {
            Option::Some(x) => Some(x.to_jval()),
            Option::None => None,
        }) + opt_str_member("language_code"@, self.language_code.deep_view())
    }

    open spec fn files_view(&self) -> Seq<(Seq<char>, InputFileView)> {
        Seq::empty()
    }

    fn endpoint(&self) -> (r: String)
        ensures
            r@ == self.endpoint_view(),
            r@.len() > 0,
    {
        proof {
            reveal_strlit("setMyCommands");
        }
        String::from_str("setMyCommands")
    }

    fn params(&self) -> (r: Params)
        ensures
            fields_view(r@) == self.params_view(),
    {
        let mut r: Params = Vec::new();
        obj_push(&mut r, "commands", bot_commands_json(&self.commands));
        let v_scope: Option<JsonValue> = match &self.scope {
            Option::Some(x) => Some(x.to_json()),
            Option::None => None,
        };
        obj_push_opt_val(&mut r, "scope", v_scope);
        obj_push_opt_str(&mut r, "language_code", &self.language_code);
        r
    }

    fn files(&self) -> (r: Vec<(String, InputFile)>)
        ensures
            slots_view(r@) == self.files_view(),
    {
        let mut r: Vec<(String, InputFile)> = Vec::new();
        proof {
            broadcast use crate::types::lemma_slots_view;

            assert(slots_view(r@) =~= self.files_view());
        }
        r
    }
}

/// Use this method to delete the list of the bot's commands for the given scope and user language. After delet...
pub struct DeleteMyCommands {
    pub scope: Option<BotCommandScope>,
    pub language_code: Option<String>,
}

impl DeleteMyCommands {
    pub fn new() -> (r: Self)
        ensures
            r.scope is None,
            r.language_code is None,
    {
        Self {
            scope: None,
            language_code: None,
        }
    }
}

impl Methods for DeleteMyCommands {
    open spec fn endpoint_view(&self) -> Seq<char> {
        "deleteMyCommands"@
    }

    open spec fn params_view(&self) -> Seq<(Seq<char>, JVal)> {
        opt_member("scope"@, match self.scope.deep_view() {
            Option::Some(x) => Some(x.to_jval()),
            Option::None => None,
        }) + opt_str_member("language_code"@, self.language_code.deep_view())
    }

    open spec fn files_view(&self) -> Seq<(Seq<char>, InputFileView)> {
        Seq::empty()
    }

    fn endpoint(&self) -> (r: String)
        ensures
            r@ == self.endpoint_view(),
            r@.len() > 0,
    {
        proof {
            reveal_strlit("deleteMyCommands");
        }
        String::from_str("deleteMyCommands")
    }

    fn params(&self) -> (r: Params)
        ensures
            fields_view(r@) == self.params_view(),
    {
        let mut r: Params = Vec::new();
        let v_scope: Option<JsonValue> = match &self.scope {
            Option::Some(x) => Some(x.to_json()),
            Option::None => None,
        };
        obj_push_opt_val(&mut r, "scope", v_scope);
        obj_push_opt_str(&mut r, "language_code", &self.language_code);
        r
    }

    fn files(&self) -> (r: Vec<(String, InputFile)>)
        ensures
            slots_view(r@) == self.files_view(),
    {
        let mut r: Vec<(String, InputFile)> = Vec::new();
        proof {
            broadcast use crate::types::lemma_slots_view;

            assert(slots_view(r@) =~= self.files_view());
        }
        r
    }
}

/// Use this method to get the current list of the bot's commands for the given scope and user language. Return...
pub struct GetMyCommands {
    pub scope: Option<BotCommandScope>,
    pub language_code: Option<String>,
}

impl GetMyCommands {
    pub fn new() -> (r: Self)
        ensures
            r.scope is None,
            r.language_code is None,
    {
        Self {
            scope: None,
            language_code: None,
        }
    }
}

impl Methods for GetMyCommands {
    open spec fn endpoint_view(&self) -> Seq<char> {
        "getMyCommands"@
    }

    open spec fn params_view(&self) -> Seq<(Seq<char>, JVal)> {
        opt_member("scope"@, match self.scope.deep_view() {
            Option::Some(x) => Some(x.to_jval()),
            Option::None => None,
        }) + opt_str_member("language_code"@, self.language_code.deep_view())
    }

    open spec fn files_view(&self) -> Seq<(Seq<char>, InputFileView)> {
        Seq::empty()
    }

    fn endpoint(&self) -> (r: String)
        ensures
            r@ == self.endpoint_view(),
            r@.len() > 0,
    {
        proof {
            reveal_strlit("getMyCommands");
        }
        String::from_str("getMyCommands")
    }

    fn params(&self) -> (r: Params)
        ensures
            fields_view(r@) == self.params_view(),
    {
        let mut r: Params = Vec::new();
        let v_scope: Option<JsonValue> = match &self.scope {
            Option::Some(x) => Some(x.to_json()),
            Option::None => None,
        };
        obj_push_opt_val(&mut r, "scope", v_scope);
        obj_push_opt_str(&mut r, "language_code", &self.language_code);
        r
    }

    fn files(&self) -> (r: Vec<(String, InputFile)>)
        ensures
            slots_view(r@) == self.files_view(),
    {
        let mut r: Vec<(String, InputFile)> = Vec::new();
        proof {
            broadcast use crate::types::lemma_slots_view;

            assert(slots_view(r@) =~= self.files_view());
        }
        r
    }
}

/// Use this method to change the bot's menu button in a private chat, or the default menu button. Returns True...
pub struct SetChatMenuButton {
    pub chat_id: Option<i64>,
    pub menu_button: Option<MenuButton>,
}

impl SetChatMenuButton {
    pub fn new() -> (r: Self)
        ensures
            r.chat_id is None,
            r.menu_button is None,
    {
        Self {
            chat_id: None,
            menu_button: None,
        }
    }
}

impl Methods for SetChatMenuButton {
    open spec fn endpoint_view(&self) -> Seq<char> {
        "setChatMenuButton"@
    }

    open spec fn params_view(&self) -> Seq<(Seq<char>, JVal)> {
        opt_i64_member("chat_id"@, self.chat_id) + opt_member("menu_button"@, match self.menu_button.deep_view() {
            Option::Some(x) => Some(x.to_jval()),
            Option::None => None,
        })
    }

    open spec fn files_view(&self) -> Seq<(Seq<char>, InputFileView)> {
        Seq::empty()
    }

    fn endpoint(&self) -> (r: String)
        ensures
            r@ == self.endpoint_view(),
            r@.len() > 0,
    {
        proof {
            reveal_strlit("setChatMenuButton");
        }
        String::from_str("setChatMenuButton")
    }

    fn params(&self) -> (r: Params)
        ensures
            fields_view(r@) == self.params_view(),
    {
        let mut r: Params = Vec::new();
        obj_push_opt_i64(&mut r, "chat_id", &self.chat_id);
        let v_menu_button: Option<JsonValue> = match &self.menu_button {
            Option::Some(x) => Some(x.to_json()),
            Option::None => None,
        };
        obj_push_opt_val(&mut r, "menu_button", v_menu_button);
        r
    }

    fn files(&self) -> (r: Vec<(String, InputFile)>)
        ensures
            slots_view(r@) == self.files_view(),
    {
        let mut r: Vec<(String, InputFile)> = Vec::new();
        proof {
            broadcast use crate::types::lemma_slots_view;

            assert(slots_view(r@) =~= self.files_view());
        }
        r
    }
}

/// Use this method to get the current value of the bot's menu button in a private chat, or the default menu bu...
pub struct GetChatMenuButton {
    pub chat_id: Option<i64>,
}

impl GetChatMenuButton {
    pub fn new() -> (r: Self)
        ensures
            r.chat_id is None,
    {
        Self {
            chat_id: None,
        }
    }
}

impl Methods for GetChatMenuButton {
    open spec fn endpoint_view(&self) -> Seq<char> {
        "getChatMenuButton"@
    }

    open spec fn params_view(&self) -> Seq<(Seq<char>, JVal)> {
        opt_i64_member("chat_id"@, self.chat_id)
    }

    open spec fn files_view(&self) -> Seq<(Seq<char>, InputFileView)> {
        Seq::empty()
    }

    fn endpoint(&self) -> (r: String)
        ensures
            r@ == self.endpoint_view(),
            r@.len() > 0,
    {
        proof {
            reveal_strlit("getChatMenuButton");
        }
        String::from_str("getChatMenuButton")
    }

    fn params(&self) -> (r: Params)
        ensures
            fields_view(r@) == self.params_view(),
    {
        let mut r: Params = Vec::new();
        obj_push_opt_i64(&mut r, "chat_id", &self.chat_id);
        r
    }

    fn files(&self) -> (r: Vec<(String, InputFile)>)
        ensures
            slots_view(r@) == self.files_view(),
    {
        let mut r: Vec<(String, InputFile)> = Vec::new();
        proof {
            broadcast use crate::types::lemma_slots_view;

            assert(slots_view(r@) =~= self.files_view());
        }
        r
    }
}

/// Use this method to change the default administrator rights requested by the bot when it's added as an admin...
pub struct SetMyDefaultAdministratorRights {
    pub rights: Option<ChatAdministratorRights>,
    pub for_channels: Option<bool>,
}

impl SetMyDefaultAdministratorRights {
    pub fn new() -> (r: Self)
        ensures
            r.rights is None,
            r.for_channels is None,
    {
        Self {
            rights: None,
            for_channels: None,
        }
    }
}

impl Methods for SetMyDefaultAdministratorRights {
    open spec fn endpoint_view(&self) -> Seq<char> {
        "setMyDefaultAdministratorRights"@
    }

    open spec fn params_view(&self) -> Seq<(Seq<char>, JVal)> {
        opt_member("rights"@, match self.rights.deep_view() {
            Option::Some(x) => Some(x.to_jval()),
            Option::None => None,
        }) + opt_bool_member("for_channels"@, self.for_channels)
    }

    open spec fn files_view(&self) -> Seq<(Seq<char>, InputFileView)> {
        Seq::empty()
    }

    fn endpoint(&self) -> (r: String)
        ensures
            r@ == self.endpoint_view(),
            r@.len() > 0,
    {
        proof {
            reveal_strlit("setMyDefaultAdministratorRights");
        }
        String::from_str("setMyDefaultAdministratorRights")
    }

    fn params(&self) -> (r: Params)
        ensures
            fields_view(r@) == self.params_view(),
    {
        let mut r: Params = Vec::new();
        let v_rights: Option<JsonValue> = match &self.rights {
            Option::Some(x) => Some(x.to_json()),
            Option::None => None,
        };
        obj_push_opt_val(&mut r, "rights", v_rights);
        obj_push_opt_bool(&mut r, "for_channels", &self.for_channels);
        r
    }

    fn files(&self) -> (r: Vec<(String, InputFile)>)
        ensures
            slots_view(r@) == self.files_view(),
    {
        let mut r: Vec<(String, InputFile)> = Vec::new();
        proof {
            broadcast use crate::types::lemma_slots_view;

            assert(slots_view(r@) =~= self.files_view());
        }
        r
    }
}

/// Use this method to get the current default administrator rights of the bot. Returns ChatAdministratorRights...
pub struct GetMyDefaultAdministratorRights {
    pub for_channels: Option<bool>,
}

impl GetMyDefaultAdministratorRights {
    pub fn new() -> (r: Self)
        ensures
            r.for_channels is None,
    {
        Self {
            for_channels: None,
        }
    }
}

impl Methods for GetMyDefaultAdministratorRights {
    open spec fn endpoint_view(&self) -> Seq<char> {
        "getMyDefaultAdministratorRights"@
    }

    open spec fn params_view(&self) -> Seq<(Seq<char>, JVal)> {
        opt_bool_member("for_channels"@, self.for_channels)
    }

    open spec fn files_view(&self) -> Seq<(Seq<char>, InputFileView)> {
        Seq::empty()
    }

    fn endpoint(&self) -> (r: String)
        ensures
            r@ == self.endpoint_view(),
            r@.len() > 0,
    {
        proof {
            reveal_strlit("getMyDefaultAdministratorRights");
        }
        String::from_str("getMyDefaultAdministratorRights")
    }

    fn params(&self) -> (r: Params)
        ensures
            fields_view(r@) == self.params_view(),
    {
        let mut r: Params = Vec::new();
        obj_push_opt_bool(&mut r, "for_channels", &self.for_channels);
        r
    }

    fn files(&self) -> (r: Vec<(String, InputFile)>)
        ensures
            slots_view(r@) == self.files_view(),
    {
        let mut r: Vec<(String, InputFile)> = Vec::new();
        proof {
            broadcast use crate::types::lemma_slots_view;

            assert(slots_view(r@) =~= self.files_view());
        }
        r
    }
}

/// Use this method to receive incoming updates using long polling (wiki). Returns an Array of Update objects.
pub struct GetUpdates {
    pub offset: Option<i64>,
    pub limit: Option<i64>,
    pub timeout: Option<i64>,
    pub allowed_updates: Option<Vec<String>>,
}

impl GetUpdates {
    pub fn new() -> (r: Self)
        ensures
            r.offset is None,
            r.limit is None,
            r.timeout is None,
            r.allowed_updates is None,
    {
        Self {
            offset: None,
            limit: None,
            timeout: None,
            allowed_updates: None,
        }
    }
}

impl Methods for GetUpdates {
    open spec fn endpoint_view(&self) -> Seq<char> {
        "getUpdates"@
    }

    open spec fn params_view(&self) -> Seq<(Seq<char>, JVal)> {
        opt_i64_member("offset"@, self.offset) + opt_i64_member("limit"@, self.limit) + opt_i64_member("timeout"@, self.timeout) + opt_member("allowed_updates"@, match self.allowed_updates.deep_view() {
            Option::Some(x) => Some(JVal::Arr(strings_jvals(x))),
            Option::None => None,
        })
    }

    open spec fn files_view(&self) -> Seq<(Seq<char>, InputFileView)> {
        Seq::empty()
    }

    fn endpoint(&self) -> (r: String)
        ensures
            r@ == self.endpoint_view(),
            r@.len() > 0,
    {
        proof {
            reveal_strlit("getUpdates");
        }
        String::from_str("getUpdates")
    }

    fn params(&self) -> (r: Params)
        ensures
            fields_view(r@) == self.params_view(),
    {
        let mut r: Params = Vec::new();
        obj_push_opt_i64(&mut r, "offset", &self.offset);
        obj_push_opt_i64(&mut r, "limit", &self.limit);
        obj_push_opt_i64(&mut r, "timeout", &self.timeout);
        let v_allowed_updates: Option<JsonValue> = match &self.allowed_updates {
            Option::Some(x) => Some(strings_json(x)),
            Option::None => None,
        };
        obj_push_opt_val(&mut r, "allowed_updates", v_allowed_updates);
        r
    }

    fn files(&self) -> (r: Vec<(String, InputFile)>)
        ensures
            slots_view(r@) == self.files_view(),
    {
        let mut r: Vec<(String, InputFile)> = Vec::new();
        proof {
            broadcast use crate::types::lemma_slots_view;

            assert(slots_view(r@) =~= self.files_view());
        }
        r
    }
}

/// Use this method to specify a URL and receive incoming updates via an outgoing webhook. Whenever there is an...
pub struct SetWebhook {
    pub url: String,
    pub certificate: Option<InputFile>,
    pub ip_address: Option<String>,
    pub max_connections: Option<i64>,
    pub allowed_updates: Option<Vec<String>>,
    pub drop_pending_updates: Option<bool>,
    pub secret_token: Option<String>,
}

impl SetWebhook {
    pub fn new(url: String) -> (r: Self)
        ensures
            r.url == url,
            r.certificate is None,
            r.ip_address is None,
            r.max_connections is None,
            r.allowed_updates is None,
            r.drop_pending_updates is None,
            r.secret_token is None,
    {
        Self {
            url,
            certificate: None,
            ip_address: None,
            max_connections: None,
            allowed_updates: None,
            drop_pending_updates: None,
            secret_token: None,
        }
    }
}

impl Methods for SetWebhook {
    open spec fn endpoint_view(&self) -> Seq<char> {
        "setWebhook"@
    }

    open spec fn params_view(&self) -> Seq<(Seq<char>, JVal)> {
        str_member("url"@, self.url@) + opt_str_member("ip_address"@, self.ip_address.deep_view()) + opt_i64_member("max_connections"@, self.max_connections) + opt_member("allowed_updates"@, match self.allowed_updates.deep_view() {
            Option::Some(x) => Some(JVal::Arr(strings_jvals(x))),
            Option::None => None,
        }) + opt_bool_member("drop_pending_updates"@, self.drop_pending_updates) + opt_str_member("secret_token"@, self.secret_token.deep_view())
    }

    open spec fn files_view(&self) -> Seq<(Seq<char>, InputFileView)> {
        opt_slot("certificate"@, self.certificate.deep_view())
    }

    fn endpoint(&self) -> (r: String)
        ensures
            r@ == self.endpoint_view(),
            r@.len() > 0,
    {
        proof {
            reveal_strlit("setWebhook");
        }
        String::from_str("setWebhook")
    }

    fn params(&self) -> (r: Params)
        ensures
            fields_view(r@) == self.params_view(),
    {
        let mut r: Params = Vec::new();
        obj_push_str(&mut r, "url", &self.url);
        obj_push_opt_str(&mut r, "ip_address", &self.ip_address);
        obj_push_opt_i64(&mut r, "max_connections", &self.max_connections);
        let v_allowed_updates: Option<JsonValue> = match &self.allowed_updates {
            Option::Some(x) => Some(strings_json(x)),
            Option::None => None,
        };
        obj_push_opt_val(&mut r, "allowed_updates", v_allowed_updates);
        obj_push_opt_bool(&mut r, "drop_pending_updates", &self.drop_pending_updates);
        obj_push_opt_str(&mut r, "secret_token", &self.secret_token);
        r
    }

    fn files(&self) -> (r: Vec<(String, InputFile)>)
        ensures
            slots_view(r@) == self.files_view(),
    {
        let mut r: Vec<(String, InputFile)> = Vec::new();
        match &self.certificate {
            Option::Some(x) => {
                r.push((String::from_str("certificate"), x.duplicate()));
            },
            Option::None => {},
        }
        proof {
            broadcast use crate::types::lemma_slots_view;

            assert(slots_view(r@) =~= self.files_view());
        }
        r
    }
}

/// Use this method to remove webhook integration if you decide to switch back to getUpdates. Returns True on s...
pub struct DeleteWebhook {
    pub drop_pending_updates: Option<bool>,
}

impl DeleteWebhook {
    pub fn new() -> (r: Self)
        ensures
            r.drop_pending_updates is None,
    {
        Self {
            drop_pending_updates: None,
        }
    }
}

impl Methods for DeleteWebhook {
    open spec fn endpoint_view(&self) -> Seq<char> {
        "deleteWebhook"@
    }

    open spec fn params_view(&self) -> Seq<(Seq<char>, JVal)> {
        opt_bool_member("drop_pending_updates"@, self.drop_pending_updates)
    }

    open spec fn files_view(&self) -> Seq<(Seq<char>, InputFileView)> {
        Seq::empty()
    }

    fn endpoint(&self) -> (r: String)
        ensures
            r@ == self.endpoint_view(),
            r@.len() > 0,
    {
        proof {
            reveal_strlit("deleteWebhook");
        }
        String::from_str("deleteWebhook")
    }

    fn params(&self) -> (r: Params)
        ensures
            fields_view(r@) == self.params_view(),
    {
        let mut r: Params = Vec::new();
        obj_push_opt_bool(&mut r, "drop_pending_updates", &self.drop_pending_updates);
        r
    }

    fn files(&self) -> (r: Vec<(String, InputFile)>)
        ensures
            slots_view(r@) == self.files_view(),
    {
        let mut r: Vec<(String, InputFile)> = Vec::new();
        proof {
            broadcast use crate::types::lemma_slots_view;

            assert(slots_view(r@) =~= self.files_view());
        }
        r
    }
}

/// Use this method to get current webhook status. Requires no parameters. On success, returns a WebhookInfo ob...
pub struct GetWebhookInfo {
}

impl GetWebhookInfo {
    pub fn new() -> (r: Self)
    {
        Self {
        }
    }
}

impl Methods for GetWebhookInfo {
    open spec fn endpoint_view(&self) -> Seq<char> {
        "getWebhookInfo"@
    }

    open spec fn params_view(&self) -> Seq<(Seq<char>, JVal)> {
        Seq::empty()
    }

    open spec fn files_view(&self) -> Seq<(Seq<char>, InputFileView)> {
        Seq::empty()
    }

    fn endpoint(&self) -> (r: String)
        ensures
            r@ == self.endpoint_view(),
            r@.len() > 0,
    {
        proof {
            reveal_strlit("getWebhookInfo");
        }
        String::from_str("getWebhookInfo")
    }

    fn params(&self) -> (r: Params)
        ensures
            fields_view(r@) == self.params_view(),
    {
        let mut r: Params = Vec::new();
        proof {
            assert(fields_view(r@) =~= Seq::<(Seq<char>, JVal)>::empty());
        }
        r
    }

    fn files(&self) -> (r: Vec<(String, InputFile)>)
        ensures
            slots_view(r@) == self.files_view(),
    {
        let mut r: Vec<(String, InputFile)> = Vec::new();
        proof {
            broadcast use crate::types::lemma_slots_view;

            assert(slots_view(r@) =~= self.files_view());
        }
        r
    }
}

/// Use this method to send static .WEBP, animated .TGS, or video .WEBM stickers. On success, the sent Message ...
pub struct SendSticker {
    pub chat_id: ChatId,
    pub sticker: InputFile,
    pub disable_notification: Option<bool>,
    pub protect_content: Option<bool>,
    pub reply_to_message_id: Option<i64>,
    pub allow_sending_without_reply: Option<bool>,
    pub reply_markup: Option<ReplyMarkup>,
}

impl SendSticker {
    pub fn new(chat_id: ChatId, sticker: InputFile) -> (r: Self)
        ensures
            r.chat_id == chat_id,
            r.sticker == sticker,
            r.disable_notification is None,
            r.protect_content is None,
            r.reply_to_message_id is None,
            r.allow_sending_without_reply is None,
            r.reply_markup is None,
    {
        Self {
            chat_id,
            sticker,
            disable_notification: None,
            protect_content: None,
            reply_to_message_id: None,
            allow_sending_without_reply: None,
            reply_markup: None,
        }
    }
}

impl Methods for SendSticker {
    open spec fn endpoint_view(&self) -> Seq<char> {
        "sendSticker"@
    }

    open spec fn params_view(&self) -> Seq<(Seq<char>, JVal)> {
        member("chat_id"@, self.chat_id@.to_jval()) + opt_bool_member("disable_notification"@, self.disable_notification) + opt_bool_member("protect_content"@, self.protect_content) + opt_i64_member("reply_to_message_id"@, self.reply_to_message_id) + opt_bool_member("allow_sending_without_reply"@, self.allow_sending_without_reply) + opt_member("reply_markup"@, match self.reply_markup.deep_view() {
            Option::Some(x) => Some(x.to_jval()),
            Option::None => None,
        })
    }

    open spec fn files_view(&self) -> Seq<(Seq<char>, InputFileView)> {
        slot("sticker"@, self.sticker@)
    }

    fn endpoint(&self) -> (r: String)
        ensures
            r@ == self.endpoint_view(),
            r@.len() > 0,
    {
        proof {
            reveal_strlit("sendSticker");
        }
        String::from_str("sendSticker")
    }

    fn params(&self) -> (r: Params)
        ensures
            fields_view(r@) == self.params_view(),
    {
        let mut r: Params = Vec::new();
        obj_push(&mut r, "chat_id", self.chat_id.to_json());
        obj_push_opt_bool(&mut r, "disable_notification", &self.disable_notification);
        obj_push_opt_bool(&mut r, "protect_content", &self.protect_content);
        obj_push_opt_i64(&mut r, "reply_to_message_id", &self.reply_to_message_id);
        obj_push_opt_bool(&mut r, "allow_sending_without_reply", &self.allow_sending_without_reply);
        let v_reply_markup: Option<JsonValue> = match &self.reply_markup {
            Option::Some(x) => Some(x.to_json()),
            Option::None => None,
        };
        obj_push_opt_val(&mut r, "reply_markup", v_reply_markup);
        r
    }

    fn files(&self) -> (r: Vec<(String, InputFile)>)
        ensures
            slots_view(r@) == self.files_view(),
    {
        let mut r: Vec<(String, InputFile)> = Vec::new();
        r.push((String::from_str("sticker"), self.sticker.duplicate()));
        proof {
            broadcast use crate::types::lemma_slots_view;

            assert(slots_view(r@) =~= self.files_view());
        }
        r
    }
}

/// Use this method to get a sticker set. On success, a StickerSet object is returned.
pub struct GetStickerSet {
    pub name: String,
}

impl GetStickerSet {
    pub fn new(name: String) -> (r: Self)
        ensures
            r.name == name,
    {
        Self {
            name,
        }
    }
}

impl Methods for GetStickerSet {
    open spec fn endpoint_view(&self) -> Seq<char> {
        "getStickerSet"@
    }

    open spec fn params_view(&self) -> Seq<(Seq<char>, JVal)> {
        str_member("name"@, self.name@)
    }

    open spec fn files_view(&self) -> Seq<(Seq<char>, InputFileView)> {
        Seq::empty()
    }

    fn endpoint(&self) -> (r: String)
        ensures
            r@ == self.endpoint_view(),
            r@.len() > 0,
    {
        proof {
            reveal_strlit("getStickerSet");
        }
        String::from_str("getStickerSet")
    }

    fn params(&self) -> (r: Params)
        ensures
            fields_view(r@) == self.params_view(),
    {
        let mut r: Params = Vec::new();
        obj_push_str(&mut r, "name", &self.name);
        r
    }

    fn files(&self) -> (r: Vec<(String, InputFile)>)
        ensures
            slots_view(r@) == self.files_view(),
    {
        let mut r: Vec<(String, InputFile)> = Vec::new();
        proof {
            broadcast use crate::types::lemma_slots_view;

            assert(slots_view(r@) =~= self.files_view());
        }
        r
    }
}

/// Use this method to get information about custom emoji stickers by their identifiers. Returns an Array of St...
pub struct GetCustomEmojiStickers {
    pub custom_emoji_ids: Vec<String>,
}

impl GetCustomEmojiStickers {
    pub fn new(custom_emoji_ids: Vec<String>) -> (r: Self)
        ensures
            r.custom_emoji_ids == custom_emoji_ids,
    {
        Self {
            custom_emoji_ids,
        }
    }
}

impl Methods for GetCustomEmojiStickers {
    open spec fn endpoint_view(&self) -> Seq<char> {
        "getCustomEmojiStickers"@
    }

    open spec fn params_view(&self) -> Seq<(Seq<char>, JVal)> {
        member("custom_emoji_ids"@, JVal::Arr(strings_jvals(self.custom_emoji_ids.deep_view())))
    }

    open spec fn files_view(&self) -> Seq<(Seq<char>, InputFileView)> {
        Seq::empty()
    }

    fn endpoint(&self) -> (r: String)
        ensures
            r@ == self.endpoint_view(),
            r@.len() > 0,
    {
        proof {
            reveal_strlit("getCustomEmojiStickers");
        }
        String::from_str("getCustomEmojiStickers")
    }

    fn params(&self) -> (r: Params)
        ensures
            fields_view(r@) == self.params_view(),
    {
        let mut r: Params = Vec::new();
        obj_push(&mut r, "custom_emoji_ids", strings_json(&self.custom_emoji_ids));
        r
    }

    fn files(&self) -> (r: Vec<(String, InputFile)>)
        ensures
            slots_view(r@) == self.files_view(),
    {
        let mut r: Vec<(String, InputFile)> = Vec::new();
        proof {
            broadcast use crate::types::lemma_slots_view;

            assert(slots_view(r@) =~= self.files_view());
        }
        r
    }
}

/// Use this method to upload a .PNG file with a sticker for later use in createNewStickerSet and addStickerToS...
pub struct UploadStickerFile {
    pub user_id: i64,
    pub png_sticker: InputFile,
}

impl UploadStickerFile {
    pub fn new(user_id: i64, png_sticker: InputFile) -> (r: Self)
        ensures
            r.user_id == user_id,
            r.png_sticker == png_sticker,
    {
        Self {
            user_id,
            png_sticker,
        }
    }
}

impl Methods for UploadStickerFile {
    open spec fn endpoint_view(&self) -> Seq<char> {
        "uploadStickerFile"@
    }

    open spec fn params_view(&self) -> Seq<(Seq<char>, JVal)> {
        i64_member("user_id"@, self.user_id)
    }

    open spec fn files_view(&self) -> Seq<(Seq<char>, InputFileView)> {
        slot("png_sticker"@, self.png_sticker@)
    }

    fn endpoint(&self) -> (r: String)
        ensures
            r@ == self.endpoint_view(),
            r@.len() > 0,
    {
        proof {
            reveal_strlit("uploadStickerFile");
        }
        String::from_str("uploadStickerFile")
    }

    fn params(&self) -> (r: Params)
        ensures
            fields_view(r@) == self.params_view(),
    {
        let mut r: Params = Vec::new();
        obj_push_i64(&mut r, "user_id", self.user_id);
        r
    }

    fn files(&self) -> (r: Vec<(String, InputFile)>)
        ensures
            slots_view(r@) == self.files_view(),
    {
        let mut r: Vec<(String, InputFile)> = Vec::new();
        r.push((String::from_str("png_sticker"), self.png_sticker.duplicate()));
        proof {
            broadcast use crate::types::lemma_slots_view;

            assert(slots_view(r@) =~= self.files_view());
        }
        r
    }
}

/// Use this method to move a sticker in a set created by the bot to a specific position. Returns True on success.
pub struct SetStickerPositionInSet {
    pub sticker: String,
    pub position: i64,
}

impl SetStickerPositionInSet {
    pub fn new(sticker: String, position: i64) -> (r: Self)
        ensures
            r.sticker == sticker,
            r.position == position,
    {
        Self {
            sticker,
            position,
        }
    }
}

impl Methods for SetStickerPositionInSet {
    open spec fn endpoint_view(&self) -> Seq<char> {
        "setStickerPositionInSet"@
    }

    open spec fn params_view(&self) -> Seq<(Seq<char>, JVal)> {
        str_member("sticker"@, self.sticker@) + i64_member("position"@, self.position)
    }

    open spec fn files_view(&self) -> Seq<(Seq<char>, InputFileView)> {
        Seq::empty()
    }

    fn endpoint(&self) -> (r: String)
        ensures
            r@ == self.endpoint_view(),
            r@.len() > 0,
    {
        proof {
            reveal_strlit("setStickerPositionInSet");
        }
        String::from_str("setStickerPositionInSet")
    }

    fn params(&self) -> (r: Params)
        ensures
            fields_view(r@) == self.params_view(),
    {
        let mut r: Params = Vec::new();
        obj_push_str(&mut r, "sticker", &self.sticker);
        obj_push_i64(&mut r, "position", self.position);
        r
    }

    fn files(&self) -> (r: Vec<(String, InputFile)>)
        ensures
            slots_view(r@) == self.files_view(),
    {
        let mut r: Vec<(String, InputFile)> = Vec::new();
        proof {
            broadcast use crate::types::lemma_slots_view;

            assert(slots_view(r@) =~= self.files_view());
        }
        r
    }
}

/// Use this method to delete a sticker from a set created by the bot. Returns True on success.
pub struct DeleteStickerFromSet {
    pub sticker: String,
}

impl DeleteStickerFromSet {
    pub fn new(sticker: String) -> (r: Self)
        ensures
            r.sticker == sticker,
    {
        Self {
            sticker,
        }
    }
}

impl Methods for DeleteStickerFromSet {
    open spec fn endpoint_view(&self) -> Seq<char> {
        "deleteStickerFromSet"@
    }

    open spec fn params_view(&self) -> Seq<(Seq<char>, JVal)> {
        str_member("sticker"@, self.sticker@)
    }

    open spec fn files_view(&self) -> Seq<(Seq<char>, InputFileView)> {
        Seq::empty()
    }

    fn endpoint(&self) -> (r: String)
        ensures
            r@ == self.endpoint_view(),
            r@.len() > 0,
    {
        proof {
            reveal_strlit("deleteStickerFromSet");
        }
        String::from_str("deleteStickerFromSet")
    }

    fn params(&self) -> (r: Params)
        ensures
            fields_view(r@) == self.params_view(),
    {
        let mut r: Params = Vec::new();
        obj_push_str(&mut r, "sticker", &self.sticker);
        r
    }

    fn files(&self) -> (r: Vec<(String, InputFile)>)
        ensures
            slots_view(r@) == self.files_view(),
    {
        let mut r: Vec<(String, InputFile)> = Vec::new();
        proof {
            broadcast use crate::types::lemma_slots_view;

            assert(slots_view(r@) =~= self.files_view());
        }
        r
    }
}

/// Use this method to set the thumbnail of a sticker set. Animated thumbnails can be set for animated sticker ...
pub struct SetStickerSetThumb {
    pub name: String,
    pub user_id: i64,
    pub thumb: Option<InputFile>,
}

impl SetStickerSetThumb {
    pub fn new(name: String, user_id: i64) -> (r: Self)
        ensures
            r.name == name,
            r.user_id == user_id,
            r.thumb is None,
    {
        Self {
            name,
            user_id,
            thumb: None,
        }
    }
}

impl Methods for SetStickerSetThumb {
    open spec fn endpoint_view(&self) -> Seq<char> {
        "setStickerSetThumb"@
    }

    open spec fn params_view(&self) -> Seq<(Seq<char>, JVal)> {
        str_member("name"@, self.name@) + i64_member("user_id"@, self.user_id)
    }

    open spec fn files_view(&self) -> Seq<(Seq<char>, InputFileView)> {
        opt_slot("thumb"@, self.thumb.deep_view())
    }

    fn endpoint(&self) -> (r: String)
        ensures
            r@ == self.endpoint_view(),
            r@.len() > 0,
    {
        proof {
            reveal_strlit("setStickerSetThumb");
        }
        String::from_str("setStickerSetThumb")
    }

    fn params(&self) -> (r: Params)
        ensures
            fields_view(r@) == self.params_view(),
    {
        let mut r: Params = Vec::new();
        obj_push_str(&mut r, "name", &self.name);
        obj_push_i64(&mut r, "user_id", self.user_id);
        r
    }

    fn files(&self) -> (r: Vec<(String, InputFile)>)
        ensures
            slots_view(r@) == self.files_view(),
    {
        let mut r: Vec<(String, InputFile)> = Vec::new();
        match &self.thumb {
            Option::Some(x) => {
                r.push((String::from_str("thumb"), x.duplicate()));
            },
            Option::None => {},
        }
        proof {
            broadcast use crate::types::lemma_slots_view;

            assert(slots_view(r@) =~= self.files_view());
        }
        r
    }
}

/// Use this method to send invoices. On success, the sent Message is returned.
pub struct SendInvoice {
    pub chat_id: ChatId,
    pub title: String,
    pub description: String,
    pub payload: String,
    pub provider_token: String,
    pub currency: String,
    pub prices: Vec<LabeledPrice>,
    pub max_tip_amount: Option<i64>,
    pub suggested_tip_amounts: Option<Vec<i64>>,
    pub start_parameter: Option<String>,
    pub provider_data: Option<String>,
    pub photo_url: Option<String>,
    pub photo_size: Option<i64>,
    pub photo_width: Option<i64>,
    pub photo_height: Option<i64>,
    pub need_name: Option<bool>,
    pub need_phone_number: Option<bool>,
    pub need_email: Option<bool>,
    pub need_shipping_address: Option<bool>,
    pub send_phone_number_to_provider: Option<bool>,
    pub send_email_to_provider: Option<bool>,
    pub is_flexible: Option<bool>,
    pub disable_notification: Option<bool>,
    pub protect_content: Option<bool>,
    pub reply_to_message_id: Option<i64>,
    pub allow_sending_without_reply: Option<bool>,
    pub reply_markup: Option<InlineKeyboardMarkup>,
}

impl SendInvoice {
    pub fn new(chat_id: ChatId, title: String, description: String, payload: String, provider_token: String, currency: String, prices: Vec<LabeledPrice>) -> (r: Self)
        ensures
            r.chat_id == chat_id,
            r.title == title,
            r.description == description,
            r.payload == payload,
            r.provider_token == provider_token,
            r.currency == currency,
            r.prices == prices,
            r.max_tip_amount is None,
            r.suggested_tip_amounts is None,
            r.start_parameter is None,
            r.provider_data is None,
            r.photo_url is None,
            r.photo_size is None,
            r.photo_width is None,
            r.photo_height is None,
            r.need_name is None,
            r.need_phone_number is None,
            r.need_email is None,
            r.need_shipping_address is None,
            r.send_phone_number_to_provider is None,
            r.send_email_to_provider is None,
            r.is_flexible is None,
            r.disable_notification is None,
            r.protect_content is None,
            r.reply_to_message_id is None,
            r.allow_sending_without_reply is None,
            r.reply_markup is None,
    {
        Self {
            chat_id,
            title,
            description,
            payload,
            provider_token,
            currency,
            prices,
            max_tip_amount: None,
            suggested_tip_amounts: None,
            start_parameter: None,
            provider_data: None,
            photo_url: None,
            photo_size: None,
            photo_width: None,
            photo_height: None,
            need_name: None,
            need_phone_number: None,
            need_email: None,
            need_shipping_address: None,
            send_phone_number_to_provider: None,
            send_email_to_provider: None,
            is_flexible: None,
            disable_notification: None,
            protect_content: None,
            reply_to_message_id: None,
            allow_sending_without_reply: None,
            reply_markup: None,
        }
    }
}

impl Methods for SendInvoice {
    open spec fn endpoint_view(&self) -> Seq<char> {
        "sendInvoice"@
    }

    open spec fn params_view(&self) -> Seq<(Seq<char>, JVal)> {
        member("chat_id"@, self.chat_id@.to_jval()) + str_member("title"@, self.title@) + str_member("description"@, self.description@) + str_member("payload"@, self.payload@) + str_member("provider_token"@, self.provider_token@) + str_member("currency"@, self.currency@) + member("prices"@, JVal::Arr(labeled_prices_jvals(self.prices.deep_view()))) + opt_i64_member("max_tip_amount"@, self.max_tip_amount) + opt_member("suggested_tip_amounts"@, match self.suggested_tip_amounts {
            Option::Some(x) => Some(JVal::Arr(i64s_jvals(x@))),
            Option::None => None,
        }) + opt_str_member("start_parameter"@, self.start_parameter.deep_view()) + opt_str_member("provider_data"@, self.provider_data.deep_view()) + opt_str_member("photo_url"@, self.photo_url.deep_view()) + opt_i64_member("photo_size"@, self.photo_size) + opt_i64_member("photo_width"@, self.photo_width) + opt_i64_member("photo_height"@, self.photo_height) + opt_bool_member("need_name"@, self.need_name) + opt_bool_member("need_phone_number"@, self.need_phone_number) + opt_bool_member("need_email"@, self.need_email) + opt_bool_member("need_shipping_address"@, self.need_shipping_address) + opt_bool_member("send_phone_number_to_provider"@, self.send_phone_number_to_provider) + opt_bool_member("send_email_to_provider"@, self.send_email_to_provider) + opt_bool_member("is_flexible"@, self.is_flexible) + opt_bool_member("disable_notification"@, self.disable_notification) + opt_bool_member("protect_content"@, self.protect_content) + opt_i64_member("reply_to_message_id"@, self.reply_to_message_id) + opt_bool_member("allow_sending_without_reply"@, self.allow_sending_without_reply) + opt_member("reply_markup"@, match self.reply_markup.deep_view() {
            Option::Some(x) => Some(x.to_jval()),
            Option::None => None,
        })
    }

    open spec fn files_view(&self) -> Seq<(Seq<char>, InputFileView)> {
        Seq::empty()
    }

    fn endpoint(&self) -> (r: String)
        ensures
            r@ == self.endpoint_view(),
            r@.len() > 0,
    {
        proof {
            reveal_strlit("sendInvoice");
        }
        String::from_str("sendInvoice")
    }

    fn params(&self) -> (r: Params)
        ensures
            fields_view(r@) == self.params_view(),
    {
        let mut r: Params = Vec::new();
        obj_push(&mut r, "chat_id", self.chat_id.to_json());
        obj_push_str(&mut r, "title", &self.title);
        obj_push_str(&mut r, "description", &self.description);
        obj_push_str(&mut r, "payload", &self.payload);
        obj_push_str(&mut r, "provider_token", &self.provider_token);
        obj_push_str(&mut r, "currency", &self.currency);
        obj_push(&mut r, "prices", labeled_prices_json(&self.prices));
        obj_push_opt_i64(&mut r, "max_tip_amount", &self.max_tip_amount);
        let v_suggested_tip_amounts: Option<JsonValue> = match &self.suggested_tip_amounts {
            Option::Some(x) => Some(i64s_json(x)),
            Option::None => None,
        };
        obj_push_opt_val(&mut r, "suggested_tip_amounts", v_suggested_tip_amounts);
        obj_push_opt_str(&mut r, "start_parameter", &self.start_parameter);
        obj_push_opt_str(&mut r, "provider_data", &self.provider_data);
        obj_push_opt_str(&mut r, "photo_url", &self.photo_url);
        obj_push_opt_i64(&mut r, "photo_size", &self.photo_size);
        obj_push_opt_i64(&mut r, "photo_width", &self.photo_width);
        obj_push_opt_i64(&mut r, "photo_height", &self.photo_height);
        obj_push_opt_bool(&mut r, "need_name", &self.need_name);
        obj_push_opt_bool(&mut r, "need_phone_number", &self.need_phone_number);
        obj_push_opt_bool(&mut r, "need_email", &self.need_email);
        obj_push_opt_bool(&mut r, "need_shipping_address", &self.need_shipping_address);
        obj_push_opt_bool(&mut r, "send_phone_number_to_provider", &self.send_phone_number_to_provider);
        obj_push_opt_bool(&mut r, "send_email_to_provider", &self.send_email_to_provider);
        obj_push_opt_bool(&mut r, "is_flexible", &self.is_flexible);
        obj_push_opt_bool(&mut r, "disable_notification", &self.disable_notification);
        obj_push_opt_bool(&mut r, "protect_content", &self.protect_content);
        obj_push_opt_i64(&mut r, "reply_to_message_id", &self.reply_to_message_id);
        obj_push_opt_bool(&mut r, "allow_sending_without_reply", &self.allow_sending_without_reply);
        let v_reply_markup: Option<JsonValue> = match &self.reply_markup {
            Option::Some(x) => Some(x.to_json()),
            Option::None => None,
        };
        obj_push_opt_val(&mut r, "reply_markup", v_reply_markup);
        r
    }

    fn files(&self) -> (r: Vec<(String, InputFile)>)
        ensures
            slots_view(r@) == self.files_view(),
    {
        let mut r: Vec<(String, InputFile)> = Vec::new();
        proof {
            broadcast use crate::types::lemma_slots_view;

            assert(slots_view(r@) =~= self.files_view());
        }
        r
    }
}

/// Use this method to create a link for an invoice. Returns the created invoice link as String on success.
pub struct CreateInvoiceLink {
    pub title: String,
    pub description: String,
    pub payload: String,
    pub provider_token: String,
    pub currency: String,
    pub prices: Vec<LabeledPrice>,
    pub max_tip_amount: Option<i64>,
    pub suggested_tip_amounts: Option<Vec<i64>>,
    pub provider_data: Option<String>,
    pub photo_url: Option<String>,
    pub photo_size: Option<i64>,
    pub photo_width: Option<i64>,
    pub photo_height: Option<i64>,
    pub need_name: Option<bool>,
    pub need_phone_number: Option<bool>,
    pub need_email: Option<bool>,
    pub need_shipping_address: Option<bool>,
    pub send_phone_number_to_provider: Option<bool>,
    pub send_email_to_provider: Option<bool>,
    pub is_flexible: Option<bool>,
}

impl CreateInvoiceLink {
    pub fn new(title: String, description: String, payload: String, provider_token: String, currency: String, prices: Vec<LabeledPrice>) -> (r: Self)
        ensures
            r.title == title,
            r.description == description,
            r.payload == payload,
            r.provider_token == provider_token,
            r.currency == currency,
            r.prices == prices,
            r.max_tip_amount is None,
            r.suggested_tip_amounts is None,
            r.provider_data is None,
            r.photo_url is None,
            r.photo_size is None,
            r.photo_width is None,
            r.photo_height is None,
            r.need_name is None,
            r.need_phone_number is None,
            r.need_email is None,
            r.need_shipping_address is None,
            r.send_phone_number_to_provider is None,
            r.send_email_to_provider is None,
            r.is_flexible is None,
    {
        Self {
            title,
            description,
            payload,
            provider_token,
            currency,
            prices,
            max_tip_amount: None,
            suggested_tip_amounts: None,
            provider_data: None,
            photo_url: None,
            photo_size: None,
            photo_width: None,
            photo_height: None,
            need_name: None,
            need_phone_number: None,
            need_email: None,
            need_shipping_address: None,
            send_phone_number_to_provider: None,
            send_email_to_provider: None,
            is_flexible: None,
        }
    }
}

impl Methods for CreateInvoiceLink {
    open spec fn endpoint_view(&self) -> Seq<char> {
        "createInvoiceLink"@
    }

    open spec fn params_view(&self) -> Seq<(Seq<char>, JVal)> {
        str_member("title"@, self.title@) + str_member("description"@, self.description@) + str_member("payload"@, self.payload@) + str_member("provider_token"@, self.provider_token@) + str_member("currency"@, self.currency@) + member("prices"@, JVal::Arr(labeled_prices_jvals(self.prices.deep_view()))) + opt_i64_member("max_tip_amount"@, self.max_tip_amount) + opt_member("suggested_tip_amounts"@, match self.suggested_tip_amounts {
            Option::Some(x) => Some(JVal::Arr(i64s_jvals(x@))),
            Option::None => None,
        }) + opt_str_member("provider_data"@, self.provider_data.deep_view()) + opt_str_member("photo_url"@, self.photo_url.deep_view()) + opt_i64_member("photo_size"@, self.photo_size) + opt_i64_member("photo_width"@, self.photo_width) + opt_i64_member("photo_height"@, self.photo_height) + opt_bool_member("need_name"@, self.need_name) + opt_bool_member("need_phone_number"@, self.need_phone_number) + opt_bool_member("need_email"@, self.need_email) + opt_bool_member("need_shipping_address"@, self.need_shipping_address) + opt_bool_member("send_phone_number_to_provider"@, self.send_phone_number_to_provider) + opt_bool_member("send_email_to_provider"@, self.send_email_to_provider) + opt_bool_member("is_flexible"@, self.is_flexible)
    }

    open spec fn files_view(&self) -> Seq<(Seq<char>, InputFileView)> {
        Seq::empty()
    }

    fn endpoint(&self) -> (r: String)
        ensures
            r@ == self.endpoint_view(),
            r@.len() > 0,
    {
        proof {
            reveal_strlit("createInvoiceLink");
        }
        String::from_str("createInvoiceLink")
    }

    fn params(&self) -> (r: Params)
        ensures
            fields_view(r@) == self.params_view(),
    {
        let mut r: Params = Vec::new();
        obj_push_str(&mut r, "title", &self.title);
        obj_push_str(&mut r, "description", &self.description);
        obj_push_str(&mut r, "payload", &self.payload);
        obj_push_str(&mut r, "provider_token", &self.provider_token);
        obj_push_str(&mut r, "currency", &self.currency);
        obj_push(&mut r, "prices", labeled_prices_json(&self.prices));
        obj_push_opt_i64(&mut r, "max_tip_amount", &self.max_tip_amount);
        let v_suggested_tip_amounts: Option<JsonValue> = match &self.suggested_tip_amounts {
            Option::Some(x) => Some(i64s_json(x)),
            Option::None => None,
        };
        obj_push_opt_val(&mut r, "suggested_tip_amounts", v_suggested_tip_amounts);
        obj_push_opt_str(&mut r, "provider_data", &self.provider_data);
        obj_push_opt_str(&mut r, "photo_url", &self.photo_url);
        obj_push_opt_i64(&mut r, "photo_size", &self.photo_size);
        obj_push_opt_i64(&mut r, "photo_width", &self.photo_width);
        obj_push_opt_i64(&mut r, "photo_height", &self.photo_height);
        obj_push_opt_bool(&mut r, "need_name", &self.need_name);
        obj_push_opt_bool(&mut r, "need_phone_number", &self.need_phone_number);
        obj_push_opt_bool(&mut r, "need_email", &self.need_email);
        obj_push_opt_bool(&mut r, "need_shipping_address", &self.need_shipping_address);
        obj_push_opt_bool(&mut r, "send_phone_number_to_provider", &self.send_phone_number_to_provider);
        obj_push_opt_bool(&mut r, "send_email_to_provider", &self.send_email_to_provider);
        obj_push_opt_bool(&mut r, "is_flexible", &self.is_flexible);
        r
    }

    fn files(&self) -> (r: Vec<(String, InputFile)>)
        ensures
            slots_view(r@) == self.files_view(),
    {
        let mut r: Vec<(String, InputFile)> = Vec::new();
        proof {
            broadcast use crate::types::lemma_slots_view;

            assert(slots_view(r@) =~= self.files_view());
        }
        r
    }
}

/// If you sent an invoice requesting a shipping address and the parameter is_flexible was specified, the Bot A...
pub struct AnswerShippingQuery {
    pub shipping_query_id: String,
    pub ok: bool,
    pub shipping_options: Option<Vec<ShippingOption>>,
    pub error_message: Option<String>,
}

impl AnswerShippingQuery {
    pub fn new(shipping_query_id: String, ok: bool) -> (r: Self)
        ensures
            r.shipping_query_id == shipping_query_id,
            r.ok == ok,
            r.shipping_options is None,
            r.error_message is None,
    {
        Self {
            shipping_query_id,
            ok,
            shipping_options: None,
            error_message: None,
        }
    }
}

impl Methods for AnswerShippingQuery {
    open spec fn endpoint_view(&self) -> Seq<char> {
        "answerShippingQuery"@
    }

    open spec fn params_view(&self) -> Seq<(Seq<char>, JVal)> {
        str_member("shipping_query_id"@, self.shipping_query_id@) + bool_member("ok"@, self.ok) + opt_member("shipping_options"@, match self.shipping_options.deep_view() {
            Option::Some(x) => Some(JVal::Arr(shipping_options_jvals(x))),
            Option::None => None,
        }) + opt_str_member("error_message"@, self.error_message.deep_view())
    }

    open spec fn files_view(&self) -> Seq<(Seq<char>, InputFileView)> {
        Seq::empty()
    }

    fn endpoint(&self) -> (r: String)
        ensures
            r@ == self.endpoint_view(),
            r@.len() > 0,
    {
        proof {
            reveal_strlit("answerShippingQuery");
        }
        String::from_str("answerShippingQuery")
    }

    fn params(&self) -> (r: Params)
        ensures
            fields_view(r@) == self.params_view(),
    {
        let mut r: Params = Vec::new();
        obj_push_str(&mut r, "shipping_query_id", &self.shipping_query_id);
        obj_push_bool(&mut r, "ok", self.ok);
        let v_shipping_options: Option<JsonValue> = match &self.shipping_options {
            Option::Some(x) => Some(shipping_options_json(x)),
            Option::None => None,
        };
        obj_push_opt_val(&mut r, "shipping_options", v_shipping_options);
        obj_push_opt_str(&mut r, "error_message", &self.error_message);
        r
    }

    fn files(&self) -> (r: Vec<(String, InputFile)>)
        ensures
            slots_view(r@) == self.files_view(),
    {
        let mut r: Vec<(String, InputFile)> = Vec::new();
        proof {
            broadcast use crate::types::lemma_slots_view;

            assert(slots_view(r@) =~= self.files_view());
        }
        r
    }
}

/// Once the user has confirmed their payment and shipping details, the Bot API sends the final confirmation in...
pub struct AnswerPreCheckoutQuery {
    pub pre_checkout_query_id: String,
    pub ok: bool,
    pub error_message: Option<String>,
}

impl AnswerPreCheckoutQuery {
    pub fn new(pre_checkout_query_id: String, ok: bool) -> (r: Self)
        ensures
            r.pre_checkout_query_id == pre_checkout_query_id,
            r.ok == ok,
            r.error_message is None,
    {
        Self {
            pre_checkout_query_id,
            ok,
            error_message: None,
        }
    }
}

impl Methods for AnswerPreCheckoutQuery {
    open spec fn endpoint_view(&self) -> Seq<char> {
        "answerPreCheckoutQuery"@
    }

    open spec fn params_view(&self) -> Seq<(Seq<char>, JVal)> {
        str_member("pre_checkout_query_id"@, self.pre_checkout_query_id@) + bool_member("ok"@, self.ok) + opt_str_member("error_message"@, self.error_message.deep_view())
    }

    open spec fn files_view(&self) -> Seq<(Seq<char>, InputFileView)> {
        Seq::empty()
    }

    fn endpoint(&self) -> (r: String)
        ensures
            r@ == self.endpoint_view(),
            r@.len() > 0,
    {
        proof {
            reveal_strlit("answerPreCheckoutQuery");
        }
        String::from_str("answerPreCheckoutQuery")
    }

    fn params(&self) -> (r: Params)
        ensures
            fields_view(r@) == self.params_view(),
    {
        let mut r: Params = Vec::new();
        obj_push_str(&mut r, "pre_checkout_query_id", &self.pre_checkout_query_id);
        obj_push_bool(&mut r, "ok", self.ok);
        obj_push_opt_str(&mut r, "error_message", &self.error_message);
        r
    }

    fn files(&self) -> (r: Vec<(String, InputFile)>)
        ensures
            slots_view(r@) == self.files_view(),
    {
        let mut r: Vec<(String, InputFile)> = Vec::new();
        proof {
            broadcast use crate::types::lemma_slots_view;

            assert(slots_view(r@) =~= self.files_view());
        }
        r
    }
}

/// Informs a user that some of the Telegram Passport elements they provided contains errors. The user will not...
pub struct SetPassportDataErrors {
    pub user_id: i64,
    pub errors: Vec<PassportElementError>,
}

impl SetPassportDataErrors {
    pub fn new(user_id: i64, errors: Vec<PassportElementError>) -> (r: Self)
        ensures
            r.user_id == user_id,
            r.errors == errors,
    {
        Self {
            user_id,
            errors,
        }
    }
}

impl Methods for SetPassportDataErrors {
    open spec fn endpoint_view(&self) -> Seq<char> {
        "setPassportDataErrors"@
    }

    open spec fn params_view(&self) -> Seq<(Seq<char>, JVal)> {
        i64_member("user_id"@, self.user_id) + member("errors"@, JVal::Arr(passport_errors_jvals(self.errors.deep_view())))
    }

    open spec fn files_view(&self) -> Seq<(Seq<char>, InputFileView)> {
        Seq::empty()
    }

    fn endpoint(&self) -> (r: String)
        ensures
            r@ == self.endpoint_view(),
            r@.len() > 0,
    {
        proof {
            reveal_strlit("setPassportDataErrors");
        }
        String::from_str("setPassportDataErrors")
    }

    fn params(&self) -> (r: Params)
        ensures
            fields_view(r@) == self.params_view(),
    {
        let mut r: Params = Vec::new();
        obj_push_i64(&mut r, "user_id", self.user_id);
        obj_push(&mut r, "errors", passport_errors_json(&self.errors));
        r
    }

    fn files(&self) -> (r: Vec<(String, InputFile)>)
        ensures
            slots_view(r@) == self.files_view(),
    {
        let mut r: Vec<(String, InputFile)> = Vec::new();
        proof {
            broadcast use crate::types::lemma_slots_view;

            assert(slots_view(r@) =~= self.files_view());
        }
        r
    }
}

/// Use this method to send a game. On success, the sent Message is returned.
pub struct SendGame {
    pub chat_id: i64,
    pub game_short_name: String,
    pub disable_notification: Option<bool>,
    pub protect_content: Option<bool>,
    pub reply_to_message_id: Option<i64>,
    pub allow_sending_without_reply: Option<bool>,
    pub reply_markup: Option<InlineKeyboardMarkup>,
}

impl SendGame {
    pub fn new(chat_id: i64, game_short_name: String) -> (r: Self)
        ensures
            r.chat_id == chat_id,
            r.game_short_name == game_short_name,
            r.disable_notification is None,
            r.protect_content is None,
            r.reply_to_message_id is None,
            r.allow_sending_without_reply is None,
            r.reply_markup is None,
    {
        Self {
            chat_id,
            game_short_name,
            disable_notification: None,
            protect_content: None,
            reply_to_message_id: None,
            allow_sending_without_reply: None,
            reply_markup: None,
        }
    }
}

impl Methods for SendGame {
    open spec fn endpoint_view(&self) -> Seq<char> {
        "sendGame"@
    }

    open spec fn params_view(&self) -> Seq<(Seq<char>, JVal)> {
        i64_member("chat_id"@, self.chat_id) + str_member("game_short_name"@, self.game_short_name@) + opt_bool_member("disable_notification"@, self.disable_notification) + opt_bool_member("protect_content"@, self.protect_content) + opt_i64_member("reply_to_message_id"@, self.reply_to_message_id) + opt_bool_member("allow_sending_without_reply"@, self.allow_sending_without_reply) + opt_member("reply_markup"@, match self.reply_markup.deep_view() {
            Option::Some(x) => Some(x.to_jval()),
            Option::None => None,
        })
    }

    open spec fn files_view(&self) -> Seq<(Seq<char>, InputFileView)> {
        Seq::empty()
    }

    fn endpoint(&self) -> (r: String)
        ensures
            r@ == self.endpoint_view(),
            r@.len() > 0,
    {
        proof {
            reveal_strlit("sendGame");
        }
        String::from_str("sendGame")
    }

    fn params(&self) -> (r: Params)
        ensures
            fields_view(r@) == self.params_view(),
    {
        let mut r: Params = Vec::new();
        obj_push_i64(&mut r, "chat_id", self.chat_id);
        obj_push_str(&mut r, "game_short_name", &self.game_short_name);
        obj_push_opt_bool(&mut r, "disable_notification", &self.disable_notification);
        obj_push_opt_bool(&mut r, "protect_content", &self.protect_content);
        obj_push_opt_i64(&mut r, "reply_to_message_id", &self.reply_to_message_id);
        obj_push_opt_bool(&mut r, "allow_sending_without_reply", &self.allow_sending_without_reply);
        let v_reply_markup: Option<JsonValue> = match &self.reply_markup {
            Option::Some(x) => Some(x.to_json()),
            Option::None => None,
        };
        obj_push_opt_val(&mut r, "reply_markup", v_reply_markup);
        r
    }

    fn files(&self) -> (r: Vec<(String, InputFile)>)
        ensures
            slots_view(r@) == self.files_view(),
    {
        let mut r: Vec<(String, InputFile)> = Vec::new();
        proof {
            broadcast use crate::types::lemma_slots_view;

            assert(slots_view(r@) =~= self.files_view());
        }
        r
    }
}

/// Use this method to set the score of the specified user in a game message. On success, if the message is not...
pub struct SetGameScore {
    pub user_id: i64,
    pub score: i64,
    pub force: Option<bool>,
    pub disable_edit_message: Option<bool>,
    pub chat_id: Option<i64>,
    pub message_id: Option<i64>,
    pub inline_message_id: Option<String>,
}

impl SetGameScore {
    pub fn new(user_id: i64, score: i64) -> (r: Self)
        ensures
            r.user_id == user_id,
            r.score == score,
            r.force is None,
            r.disable_edit_message is None,
            r.chat_id is None,
            r.message_id is None,
            r.inline_message_id is None,
    {
        Self {
            user_id,
            score,
            force: None,
            disable_edit_message: None,
            chat_id: None,
            message_id: None,
            inline_message_id: None,
        }
    }
}

impl Methods for SetGameScore {
    open spec fn endpoint_view(&self) -> Seq<char> {
        "setGameScore"@
    }

    open spec fn params_view(&self) -> Seq<(Seq<char>, JVal)> {
        i64_member("user_id"@, self.user_id) + i64_member("score"@, self.score) + opt_bool_member("force"@, self.force) + opt_bool_member("disable_edit_message"@, self.disable_edit_message) + opt_i64_member("chat_id"@, self.chat_id) + opt_i64_member("message_id"@, self.message_id) + opt_str_member("inline_message_id"@, self.inline_message_id.deep_view())
    }

    open spec fn files_view(&self) -> Seq<(Seq<char>, InputFileView)> {
        Seq::empty()
    }

    fn endpoint(&self) -> (r: String)
        ensures
            r@ == self.endpoint_view(),
            r@.len() > 0,
    {
        proof {
            reveal_strlit("setGameScore");
        }
        String::from_str("setGameScore")
    }

    fn params(&self) -> (r: Params)
        ensures
            fields_view(r@) == self.params_view(),
    {
        let mut r: Params = Vec::new();
        obj_push_i64(&mut r, "user_id", self.user_id);
        obj_push_i64(&mut r, "score", self.score);
        obj_push_opt_bool(&mut r, "force", &self.force);
        obj_push_opt_bool(&mut r, "disable_edit_message", &self.disable_edit_message);
        obj_push_opt_i64(&mut r, "chat_id", &self.chat_id);
        obj_push_opt_i64(&mut r, "message_id", &self.message_id);
        obj_push_opt_str(&mut r, "inline_message_id", &self.inline_message_id);
        r
    }

    fn files(&self) -> (r: Vec<(String, InputFile)>)
        ensures
            slots_view(r@) == self.files_view(),
    {
        let mut r: Vec<(String, InputFile)> = Vec::new();
        proof {
            broadcast use crate::types::lemma_slots_view;

            assert(slots_view(r@) =~= self.files_view());
        }
        r
    }
}

/// Use this method to get data for high score tables. Will return the score of the specified user and several ...
pub struct GetGameHighScores {
    pub user_id: i64,
    pub chat_id: Option<i64>,
    pub message_id: Option<i64>,
    pub inline_message_id: Option<String>,
}

impl GetGameHighScores {
    pub fn new(user_id: i64) -> (r: Self)
        ensures
            r.user_id == user_id,
            r.chat_id is None,
            r.message_id is None,
            r.inline_message_id is None,
    {
        Self {
            user_id,
            chat_id: None,
            message_id: None,
            inline_message_id: None,
        }
    }
}

impl Methods for GetGameHighScores {
    open spec fn endpoint_view(&self) -> Seq<char> {
        "getGameHighScores"@
    }

    open spec fn params_view(&self) -> Seq<(Seq<char>, JVal)> {
        i64_member("user_id"@, self.user_id) + opt_i64_member("chat_id"@, self.chat_id) + opt_i64_member("message_id"@, self.message_id) + opt_str_member("inline_message_id"@, self.inline_message_id.deep_view())
    }

    open spec fn files_view(&self) -> Seq<(Seq<char>, InputFileView)> {
        Seq::empty()
    }

    fn endpoint(&self) -> (r: String)
        ensures
            r@ == self.endpoint_view(),
            r@.len() > 0,
    {
        proof {
            reveal_strlit("getGameHighScores");
        }
        String::from_str("getGameHighScores")
    }

    fn params(&self) -> (r: Params)
        ensures
            fields_view(r@) == self.params_view(),
    {
        let mut r: Params = Vec::new();
        obj_push_i64(&mut r, "user_id", self.user_id);
        obj_push_opt_i64(&mut r, "chat_id", &self.chat_id);
        obj_push_opt_i64(&mut r, "message_id", &self.message_id);
        obj_push_opt_str(&mut r, "inline_message_id", &self.inline_message_id);
        r
    }

    fn files(&self) -> (r: Vec<(String, InputFile)>)
        ensures
            slots_view(r@) == self.files_view(),
    {
        let mut r: Vec<(String, InputFile)> = Vec::new();
        proof {
            broadcast use crate::types::lemma_slots_view;

            assert(slots_view(r@) =~= self.files_view());
        }
        r
    }
}

} // verus!
