//! The data model of the wire format: file references and their
//! resolution, grouped media with the attachment-token rewrite, and the
//! record shapes requests and replies are made of.

use crate::json::{
    bool_member, fields_view, i64_member, jvals_view, lemma_jfields_view, lemma_jvals_view,
    member, obj_push, obj_push_bool, obj_push_i64, obj_push_opt_bool, obj_push_opt_i64,
    obj_push_opt_str, obj_push_opt_val, obj_push_str, opt_bool_member, opt_i64_member, opt_member,
    opt_str_member, str_member, strings_json, strings_jvals, JVal, JsonValue,
};
use vstd::prelude::*;
use vstd::string::StringExecFns;

verus! {

broadcast use
    vstd::std_specs::vec::group_vec_axioms,
    vstd::seq::group_seq_axioms,
    vstd::seq_lib::group_seq_lib_default,
    lemma_jfields_view,
    lemma_jvals_view,
    crate::json::lemma_empty_concat;

/// A set of request parameters: field names with their JSON values, in
/// the order they are written on the wire.
pub type Params = Vec<(String, JsonValue)>;

// ---------------------------------------------------------------------------
// Decimal rendering of indices, used for attachment names.
// ---------------------------------------------------------------------------

pub open spec fn digit_char(d: nat) -> char {
    if d == 0 {
        '0'
    } else if d == 1 {
        '1'
    } else if d == 2 {
        '2'
    } else if d == 3 {
        '3'
    } else if d == 4 {
        '4'
    } else if d == 5 {
        '5'
    } else if d == 6 {
        '6'
    } else if d == 7 {
        '7'
    } else if d == 8 {
        '8'
    } else {
        '9'
    }
}

/// Decimal digits of `n`, most significant first, as characters.
pub open spec fn dec_chars(n: nat) -> Seq<char>
    decreases n,
{
    if n < 10 {
        seq![digit_char(n)]
    } else {
        dec_chars(n / 10).push(digit_char(n % 10))
    }
}

pub open spec fn is_digit(c: char) -> bool {
    c == '0' || c == '1' || c == '2' || c == '3' || c == '4' || c == '5' || c == '6' || c == '7'
        || c == '8' || c == '9'
}

pub proof fn lemma_dec_chars_shape(n: nat)
    ensures
        dec_chars(n).len() >= 1,
        n >= 10 ==> dec_chars(n).len() >= 2,
        forall|i: int| 0 <= i < dec_chars(n).len() ==> is_digit(#[trigger] dec_chars(n)[i]),
    decreases n,
{
    if n >= 10 {
        lemma_dec_chars_shape(n / 10);
    }
}

/// Distinct indices have distinct decimal renderings.
pub proof fn lemma_dec_chars_injective(a: nat, b: nat)
    requires
        dec_chars(a) == dec_chars(b),
    ensures
        a == b,
    decreases a,
{
    lemma_dec_chars_shape(a);
    lemma_dec_chars_shape(b);
    if a < 10 && b < 10 {
        assert(dec_chars(a)[0] == digit_char(a));
        assert(dec_chars(b)[0] == digit_char(b));
    } else if a >= 10 && b >= 10 {
        assert(dec_chars(a).last() == digit_char(a % 10));
        assert(dec_chars(b).last() == digit_char(b % 10));
        assert(a % 10 == b % 10);
        assert(dec_chars(a).drop_last() =~= dec_chars(a / 10));
        assert(dec_chars(b).drop_last() =~= dec_chars(b / 10));
        lemma_dec_chars_injective(a / 10, b / 10);
    } else {
        // One side has a single digit, the other at least two.
        assert(false);
    }
}

fn digit_str(d: u64) -> (r: &'static str)
    requires
        d < 10,
    ensures
        r@ == seq![digit_char(d as nat)],
{
    proof {
        reveal_strlit("0");
        reveal_strlit("1");
        reveal_strlit("2");
        reveal_strlit("3");
        reveal_strlit("4");
        reveal_strlit("5");
        reveal_strlit("6");
        reveal_strlit("7");
        reveal_strlit("8");
        reveal_strlit("9");
    }
    if d == 0 {
        "0"
    } else if d == 1 {
        "1"
    } else if d == 2 {
        "2"
    } else if d == 3 {
        "3"
    } else if d == 4 {
        "4"
    } else if d == 5 {
        "5"
    } else if d == 6 {
        "6"
    } else if d == 7 {
        "7"
    } else if d == 8 {
        "8"
    } else {
        "9"
    }
}

/// Append the decimal digits of `n` to a string.
pub fn push_dec_str(s: &mut String, n: u64)
    ensures
        final(s)@ == old(s)@ + dec_chars(n as nat),
    decreases n,
{
    if n >= 10 {
        push_dec_str(s, n / 10);
    }
    s.append(digit_str(n % 10));
    assert(s@ =~= old(s)@ + dec_chars(n as nat));
}

// ---------------------------------------------------------------------------
// Chat identifiers.
// ---------------------------------------------------------------------------

/// Unique identifier for the target chat or username of the target channel.
pub enum ChatId {
    /// Unique identifier
    IntType(i64),
    /// username
    StringType(String),
}

pub enum ChatIdView {
    IntType(i64),
    StringType(Seq<char>),
}

impl View for ChatId {
    type V = ChatIdView;

    open spec fn view(&self) -> ChatIdView {
        match self {
            ChatId::IntType(i) => ChatIdView::IntType(*i),
            ChatId::StringType(s) => ChatIdView::StringType(s@),
        }
    }
}

impl DeepView for ChatId {
    type V = ChatIdView;

    open spec fn deep_view(&self) -> ChatIdView {
        self.view()
    }
}

impl ChatIdView {
    /// A chat id is written either as a bare number or as a string.
    pub open spec fn to_jval(self) -> JVal {
        match self {
            ChatIdView::IntType(i) => JVal::Int(i as int),
            ChatIdView::StringType(s) => JVal::Str(s),
        }
    }
}

impl ChatId {
    pub fn to_json(&self) -> (r: JsonValue)
        ensures
            r@ == self@.to_jval(),
    {
        match self {
            ChatId::IntType(i) => JsonValue::Int(*i),
            ChatId::StringType(s) => JsonValue::Str(s.clone()),
        }
    }

}

// ---------------------------------------------------------------------------
// File references: the wire-value model.
// ---------------------------------------------------------------------------

/// The contents of a file to be sent: either a reference the remote side
/// already understands as plain text, or bytes that must travel with the
/// request as multipart/form-data.
pub enum InputFile {
    /// An ID of a file already uploaded to the remote side.
    FileID(String),
    /// A URL the remote side fetches itself.
    FileURL(String),
    /// An attachment token pointing at a part of the same request.
    FileAttach(String),
    /// A named set of bytes to upload.
    FileBytes(String, Vec<u8>),
    /// A path to a local file; opening it is deferred to the transport.
    FilePath(String),
}

pub enum InputFileView {
    FileID(Seq<char>),
    FileURL(Seq<char>),
    FileAttach(Seq<char>),
    FileBytes(Seq<char>, Seq<u8>),
    FilePath(Seq<char>),
}

impl View for InputFile {
    type V = InputFileView;

    open spec fn view(&self) -> InputFileView {
        match self {
            InputFile::FileID(s) => InputFileView::FileID(s@),
            InputFile::FileURL(s) => InputFileView::FileURL(s@),
            InputFile::FileAttach(s) => InputFileView::FileAttach(s@),
            InputFile::FileBytes(n, b) => InputFileView::FileBytes(n@, b@),
            InputFile::FilePath(p) => InputFileView::FilePath(p@),
        }
    }
}

impl DeepView for InputFile {
    type V = InputFileView;

    open spec fn deep_view(&self) -> InputFileView {
        self.view()
    }
}

/// The base name of a path: everything after the last `/`.
pub open spec fn base_name_of(s: Seq<char>) -> Seq<char>
    decreases s.len(),
{
    if s.len() == 0 {
        s
    } else if s.last() == '/' {
        Seq::empty()
    } else {
        base_name_of(s.drop_last()).push(s.last())
    }
}

/// What a part's body is once a reference is resolved.
pub enum FileBody {
    /// Bytes held in memory.
    Bytes(Vec<u8>),
    /// A local file the transport streams when it sends the request.
    LocalFile(String),
}

pub enum FileBodyView {
    Bytes(Seq<u8>),
    LocalFile(Seq<char>),
}

impl View for FileBody {
    type V = FileBodyView;

    open spec fn view(&self) -> FileBodyView {
        match self {
            FileBody::Bytes(b) => FileBodyView::Bytes(b@),
            FileBody::LocalFile(p) => FileBodyView::LocalFile(p@),
        }
    }
}

/// A binary part of a multipart form: its attached file name and body.
pub struct FilePart {
    pub file_name: String,
    pub body: FileBody,
}

pub struct FilePartView {
    pub file_name: Seq<char>,
    pub body: FileBodyView,
}

impl View for FilePart {
    type V = FilePartView;

    open spec fn view(&self) -> FilePartView {
        FilePartView { file_name: self.file_name@, body: self.body@ }
    }
}

/// What resolving an `InputFile` yields: plain text for references the
/// remote side reads itself, a binary part for payload that must be
/// uploaded.
pub enum InputFileResult {
    /// No upload needed: the reference travels as this text.
    Text(String),
    /// Must be uploaded as a multipart/form-data part.
    Part(FilePart),
}

pub enum InputFileResultView {
    Text(Seq<char>),
    Part(FilePartView),
}

impl View for InputFileResult {
    type V = InputFileResultView;

    open spec fn view(&self) -> InputFileResultView {
        match self {
            InputFileResult::Text(s) => InputFileResultView::Text(s@),
            InputFileResult::Part(p) => InputFileResultView::Part(p@),
        }
    }
}

impl InputFileView {
    /// Only in-memory bytes and local paths need a physical upload; the
    /// other three variants resolve to plain text in either encoding.
    pub open spec fn need_upload(self) -> bool {
        match self {
            InputFileView::FileBytes(_, _) => true,
            InputFileView::FilePath(_) => true,
            _ => false,
        }
    }

    /// What `InputFile::data` returns, per variant.
    pub open spec fn data_view(self) -> InputFileResultView {
        match self {
            InputFileView::FileID(s) => InputFileResultView::Text(s),
            InputFileView::FileURL(s) => InputFileResultView::Text(s),
            InputFileView::FileAttach(s) => InputFileResultView::Text(s),
            InputFileView::FileBytes(n, b) => InputFileResultView::Part(
                FilePartView { file_name: n, body: FileBodyView::Bytes(b) },
            ),
            InputFileView::FilePath(p) => InputFileResultView::Part(
                FilePartView { file_name: base_name_of(p), body: FileBodyView::LocalFile(p) },
            ),
        }
    }
}

impl InputFile {
    /// True exactly for the variants that force the multipart encoding.
    pub fn need_upload(&self) -> (r: bool)
        ensures
            r == self@.need_upload(),
    {
        match self {
            InputFile::FileBytes(_, _) => true,
            InputFile::FilePath(_) => true,
            _ => false,
        }
    }

    /// Resolve this reference. Pure: the result is a function of the
    /// reference alone, so resolving twice yields the same value and
    /// never touches the reference itself. Opening a local file is left
    /// to the transport, which receives the path inside the part.
    pub fn data(&self) -> (r: InputFileResult)
        ensures
            r@ == self@.data_view(),
    {
        match self {
            InputFile::FileID(id) => InputFileResult::Text(id.clone()),
            InputFile::FileURL(url) => InputFileResult::Text(url.clone()),
            InputFile::FileAttach(attach) => InputFileResult::Text(attach.clone()),
            InputFile::FileBytes(file_name, bytes) => InputFileResult::Part(
                FilePart { file_name: file_name.clone(), body: FileBody::Bytes(dup_bytes(bytes)) },
            ),
            InputFile::FilePath(path) => InputFileResult::Part(
                FilePart { file_name: base_name(path), body: FileBody::LocalFile(path.clone()) },
            ),
        }
    }

    /// A fresh value denoting the same reference.
    pub fn duplicate(&self) -> (r: InputFile)
        ensures
            r@ == self@,
    {
        match self {
            InputFile::FileID(s) => InputFile::FileID(s.clone()),
            InputFile::FileURL(s) => InputFile::FileURL(s.clone()),
            InputFile::FileAttach(s) => InputFile::FileAttach(s.clone()),
            InputFile::FileBytes(n, b) => InputFile::FileBytes(n.clone(), dup_bytes(b)),
            InputFile::FilePath(p) => InputFile::FilePath(p.clone()),
        }
    }
}

fn dup_bytes(b: &Vec<u8>) -> (r: Vec<u8>)
    ensures
        r@ == b@,
{
    let r = b.clone();
    proof {
        assert forall|i: int| 0 <= i < b@.len() implies b@[i] == r@[i] by {
            assert(cloned::<u8>(b[i], r[i]));
        }
        assert(b@ =~= r@);
    }
    r
}

/// The characters after the last `/` of `path`, as a fresh string.
fn base_name(path: &String) -> (r: String)
    ensures
        r@ == base_name_of(path@),
{
    let n = path.as_str().unicode_len();
    let mut cut: usize = 0;
    let mut i: usize = 0;
    while i < n
        invariant
            n == path@.len(),
            0 <= cut <= i <= n,
            base_name_of(path@.subrange(0, i as int)) == path@.subrange(cut as int, i as int),
        decreases n - i,
    {
        let c = path.as_str().get_char(i);
        proof {
            assert(path@.subrange(0, i + 1).drop_last() =~= path@.subrange(0, i as int));
            assert(path@.subrange(0, i + 1).last() == path@[i as int]);
        }
        if c == '/' {
            cut = i + 1;
            proof {
                assert(path@.subrange(cut as int, i + 1) =~= Seq::<char>::empty());
            }
        } else {
            proof {
                assert(path@.subrange(cut as int, i + 1) =~= path@.subrange(
                    cut as int,
                    i as int,
                ).push(path@[i as int]));
            }
        }
        i += 1;
    }
    proof {
        assert(path@.subrange(0, n as int) =~= path@);
    }
    let r = path.as_str().substring_char(cut, n).to_owned();
    r
}

/// Extra hints that the remote side may attach to a reply.
#[derive(Clone, Copy, Debug)]
pub struct ResponseParameters {
    /// The group was migrated to a supergroup with this identifier.
    pub migrate_to_chat_id: Option<i64>,
    /// How long to wait before repeating the request, in seconds.
    pub retry_after: Option<i64>,
}

impl ResponseParameters {
    pub fn new() -> (r: Self)
        ensures
            r.migrate_to_chat_id is None,
            r.retry_after is None,
    {
        Self { migrate_to_chat_id: None, retry_after: None }
    }
}

// ---------------------------------------------------------------------------
// Users and text entities.
// ---------------------------------------------------------------------------

/// This object represents a user or bot of the remote service.
pub struct User {
    pub id: i64,
    pub is_bot: bool,
    pub first_name: String,
    pub last_name: Option<String>,
    pub username: Option<String>,
    pub language_code: Option<String>,
    pub is_premium: Option<bool>,
    pub added_to_attachment_menu: Option<bool>,
    pub can_join_groups: Option<bool>,
    pub can_read_all_group_messages: Option<bool>,
    pub supports_inline_queries: Option<bool>,
}

pub struct UserView {
    pub id: i64,
    pub is_bot: bool,
    pub first_name: Seq<char>,
    pub last_name: Option<Seq<char>>,
    pub username: Option<Seq<char>>,
    pub language_code: Option<Seq<char>>,
    pub is_premium: Option<bool>,
    pub added_to_attachment_menu: Option<bool>,
    pub can_join_groups: Option<bool>,
    pub can_read_all_group_messages: Option<bool>,
    pub supports_inline_queries: Option<bool>,
}

impl View for User {
    type V = UserView;

    open spec fn view(&self) -> UserView {
        UserView {
            id: self.id,
            is_bot: self.is_bot,
            first_name: self.first_name@,
            last_name: self.last_name.deep_view(),
            username: self.username.deep_view(),
            language_code: self.language_code.deep_view(),
            is_premium: self.is_premium,
            added_to_attachment_menu: self.added_to_attachment_menu,
            can_join_groups: self.can_join_groups,
            can_read_all_group_messages: self.can_read_all_group_messages,
            supports_inline_queries: self.supports_inline_queries,
        }
    }
}

impl DeepView for User {
    type V = UserView;

    open spec fn deep_view(&self) -> UserView {
        self.view()
    }
}

impl UserView {
    pub open spec fn to_jval(self) -> JVal {
        JVal::Obj(
            i64_member("id"@, self.id) + bool_member("is_bot"@, self.is_bot) + str_member(
                "first_name"@,
                self.first_name,
            ) + opt_str_member("last_name"@, self.last_name) + opt_str_member(
                "username"@,
                self.username,
            ) + opt_str_member("language_code"@, self.language_code) + opt_bool_member(
                "is_premium"@,
                self.is_premium,
            ) + opt_bool_member("added_to_attachment_menu"@, self.added_to_attachment_menu)
                + opt_bool_member("can_join_groups"@, self.can_join_groups) + opt_bool_member(
                "can_read_all_group_messages"@,
                self.can_read_all_group_messages,
            ) + opt_bool_member("supports_inline_queries"@, self.supports_inline_queries),
        )
    }
}

impl User {
    pub fn new(id: i64, is_bot: bool, first_name: String) -> (r: Self)
        ensures
            r.id == id,
            r.is_bot == is_bot,
            r.first_name == first_name,
            r.last_name is None,
            r.username is None,
            r.language_code is None,
            r.is_premium is None,
            r.added_to_attachment_menu is None,
            r.can_join_groups is None,
            r.can_read_all_group_messages is None,
            r.supports_inline_queries is None,
    {
        Self {
            id,
            is_bot,
            first_name,
            last_name: None,
            username: None,
            language_code: None,
            is_premium: None,
            added_to_attachment_menu: None,
            can_join_groups: None,
            can_read_all_group_messages: None,
            supports_inline_queries: None,
        }
    }

    #[verifier::rlimit(100)]
    pub fn to_json(&self) -> (r: JsonValue)
        ensures
            r@ == self@.to_jval(),
    {
        let mut f: Vec<(String, JsonValue)> = Vec::new();
        obj_push_i64(&mut f, "id", self.id);
        obj_push_bool(&mut f, "is_bot", self.is_bot);
        obj_push_str(&mut f, "first_name", &self.first_name);
        obj_push_opt_str(&mut f, "last_name", &self.last_name);
        obj_push_opt_str(&mut f, "username", &self.username);
        obj_push_opt_str(&mut f, "language_code", &self.language_code);
        obj_push_opt_bool(&mut f, "is_premium", &self.is_premium);
        obj_push_opt_bool(&mut f, "added_to_attachment_menu", &self.added_to_attachment_menu);
        obj_push_opt_bool(&mut f, "can_join_groups", &self.can_join_groups);
        obj_push_opt_bool(
            &mut f,
            "can_read_all_group_messages",
            &self.can_read_all_group_messages,
        );
        obj_push_opt_bool(&mut f, "supports_inline_queries", &self.supports_inline_queries);
        let r = JsonValue::Obj(f);
        proof {
            assert(r@ == self@.to_jval());
        }
        r
    }

    pub fn duplicate(&self) -> (r: User)
        ensures
            r@ == self@,
    {
        User {
            id: self.id,
            is_bot: self.is_bot,
            first_name: self.first_name.clone(),
            last_name: dup_opt_string(&self.last_name),
            username: dup_opt_string(&self.username),
            language_code: dup_opt_string(&self.language_code),
            is_premium: self.is_premium,
            added_to_attachment_menu: self.added_to_attachment_menu,
            can_join_groups: self.can_join_groups,
            can_read_all_group_messages: self.can_read_all_group_messages,
            supports_inline_queries: self.supports_inline_queries,
        }
    }
}

pub fn dup_opt_string(o: &Option<String>) -> (r: Option<String>)
    ensures
        r == *o,
{
    match o {
        Option::Some(s) => Some(s.clone()),
        Option::None => None,
    }
}

/// This object represents one special entity in a text message:
/// a hashtag, a username, a URL, and the like.
pub struct MessageEntity {
    /// Type of the entity.
    pub kind: String,
    /// Offset in UTF-16 code units to the start of the entity.
    pub offset: i64,
    /// Length of the entity in UTF-16 code units.
    pub length: i64,
    /// For text links only: the URL opened after a tap on the text.
    pub url: Option<String>,
    /// For text mentions only: the mentioned user.
    pub user: Option<User>,
    /// For pre entities only: the programming language of the text.
    pub language: Option<String>,
    /// For custom emoji only: the identifier of the sticker.
    pub custom_emoji_id: Option<String>,
}

pub struct MessageEntityView {
    pub kind: Seq<char>,
    pub offset: i64,
    pub length: i64,
    pub url: Option<Seq<char>>,
    pub user: Option<UserView>,
    pub language: Option<Seq<char>>,
    pub custom_emoji_id: Option<Seq<char>>,
}

impl View for MessageEntity {
    type V = MessageEntityView;

    open spec fn view(&self) -> MessageEntityView {
        MessageEntityView {
            kind: self.kind@,
            offset: self.offset,
            length: self.length,
            url: self.url.deep_view(),
            user: self.user.deep_view(),
            language: self.language.deep_view(),
            custom_emoji_id: self.custom_emoji_id.deep_view(),
        }
    }
}

impl DeepView for MessageEntity {
    type V = MessageEntityView;

    open spec fn deep_view(&self) -> MessageEntityView {
        self.view()
    }
}

impl MessageEntityView {
    pub open spec fn to_jval(self) -> JVal {
        JVal::Obj(
            str_member("type"@, self.kind) + i64_member("offset"@, self.offset) + i64_member(
                "length"@,
                self.length,
            ) + opt_str_member("url"@, self.url) + opt_member(
                "user"@,
                match self.user {
                    Option::Some(u) => Some(u.to_jval()),
                    Option::None => None,
                },
            ) + opt_str_member("language"@, self.language) + opt_str_member(
                "custom_emoji_id"@,
                self.custom_emoji_id,
            ),
        )
    }
}

/// The denotation of a list of entities.
pub open spec fn entities_jvals(s: Seq<MessageEntityView>) -> Seq<JVal> {
    s.map_values(|e: MessageEntityView| e.to_jval())
}

impl MessageEntity {
    pub fn new(kind: String, offset: i64, length: i64) -> (r: Self)
        ensures
            r.kind == kind,
            r.offset == offset,
            r.length == length,
            r.url is None,
            r.user is None,
            r.language is None,
            r.custom_emoji_id is None,
    {
        Self { kind, offset, length, url: None, user: None, language: None, custom_emoji_id: None }
    }

    #[verifier::rlimit(100)]
    pub fn to_json(&self) -> (r: JsonValue)
        ensures
            r@ == self@.to_jval(),
    {
        let mut f: Vec<(String, JsonValue)> = Vec::new();
        obj_push_str(&mut f, "type", &self.kind);
        obj_push_i64(&mut f, "offset", self.offset);
        obj_push_i64(&mut f, "length", self.length);
        obj_push_opt_str(&mut f, "url", &self.url);
        match &self.user {
            Option::Some(u) => {
                obj_push(&mut f, "user", u.to_json());
            },
            Option::None => {},
        }
        obj_push_opt_str(&mut f, "language", &self.language);
        obj_push_opt_str(&mut f, "custom_emoji_id", &self.custom_emoji_id);
        let r = JsonValue::Obj(f);
        proof {
            assert(r@ == self@.to_jval());
        }
        r
    }

    pub fn duplicate(&self) -> (r: MessageEntity)
        ensures
            r@ == self@,
    {
        MessageEntity {
            kind: self.kind.clone(),
            offset: self.offset,
            length: self.length,
            url: dup_opt_string(&self.url),
            user: match &self.user {
                Option::Some(u) => Some(u.duplicate()),
                Option::None => None,
            },
            language: dup_opt_string(&self.language),
            custom_emoji_id: dup_opt_string(&self.custom_emoji_id),
        }
    }
}

/// A JSON array holding each entity of the list, in order.
pub fn entities_json(es: &Vec<MessageEntity>) -> (r: JsonValue)
    ensures
        r@ == JVal::Arr(entities_jvals(es.deep_view())),
{
    let mut out: Vec<JsonValue> = Vec::new();
    let mut i: usize = 0;
    while i < es.len()
        invariant
            i <= es@.len(),
            out@.len() == i as int,
            forall|j: int| 0 <= j < i ==> (#[trigger] out@[j])@ == es@[j]@.to_jval(),
        decreases es@.len() - i,
    {
        out.push(es[i].to_json());
        i += 1;
    }
    let r = JsonValue::Arr(out);
    proof {
        assert(jvals_view(out@) =~= entities_jvals(es.deep_view()));
        assert(r@ =~~= JVal::Arr(entities_jvals(es.deep_view())));
    }
    r
}

/// A fresh copy of an optional entity list, denoting the same sequence.
pub fn dup_opt_entities(o: &Option<Vec<MessageEntity>>) -> (r: Option<Vec<MessageEntity>>)
    ensures
        r.deep_view() == o.deep_view(),
{
    match o {
        Option::Some(es) => {
            let mut out: Vec<MessageEntity> = Vec::new();
            let mut i: usize = 0;
            while i < es.len()
                invariant
                    i <= es@.len(),
                    out@.len() == i as int,
                    forall|j: int| 0 <= j < i ==> (#[trigger] out@[j])@ == es@[j]@,
                decreases es@.len() - i,
            {
                out.push(es[i].duplicate());
                i += 1;
            }
            let r = Some(out);
            proof {
                assert(out.deep_view() =~= es.deep_view());
                assert(r.deep_view() =~~= o.deep_view());
            }
            r
        },
        Option::None => None,
    }
}

// ---------------------------------------------------------------------------
// Grouped media and the attachment-token sub-algorithm.
// ---------------------------------------------------------------------------

impl InputFileView {
    /// How a reference is written inside a JSON document. The three
    /// textual references and a path are written as their string; named
    /// bytes are written as a pair of the name and the byte values.
    pub open spec fn to_jval(self) -> JVal {
        match self {
            InputFileView::FileID(s) => JVal::Str(s),
            InputFileView::FileURL(s) => JVal::Str(s),
            InputFileView::FileAttach(s) => JVal::Str(s),
            InputFileView::FilePath(s) => JVal::Str(s),
            InputFileView::FileBytes(n, b) => JVal::Arr(
                seq![JVal::Str(n), JVal::Arr(b.map_values(|x: u8| JVal::Int(x as int)))],
            ),
        }
    }
}

impl InputFile {
    pub fn to_json(&self) -> (r: JsonValue)
        ensures
            r@ == self@.to_jval(),
    {
        match self {
            InputFile::FileID(s) => JsonValue::Str(s.clone()),
            InputFile::FileURL(s) => JsonValue::Str(s.clone()),
            InputFile::FileAttach(s) => JsonValue::Str(s.clone()),
            InputFile::FilePath(s) => JsonValue::Str(s.clone()),
            InputFile::FileBytes(n, b) => {
                let mut nums: Vec<JsonValue> = Vec::new();
                let mut i: usize = 0;
                while i < b.len()
                    invariant
                        i <= b@.len(),
                        nums@.len() == i as int,
                        forall|j: int|
                            0 <= j < i ==> (#[trigger] nums@[j])@ == JVal::Int(b@[j] as int),
                    decreases b@.len() - i,
                {
                    nums.push(JsonValue::Int(b[i] as i64));
                    i += 1;
                }
                let ghost nums_v: Seq<JsonValue> = nums@;
                let mut pair: Vec<JsonValue> = Vec::new();
                pair.push(JsonValue::Str(n.clone()));
                pair.push(JsonValue::Arr(nums));
                let r = JsonValue::Arr(pair);
                proof {
                    assert(jvals_view(nums_v) =~= b@.map_values(|x: u8| JVal::Int(x as int)));
                    assert(jvals_view(pair@) =~= seq![
                        JVal::Str(n@),
                        JVal::Arr(jvals_view(nums_v)),
                    ]);
                    assert(r@ =~~= self@.to_jval());
                }
                r
            },
        }
    }
}

pub struct InputMediaPhoto {
    pub media: InputFile,
    pub caption: Option<String>,
    pub parse_mode: Option<String>,
    pub caption_entities: Option<Vec<MessageEntity>>,
}

pub struct InputMediaPhotoView {
    pub media: InputFileView,
    pub caption: Option<Seq<char>>,
    pub parse_mode: Option<Seq<char>>,
    pub caption_entities: Option<Seq<MessageEntityView>>,
}

impl View for InputMediaPhoto {
    type V = InputMediaPhotoView;

    open spec fn view(&self) -> InputMediaPhotoView {
        InputMediaPhotoView {
            media: self.media@,
            caption: self.caption.deep_view(),
            parse_mode: self.parse_mode.deep_view(),
            caption_entities: self.caption_entities.deep_view(),
        }
    }
}

pub struct InputMediaVideo {
    pub media: InputFile,
    pub thumb: Option<InputFile>,
    pub caption: Option<String>,
    pub parse_mode: Option<String>,
    pub caption_entities: Option<Vec<MessageEntity>>,
    pub width: Option<i64>,
    pub height: Option<i64>,
    pub duration: Option<i64>,
    pub supports_streaming: Option<bool>,
}

pub struct InputMediaVideoView {
    pub media: InputFileView,
    pub thumb: Option<InputFileView>,
    pub caption: Option<Seq<char>>,
    pub parse_mode: Option<Seq<char>>,
    pub caption_entities: Option<Seq<MessageEntityView>>,
    pub width: Option<i64>,
    pub height: Option<i64>,
    pub duration: Option<i64>,
    pub supports_streaming: Option<bool>,
}

impl View for InputMediaVideo {
    type V = InputMediaVideoView;

    open spec fn view(&self) -> InputMediaVideoView {
        InputMediaVideoView {
            media: self.media@,
            thumb: self.thumb.deep_view(),
            caption: self.caption.deep_view(),
            parse_mode: self.parse_mode.deep_view(),
            caption_entities: self.caption_entities.deep_view(),
            width: self.width,
            height: self.height,
            duration: self.duration,
            supports_streaming: self.supports_streaming,
        }
    }
}

pub struct InputMediaAnimation {
    pub media: InputFile,
    pub thumb: Option<InputFile>,
    pub caption: Option<String>,
    pub parse_mode: Option<String>,
    pub caption_entities: Option<Vec<MessageEntity>>,
    pub width: Option<i64>,
    pub height: Option<i64>,
    pub duration: Option<i64>,
}

pub struct InputMediaAnimationView {
    pub media: InputFileView,
    pub thumb: Option<InputFileView>,
    pub caption: Option<Seq<char>>,
    pub parse_mode: Option<Seq<char>>,
    pub caption_entities: Option<Seq<MessageEntityView>>,
    pub width: Option<i64>,
    pub height: Option<i64>,
    pub duration: Option<i64>,
}

impl View for InputMediaAnimation {
    type V = InputMediaAnimationView;

    open spec fn view(&self) -> InputMediaAnimationView {
        InputMediaAnimationView {
            media: self.media@,
            thumb: self.thumb.deep_view(),
            caption: self.caption.deep_view(),
            parse_mode: self.parse_mode.deep_view(),
            caption_entities: self.caption_entities.deep_view(),
            width: self.width,
            height: self.height,
            duration: self.duration,
        }
    }
}

pub struct InputMediaAudio {
    pub media: InputFile,
    pub thumb: Option<InputFile>,
    pub caption: Option<String>,
    pub parse_mode: Option<String>,
    pub caption_entities: Option<Vec<MessageEntity>>,
    pub duration: Option<i64>,
    pub performer: Option<String>,
    pub title: Option<String>,
}

pub struct InputMediaAudioView {
    pub media: InputFileView,
    pub thumb: Option<InputFileView>,
    pub caption: Option<Seq<char>>,
    pub parse_mode: Option<Seq<char>>,
    pub caption_entities: Option<Seq<MessageEntityView>>,
    pub duration: Option<i64>,
    pub performer: Option<Seq<char>>,
    pub title: Option<Seq<char>>,
}

impl View for InputMediaAudio {
    type V = InputMediaAudioView;

    open spec fn view(&self) -> InputMediaAudioView {
        InputMediaAudioView {
            media: self.media@,
            thumb: self.thumb.deep_view(),
            caption: self.caption.deep_view(),
            parse_mode: self.parse_mode.deep_view(),
            caption_entities: self.caption_entities.deep_view(),
            duration: self.duration,
            performer: self.performer.deep_view(),
            title: self.title.deep_view(),
        }
    }
}

pub struct InputMediaDocument {
    pub media: InputFile,
    pub thumb: Option<InputFile>,
    pub caption: Option<String>,
    pub parse_mode: Option<String>,
    pub caption_entities: Option<Vec<MessageEntity>>,
    pub disable_content_type_detection: Option<bool>,
}

pub struct InputMediaDocumentView {
    pub media: InputFileView,
    pub thumb: Option<InputFileView>,
    pub caption: Option<Seq<char>>,
    pub parse_mode: Option<Seq<char>>,
    pub caption_entities: Option<Seq<MessageEntityView>>,
    pub disable_content_type_detection: Option<bool>,
}

impl View for InputMediaDocument {
    type V = InputMediaDocumentView;

    open spec fn view(&self) -> InputMediaDocumentView {
        InputMediaDocumentView {
            media: self.media@,
            thumb: self.thumb.deep_view(),
            caption: self.caption.deep_view(),
            parse_mode: self.parse_mode.deep_view(),
            caption_entities: self.caption_entities.deep_view(),
            disable_content_type_detection: self.disable_content_type_detection,
        }
    }
}

impl InputMediaPhoto {
    pub fn new(media: InputFile) -> (r: Self)
        ensures
            r.media == media,
            r.caption is None,
            r.parse_mode is None,
            r.caption_entities is None,
    {
        Self { media, caption: None, parse_mode: None, caption_entities: None }
    }
}

impl InputMediaVideo {
    pub fn new(media: InputFile) -> (r: Self)
        ensures
            r.media == media,
            r.thumb is None,
            r.caption is None,
            r.parse_mode is None,
            r.caption_entities is None,
            r.width is None,
            r.height is None,
            r.duration is None,
            r.supports_streaming is None,
    {
        Self {
            media,
            thumb: None,
            caption: None,
            parse_mode: None,
            caption_entities: None,
            width: None,
            height: None,
            duration: None,
            supports_streaming: None,
        }
    }
}

impl InputMediaAnimation {
    pub fn new(media: InputFile) -> (r: Self)
        ensures
            r.media == media,
            r.thumb is None,
            r.caption is None,
            r.parse_mode is None,
            r.caption_entities is None,
            r.width is None,
            r.height is None,
            r.duration is None,
    {
        Self {
            media,
            thumb: None,
            caption: None,
            parse_mode: None,
            caption_entities: None,
            width: None,
            height: None,
            duration: None,
        }
    }
}

impl InputMediaAudio {
    pub fn new(media: InputFile) -> (r: Self)
        ensures
            r.media == media,
            r.thumb is None,
            r.caption is None,
            r.parse_mode is None,
            r.caption_entities is None,
            r.duration is None,
            r.performer is None,
            r.title is None,
    {
        Self {
            media,
            thumb: None,
            caption: None,
            parse_mode: None,
            caption_entities: None,
            duration: None,
            performer: None,
            title: None,
        }
    }
}

impl InputMediaDocument {
    pub fn new(media: InputFile) -> (r: Self)
        ensures
            r.media == media,
            r.thumb is None,
            r.caption is None,
            r.parse_mode is None,
            r.caption_entities is None,
            r.disable_content_type_detection is None,
    {
        Self {
            media,
            thumb: None,
            caption: None,
            parse_mode: None,
            caption_entities: None,
            disable_content_type_detection: None,
        }
    }
}

/// The content of one message of a media group.
pub enum InputMedia {
    InputMediaAnimation(InputMediaAnimation),
    InputMediaDocument(InputMediaDocument),
    InputMediaAudio(InputMediaAudio),
    InputMediaPhoto(InputMediaPhoto),
    InputMediaVideo(InputMediaVideo),
}

pub enum InputMediaView {
    InputMediaAnimation(InputMediaAnimationView),
    InputMediaDocument(InputMediaDocumentView),
    InputMediaAudio(InputMediaAudioView),
    InputMediaPhoto(InputMediaPhotoView),
    InputMediaVideo(InputMediaVideoView),
}

impl View for InputMedia {
    type V = InputMediaView;

    open spec fn view(&self) -> InputMediaView {
        match self {
            InputMedia::InputMediaAnimation(x) => InputMediaView::InputMediaAnimation(x@),
            InputMedia::InputMediaDocument(x) => InputMediaView::InputMediaDocument(x@),
            InputMedia::InputMediaAudio(x) => InputMediaView::InputMediaAudio(x@),
            InputMedia::InputMediaPhoto(x) => InputMediaView::InputMediaPhoto(x@),
            InputMedia::InputMediaVideo(x) => InputMediaView::InputMediaVideo(x@),
        }
    }
}

impl DeepView for InputMedia {
    type V = InputMediaView;

    open spec fn deep_view(&self) -> InputMediaView {
        self.view()
    }
}

// The synthetic attachment names. The name stands beside the binary part;
// the token, `attach://` followed by the same name, stands inside the
// JSON document and points at that part.

pub open spec fn attach_file_name_spec(idx: int) -> Seq<char> {
    "file-"@ + dec_chars(idx as nat)
}

pub open spec fn attach_thumb_file_name_spec(idx: int) -> Seq<char> {
    attach_file_name_spec(idx) + "-thumb"@
}

pub open spec fn attach_token_spec(idx: int) -> Seq<char> {
    "attach://"@ + attach_file_name_spec(idx)
}

pub open spec fn attach_thumb_token_spec(idx: int) -> Seq<char> {
    "attach://"@ + attach_thumb_file_name_spec(idx)
}

/// A primary reference after the rewrite: an upload is replaced by the
/// attachment token of position `idx`, anything else is left as it is.
pub open spec fn rewritten_primary(m: InputFileView, idx: int) -> InputFileView {
    if m.need_upload() {
        InputFileView::FileAttach(attach_token_spec(idx))
    } else {
        m
    }
}

/// The same rule applied to the optional thumbnail, with the thumbnail
/// token of position `idx`.
pub open spec fn rewritten_thumb(t: Option<InputFileView>, idx: int) -> Option<InputFileView> {
    match t {
        Option::Some(f) => Some(
            if f.need_upload() {
                InputFileView::FileAttach(attach_thumb_token_spec(idx))
            } else {
                f
            },
        ),
        Option::None => None,
    }
}

/// The pending part of a primary reference: present exactly when the
/// reference requires an upload, named by position.
pub open spec fn primary_part(m: InputFileView, idx: int) -> Seq<(Seq<char>, InputFileView)> {
    if m.need_upload() {
        seq![(attach_file_name_spec(idx), m)]
    } else {
        Seq::empty()
    }
}

/// The pending part of an optional thumbnail.
pub open spec fn thumb_part(t: Option<InputFileView>, idx: int) -> Seq<(Seq<char>, InputFileView)> {
    match t {
        Option::Some(f) => if f.need_upload() {
            seq![(attach_thumb_file_name_spec(idx), f)]
        } else {
            Seq::empty()
        },
        Option::None => Seq::empty(),
    }
}

impl InputMediaView {
    /// The primary reference of the item.
    pub open spec fn media(self) -> InputFileView {
        match self {
            InputMediaView::InputMediaAnimation(x) => x.media,
            InputMediaView::InputMediaDocument(x) => x.media,
            InputMediaView::InputMediaAudio(x) => x.media,
            InputMediaView::InputMediaPhoto(x) => x.media,
            InputMediaView::InputMediaVideo(x) => x.media,
        }
    }

    /// The optional thumbnail of the item; a photo has none.
    pub open spec fn thumb(self) -> Option<InputFileView> {
        match self {
            InputMediaView::InputMediaAnimation(x) => x.thumb,
            InputMediaView::InputMediaDocument(x) => x.thumb,
            InputMediaView::InputMediaAudio(x) => x.thumb,
            InputMediaView::InputMediaPhoto(_) => None,
            InputMediaView::InputMediaVideo(x) => x.thumb,
        }
    }

    /// The item as it is written into the JSON document when it stands at
    /// position `idx` of a group: upload-requiring references are replaced
    /// by attachment tokens, everything else is kept.
    pub open spec fn prepare_param_spec(self, idx: int) -> InputMediaView {
        match self {
            InputMediaView::InputMediaAnimation(x) => InputMediaView::InputMediaAnimation(
                InputMediaAnimationView {
                    media: rewritten_primary(x.media, idx),
                    thumb: rewritten_thumb(x.thumb, idx),
                    ..x
                },
            ),
            InputMediaView::InputMediaDocument(x) => InputMediaView::InputMediaDocument(
                InputMediaDocumentView {
                    media: rewritten_primary(x.media, idx),
                    thumb: rewritten_thumb(x.thumb, idx),
                    ..x
                },
            ),
            InputMediaView::InputMediaAudio(x) => InputMediaView::InputMediaAudio(
                InputMediaAudioView {
                    media: rewritten_primary(x.media, idx),
                    thumb: rewritten_thumb(x.thumb, idx),
                    ..x
                },
            ),
            InputMediaView::InputMediaPhoto(x) => InputMediaView::InputMediaPhoto(
                InputMediaPhotoView { media: rewritten_primary(x.media, idx), ..x },
            ),
            InputMediaView::InputMediaVideo(x) => InputMediaView::InputMediaVideo(
                InputMediaVideoView {
                    media: rewritten_primary(x.media, idx),
                    thumb: rewritten_thumb(x.thumb, idx),
                    ..x
                },
            ),
        }
    }

    /// The parts that the item at position `idx` asks the multipart form
    /// to carry: its primary reference and its thumbnail, each exactly
    /// when it requires an upload, under the names the tokens point at.
    pub open spec fn pending_parts_spec(self, idx: int) -> Seq<(Seq<char>, InputFileView)> {
        primary_part(self.media(), idx) + thumb_part(self.thumb(), idx)
    }
}

impl InputMedia {
    fn attach_file_name(idx: u64) -> (r: String)
        ensures
            r@ == attach_file_name_spec(idx as int),
    {
        let mut s = String::from_str("file-");
        push_dec_str(&mut s, idx);
        s
    }

    fn attach_thumb_file_name(idx: u64) -> (r: String)
        ensures
            r@ == attach_thumb_file_name_spec(idx as int),
    {
        let mut s = Self::attach_file_name(idx);
        s.append("-thumb");
        s
    }

    fn attach_file(idx: u64) -> (r: InputFile)
        ensures
            r@ == InputFileView::FileAttach(attach_token_spec(idx as int)),
    {
        let mut s = String::from_str("attach://");
        s.append("file-");
        push_dec_str(&mut s, idx);
        proof {
            assert(s@ =~= attach_token_spec(idx as int));
        }
        InputFile::FileAttach(s)
    }

    fn attach_thumb_file(idx: u64) -> (r: InputFile)
        ensures
            r@ == InputFileView::FileAttach(attach_thumb_token_spec(idx as int)),
    {
        let mut s = String::from_str("attach://");
        s.append("file-");
        push_dec_str(&mut s, idx);
        s.append("-thumb");
        proof {
            assert(s@ =~= attach_thumb_token_spec(idx as int));
        }
        InputFile::FileAttach(s)
    }

    /// The item as serialized at position `idx`: if the primary reference
    /// or the thumbnail requires an upload it is replaced by its
    /// attachment token; every other field is kept unchanged.
    pub fn prepare_input_media_param(&self, idx: i32) -> (r: Self)
        requires
            idx >= 0,
        ensures
            r@ == self@.prepare_param_spec(idx as int),
    {
        self.prepare_param_at(idx as u64)
    }

    /// The rewrite of `prepare_input_media_param`, at any position.
    pub fn prepare_param_at(&self, idx: u64) -> (r: Self)
        ensures
            r@ == self@.prepare_param_spec(idx as int),
    {
        match self {
            InputMedia::InputMediaAnimation(x) => InputMedia::InputMediaAnimation(
                InputMediaAnimation {
                    media: prep_primary(&x.media, idx),
                    thumb: prep_thumb(&x.thumb, idx),
                    caption: dup_opt_string(&x.caption),
                    parse_mode: dup_opt_string(&x.parse_mode),
                    caption_entities: dup_opt_entities(&x.caption_entities),
                    width: x.width,
                    height: x.height,
                    duration: x.duration,
                },
            ),
            InputMedia::InputMediaDocument(x) => InputMedia::InputMediaDocument(
                InputMediaDocument {
                    media: prep_primary(&x.media, idx),
                    thumb: prep_thumb(&x.thumb, idx),
                    caption: dup_opt_string(&x.caption),
                    parse_mode: dup_opt_string(&x.parse_mode),
                    caption_entities: dup_opt_entities(&x.caption_entities),
                    disable_content_type_detection: x.disable_content_type_detection,
                },
            ),
            InputMedia::InputMediaAudio(x) => InputMedia::InputMediaAudio(
                InputMediaAudio {
                    media: prep_primary(&x.media, idx),
                    thumb: prep_thumb(&x.thumb, idx),
                    caption: dup_opt_string(&x.caption),
                    parse_mode: dup_opt_string(&x.parse_mode),
                    caption_entities: dup_opt_entities(&x.caption_entities),
                    duration: x.duration,
                    performer: dup_opt_string(&x.performer),
                    title: dup_opt_string(&x.title),
                },
            ),
            InputMedia::InputMediaPhoto(x) => InputMedia::InputMediaPhoto(
                InputMediaPhoto {
                    media: prep_primary(&x.media, idx),
                    caption: dup_opt_string(&x.caption),
                    parse_mode: dup_opt_string(&x.parse_mode),
                    caption_entities: dup_opt_entities(&x.caption_entities),
                },
            ),
            InputMedia::InputMediaVideo(x) => InputMedia::InputMediaVideo(
                InputMediaVideo {
                    media: prep_primary(&x.media, idx),
                    thumb: prep_thumb(&x.thumb, idx),
                    caption: dup_opt_string(&x.caption),
                    parse_mode: dup_opt_string(&x.parse_mode),
                    caption_entities: dup_opt_entities(&x.caption_entities),
                    width: x.width,
                    height: x.height,
                    duration: x.duration,
                    supports_streaming: x.supports_streaming,
                },
            ),
        }
    }

    /// The binary parts that the item at position `idx` adds to the
    /// request: one for each of its references that requires an upload,
    /// under the name its token points at.
    pub fn prepare_input_media_file(&self, idx: i32) -> (r: Vec<(String, InputFile)>)
        requires
            idx >= 0,
        ensures
            slots_view(r@) == self@.pending_parts_spec(idx as int),
    {
        self.prepare_file_at(idx as u64)
    }

    /// The pending parts of `prepare_input_media_file`, at any position.
    pub fn prepare_file_at(&self, idx: u64) -> (r: Vec<(String, InputFile)>)
        ensures
            slots_view(r@) == self@.pending_parts_spec(idx as int),
    {
        let mut r: Vec<(String, InputFile)> = Vec::new();
        let media = self.primary();
        if media.need_upload() {
            r.push((Self::attach_file_name(idx), media.duplicate()));
        }
        match self.thumbnail() {
            Option::Some(t) => {
                if t.need_upload() {
                    r.push((Self::attach_thumb_file_name(idx), t.duplicate()));
                }
            },
            Option::None => {},
        }
        proof {
            broadcast use lemma_slots_view;

            assert(slots_view(r@) =~= self@.pending_parts_spec(idx as int));
        }
        r
    }

    /// The item's primary reference.
    pub fn primary(&self) -> (r: &InputFile)
        ensures
            r@ == self@.media(),
    {
        match self {
            InputMedia::InputMediaAnimation(x) => &x.media,
            InputMedia::InputMediaDocument(x) => &x.media,
            InputMedia::InputMediaAudio(x) => &x.media,
            InputMedia::InputMediaPhoto(x) => &x.media,
            InputMedia::InputMediaVideo(x) => &x.media,
        }
    }

    /// The item's thumbnail, if it carries one.
    pub fn thumbnail(&self) -> (r: Option<&InputFile>)
        ensures
            r.deep_view() == self@.thumb(),
    {
        match self {
            InputMedia::InputMediaAnimation(x) => x.thumb.as_ref(),
            InputMedia::InputMediaDocument(x) => x.thumb.as_ref(),
            InputMedia::InputMediaAudio(x) => x.thumb.as_ref(),
            InputMedia::InputMediaPhoto(_) => None,
            InputMedia::InputMediaVideo(x) => x.thumb.as_ref(),
        }
    }
}

fn prep_primary(m: &InputFile, idx: u64) -> (r: InputFile)
    ensures
        r@ == rewritten_primary(m@, idx as int),
{
    if m.need_upload() {
        InputMedia::attach_file(idx)
    } else {
        m.duplicate()
    }
}

fn prep_thumb(t: &Option<InputFile>, idx: u64) -> (r: Option<InputFile>)
    ensures
        r.deep_view() == rewritten_thumb(t.deep_view(), idx as int),
{
    match t {
        Option::Some(f) => {
            if f.need_upload() {
                Some(InputMedia::attach_thumb_file(idx))
            } else {
                Some(f.duplicate())
            }
        },
        Option::None => None,
    }
}

// ---------------------------------------------------------------------------
// The positional bijection of a media group: tokens inside the JSON
// document on one side, named parts of the multipart form on the other.
// ---------------------------------------------------------------------------

/// The whole group as it is written into the JSON document: the item at
/// position `i` rewritten with the tokens of position `i`.
pub open spec fn rewritten_group(m: Seq<InputMediaView>) -> Seq<InputMediaView> {
    Seq::new(m.len(), |i: int| m[i].prepare_param_spec(i))
}

/// Every pending part of the group, each named by the position of the
/// item it belongs to.
pub open spec fn group_pending(m: Seq<InputMediaView>) -> Seq<(Seq<char>, InputFileView)>
    decreases m.len(),
{
    if m.len() == 0 {
        Seq::empty()
    } else {
        group_pending(m.drop_last()) + m.last().pending_parts_spec(m.len() - 1)
    }
}

pub open spec fn upload_flag(f: InputFileView) -> int {
    if f.need_upload() {
        1
    } else {
        0
    }
}

pub open spec fn thumb_upload_flag(t: Option<InputFileView>) -> int {
    match t {
        Option::Some(f) => upload_flag(f),
        Option::None => 0,
    }
}

/// How many of the item's references require an upload.
pub open spec fn item_upload_count(it: InputMediaView) -> int {
    upload_flag(it.media()) + thumb_upload_flag(it.thumb())
}

/// How many references of the whole group require an upload.
pub open spec fn upload_count(m: Seq<InputMediaView>) -> int
    decreases m.len(),
{
    if m.len() == 0 {
        0int
    } else {
        upload_count(m.drop_last()) + item_upload_count(m.last())
    }
}

/// Whether `name` is one of the two part names of position `k`.
pub open spec fn named_for_position(name: Seq<char>, k: int) -> bool {
    name == attach_file_name_spec(k) || name == attach_thumb_file_name_spec(k)
}

/// Distinct positions give distinct primary part names.
pub proof fn lemma_attach_file_name_injective(k1: int, k2: int)
    requires
        k1 >= 0,
        k2 >= 0,
        attach_file_name_spec(k1) == attach_file_name_spec(k2),
    ensures
        k1 == k2,
{
    let d1 = dec_chars(k1 as nat);
    let d2 = dec_chars(k2 as nat);
    let n1 = attach_file_name_spec(k1);
    let n2 = attach_file_name_spec(k2);
    assert(d1 =~= n1.subrange("file-"@.len() as int, n1.len() as int));
    assert(d2 =~= n2.subrange("file-"@.len() as int, n2.len() as int));
    lemma_dec_chars_injective(k1 as nat, k2 as nat);
}

/// A primary part name is never a thumbnail part name: the first ends in
/// a digit, the second in the last letter of its suffix.
pub proof fn lemma_primary_name_not_thumb_name(k1: int, k2: int)
    requires
        k1 >= 0,
        k2 >= 0,
    ensures
        attach_file_name_spec(k1) != attach_thumb_file_name_spec(k2),
{
    reveal_strlit("-thumb");
    lemma_dec_chars_shape(k1 as nat);
    let n1 = attach_file_name_spec(k1);
    let t2 = attach_thumb_file_name_spec(k2);
    assert(n1.last() == dec_chars(k1 as nat).last());
    assert(is_digit(n1.last()));
    assert(t2.last() == "-thumb"@[5]);
    assert(t2.last() == 'b');
}

/// Distinct positions give distinct thumbnail part names.
pub proof fn lemma_attach_thumb_name_injective(k1: int, k2: int)
    requires
        k1 >= 0,
        k2 >= 0,
        attach_thumb_file_name_spec(k1) == attach_thumb_file_name_spec(k2),
    ensures
        k1 == k2,
{
    let n1 = attach_file_name_spec(k1);
    let n2 = attach_file_name_spec(k2);
    let t1 = attach_thumb_file_name_spec(k1);
    let t2 = attach_thumb_file_name_spec(k2);
    assert(t1.len() == n1.len() + "-thumb"@.len());
    assert(t2.len() == n2.len() + "-thumb"@.len());
    assert(n1.len() == n2.len());
    assert(n1 =~= t1.subrange(0, n1.len() as int));
    assert(n2 =~= t2.subrange(0, n2.len() as int));
    lemma_attach_file_name_injective(k1, k2);
}

/// Any two distinct positions share no part name, in any combination.
pub proof fn lemma_position_names_distinct(name1: Seq<char>, k1: int, name2: Seq<char>, k2: int)
    requires
        k1 >= 0,
        k2 >= 0,
        k1 != k2,
        named_for_position(name1, k1),
        named_for_position(name2, k2),
    ensures
        name1 != name2,
{
    if name1 == attach_file_name_spec(k1) && name2 == attach_file_name_spec(k2) {
        if name1 == name2 {
            lemma_attach_file_name_injective(k1, k2);
        }
    } else if name1 == attach_file_name_spec(k1) {
        lemma_primary_name_not_thumb_name(k1, k2);
    } else if name2 == attach_file_name_spec(k2) {
        lemma_primary_name_not_thumb_name(k2, k1);
    } else {
        if name1 == name2 {
            lemma_attach_thumb_name_injective(k1, k2);
        }
    }
}

/// Each pending part of a group is named for the position of some item.
pub proof fn lemma_group_pending_names_at(m: Seq<InputMediaView>, p: int)
    requires
        0 <= p < group_pending(m).len(),
    ensures
        exists|k: int|
            0 <= k < m.len() && #[trigger] named_for_position(group_pending(m)[p].0, k),
    decreases m.len(),
{
    let pre = m.drop_last();
    let parts = m.last().pending_parts_spec(m.len() - 1);
    if p < group_pending(pre).len() {
        lemma_group_pending_names_at(pre, p);
        assert(group_pending(m)[p] == group_pending(pre)[p]);
        let k = choose|k: int|
            0 <= k < pre.len() && #[trigger] named_for_position(group_pending(pre)[p].0, k);
        assert(named_for_position(group_pending(m)[p].0, k));
    } else {
        let j = p - group_pending(pre).len();
        assert(0 <= j < parts.len());
        assert(group_pending(m)[p] == parts[j]);
        assert(named_for_position(parts[j].0, m.len() - 1));
    }
}

/// The count of synthetic tokens of a group equals the count of its
/// upload-requiring primary and thumbnail references.
pub proof fn lemma_group_pending_count(m: Seq<InputMediaView>)
    ensures
        group_pending(m).len() == upload_count(m),
    decreases m.len(),
{
    if m.len() > 0 {
        lemma_group_pending_count(m.drop_last());
    }
}

/// No two pending parts of a group share a name: the index set is
/// collision-free across the whole group.
pub proof fn lemma_group_pending_distinct(m: Seq<InputMediaView>)
    ensures
        forall|p: int, q: int|
            0 <= p < q < group_pending(m).len() ==> (#[trigger] group_pending(m)[p]).0 != (
            #[trigger] group_pending(m)[q]).0,
    decreases m.len(),
{
    if m.len() > 0 {
        let pre = m.drop_last();
        let parts = m.last().pending_parts_spec(m.len() - 1);
        let last_pos = m.len() - 1;
        lemma_group_pending_distinct(pre);
        assert forall|p: int, q: int|
            0 <= p < q < group_pending(m).len() implies (#[trigger] group_pending(m)[p]).0 != (
        #[trigger] group_pending(m)[q]).0 by {
            let prelen = group_pending(pre).len();
            if q < prelen {
                assert(group_pending(m)[p] == group_pending(pre)[p]);
                assert(group_pending(m)[q] == group_pending(pre)[q]);
            } else if p >= prelen {
                // Both parts belong to the last item: its primary and its
                // thumbnail, which carry different names.
                assert(group_pending(m)[p] == parts[p - prelen]);
                assert(group_pending(m)[q] == parts[q - prelen]);
                assert(parts[0].0 == attach_file_name_spec(last_pos));
                assert(parts[1].0 == attach_thumb_file_name_spec(last_pos));
                lemma_primary_name_not_thumb_name(last_pos, last_pos);
            } else {
                assert(group_pending(m)[p] == group_pending(pre)[p]);
                assert(group_pending(m)[q] == parts[q - prelen]);
                lemma_group_pending_names_at(pre, p);
                let k = choose|k: int|
                    0 <= k < pre.len() && #[trigger] named_for_position(group_pending(pre)[p].0, k);
                assert(named_for_position(parts[q - prelen].0, last_pos));
                lemma_position_names_distinct(
                    group_pending(m)[p].0,
                    k,
                    group_pending(m)[q].0,
                    last_pos,
                );
            }
        }
    }
}

/// The pending parts of the item at position `i` stand in the group's
/// pending parts, under the names its tokens point at.
pub proof fn lemma_group_pending_contains(m: Seq<InputMediaView>, i: int)
    requires
        0 <= i < m.len(),
    ensures
        m[i].media().need_upload() ==> group_pending(m).contains(
            (attach_file_name_spec(i), m[i].media()),
        ),
        (m[i].thumb() is Some && m[i].thumb()->0.need_upload()) ==> group_pending(m).contains(
            (attach_thumb_file_name_spec(i), m[i].thumb()->0),
        ),
    decreases m.len(),
{
    let pre = m.drop_last();
    let parts = m.last().pending_parts_spec(m.len() - 1);
    let prelen = group_pending(pre).len() as int;
    if i == m.len() - 1 {
        if m[i].media().need_upload() {
            assert(group_pending(m)[prelen] == (attach_file_name_spec(i), m[i].media()));
        }
        if m[i].thumb() is Some && m[i].thumb()->0.need_upload() {
            let at = prelen + primary_part(m[i].media(), i).len();
            assert(group_pending(m)[at] == (attach_thumb_file_name_spec(i), m[i].thumb()->0));
        }
    } else {
        lemma_group_pending_contains(pre, i);
        if m[i].media().need_upload() {
            let x = (attach_file_name_spec(i), m[i].media());
            let j = choose|j: int| 0 <= j < group_pending(pre).len() && group_pending(pre)[j] == x;
            assert(group_pending(m)[j] == x);
        }
        if m[i].thumb() is Some && m[i].thumb()->0.need_upload() {
            let x = (attach_thumb_file_name_spec(i), m[i].thumb()->0);
            let j = choose|j: int| 0 <= j < group_pending(pre).len() && group_pending(pre)[j] == x;
            assert(group_pending(m)[j] == x);
        }
    }
}

/// The positional bijection of a media group. For a group of any length:
/// the rewritten sequence keeps its length and rewrites each item with
/// the tokens of its own position; the count of pending parts equals the
/// count of upload-requiring references; part names never collide; and
/// each reference that requires an upload is replaced by the token
/// `attach://` + name while a part of exactly that name carries the
/// original reference.
pub proof fn lemma_media_group_bijection(m: Seq<InputMediaView>)
    ensures
        rewritten_group(m).len() == m.len(),
        forall|i: int|
            0 <= i < m.len() ==> (#[trigger] rewritten_group(m)[i]).media()
                == rewritten_primary(m[i].media(), i),
        forall|i: int|
            0 <= i < m.len() ==> (#[trigger] rewritten_group(m)[i]).thumb() == rewritten_thumb(
                m[i].thumb(),
                i,
            ),
        forall|i: int|
            0 <= i < m.len() ==> attach_token_spec(i) == "attach://"@ + attach_file_name_spec(i),
        group_pending(m).len() == upload_count(m),
        forall|p: int, q: int|
            0 <= p < q < group_pending(m).len() ==> (#[trigger] group_pending(m)[p]).0 != (
            #[trigger] group_pending(m)[q]).0,
        forall|i: int|
            0 <= i < m.len() && (#[trigger] m[i].media()).need_upload() ==> group_pending(
                m,
            ).contains((attach_file_name_spec(i), m[i].media())),
        forall|i: int|
            0 <= i < m.len() && m[i].thumb() is Some && (#[trigger] m[i].thumb())->0.need_upload()
                ==> group_pending(m).contains((attach_thumb_file_name_spec(i), m[i].thumb()->0)),
{
    lemma_group_pending_count(m);
    lemma_group_pending_distinct(m);
    assert forall|i: int|
        0 <= i < m.len() && (#[trigger] m[i].media()).need_upload() implies group_pending(
        m,
    ).contains((attach_file_name_spec(i), m[i].media())) by {
        lemma_group_pending_contains(m, i);
    }
    assert forall|i: int|
        0 <= i < m.len() && m[i].thumb() is Some && (
    #[trigger] m[i].thumb())->0.need_upload() implies group_pending(m).contains(
        (attach_thumb_file_name_spec(i), m[i].thumb()->0),
    ) by {
        lemma_group_pending_contains(m, i);
    }
}

/// After the rewrite nothing in the group still asks for an upload:
/// every upload-requiring reference was replaced by its token, so the
/// rewritten sequence can be written into the JSON document as it is.
pub proof fn lemma_rewritten_group_textual(m: Seq<InputMediaView>)
    ensures
        forall|i: int|
            0 <= i < m.len() ==> !(#[trigger] rewritten_group(m)[i]).media().need_upload(),
        forall|i: int|
            0 <= i < m.len() && (#[trigger] rewritten_group(m)[i]).thumb() is Some
                ==> !rewritten_group(m)[i].thumb()->0.need_upload(),
{
}

/// Every pending part of a group carries a reference that requires an
/// upload; so the group's slots force the multipart encoding exactly
/// when at least one of its references requires an upload.
pub proof fn lemma_group_pending_uploads(m: Seq<InputMediaView>)
    ensures
        forall|p: int|
            0 <= p < group_pending(m).len() ==> (#[trigger] group_pending(m)[p]).1.need_upload(),
        group_pending(m).len() > 0 <==> upload_count(m) > 0,
    decreases m.len(),
{
    lemma_group_pending_count(m);
    if m.len() > 0 {
        lemma_group_pending_uploads(m.drop_last());
        lemma_group_pending_count(m.drop_last());
        assert forall|p: int|
            0 <= p < group_pending(m).len() implies (
        #[trigger] group_pending(m)[p]).1.need_upload() by {
            let pre = m.drop_last();
            let parts = m.last().pending_parts_spec(m.len() - 1);
            if p < group_pending(pre).len() {
                assert(group_pending(m)[p] == group_pending(pre)[p]);
            } else {
                assert(group_pending(m)[p] == parts[p - group_pending(pre).len()]);
            }
        }
    }
}

/// One named file slot.
pub open spec fn slot(name: Seq<char>, f: InputFileView) -> Seq<(Seq<char>, InputFileView)> {
    seq![(name, f)]
}

/// One optional named file slot: absent references contribute nothing.
pub open spec fn opt_slot(name: Seq<char>, o: Option<InputFileView>) -> Seq<
    (Seq<char>, InputFileView),
> {
    match o {
        Option::Some(f) => seq![(name, f)],
        Option::None => Seq::empty(),
    }
}

/// The denotation of a list of named file slots.
pub open spec fn slots_view(s: Seq<(String, InputFile)>) -> Seq<(Seq<char>, InputFileView)>
    decreases s,
{
    if s.len() == 0 {
        Seq::empty()
    } else {
        seq![(s[0].0@, s[0].1@)] + slots_view(s.subrange(1, s.len() as int))
    }
}

/// Pointwise reading of `slots_view`.
pub broadcast proof fn lemma_slots_view(s: Seq<(String, InputFile)>)
    ensures
        (#[trigger] slots_view(s)).len() == s.len(),
        forall|i: int| 0 <= i < s.len() ==> slots_view(s)[i] == (s[i].0@, s[i].1@),
    decreases s.len(),
{
    if s.len() > 0 {
        lemma_slots_view(s.subrange(1, s.len() as int));
    }
}

// ---------------------------------------------------------------------------
// The remaining record shapes of the wire format.
// ---------------------------------------------------------------------------

/// Type of chat, can be either "private", "group", "supergroup" or "channel"
pub enum ChatType {
    Private,
    Group,
    Supergroup,
    Channel,
}

/// Describes a Web App.
pub struct WebAppInfo {
    pub url: String,
}

pub struct WebAppInfoView {
    pub url: Seq<char>,
}

impl View for WebAppInfo {
    type V = WebAppInfoView;

    open spec fn view(&self) -> WebAppInfoView {
        WebAppInfoView {
            url: self.url@,
        }
    }
}

impl DeepView for WebAppInfo {
    type V = WebAppInfoView;

    open spec fn deep_view(&self) -> WebAppInfoView {
        self.view()
    }
}

impl WebAppInfoView {
    pub open spec fn to_jval(self) -> JVal {
        JVal::Obj(
            str_member("url"@, self.url),
        )
    }
}

impl WebAppInfo {
    pub fn to_json(&self) -> (r: JsonValue)
        ensures
            r@ == self@.to_jval(),
    {
        let mut f: Vec<(String, JsonValue)> = Vec::new();
        obj_push_str(&mut f, "url", &self.url);
        let r = JsonValue::Obj(f);
        proof {
            assert(r@ == self@.to_jval());
        }
        r
    }
}

impl WebAppInfo {
    pub fn new(url: String) -> (r: Self)
        ensures
            r.url == url,
    {
        Self {
            url,
        }
    }
}

/// This object represents a parameter of the inline keyboard button used to automatically authorize a user. Se...
pub struct LoginUrl {
    pub url: String,
    pub forward_text: Option<String>,
    pub bot_username: Option<String>,
    pub request_write_access: Option<bool>,
}

pub struct LoginUrlView {
    pub url: Seq<char>,
    pub forward_text: Option<Seq<char>>,
    pub bot_username: Option<Seq<char>>,
    pub request_write_access: Option<bool>,
}

impl View for LoginUrl {
    type V = LoginUrlView;

    open spec fn view(&self) -> LoginUrlView {
        LoginUrlView {
            url: self.url@,
            forward_text: self.forward_text.deep_view(),
            bot_username: self.bot_username.deep_view(),
            request_write_access: self.request_write_access,
        }
    }
}

impl DeepView for LoginUrl {
    type V = LoginUrlView;

    open spec fn deep_view(&self) -> LoginUrlView {
        self.view()
    }
}

impl LoginUrlView {
    pub open spec fn to_jval(self) -> JVal {
        JVal::Obj(
            str_member("url"@, self.url) + opt_str_member("forward_text"@, self.forward_text) + opt_str_member("bot_username"@, self.bot_username) + opt_bool_member("request_write_access"@, self.request_write_access),
        )
    }
}

impl LoginUrl {
    pub fn to_json(&self) -> (r: JsonValue)
        ensures
            r@ == self@.to_jval(),
    {
        let mut f: Vec<(String, JsonValue)> = Vec::new();
        obj_push_str(&mut f, "url", &self.url);
        obj_push_opt_str(&mut f, "forward_text", &self.forward_text);
        obj_push_opt_str(&mut f, "bot_username", &self.bot_username);
        obj_push_opt_bool(&mut f, "request_write_access", &self.request_write_access);
        let r = JsonValue::Obj(f);
        proof {
            assert(r@ == self@.to_jval());
        }
        r
    }
}

impl LoginUrl {
    pub fn new(url: String) -> (r: Self)
        ensures
            r.url == url,
            r.forward_text is None,
            r.bot_username is None,
            r.request_write_access is None,
    {
        Self {
            url,
            forward_text: None,
            bot_username: None,
            request_write_access: None,
        }
    }
}

/// A placeholder, currently holds no information. Use BotFather to set up your game.
pub struct CallbackGame {
}

pub struct CallbackGameView {
}

impl View for CallbackGame {
    type V = CallbackGameView;

    open spec fn view(&self) -> CallbackGameView {
        CallbackGameView {
        }
    }
}

impl DeepView for CallbackGame {
    type V = CallbackGameView;

    open spec fn deep_view(&self) -> CallbackGameView {
        self.view()
    }
}

impl CallbackGameView {
    pub open spec fn to_jval(self) -> JVal {
        JVal::Obj(Seq::empty())
    }
}

impl CallbackGame {
    pub fn to_json(&self) -> (r: JsonValue)
        ensures
            r@ == self@.to_jval(),
    {
        let mut f: Vec<(String, JsonValue)> = Vec::new();
        let r = JsonValue::Obj(f);
        proof {
            assert(fields_view(f@) =~= Seq::<(Seq<char>, JVal)>::empty());
            assert(r@ =~~= self@.to_jval());
        }
        r
    }
}

impl CallbackGame {
    pub fn new() -> (r: Self)
    {
        Self {
        }
    }
}

/// This object represents one button of an inline keyboard. You must use exactly one of the optional fields.
pub struct InlineKeyboardButton {
    pub text: String,
    pub url: Option<String>,
    pub callback_data: Option<String>,
    pub web_app: Option<WebAppInfo>,
    pub login_url: Option<LoginUrl>,
    pub switch_inline_query: Option<String>,
    pub switch_inline_query_current_chat: Option<String>,
    pub callback_game: Option<CallbackGame>,
    pub pay: Option<bool>,
}

pub struct InlineKeyboardButtonView {
    pub text: Seq<char>,
    pub url: Option<Seq<char>>,
    pub callback_data: Option<Seq<char>>,
    pub web_app: Option<WebAppInfoView>,
    pub login_url: Option<LoginUrlView>,
    pub switch_inline_query: Option<Seq<char>>,
    pub switch_inline_query_current_chat: Option<Seq<char>>,
    pub callback_game: Option<CallbackGameView>,
    pub pay: Option<bool>,
}

impl View for InlineKeyboardButton {
    type V = InlineKeyboardButtonView;

    open spec fn view(&self) -> InlineKeyboardButtonView {
        InlineKeyboardButtonView {
            text: self.text@,
            url: self.url.deep_view(),
            callback_data: self.callback_data.deep_view(),
            web_app: self.web_app.deep_view(),
            login_url: self.login_url.deep_view(),
            switch_inline_query: self.switch_inline_query.deep_view(),
            switch_inline_query_current_chat: self.switch_inline_query_current_chat.deep_view(),
            callback_game: self.callback_game.deep_view(),
            pay: self.pay,
        }
    }
}

impl DeepView for InlineKeyboardButton {
    type V = InlineKeyboardButtonView;

    open spec fn deep_view(&self) -> InlineKeyboardButtonView {
        self.view()
    }
}

impl InlineKeyboardButtonView {
    pub open spec fn to_jval(self) -> JVal {
        JVal::Obj(
            str_member("text"@, self.text) + opt_str_member("url"@, self.url) + opt_str_member("callback_data"@, self.callback_data) + opt_member("web_app"@, match self.web_app {
            Option::Some(x) => Some(x.to_jval()),
            Option::None => None,
        }) + opt_member("login_url"@, match self.login_url {
            Option::Some(x) => Some(x.to_jval()),
            Option::None => None,
        }) + opt_str_member("switch_inline_query"@, self.switch_inline_query) + opt_str_member("switch_inline_query_current_chat"@, self.switch_inline_query_current_chat) + opt_member("callback_game"@, match self.callback_game {
            Option::Some(x) => Some(x.to_jval()),
            Option::None => None,
        }) + opt_bool_member("pay"@, self.pay),
        )
    }
}

impl InlineKeyboardButton {
    pub fn to_json(&self) -> (r: JsonValue)
        ensures
            r@ == self@.to_jval(),
    {
        let mut f: Vec<(String, JsonValue)> = Vec::new();
        obj_push_str(&mut f, "text", &self.text);
        obj_push_opt_str(&mut f, "url", &self.url);
        obj_push_opt_str(&mut f, "callback_data", &self.callback_data);
        let v_web_app: Option<JsonValue> = match &self.web_app {
            Option::Some(x) => Some(x.to_json()),
            Option::None => None,
        };
        obj_push_opt_val(&mut f, "web_app", v_web_app);
        let v_login_url: Option<JsonValue> = match &self.login_url {
            Option::Some(x) => Some(x.to_json()),
            Option::None => None,
        };
        obj_push_opt_val(&mut f, "login_url", v_login_url);
        obj_push_opt_str(&mut f, "switch_inline_query", &self.switch_inline_query);
        obj_push_opt_str(&mut f, "switch_inline_query_current_chat", &self.switch_inline_query_current_chat);
        let v_callback_game: Option<JsonValue> = match &self.callback_game {
            Option::Some(x) => Some(x.to_json()),
            Option::None => None,
        };
        obj_push_opt_val(&mut f, "callback_game", v_callback_game);
        obj_push_opt_bool(&mut f, "pay", &self.pay);
        let r = JsonValue::Obj(f);
        proof {
            assert(r@ == self@.to_jval());
        }
        r
    }
}

impl InlineKeyboardButton {
    pub fn new(text: String) -> (r: Self)
        ensures
            r.text == text,
            r.url is None,
            r.callback_data is None,
            r.web_app is None,
            r.login_url is None,
            r.switch_inline_query is None,
            r.switch_inline_query_current_chat is None,
            r.callback_game is None,
            r.pay is None,
    {
        Self {
            text,
            url: None,
            callback_data: None,
            web_app: None,
            login_url: None,
            switch_inline_query: None,
            switch_inline_query_current_chat: None,
            callback_game: None,
            pay: None,
        }
    }
}

/// This object represents an inline keyboard that appears right next to the message it belongs to.
pub struct InlineKeyboardMarkup {
    pub inline_keyboard: Vec<Vec<InlineKeyboardButton>>,
}

pub struct InlineKeyboardMarkupView {
    pub inline_keyboard: Seq<Seq<InlineKeyboardButtonView>>,
}

impl View for InlineKeyboardMarkup {
    type V = InlineKeyboardMarkupView;

    open spec fn view(&self) -> InlineKeyboardMarkupView {
        InlineKeyboardMarkupView {
            inline_keyboard: self.inline_keyboard.deep_view(),
        }
    }
}

impl DeepView for InlineKeyboardMarkup {
    type V = InlineKeyboardMarkupView;

    open spec fn deep_view(&self) -> InlineKeyboardMarkupView {
        self.view()
    }
}

impl InlineKeyboardMarkupView {
    pub open spec fn to_jval(self) -> JVal {
        JVal::Obj(
            member("inline_keyboard"@, JVal::Arr(inline_keyboard_rows_jvals(self.inline_keyboard))),
        )
    }
}

impl InlineKeyboardMarkup {
    pub fn to_json(&self) -> (r: JsonValue)
        ensures
            r@ == self@.to_jval(),
    {
        let mut f: Vec<(String, JsonValue)> = Vec::new();
        obj_push(&mut f, "inline_keyboard", inline_keyboard_rows_json(&self.inline_keyboard));
        let r = JsonValue::Obj(f);
        proof {
            assert(r@ == self@.to_jval());
        }
        r
    }
}

impl InlineKeyboardMarkup {
    pub fn new(inline_keyboard: Vec<Vec<InlineKeyboardButton>>) -> (r: Self)
        ensures
            r.inline_keyboard == inline_keyboard,
    {
        Self {
            inline_keyboard,
        }
    }
}

/// This object represents type of a poll, which is allowed to be created and sent when the corresponding butto...
pub struct KeyboardButtonPollType {
    pub kind: Option<String>,
}

pub struct KeyboardButtonPollTypeView {
    pub kind: Option<Seq<char>>,
}

impl View for KeyboardButtonPollType {
    type V = KeyboardButtonPollTypeView;

    open spec fn view(&self) -> KeyboardButtonPollTypeView {
        KeyboardButtonPollTypeView {
            kind: self.kind.deep_view(),
        }
    }
}

impl DeepView for KeyboardButtonPollType {
    type V = KeyboardButtonPollTypeView;

    open spec fn deep_view(&self) -> KeyboardButtonPollTypeView {
        self.view()
    }
}

impl KeyboardButtonPollTypeView {
    pub open spec fn to_jval(self) -> JVal {
        JVal::Obj(
            opt_str_member("type"@, self.kind),
        )
    }
}

impl KeyboardButtonPollType {
    pub fn to_json(&self) -> (r: JsonValue)
        ensures
            r@ == self@.to_jval(),
    {
        let mut f: Vec<(String, JsonValue)> = Vec::new();
        obj_push_opt_str(&mut f, "type", &self.kind);
        let r = JsonValue::Obj(f);
        proof {
            assert(r@ == self@.to_jval());
        }
        r
    }
}

impl KeyboardButtonPollType {
    pub fn new() -> (r: Self)
        ensures
            r.kind is None,
    {
        Self {
            kind: None,
        }
    }
}

/// This object represents one button of the reply keyboard. For simple text buttons String can be used instead...
pub struct KeyboardButton {
    pub text: String,
    pub request_contact: Option<bool>,
    pub request_location: Option<bool>,
    pub request_poll: Option<KeyboardButtonPollType>,
    pub web_app: Option<WebAppInfo>,
}

pub struct KeyboardButtonView {
    pub text: Seq<char>,
    pub request_contact: Option<bool>,
    pub request_location: Option<bool>,
    pub request_poll: Option<KeyboardButtonPollTypeView>,
    pub web_app: Option<WebAppInfoView>,
}

impl View for KeyboardButton {
    type V = KeyboardButtonView;

    open spec fn view(&self) -> KeyboardButtonView {
        KeyboardButtonView {
            text: self.text@,
            request_contact: self.request_contact,
            request_location: self.request_location,
            request_poll: self.request_poll.deep_view(),
            web_app: self.web_app.deep_view(),
        }
    }
}

impl DeepView for KeyboardButton {
    type V = KeyboardButtonView;

    open spec fn deep_view(&self) -> KeyboardButtonView {
        self.view()
    }
}

impl KeyboardButtonView {
    pub open spec fn to_jval(self) -> JVal {
        JVal::Obj(
            str_member("text"@, self.text) + opt_bool_member("request_contact"@, self.request_contact) + opt_bool_member("request_location"@, self.request_location) + opt_member("request_poll"@, match self.request_poll {
            Option::Some(x) => Some(x.to_jval()),
            Option::None => None,
        }) + opt_member("web_app"@, match self.web_app {
            Option::Some(x) => Some(x.to_jval()),
            Option::None => None,
        }),
        )
    }
}

impl KeyboardButton {
    pub fn to_json(&self) -> (r: JsonValue)
        ensures
            r@ == self@.to_jval(),
    {
        let mut f: Vec<(String, JsonValue)> = Vec::new();
        obj_push_str(&mut f, "text", &self.text);
        obj_push_opt_bool(&mut f, "request_contact", &self.request_contact);
        obj_push_opt_bool(&mut f, "request_location", &self.request_location);
        let v_request_poll: Option<JsonValue> = match &self.request_poll {
            Option::Some(x) => Some(x.to_json()),
            Option::None => None,
        };
        obj_push_opt_val(&mut f, "request_poll", v_request_poll);
        let v_web_app: Option<JsonValue> = match &self.web_app {
            Option::Some(x) => Some(x.to_json()),
            Option::None => None,
        };
        obj_push_opt_val(&mut f, "web_app", v_web_app);
        let r = JsonValue::Obj(f);
        proof {
            assert(r@ == self@.to_jval());
        }
        r
    }
}

impl KeyboardButton {
    pub fn new(text: String) -> (r: Self)
        ensures
            r.text == text,
            r.request_contact is None,
            r.request_location is None,
            r.request_poll is None,
            r.web_app is None,
    {
        Self {
            text,
            request_contact: None,
            request_location: None,
            request_poll: None,
            web_app: None,
        }
    }
}

/// This object represents a custom keyboard with reply options (see Introduction to bots for details and examp...
pub struct ReplyKeyboardMarkup {
    pub keyboard: Vec<Vec<KeyboardButton>>,
    pub resize_keyboard: Option<bool>,
    pub one_time_keyboard: Option<bool>,
    pub input_field_placeholder: Option<String>,
    pub selective: Option<bool>,
}

pub struct ReplyKeyboardMarkupView {
    pub keyboard: Seq<Seq<KeyboardButtonView>>,
    pub resize_keyboard: Option<bool>,
    pub one_time_keyboard: Option<bool>,
    pub input_field_placeholder: Option<Seq<char>>,
    pub selective: Option<bool>,
}

impl View for ReplyKeyboardMarkup {
    type V = ReplyKeyboardMarkupView;

    open spec fn view(&self) -> ReplyKeyboardMarkupView {
        ReplyKeyboardMarkupView {
            keyboard: self.keyboard.deep_view(),
            resize_keyboard: self.resize_keyboard,
            one_time_keyboard: self.one_time_keyboard,
            input_field_placeholder: self.input_field_placeholder.deep_view(),
            selective: self.selective,
        }
    }
}

impl DeepView for ReplyKeyboardMarkup {
    type V = ReplyKeyboardMarkupView;

    open spec fn deep_view(&self) -> ReplyKeyboardMarkupView {
        self.view()
    }
}

impl ReplyKeyboardMarkupView {
    pub open spec fn to_jval(self) -> JVal {
        JVal::Obj(
            member("keyboard"@, JVal::Arr(keyboard_rows_jvals(self.keyboard))) + opt_bool_member("resize_keyboard"@, self.resize_keyboard) + opt_bool_member("one_time_keyboard"@, self.one_time_keyboard) + opt_str_member("input_field_placeholder"@, self.input_field_placeholder) + opt_bool_member("selective"@, self.selective),
        )
    }
}

impl ReplyKeyboardMarkup {
    pub fn to_json(&self) -> (r: JsonValue)
        ensures
            r@ == self@.to_jval(),
    {
        let mut f: Vec<(String, JsonValue)> = Vec::new();
        obj_push(&mut f, "keyboard", keyboard_rows_json(&self.keyboard));
        obj_push_opt_bool(&mut f, "resize_keyboard", &self.resize_keyboard);
        obj_push_opt_bool(&mut f, "one_time_keyboard", &self.one_time_keyboard);
        obj_push_opt_str(&mut f, "input_field_placeholder", &self.input_field_placeholder);
        obj_push_opt_bool(&mut f, "selective", &self.selective);
        let r = JsonValue::Obj(f);
        proof {
            assert(r@ == self@.to_jval());
        }
        r
    }
}

impl ReplyKeyboardMarkup {
    pub fn new(keyboard: Vec<Vec<KeyboardButton>>) -> (r: Self)
        ensures
            r.keyboard == keyboard,
            r.resize_keyboard is None,
            r.one_time_keyboard is None,
            r.input_field_placeholder is None,
            r.selective is None,
    {
        Self {
            keyboard,
            resize_keyboard: None,
            one_time_keyboard: None,
            input_field_placeholder: None,
            selective: None,
        }
    }
}

/// Upon receiving a message with this object, Telegram clients will remove the current custom keyboard and dis...
pub struct ReplyKeyboardRemove {
    pub remove_keyboard: bool,
    pub selective: Option<bool>,
}

pub struct ReplyKeyboardRemoveView {
    pub remove_keyboard: bool,
    pub selective: Option<bool>,
}

impl View for ReplyKeyboardRemove {
    type V = ReplyKeyboardRemoveView;

    open spec fn view(&self) -> ReplyKeyboardRemoveView {
        ReplyKeyboardRemoveView {
            remove_keyboard: self.remove_keyboard,
            selective: self.selective,
        }
    }
}

impl DeepView for ReplyKeyboardRemove {
    type V = ReplyKeyboardRemoveView;

    open spec fn deep_view(&self) -> ReplyKeyboardRemoveView {
        self.view()
    }
}

impl ReplyKeyboardRemoveView {
    pub open spec fn to_jval(self) -> JVal {
        JVal::Obj(
            bool_member("remove_keyboard"@, self.remove_keyboard) + opt_bool_member("selective"@, self.selective),
        )
    }
}

impl ReplyKeyboardRemove {
    pub fn to_json(&self) -> (r: JsonValue)
        ensures
            r@ == self@.to_jval(),
    {
        let mut f: Vec<(String, JsonValue)> = Vec::new();
        obj_push_bool(&mut f, "remove_keyboard", self.remove_keyboard);
        obj_push_opt_bool(&mut f, "selective", &self.selective);
        let r = JsonValue::Obj(f);
        proof {
            assert(r@ == self@.to_jval());
        }
        r
    }
}

impl ReplyKeyboardRemove {
    pub fn new(remove_keyboard: bool) -> (r: Self)
        ensures
            r.remove_keyboard == remove_keyboard,
            r.selective is None,
    {
        Self {
            remove_keyboard,
            selective: None,
        }
    }
}

/// Upon receiving a message with this object, Telegram clients will display a reply interface to the user (act...
pub struct ForceReply {
    pub force_reply: bool,
    pub input_field_placeholder: Option<String>,
    pub selective: Option<bool>,
}

pub struct ForceReplyView {
    pub force_reply: bool,
    pub input_field_placeholder: Option<Seq<char>>,
    pub selective: Option<bool>,
}

impl View for ForceReply {
    type V = ForceReplyView;

    open spec fn view(&self) -> ForceReplyView {
        ForceReplyView {
            force_reply: self.force_reply,
            input_field_placeholder: self.input_field_placeholder.deep_view(),
            selective: self.selective,
        }
    }
}

impl DeepView for ForceReply {
    type V = ForceReplyView;

    open spec fn deep_view(&self) -> ForceReplyView {
        self.view()
    }
}

impl ForceReplyView {
    pub open spec fn to_jval(self) -> JVal {
        JVal::Obj(
            bool_member("force_reply"@, self.force_reply) + opt_str_member("input_field_placeholder"@, self.input_field_placeholder) + opt_bool_member("selective"@, self.selective),
        )
    }
}

impl ForceReply {
    pub fn to_json(&self) -> (r: JsonValue)
        ensures
            r@ == self@.to_jval(),
    {
        let mut f: Vec<(String, JsonValue)> = Vec::new();
        obj_push_bool(&mut f, "force_reply", self.force_reply);
        obj_push_opt_str(&mut f, "input_field_placeholder", &self.input_field_placeholder);
        obj_push_opt_bool(&mut f, "selective", &self.selective);
        let r = JsonValue::Obj(f);
        proof {
            assert(r@ == self@.to_jval());
        }
        r
    }
}

impl ForceReply {
    pub fn new(force_reply: bool) -> (r: Self)
        ensures
            r.force_reply == force_reply,
            r.input_field_placeholder is None,
            r.selective is None,
    {
        Self {
            force_reply,
            input_field_placeholder: None,
            selective: None,
        }
    }
}

/// Describes actions that a non-administrator user is allowed to take in a chat.
pub struct ChatPermissions {
    pub can_send_messages: Option<bool>,
    pub can_send_media_messages: Option<bool>,
    pub can_send_polls: Option<bool>,
    pub can_send_other_messages: Option<bool>,
    pub can_add_web_page_previews: Option<bool>,
    pub can_change_info: Option<bool>,
    pub can_invite_users: Option<bool>,
    pub can_pin_messages: Option<bool>,
}

pub struct ChatPermissionsView {
    pub can_send_messages: Option<bool>,
    pub can_send_media_messages: Option<bool>,
    pub can_send_polls: Option<bool>,
    pub can_send_other_messages: Option<bool>,
    pub can_add_web_page_previews: Option<bool>,
    pub can_change_info: Option<bool>,
    pub can_invite_users: Option<bool>,
    pub can_pin_messages: Option<bool>,
}

impl View for ChatPermissions {
    type V = ChatPermissionsView;

    open spec fn view(&self) -> ChatPermissionsView {
        ChatPermissionsView {
            can_send_messages: self.can_send_messages,
            can_send_media_messages: self.can_send_media_messages,
            can_send_polls: self.can_send_polls,
            can_send_other_messages: self.can_send_other_messages,
            can_add_web_page_previews: self.can_add_web_page_previews,
            can_change_info: self.can_change_info,
            can_invite_users: self.can_invite_users,
            can_pin_messages: self.can_pin_messages,
        }
    }
}

impl DeepView for ChatPermissions {
    type V = ChatPermissionsView;

    open spec fn deep_view(&self) -> ChatPermissionsView {
        self.view()
    }
}

impl ChatPermissionsView {
    pub open spec fn to_jval(self) -> JVal {
        JVal::Obj(
            opt_bool_member("can_send_messages"@, self.can_send_messages) + opt_bool_member("can_send_media_messages"@, self.can_send_media_messages) + opt_bool_member("can_send_polls"@, self.can_send_polls) + opt_bool_member("can_send_other_messages"@, self.can_send_other_messages) + opt_bool_member("can_add_web_page_previews"@, self.can_add_web_page_previews) + opt_bool_member("can_change_info"@, self.can_change_info) + opt_bool_member("can_invite_users"@, self.can_invite_users) + opt_bool_member("can_pin_messages"@, self.can_pin_messages),
        )
    }
}

impl ChatPermissions {
    pub fn to_json(&self) -> (r: JsonValue)
        ensures
            r@ == self@.to_jval(),
    {
        let mut f: Vec<(String, JsonValue)> = Vec::new();
        obj_push_opt_bool(&mut f, "can_send_messages", &self.can_send_messages);
        obj_push_opt_bool(&mut f, "can_send_media_messages", &self.can_send_media_messages);
        obj_push_opt_bool(&mut f, "can_send_polls", &self.can_send_polls);
        obj_push_opt_bool(&mut f, "can_send_other_messages", &self.can_send_other_messages);
        obj_push_opt_bool(&mut f, "can_add_web_page_previews", &self.can_add_web_page_previews);
        obj_push_opt_bool(&mut f, "can_change_info", &self.can_change_info);
        obj_push_opt_bool(&mut f, "can_invite_users", &self.can_invite_users);
        obj_push_opt_bool(&mut f, "can_pin_messages", &self.can_pin_messages);
        let r = JsonValue::Obj(f);
        proof {
            assert(r@ == self@.to_jval());
        }
        r
    }
}

impl ChatPermissions {
    pub fn new() -> (r: Self)
        ensures
            r.can_send_messages is None,
            r.can_send_media_messages is None,
            r.can_send_polls is None,
            r.can_send_other_messages is None,
            r.can_add_web_page_previews is None,
            r.can_change_info is None,
            r.can_invite_users is None,
            r.can_pin_messages is None,
    {
        Self {
            can_send_messages: None,
            can_send_media_messages: None,
            can_send_polls: None,
            can_send_other_messages: None,
            can_add_web_page_previews: None,
            can_change_info: None,
            can_invite_users: None,
            can_pin_messages: None,
        }
    }
}

/// Represents the rights of an administrator in a chat.
pub struct ChatAdministratorRights {
    pub is_anonymous: bool,
    pub can_manage_chat: bool,
    pub can_delete_messages: bool,
    pub can_manage_video_chats: bool,
    pub can_restrict_members: bool,
    pub can_promote_members: bool,
    pub can_change_info: bool,
    pub can_invite_users: bool,
    pub can_post_messages: Option<bool>,
    pub can_edit_messages: Option<bool>,
    pub can_pin_messages: Option<bool>,
}

pub struct ChatAdministratorRightsView {
    pub is_anonymous: bool,
    pub can_manage_chat: bool,
    pub can_delete_messages: bool,
    pub can_manage_video_chats: bool,
    pub can_restrict_members: bool,
    pub can_promote_members: bool,
    pub can_change_info: bool,
    pub can_invite_users: bool,
    pub can_post_messages: Option<bool>,
    pub can_edit_messages: Option<bool>,
    pub can_pin_messages: Option<bool>,
}

impl View for ChatAdministratorRights {
    type V = ChatAdministratorRightsView;

    open spec fn view(&self) -> ChatAdministratorRightsView {
        ChatAdministratorRightsView {
            is_anonymous: self.is_anonymous,
            can_manage_chat: self.can_manage_chat,
            can_delete_messages: self.can_delete_messages,
            can_manage_video_chats: self.can_manage_video_chats,
            can_restrict_members: self.can_restrict_members,
            can_promote_members: self.can_promote_members,
            can_change_info: self.can_change_info,
            can_invite_users: self.can_invite_users,
            can_post_messages: self.can_post_messages,
            can_edit_messages: self.can_edit_messages,
            can_pin_messages: self.can_pin_messages,
        }
    }
}

impl DeepView for ChatAdministratorRights {
    type V = ChatAdministratorRightsView;

    open spec fn deep_view(&self) -> ChatAdministratorRightsView {
        self.view()
    }
}

impl ChatAdministratorRightsView {
    pub open spec fn to_jval(self) -> JVal {
        JVal::Obj(
            bool_member("is_anonymous"@, self.is_anonymous) + bool_member("can_manage_chat"@, self.can_manage_chat) + bool_member("can_delete_messages"@, self.can_delete_messages) + bool_member("can_manage_video_chats"@, self.can_manage_video_chats) + bool_member("can_restrict_members"@, self.can_restrict_members) + bool_member("can_promote_members"@, self.can_promote_members) + bool_member("can_change_info"@, self.can_change_info) + bool_member("can_invite_users"@, self.can_invite_users) + opt_bool_member("can_post_messages"@, self.can_post_messages) + opt_bool_member("can_edit_messages"@, self.can_edit_messages) + opt_bool_member("can_pin_messages"@, self.can_pin_messages),
        )
    }
}

impl ChatAdministratorRights {
    pub fn to_json(&self) -> (r: JsonValue)
        ensures
            r@ == self@.to_jval(),
    {
        let mut f: Vec<(String, JsonValue)> = Vec::new();
        obj_push_bool(&mut f, "is_anonymous", self.is_anonymous);
        obj_push_bool(&mut f, "can_manage_chat", self.can_manage_chat);
        obj_push_bool(&mut f, "can_delete_messages", self.can_delete_messages);
        obj_push_bool(&mut f, "can_manage_video_chats", self.can_manage_video_chats);
        obj_push_bool(&mut f, "can_restrict_members", self.can_restrict_members);
        obj_push_bool(&mut f, "can_promote_members", self.can_promote_members);
        obj_push_bool(&mut f, "can_change_info", self.can_change_info);
        obj_push_bool(&mut f, "can_invite_users", self.can_invite_users);
        obj_push_opt_bool(&mut f, "can_post_messages", &self.can_post_messages);
        obj_push_opt_bool(&mut f, "can_edit_messages", &self.can_edit_messages);
        obj_push_opt_bool(&mut f, "can_pin_messages", &self.can_pin_messages);
        let r = JsonValue::Obj(f);
        proof {
            assert(r@ == self@.to_jval());
        }
        r
    }
}

impl ChatAdministratorRights {
    pub fn new(is_anonymous: bool, can_manage_chat: bool, can_delete_messages: bool, can_manage_video_chats: bool, can_restrict_members: bool, can_promote_members: bool, can_change_info: bool, can_invite_users: bool) -> (r: Self)
        ensures
            r.is_anonymous == is_anonymous,
            r.can_manage_chat == can_manage_chat,
            r.can_delete_messages == can_delete_messages,
            r.can_manage_video_chats == can_manage_video_chats,
            r.can_restrict_members == can_restrict_members,
            r.can_promote_members == can_promote_members,
            r.can_change_info == can_change_info,
            r.can_invite_users == can_invite_users,
            r.can_post_messages is None,
            r.can_edit_messages is None,
            r.can_pin_messages is None,
    {
        Self {
            is_anonymous,
            can_manage_chat,
            can_delete_messages,
            can_manage_video_chats,
            can_restrict_members,
            can_promote_members,
            can_change_info,
            can_invite_users,
            can_post_messages: None,
            can_edit_messages: None,
            can_pin_messages: None,
        }
    }
}

/// This object represents a bot command.
pub struct BotCommand {
    pub command: String,
    pub description: String,
}

pub struct BotCommandView {
    pub command: Seq<char>,
    pub description: Seq<char>,
}

impl View for BotCommand {
    type V = BotCommandView;

    open spec fn view(&self) -> BotCommandView {
        BotCommandView {
            command: self.command@,
            description: self.description@,
        }
    }
}

impl DeepView for BotCommand {
    type V = BotCommandView;

    open spec fn deep_view(&self) -> BotCommandView {
        self.view()
    }
}

impl BotCommandView {
    pub open spec fn to_jval(self) -> JVal {
        JVal::Obj(
            str_member("command"@, self.command) + str_member("description"@, self.description),
        )
    }
}

impl BotCommand {
    pub fn to_json(&self) -> (r: JsonValue)
        ensures
            r@ == self@.to_jval(),
    {
        let mut f: Vec<(String, JsonValue)> = Vec::new();
        obj_push_str(&mut f, "command", &self.command);
        obj_push_str(&mut f, "description", &self.description);
        let r = JsonValue::Obj(f);
        proof {
            assert(r@ == self@.to_jval());
        }
        r
    }
}

impl BotCommand {
    pub fn new(command: String, description: String) -> (r: Self)
        ensures
            r.command == command,
            r.description == description,
    {
        Self {
            command,
            description,
        }
    }
}

/// This object represents a portion of the price for goods or services.
pub struct LabeledPrice {
    pub label: String,
    pub amount: i64,
}

pub struct LabeledPriceView {
    pub label: Seq<char>,
    pub amount: i64,
}

impl View for LabeledPrice {
    type V = LabeledPriceView;

    open spec fn view(&self) -> LabeledPriceView {
        LabeledPriceView {
            label: self.label@,
            amount: self.amount,
        }
    }
}

impl DeepView for LabeledPrice {
    type V = LabeledPriceView;

    open spec fn deep_view(&self) -> LabeledPriceView {
        self.view()
    }
}

impl LabeledPriceView {
    pub open spec fn to_jval(self) -> JVal {
        JVal::Obj(
            str_member("label"@, self.label) + i64_member("amount"@, self.amount),
        )
    }
}

impl LabeledPrice {
    pub fn to_json(&self) -> (r: JsonValue)
        ensures
            r@ == self@.to_jval(),
    {
        let mut f: Vec<(String, JsonValue)> = Vec::new();
        obj_push_str(&mut f, "label", &self.label);
        obj_push_i64(&mut f, "amount", self.amount);
        let r = JsonValue::Obj(f);
        proof {
            assert(r@ == self@.to_jval());
        }
        r
    }
}

impl LabeledPrice {
    pub fn new(label: String, amount: i64) -> (r: Self)
        ensures
            r.label == label,
            r.amount == amount,
    {
        Self {
            label,
            amount,
        }
    }
}

/// This object represents one shipping option.
pub struct ShippingOption {
    pub id: String,
    pub title: String,
    pub prices: Vec<LabeledPrice>,
}

pub struct ShippingOptionView {
    pub id: Seq<char>,
    pub title: Seq<char>,
    pub prices: Seq<LabeledPriceView>,
}

impl View for ShippingOption {
    type V = ShippingOptionView;

    open spec fn view(&self) -> ShippingOptionView {
        ShippingOptionView {
            id: self.id@,
            title: self.title@,
            prices: self.prices.deep_view(),
        }
    }
}

impl DeepView for ShippingOption {
    type V = ShippingOptionView;

    open spec fn deep_view(&self) -> ShippingOptionView {
        self.view()
    }
}

impl ShippingOptionView {
    pub open spec fn to_jval(self) -> JVal {
        JVal::Obj(
            str_member("id"@, self.id) + str_member("title"@, self.title) + member("prices"@, JVal::Arr(labeled_prices_jvals(self.prices))),
        )
    }
}

impl ShippingOption {
    pub fn to_json(&self) -> (r: JsonValue)
        ensures
            r@ == self@.to_jval(),
    {
        let mut f: Vec<(String, JsonValue)> = Vec::new();
        obj_push_str(&mut f, "id", &self.id);
        obj_push_str(&mut f, "title", &self.title);
        obj_push(&mut f, "prices", labeled_prices_json(&self.prices));
        let r = JsonValue::Obj(f);
        proof {
            assert(r@ == self@.to_jval());
        }
        r
    }
}

impl ShippingOption {
    pub fn new(id: String, title: String, prices: Vec<LabeledPrice>) -> (r: Self)
        ensures
            r.id == id,
            r.title == title,
            r.prices == prices,
    {
        Self {
            id,
            title,
            prices,
        }
    }
}

/// Represents the default scope of bot commands. Default commands are used if no commands with a narrower scop...
pub struct BotCommandScopeDefault {
}

pub struct BotCommandScopeDefaultView {
}

impl View for BotCommandScopeDefault {
    type V = BotCommandScopeDefaultView;

    open spec fn view(&self) -> BotCommandScopeDefaultView {
        BotCommandScopeDefaultView {
        }
    }
}

impl DeepView for BotCommandScopeDefault {
    type V = BotCommandScopeDefaultView;

    open spec fn deep_view(&self) -> BotCommandScopeDefaultView {
        self.view()
    }
}

impl BotCommandScopeDefault {
    pub fn new() -> (r: Self)
    {
        Self {
        }
    }
}

/// Represents the scope of bot commands, covering all private chats.
pub struct BotCommandScopeAllPrivateChats {
}

pub struct BotCommandScopeAllPrivateChatsView {
}

impl View for BotCommandScopeAllPrivateChats {
    type V = BotCommandScopeAllPrivateChatsView;

    open spec fn view(&self) -> BotCommandScopeAllPrivateChatsView {
        BotCommandScopeAllPrivateChatsView {
        }
    }
}

impl DeepView for BotCommandScopeAllPrivateChats {
    type V = BotCommandScopeAllPrivateChatsView;

    open spec fn deep_view(&self) -> BotCommandScopeAllPrivateChatsView {
        self.view()
    }
}

impl BotCommandScopeAllPrivateChats {
    pub fn new() -> (r: Self)
    {
        Self {
        }
    }
}

/// Represents the scope of bot commands, covering all group and supergroup chats.
pub struct BotCommandScopeAllGroupChats {
}

pub struct BotCommandScopeAllGroupChatsView {
}

impl View for BotCommandScopeAllGroupChats {
    type V = BotCommandScopeAllGroupChatsView;

    open spec fn view(&self) -> BotCommandScopeAllGroupChatsView {
        BotCommandScopeAllGroupChatsView {
        }
    }
}

impl DeepView for BotCommandScopeAllGroupChats {
    type V = BotCommandScopeAllGroupChatsView;

    open spec fn deep_view(&self) -> BotCommandScopeAllGroupChatsView {
        self.view()
    }
}

impl BotCommandScopeAllGroupChats {
    pub fn new() -> (r: Self)
    {
        Self {
        }
    }
}

/// Represents the scope of bot commands, covering all group and supergroup chat administrators.
pub struct BotCommandScopeAllChatAdministrators {
}

pub struct BotCommandScopeAllChatAdministratorsView {
}

impl View for BotCommandScopeAllChatAdministrators {
    type V = BotCommandScopeAllChatAdministratorsView;

    open spec fn view(&self) -> BotCommandScopeAllChatAdministratorsView {
        BotCommandScopeAllChatAdministratorsView {
        }
    }
}

impl DeepView for BotCommandScopeAllChatAdministrators {
    type V = BotCommandScopeAllChatAdministratorsView;

    open spec fn deep_view(&self) -> BotCommandScopeAllChatAdministratorsView {
        self.view()
    }
}

impl BotCommandScopeAllChatAdministrators {
    pub fn new() -> (r: Self)
    {
        Self {
        }
    }
}

/// Represents the scope of bot commands, covering a specific chat.
pub struct BotCommandScopeChat {
    pub chat_id: ChatId,
}

pub struct BotCommandScopeChatView {
    pub chat_id: ChatIdView,
}

impl View for BotCommandScopeChat {
    type V = BotCommandScopeChatView;

    open spec fn view(&self) -> BotCommandScopeChatView {
        BotCommandScopeChatView {
            chat_id: self.chat_id@,
        }
    }
}

impl DeepView for BotCommandScopeChat {
    type V = BotCommandScopeChatView;

    open spec fn deep_view(&self) -> BotCommandScopeChatView {
        self.view()
    }
}

impl BotCommandScopeChat {
    pub fn new(chat_id: ChatId) -> (r: Self)
        ensures
            r.chat_id == chat_id,
    {
        Self {
            chat_id,
        }
    }
}

/// Represents the scope of bot commands, covering all administrators of a specific group or supergroup chat.
pub struct BotCommandScopeChatAdministrators {
    pub chat_id: ChatId,
}

pub struct BotCommandScopeChatAdministratorsView {
    pub chat_id: ChatIdView,
}

impl View for BotCommandScopeChatAdministrators {
    type V = BotCommandScopeChatAdministratorsView;

    open spec fn view(&self) -> BotCommandScopeChatAdministratorsView {
        BotCommandScopeChatAdministratorsView {
            chat_id: self.chat_id@,
        }
    }
}

impl DeepView for BotCommandScopeChatAdministrators {
    type V = BotCommandScopeChatAdministratorsView;

    open spec fn deep_view(&self) -> BotCommandScopeChatAdministratorsView {
        self.view()
    }
}

impl BotCommandScopeChatAdministrators {
    pub fn new(chat_id: ChatId) -> (r: Self)
        ensures
            r.chat_id == chat_id,
    {
        Self {
            chat_id,
        }
    }
}

/// Represents the scope of bot commands, covering a specific member of a group or supergroup chat.
pub struct BotCommandScopeChatMember {
    pub chat_id: ChatId,
    pub user_id: i64,
}

pub struct BotCommandScopeChatMemberView {
    pub chat_id: ChatIdView,
    pub user_id: i64,
}

impl View for BotCommandScopeChatMember {
    type V = BotCommandScopeChatMemberView;

    open spec fn view(&self) -> BotCommandScopeChatMemberView {
        BotCommandScopeChatMemberView {
            chat_id: self.chat_id@,
            user_id: self.user_id,
        }
    }
}

impl DeepView for BotCommandScopeChatMember {
    type V = BotCommandScopeChatMemberView;

    open spec fn deep_view(&self) -> BotCommandScopeChatMemberView {
        self.view()
    }
}

impl BotCommandScopeChatMember {
    pub fn new(chat_id: ChatId, user_id: i64) -> (r: Self)
        ensures
            r.chat_id == chat_id,
            r.user_id == user_id,
    {
        Self {
            chat_id,
            user_id,
        }
    }
}

/// Represents a menu button, which opens the bot's list of commands.
pub struct MenuButtonCommands {
}

pub struct MenuButtonCommandsView {
}

impl View for MenuButtonCommands {
    type V = MenuButtonCommandsView;

    open spec fn view(&self) -> MenuButtonCommandsView {
        MenuButtonCommandsView {
        }
    }
}

impl DeepView for MenuButtonCommands {
    type V = MenuButtonCommandsView;

    open spec fn deep_view(&self) -> MenuButtonCommandsView {
        self.view()
    }
}

impl MenuButtonCommands {
    pub fn new() -> (r: Self)
    {
        Self {
        }
    }
}

/// Represents a menu button, which launches a Web App.
pub struct MenuButtonWebApp {
    pub text: String,
    pub web_app: WebAppInfo,
}

pub struct MenuButtonWebAppView {
    pub text: Seq<char>,
    pub web_app: WebAppInfoView,
}

impl View for MenuButtonWebApp {
    type V = MenuButtonWebAppView;

    open spec fn view(&self) -> MenuButtonWebAppView {
        MenuButtonWebAppView {
            text: self.text@,
            web_app: self.web_app@,
        }
    }
}

impl DeepView for MenuButtonWebApp {
    type V = MenuButtonWebAppView;

    open spec fn deep_view(&self) -> MenuButtonWebAppView {
        self.view()
    }
}

impl MenuButtonWebApp {
    pub fn new(text: String, web_app: WebAppInfo) -> (r: Self)
        ensures
            r.text == text,
            r.web_app == web_app,
    {
        Self {
            text,
            web_app,
        }
    }
}

/// Describes that no specific value for the menu button was set.
pub struct MenuButtonDefault {
}

pub struct MenuButtonDefaultView {
}

impl View for MenuButtonDefault {
    type V = MenuButtonDefaultView;

    open spec fn view(&self) -> MenuButtonDefaultView {
        MenuButtonDefaultView {
        }
    }
}

impl DeepView for MenuButtonDefault {
    type V = MenuButtonDefaultView;

    open spec fn deep_view(&self) -> MenuButtonDefaultView {
        self.view()
    }
}

impl MenuButtonDefault {
    pub fn new() -> (r: Self)
    {
        Self {
        }
    }
}

/// Represents an issue in one of the data fields that was provided by the user. The error is considered resolv...
pub struct PassportElementErrorDataField {
    pub source: String,
    pub kind: String,
    pub field_name: String,
    pub data_hash: String,
    pub message: String,
}

pub struct PassportElementErrorDataFieldView {
    pub source: Seq<char>,
    pub kind: Seq<char>,
    pub field_name: Seq<char>,
    pub data_hash: Seq<char>,
    pub message: Seq<char>,
}

impl View for PassportElementErrorDataField {
    type V = PassportElementErrorDataFieldView;

    open spec fn view(&self) -> PassportElementErrorDataFieldView {
        PassportElementErrorDataFieldView {
            source: self.source@,
            kind: self.kind@,
            field_name: self.field_name@,
            data_hash: self.data_hash@,
            message: self.message@,
        }
    }
}

impl DeepView for PassportElementErrorDataField {
    type V = PassportElementErrorDataFieldView;

    open spec fn deep_view(&self) -> PassportElementErrorDataFieldView {
        self.view()
    }
}

impl PassportElementErrorDataField {
    pub fn new(source: String, kind: String, field_name: String, data_hash: String, message: String) -> (r: Self)
        ensures
            r.source == source,
            r.kind == kind,
            r.field_name == field_name,
            r.data_hash == data_hash,
            r.message == message,
    {
        Self {
            source,
            kind,
            field_name,
            data_hash,
            message,
        }
    }

    pub fn new_personal_details(source: String, field_name: String, data_hash: String, message: String) -> (r: Self)
        ensures
            r.source == source,
            r.kind@ == "personal_details"@,
            r.field_name == field_name,
            r.data_hash == data_hash,
            r.message == message,
    {
        Self::new(source, String::from_str("personal_details"), field_name, data_hash, message)
    }

    pub fn new_passport(source: String, field_name: String, data_hash: String, message: String) -> (r: Self)
        ensures
            r.source == source,
            r.kind@ == "passport"@,
            r.field_name == field_name,
            r.data_hash == data_hash,
            r.message == message,
    {
        Self::new(source, String::from_str("passport"), field_name, data_hash, message)
    }

    pub fn new_driver_license(source: String, field_name: String, data_hash: String, message: String) -> (r: Self)
        ensures
            r.source == source,
            r.kind@ == "driver_license"@,
            r.field_name == field_name,
            r.data_hash == data_hash,
            r.message == message,
    {
        Self::new(source, String::from_str("driver_license"), field_name, data_hash, message)
    }

    pub fn new_identity_card(source: String, field_name: String, data_hash: String, message: String) -> (r: Self)
        ensures
            r.source == source,
            r.kind@ == "identity_card"@,
            r.field_name == field_name,
            r.data_hash == data_hash,
            r.message == message,
    {
        Self::new(source, String::from_str("identity_card"), field_name, data_hash, message)
    }

    pub fn new_internal_passport(source: String, field_name: String, data_hash: String, message: String) -> (r: Self)
        ensures
            r.source == source,
            r.kind@ == "internal_passport"@,
            r.field_name == field_name,
            r.data_hash == data_hash,
            r.message == message,
    {
        Self::new(source, String::from_str("internal_passport"), field_name, data_hash, message)
    }

    pub fn new_address(source: String, field_name: String, data_hash: String, message: String) -> (r: Self)
        ensures
            r.source == source,
            r.kind@ == "address"@,
            r.field_name == field_name,
            r.data_hash == data_hash,
            r.message == message,
    {
        Self::new(source, String::from_str("address"), field_name, data_hash, message)
    }
}

/// Represents an issue with the front side of a document. The error is considered resolved when the file with ...
pub struct PassportElementErrorFrontSide {
    pub source: String,
    pub kind: String,
    pub file_hash: String,
    pub message: String,
}

pub struct PassportElementErrorFrontSideView {
    pub source: Seq<char>,
    pub kind: Seq<char>,
    pub file_hash: Seq<char>,
    pub message: Seq<char>,
}

impl View for PassportElementErrorFrontSide {
    type V = PassportElementErrorFrontSideView;

    open spec fn view(&self) -> PassportElementErrorFrontSideView {
        PassportElementErrorFrontSideView {
            source: self.source@,
            kind: self.kind@,
            file_hash: self.file_hash@,
            message: self.message@,
        }
    }
}

impl DeepView for PassportElementErrorFrontSide {
    type V = PassportElementErrorFrontSideView;

    open spec fn deep_view(&self) -> PassportElementErrorFrontSideView {
        self.view()
    }
}

impl PassportElementErrorFrontSide {
    pub fn new(source: String, kind: String, file_hash: String, message: String) -> (r: Self)
        ensures
            r.source == source,
            r.kind == kind,
            r.file_hash == file_hash,
            r.message == message,
    {
        Self {
            source,
            kind,
            file_hash,
            message,
        }
    }

    pub fn new_passport(source: String, file_hash: String, message: String) -> (r: Self)
        ensures
            r.source == source,
            r.kind@ == "passport"@,
            r.file_hash == file_hash,
            r.message == message,
    {
        Self::new(source, String::from_str("passport"), file_hash, message)
    }

    pub fn new_driver_license(source: String, file_hash: String, message: String) -> (r: Self)
        ensures
            r.source == source,
            r.kind@ == "driver_license"@,
            r.file_hash == file_hash,
            r.message == message,
    {
        Self::new(source, String::from_str("driver_license"), file_hash, message)
    }

    pub fn new_identity_card(source: String, file_hash: String, message: String) -> (r: Self)
        ensures
            r.source == source,
            r.kind@ == "identity_card"@,
            r.file_hash == file_hash,
            r.message == message,
    {
        Self::new(source, String::from_str("identity_card"), file_hash, message)
    }

    pub fn new_internal_passport(source: String, file_hash: String, message: String) -> (r: Self)
        ensures
            r.source == source,
            r.kind@ == "internal_passport"@,
            r.file_hash == file_hash,
            r.message == message,
    {
        Self::new(source, String::from_str("internal_passport"), file_hash, message)
    }
}

/// Represents an issue with the reverse side of a document. The error is considered resolved when the file wit...
pub struct PassportElementErrorReverseSide {
    pub source: String,
    pub kind: String,
    pub file_hash: String,
    pub message: String,
}

pub struct PassportElementErrorReverseSideView {
    pub source: Seq<char>,
    pub kind: Seq<char>,
    pub file_hash: Seq<char>,
    pub message: Seq<char>,
}

impl View for PassportElementErrorReverseSide {
    type V = PassportElementErrorReverseSideView;

    open spec fn view(&self) -> PassportElementErrorReverseSideView {
        PassportElementErrorReverseSideView {
            source: self.source@,
            kind: self.kind@,
            file_hash: self.file_hash@,
            message: self.message@,
        }
    }
}

impl DeepView for PassportElementErrorReverseSide {
    type V = PassportElementErrorReverseSideView;

    open spec fn deep_view(&self) -> PassportElementErrorReverseSideView {
        self.view()
    }
}

impl PassportElementErrorReverseSide {
    pub fn new(source: String, kind: String, file_hash: String, message: String) -> (r: Self)
        ensures
            r.source == source,
            r.kind == kind,
            r.file_hash == file_hash,
            r.message == message,
    {
        Self {
            source,
            kind,
            file_hash,
            message,
        }
    }

    pub fn new_driver_license(source: String, file_hash: String, message: String) -> (r: Self)
        ensures
            r.source == source,
            r.kind@ == "driver_license"@,
            r.file_hash == file_hash,
            r.message == message,
    {
        Self::new(source, String::from_str("driver_license"), file_hash, message)
    }

    pub fn new_identity_card(source: String, file_hash: String, message: String) -> (r: Self)
        ensures
            r.source == source,
            r.kind@ == "identity_card"@,
            r.file_hash == file_hash,
            r.message == message,
    {
        Self::new(source, String::from_str("identity_card"), file_hash, message)
    }
}

/// Represents an issue with the selfie with a document. The error is considered resolved when the file with th...
pub struct PassportElementErrorSelfie {
    pub source: String,
    pub kind: String,
    pub file_hash: String,
    pub message: String,
}

pub struct PassportElementErrorSelfieView {
    pub source: Seq<char>,
    pub kind: Seq<char>,
    pub file_hash: Seq<char>,
    pub message: Seq<char>,
}

impl View for PassportElementErrorSelfie {
    type V = PassportElementErrorSelfieView;

    open spec fn view(&self) -> PassportElementErrorSelfieView {
        PassportElementErrorSelfieView {
            source: self.source@,
            kind: self.kind@,
            file_hash: self.file_hash@,
            message: self.message@,
        }
    }
}

impl DeepView for PassportElementErrorSelfie {
    type V = PassportElementErrorSelfieView;

    open spec fn deep_view(&self) -> PassportElementErrorSelfieView {
        self.view()
    }
}

impl PassportElementErrorSelfie {
    pub fn new(source: String, kind: String, file_hash: String, message: String) -> (r: Self)
        ensures
            r.source == source,
            r.kind == kind,
            r.file_hash == file_hash,
            r.message == message,
    {
        Self {
            source,
            kind,
            file_hash,
            message,
        }
    }

    pub fn new_passport(source: String, file_hash: String, message: String) -> (r: Self)
        ensures
            r.source == source,
            r.kind@ == "passport"@,
            r.file_hash == file_hash,
            r.message == message,
    {
        Self::new(source, String::from_str("passport"), file_hash, message)
    }

    pub fn new_driver_license(source: String, file_hash: String, message: String) -> (r: Self)
        ensures
            r.source == source,
            r.kind@ == "driver_license"@,
            r.file_hash == file_hash,
            r.message == message,
    {
        Self::new(source, String::from_str("driver_license"), file_hash, message)
    }

    pub fn new_identity_card(source: String, file_hash: String, message: String) -> (r: Self)
        ensures
            r.source == source,
            r.kind@ == "identity_card"@,
            r.file_hash == file_hash,
            r.message == message,
    {
        Self::new(source, String::from_str("identity_card"), file_hash, message)
    }

    pub fn new_internal_passport(source: String, file_hash: String, message: String) -> (r: Self)
        ensures
            r.source == source,
            r.kind@ == "internal_passport"@,
            r.file_hash == file_hash,
            r.message == message,
    {
        Self::new(source, String::from_str("internal_passport"), file_hash, message)
    }
}

/// Represents an issue with a document scan. The error is considered resolved when the file with the document ...
pub struct PassportElementErrorFile {
    pub source: String,
    pub kind: String,
    pub file_hash: String,
    pub message: String,
}

pub struct PassportElementErrorFileView {
    pub source: Seq<char>,
    pub kind: Seq<char>,
    pub file_hash: Seq<char>,
    pub message: Seq<char>,
}

impl View for PassportElementErrorFile {
    type V = PassportElementErrorFileView;

    open spec fn view(&self) -> PassportElementErrorFileView {
        PassportElementErrorFileView {
            source: self.source@,
            kind: self.kind@,
            file_hash: self.file_hash@,
            message: self.message@,
        }
    }
}

impl DeepView for PassportElementErrorFile {
    type V = PassportElementErrorFileView;

    open spec fn deep_view(&self) -> PassportElementErrorFileView {
        self.view()
    }
}

impl PassportElementErrorFile {
    pub fn new(source: String, kind: String, file_hash: String, message: String) -> (r: Self)
        ensures
            r.source == source,
            r.kind == kind,
            r.file_hash == file_hash,
            r.message == message,
    {
        Self {
            source,
            kind,
            file_hash,
            message,
        }
    }

    pub fn new_utility_bill(source: String, file_hash: String, message: String) -> (r: Self)
        ensures
            r.source == source,
            r.kind@ == "utility_bill"@,
            r.file_hash == file_hash,
            r.message == message,
    {
        Self::new(source, String::from_str("utility_bill"), file_hash, message)
    }

    pub fn new_bank_statement(source: String, file_hash: String, message: String) -> (r: Self)
        ensures
            r.source == source,
            r.kind@ == "bank_statement"@,
            r.file_hash == file_hash,
            r.message == message,
    {
        Self::new(source, String::from_str("bank_statement"), file_hash, message)
    }

    pub fn new_rental_agreement(source: String, file_hash: String, message: String) -> (r: Self)
        ensures
            r.source == source,
            r.kind@ == "rental_agreement"@,
            r.file_hash == file_hash,
            r.message == message,
    {
        Self::new(source, String::from_str("rental_agreement"), file_hash, message)
    }

    pub fn new_passport_registration(source: String, file_hash: String, message: String) -> (r: Self)
        ensures
            r.source == source,
            r.kind@ == "passport_registration"@,
            r.file_hash == file_hash,
            r.message == message,
    {
        Self::new(source, String::from_str("passport_registration"), file_hash, message)
    }

    pub fn new_temporary_registration(source: String, file_hash: String, message: String) -> (r: Self)
        ensures
            r.source == source,
            r.kind@ == "temporary_registration"@,
            r.file_hash == file_hash,
            r.message == message,
    {
        Self::new(source, String::from_str("temporary_registration"), file_hash, message)
    }
}

/// Represents an issue with a list of scans. The error is considered resolved when the list of files containin...
pub struct PassportElementErrorFiles {
    pub source: String,
    pub kind: String,
    pub file_hashes: Vec<String>,
    pub message: String,
}

pub struct PassportElementErrorFilesView {
    pub source: Seq<char>,
    pub kind: Seq<char>,
    pub file_hashes: Seq<Seq<char>>,
    pub message: Seq<char>,
}

impl View for PassportElementErrorFiles {
    type V = PassportElementErrorFilesView;

    open spec fn view(&self) -> PassportElementErrorFilesView {
        PassportElementErrorFilesView {
            source: self.source@,
            kind: self.kind@,
            file_hashes: self.file_hashes.deep_view(),
            message: self.message@,
        }
    }
}

impl DeepView for PassportElementErrorFiles {
    type V = PassportElementErrorFilesView;

    open spec fn deep_view(&self) -> PassportElementErrorFilesView {
        self.view()
    }
}

impl PassportElementErrorFiles {
    pub fn new(source: String, kind: String, file_hashes: Vec<String>, message: String) -> (r: Self)
        ensures
            r.source == source,
            r.kind == kind,
            r.file_hashes == file_hashes,
            r.message == message,
    {
        Self {
            source,
            kind,
            file_hashes,
            message,
        }
    }

    pub fn new_utility_bill(source: String, file_hashes: Vec<String>, message: String) -> (r: Self)
        ensures
            r.source == source,
            r.kind@ == "utility_bill"@,
            r.file_hashes == file_hashes,
            r.message == message,
    {
        Self::new(source, String::from_str("utility_bill"), file_hashes, message)
    }

    pub fn new_bank_statement(source: String, file_hashes: Vec<String>, message: String) -> (r: Self)
        ensures
            r.source == source,
            r.kind@ == "bank_statement"@,
            r.file_hashes == file_hashes,
            r.message == message,
    {
        Self::new(source, String::from_str("bank_statement"), file_hashes, message)
    }

    pub fn new_rental_agreement(source: String, file_hashes: Vec<String>, message: String) -> (r: Self)
        ensures
            r.source == source,
            r.kind@ == "rental_agreement"@,
            r.file_hashes == file_hashes,
            r.message == message,
    {
        Self::new(source, String::from_str("rental_agreement"), file_hashes, message)
    }

    pub fn new_passport_registration(source: String, file_hashes: Vec<String>, message: String) -> (r: Self)
        ensures
            r.source == source,
            r.kind@ == "passport_registration"@,
            r.file_hashes == file_hashes,
            r.message == message,
    {
        Self::new(source, String::from_str("passport_registration"), file_hashes, message)
    }

    pub fn new_temporary_registration(source: String, file_hashes: Vec<String>, message: String) -> (r: Self)
        ensures
            r.source == source,
            r.kind@ == "temporary_registration"@,
            r.file_hashes == file_hashes,
            r.message == message,
    {
        Self::new(source, String::from_str("temporary_registration"), file_hashes, message)
    }
}

/// Represents an issue with one of the files that constitute the translation of a document. The error is consi...
pub struct PassportElementErrorTranslationFile {
    pub source: String,
    pub kind: String,
    pub file_hash: String,
    pub message: String,
}

pub struct PassportElementErrorTranslationFileView {
    pub source: Seq<char>,
    pub kind: Seq<char>,
    pub file_hash: Seq<char>,
    pub message: Seq<char>,
}

impl View for PassportElementErrorTranslationFile {
    type V = PassportElementErrorTranslationFileView;

    open spec fn view(&self) -> PassportElementErrorTranslationFileView {
        PassportElementErrorTranslationFileView {
            source: self.source@,
            kind: self.kind@,
            file_hash: self.file_hash@,
            message: self.message@,
        }
    }
}

impl DeepView for PassportElementErrorTranslationFile {
    type V = PassportElementErrorTranslationFileView;

    open spec fn deep_view(&self) -> PassportElementErrorTranslationFileView {
        self.view()
    }
}

impl PassportElementErrorTranslationFile {
    pub fn new(source: String, kind: String, file_hash: String, message: String) -> (r: Self)
        ensures
            r.source == source,
            r.kind == kind,
            r.file_hash == file_hash,
            r.message == message,
    {
        Self {
            source,
            kind,
            file_hash,
            message,
        }
    }

    pub fn new_passport(source: String, file_hash: String, message: String) -> (r: Self)
        ensures
            r.source == source,
            r.kind@ == "passport"@,
            r.file_hash == file_hash,
            r.message == message,
    {
        Self::new(source, String::from_str("passport"), file_hash, message)
    }

    pub fn new_driver_license(source: String, file_hash: String, message: String) -> (r: Self)
        ensures
            r.source == source,
            r.kind@ == "driver_license"@,
            r.file_hash == file_hash,
            r.message == message,
    {
        Self::new(source, String::from_str("driver_license"), file_hash, message)
    }

    pub fn new_identity_card(source: String, file_hash: String, message: String) -> (r: Self)
        ensures
            r.source == source,
            r.kind@ == "identity_card"@,
            r.file_hash == file_hash,
            r.message == message,
    {
        Self::new(source, String::from_str("identity_card"), file_hash, message)
    }

    pub fn new_internal_passport(source: String, file_hash: String, message: String) -> (r: Self)
        ensures
            r.source == source,
            r.kind@ == "internal_passport"@,
            r.file_hash == file_hash,
            r.message == message,
    {
        Self::new(source, String::from_str("internal_passport"), file_hash, message)
    }

    pub fn new_utility_bill(source: String, file_hash: String, message: String) -> (r: Self)
        ensures
            r.source == source,
            r.kind@ == "utility_bill"@,
            r.file_hash == file_hash,
            r.message == message,
    {
        Self::new(source, String::from_str("utility_bill"), file_hash, message)
    }

    pub fn new_bank_statement(source: String, file_hash: String, message: String) -> (r: Self)
        ensures
            r.source == source,
            r.kind@ == "bank_statement"@,
            r.file_hash == file_hash,
            r.message == message,
    {
        Self::new(source, String::from_str("bank_statement"), file_hash, message)
    }

    pub fn new_rental_agreement(source: String, file_hash: String, message: String) -> (r: Self)
        ensures
            r.source == source,
            r.kind@ == "rental_agreement"@,
            r.file_hash == file_hash,
            r.message == message,
    {
        Self::new(source, String::from_str("rental_agreement"), file_hash, message)
    }

    pub fn new_passport_registration(source: String, file_hash: String, message: String) -> (r: Self)
        ensures
            r.source == source,
            r.kind@ == "passport_registration"@,
            r.file_hash == file_hash,
            r.message == message,
    {
        Self::new(source, String::from_str("passport_registration"), file_hash, message)
    }

    pub fn new_temporary_registration(source: String, file_hash: String, message: String) -> (r: Self)
        ensures
            r.source == source,
            r.kind@ == "temporary_registration"@,
            r.file_hash == file_hash,
            r.message == message,
    {
        Self::new(source, String::from_str("temporary_registration"), file_hash, message)
    }
}

/// Represents an issue with the translated version of a document. The error is considered resolved when a file...
pub struct PassportElementErrorTranslationFiles {
    pub source: String,
    pub kind: String,
    pub file_hashes: Vec<String>,
    pub message: String,
}

pub struct PassportElementErrorTranslationFilesView {
    pub source: Seq<char>,
    pub kind: Seq<char>,
    pub file_hashes: Seq<Seq<char>>,
    pub message: Seq<char>,
}

impl View for PassportElementErrorTranslationFiles {
    type V = PassportElementErrorTranslationFilesView;

    open spec fn view(&self) -> PassportElementErrorTranslationFilesView {
        PassportElementErrorTranslationFilesView {
            source: self.source@,
            kind: self.kind@,
            file_hashes: self.file_hashes.deep_view(),
            message: self.message@,
        }
    }
}

impl DeepView for PassportElementErrorTranslationFiles {
    type V = PassportElementErrorTranslationFilesView;

    open spec fn deep_view(&self) -> PassportElementErrorTranslationFilesView {
        self.view()
    }
}

impl PassportElementErrorTranslationFiles {
    pub fn new(source: String, kind: String, file_hashes: Vec<String>, message: String) -> (r: Self)
        ensures
            r.source == source,
            r.kind == kind,
            r.file_hashes == file_hashes,
            r.message == message,
    {
        Self {
            source,
            kind,
            file_hashes,
            message,
        }
    }

    pub fn new_passport(source: String, file_hashes: Vec<String>, message: String) -> (r: Self)
        ensures
            r.source == source,
            r.kind@ == "passport"@,
            r.file_hashes == file_hashes,
            r.message == message,
    {
        Self::new(source, String::from_str("passport"), file_hashes, message)
    }

    pub fn new_driver_license(source: String, file_hashes: Vec<String>, message: String) -> (r: Self)
        ensures
            r.source == source,
            r.kind@ == "driver_license"@,
            r.file_hashes == file_hashes,
            r.message == message,
    {
        Self::new(source, String::from_str("driver_license"), file_hashes, message)
    }

    pub fn new_identity_card(source: String, file_hashes: Vec<String>, message: String) -> (r: Self)
        ensures
            r.source == source,
            r.kind@ == "identity_card"@,
            r.file_hashes == file_hashes,
            r.message == message,
    {
        Self::new(source, String::from_str("identity_card"), file_hashes, message)
    }

    pub fn new_internal_passport(source: String, file_hashes: Vec<String>, message: String) -> (r: Self)
        ensures
            r.source == source,
            r.kind@ == "internal_passport"@,
            r.file_hashes == file_hashes,
            r.message == message,
    {
        Self::new(source, String::from_str("internal_passport"), file_hashes, message)
    }

    pub fn new_utility_bill(source: String, file_hashes: Vec<String>, message: String) -> (r: Self)
        ensures
            r.source == source,
            r.kind@ == "utility_bill"@,
            r.file_hashes == file_hashes,
            r.message == message,
    {
        Self::new(source, String::from_str("utility_bill"), file_hashes, message)
    }

    pub fn new_bank_statement(source: String, file_hashes: Vec<String>, message: String) -> (r: Self)
        ensures
            r.source == source,
            r.kind@ == "bank_statement"@,
            r.file_hashes == file_hashes,
            r.message == message,
    {
        Self::new(source, String::from_str("bank_statement"), file_hashes, message)
    }

    pub fn new_rental_agreement(source: String, file_hashes: Vec<String>, message: String) -> (r: Self)
        ensures
            r.source == source,
            r.kind@ == "rental_agreement"@,
            r.file_hashes == file_hashes,
            r.message == message,
    {
        Self::new(source, String::from_str("rental_agreement"), file_hashes, message)
    }

    pub fn new_passport_registration(source: String, file_hashes: Vec<String>, message: String) -> (r: Self)
        ensures
            r.source == source,
            r.kind@ == "passport_registration"@,
            r.file_hashes == file_hashes,
            r.message == message,
    {
        Self::new(source, String::from_str("passport_registration"), file_hashes, message)
    }

    pub fn new_temporary_registration(source: String, file_hashes: Vec<String>, message: String) -> (r: Self)
        ensures
            r.source == source,
            r.kind@ == "temporary_registration"@,
            r.file_hashes == file_hashes,
            r.message == message,
    {
        Self::new(source, String::from_str("temporary_registration"), file_hashes, message)
    }
}

/// Represents an issue in an unspecified place. The error is considered resolved when new data is added.
pub struct PassportElementErrorUnspecified {
    pub source: String,
    pub kind: String,
    pub element_hash: String,
    pub message: String,
}

pub struct PassportElementErrorUnspecifiedView {
    pub source: Seq<char>,
    pub kind: Seq<char>,
    pub element_hash: Seq<char>,
    pub message: Seq<char>,
}

impl View for PassportElementErrorUnspecified {
    type V = PassportElementErrorUnspecifiedView;

    open spec fn view(&self) -> PassportElementErrorUnspecifiedView {
        PassportElementErrorUnspecifiedView {
            source: self.source@,
            kind: self.kind@,
            element_hash: self.element_hash@,
            message: self.message@,
        }
    }
}

impl DeepView for PassportElementErrorUnspecified {
    type V = PassportElementErrorUnspecifiedView;

    open spec fn deep_view(&self) -> PassportElementErrorUnspecifiedView {
        self.view()
    }
}

impl PassportElementErrorUnspecified {
    pub fn new(source: String, kind: String, element_hash: String, message: String) -> (r: Self)
        ensures
            r.source == source,
            r.kind == kind,
            r.element_hash == element_hash,
            r.message == message,
    {
        Self {
            source,
            kind,
            element_hash,
            message,
        }
    }
}

impl MessageEntity {
    pub fn new_mention(offset: i64, length: i64) -> (r: Self)
        ensures
            r.kind@ == "mention"@,
            r.offset == offset,
            r.length == length,
            r.url is None,
            r.user is None,
            r.language is None,
            r.custom_emoji_id is None,
    {
        Self::new(String::from_str("mention"), offset, length)
    }

    pub fn new_hashtag(offset: i64, length: i64) -> (r: Self)
        ensures
            r.kind@ == "hashtag"@,
            r.offset == offset,
            r.length == length,
            r.url is None,
            r.user is None,
            r.language is None,
            r.custom_emoji_id is None,
    {
        Self::new(String::from_str("hashtag"), offset, length)
    }

    pub fn new_cashtag(offset: i64, length: i64) -> (r: Self)
        ensures
            r.kind@ == "cashtag"@,
            r.offset == offset,
            r.length == length,
            r.url is None,
            r.user is None,
            r.language is None,
            r.custom_emoji_id is None,
    {
        Self::new(String::from_str("cashtag"), offset, length)
    }

    pub fn new_bot_command(offset: i64, length: i64) -> (r: Self)
        ensures
            r.kind@ == "bot_command"@,
            r.offset == offset,
            r.length == length,
            r.url is None,
            r.user is None,
            r.language is None,
            r.custom_emoji_id is None,
    {
        Self::new(String::from_str("bot_command"), offset, length)
    }

    pub fn new_url(offset: i64, length: i64) -> (r: Self)
        ensures
            r.kind@ == "url"@,
            r.offset == offset,
            r.length == length,
            r.url is None,
            r.user is None,
            r.language is None,
            r.custom_emoji_id is None,
    {
        Self::new(String::from_str("url"), offset, length)
    }

    pub fn new_email(offset: i64, length: i64) -> (r: Self)
        ensures
            r.kind@ == "email"@,
            r.offset == offset,
            r.length == length,
            r.url is None,
            r.user is None,
            r.language is None,
            r.custom_emoji_id is None,
    {
        Self::new(String::from_str("email"), offset, length)
    }

    pub fn new_phone_number(offset: i64, length: i64) -> (r: Self)
        ensures
            r.kind@ == "phone_number"@,
            r.offset == offset,
            r.length == length,
            r.url is None,
            r.user is None,
            r.language is None,
            r.custom_emoji_id is None,
    {
        Self::new(String::from_str("phone_number"), offset, length)
    }

    pub fn new_bold(offset: i64, length: i64) -> (r: Self)
        ensures
            r.kind@ == "bold"@,
            r.offset == offset,
            r.length == length,
            r.url is None,
            r.user is None,
            r.language is None,
            r.custom_emoji_id is None,
    {
        Self::new(String::from_str("bold"), offset, length)
    }

    pub fn new_italic(offset: i64, length: i64) -> (r: Self)
        ensures
            r.kind@ == "italic"@,
            r.offset == offset,
            r.length == length,
            r.url is None,
            r.user is None,
            r.language is None,
            r.custom_emoji_id is None,
    {
        Self::new(String::from_str("italic"), offset, length)
    }

    pub fn new_underline(offset: i64, length: i64) -> (r: Self)
        ensures
            r.kind@ == "underline"@,
            r.offset == offset,
            r.length == length,
            r.url is None,
            r.user is None,
            r.language is None,
            r.custom_emoji_id is None,
    {
        Self::new(String::from_str("underline"), offset, length)
    }

    pub fn new_strikethrough(offset: i64, length: i64) -> (r: Self)
        ensures
            r.kind@ == "strikethrough"@,
            r.offset == offset,
            r.length == length,
            r.url is None,
            r.user is None,
            r.language is None,
            r.custom_emoji_id is None,
    {
        Self::new(String::from_str("strikethrough"), offset, length)
    }

    pub fn new_code(offset: i64, length: i64) -> (r: Self)
        ensures
            r.kind@ == "code"@,
            r.offset == offset,
            r.length == length,
            r.url is None,
            r.user is None,
            r.language is None,
            r.custom_emoji_id is None,
    {
        Self::new(String::from_str("code"), offset, length)
    }

    pub fn new_pre(offset: i64, length: i64) -> (r: Self)
        ensures
            r.kind@ == "pre"@,
            r.offset == offset,
            r.length == length,
            r.url is None,
            r.user is None,
            r.language is None,
            r.custom_emoji_id is None,
    {
        Self::new(String::from_str("pre"), offset, length)
    }

    pub fn new_text_link(offset: i64, length: i64) -> (r: Self)
        ensures
            r.kind@ == "text_link"@,
            r.offset == offset,
            r.length == length,
            r.url is None,
            r.user is None,
            r.language is None,
            r.custom_emoji_id is None,
    {
        Self::new(String::from_str("text_link"), offset, length)
    }

    pub fn new_text_mention(offset: i64, length: i64) -> (r: Self)
        ensures
            r.kind@ == "text_mention"@,
            r.offset == offset,
            r.length == length,
            r.url is None,
            r.user is None,
            r.language is None,
            r.custom_emoji_id is None,
    {
        Self::new(String::from_str("text_mention"), offset, length)
    }
}

/// The denotation of a list of `BotCommand` values.
pub open spec fn bot_commands_jvals(s: Seq<BotCommandView>) -> Seq<JVal> {
    s.map_values(|e: BotCommandView| e.to_jval())
}

/// A JSON array holding each element of the list, in order.
pub fn bot_commands_json(es: &Vec<BotCommand>) -> (r: JsonValue)
    ensures
        r@ == JVal::Arr(bot_commands_jvals(es.deep_view())),
{
    let mut out: Vec<JsonValue> = Vec::new();
    let mut i: usize = 0;
    while i < es.len()
        invariant
            i <= es@.len(),
            out@.len() == i as int,
            forall|j: int| 0 <= j < i ==> (#[trigger] out@[j])@ == es@[j]@.to_jval(),
        decreases es@.len() - i,
    {
        out.push(es[i].to_json());
        i += 1;
    }
    let r = JsonValue::Arr(out);
    proof {
        assert(jvals_view(out@) =~= bot_commands_jvals(es.deep_view()));
        assert(r@ =~~= JVal::Arr(bot_commands_jvals(es.deep_view())));
    }
    r
}

/// The denotation of a list of `LabeledPrice` values.
pub open spec fn labeled_prices_jvals(s: Seq<LabeledPriceView>) -> Seq<JVal> {
    s.map_values(|e: LabeledPriceView| e.to_jval())
}

/// A JSON array holding each element of the list, in order.
pub fn labeled_prices_json(es: &Vec<LabeledPrice>) -> (r: JsonValue)
    ensures
        r@ == JVal::Arr(labeled_prices_jvals(es.deep_view())),
{
    let mut out: Vec<JsonValue> = Vec::new();
    let mut i: usize = 0;
    while i < es.len()
        invariant
            i <= es@.len(),
            out@.len() == i as int,
            forall|j: int| 0 <= j < i ==> (#[trigger] out@[j])@ == es@[j]@.to_jval(),
        decreases es@.len() - i,
    {
        out.push(es[i].to_json());
        i += 1;
    }
    let r = JsonValue::Arr(out);
    proof {
        assert(jvals_view(out@) =~= labeled_prices_jvals(es.deep_view()));
        assert(r@ =~~= JVal::Arr(labeled_prices_jvals(es.deep_view())));
    }
    r
}

/// The denotation of a list of `ShippingOption` values.
pub open spec fn shipping_options_jvals(s: Seq<ShippingOptionView>) -> Seq<JVal> {
    s.map_values(|e: ShippingOptionView| e.to_jval())
}

/// A JSON array holding each element of the list, in order.
pub fn shipping_options_json(es: &Vec<ShippingOption>) -> (r: JsonValue)
    ensures
        r@ == JVal::Arr(shipping_options_jvals(es.deep_view())),
{
    let mut out: Vec<JsonValue> = Vec::new();
    let mut i: usize = 0;
    while i < es.len()
        invariant
            i <= es@.len(),
            out@.len() == i as int,
            forall|j: int| 0 <= j < i ==> (#[trigger] out@[j])@ == es@[j]@.to_jval(),
        decreases es@.len() - i,
    {
        out.push(es[i].to_json());
        i += 1;
    }
    let r = JsonValue::Arr(out);
    proof {
        assert(jvals_view(out@) =~= shipping_options_jvals(es.deep_view()));
        assert(r@ =~~= JVal::Arr(shipping_options_jvals(es.deep_view())));
    }
    r
}

/// The denotation of a list of `InlineKeyboardButton` values.
pub open spec fn inline_keyboard_buttons_jvals(s: Seq<InlineKeyboardButtonView>) -> Seq<JVal> {
    s.map_values(|e: InlineKeyboardButtonView| e.to_jval())
}

/// A JSON array holding each element of the list, in order.
pub fn inline_keyboard_buttons_json(es: &Vec<InlineKeyboardButton>) -> (r: JsonValue)
    ensures
        r@ == JVal::Arr(inline_keyboard_buttons_jvals(es.deep_view())),
{
    let mut out: Vec<JsonValue> = Vec::new();
    let mut i: usize = 0;
    while i < es.len()
        invariant
            i <= es@.len(),
            out@.len() == i as int,
            forall|j: int| 0 <= j < i ==> (#[trigger] out@[j])@ == es@[j]@.to_jval(),
        decreases es@.len() - i,
    {
        out.push(es[i].to_json());
        i += 1;
    }
    let r = JsonValue::Arr(out);
    proof {
        assert(jvals_view(out@) =~= inline_keyboard_buttons_jvals(es.deep_view()));
        assert(r@ =~~= JVal::Arr(inline_keyboard_buttons_jvals(es.deep_view())));
    }
    r
}

/// The denotation of a list of `KeyboardButton` values.
pub open spec fn keyboard_buttons_jvals(s: Seq<KeyboardButtonView>) -> Seq<JVal> {
    s.map_values(|e: KeyboardButtonView| e.to_jval())
}

/// A JSON array holding each element of the list, in order.
pub fn keyboard_buttons_json(es: &Vec<KeyboardButton>) -> (r: JsonValue)
    ensures
        r@ == JVal::Arr(keyboard_buttons_jvals(es.deep_view())),
{
    let mut out: Vec<JsonValue> = Vec::new();
    let mut i: usize = 0;
    while i < es.len()
        invariant
            i <= es@.len(),
            out@.len() == i as int,
            forall|j: int| 0 <= j < i ==> (#[trigger] out@[j])@ == es@[j]@.to_jval(),
        decreases es@.len() - i,
    {
        out.push(es[i].to_json());
        i += 1;
    }
    let r = JsonValue::Arr(out);
    proof {
        assert(jvals_view(out@) =~= keyboard_buttons_jvals(es.deep_view()));
        assert(r@ =~~= JVal::Arr(keyboard_buttons_jvals(es.deep_view())));
    }
    r
}

/// The denotation of a list of `PassportElementError` values.
pub open spec fn passport_errors_jvals(s: Seq<PassportElementErrorView>) -> Seq<JVal> {
    s.map_values(|e: PassportElementErrorView| e.to_jval())
}

/// A JSON array holding each element of the list, in order.
pub fn passport_errors_json(es: &Vec<PassportElementError>) -> (r: JsonValue)
    ensures
        r@ == JVal::Arr(passport_errors_jvals(es.deep_view())),
{
    let mut out: Vec<JsonValue> = Vec::new();
    let mut i: usize = 0;
    while i < es.len()
        invariant
            i <= es@.len(),
            out@.len() == i as int,
            forall|j: int| 0 <= j < i ==> (#[trigger] out@[j])@ == es@[j]@.to_jval(),
        decreases es@.len() - i,
    {
        out.push(es[i].to_json());
        i += 1;
    }
    let r = JsonValue::Arr(out);
    proof {
        assert(jvals_view(out@) =~= passport_errors_jvals(es.deep_view()));
        assert(r@ =~~= JVal::Arr(passport_errors_jvals(es.deep_view())));
    }
    r
}

/// The denotation of a grid of `InlineKeyboardButton` values.
pub open spec fn inline_keyboard_rows_jvals(s: Seq<Seq<InlineKeyboardButtonView>>) -> Seq<JVal> {
    s.map_values(|row: Seq<InlineKeyboardButtonView>| JVal::Arr(inline_keyboard_buttons_jvals(row)))
}

/// A JSON array of arrays holding the grid, row by row.
pub fn inline_keyboard_rows_json(rows: &Vec<Vec<InlineKeyboardButton>>) -> (r: JsonValue)
    ensures
        r@ == JVal::Arr(inline_keyboard_rows_jvals(rows.deep_view())),
{
    let mut out: Vec<JsonValue> = Vec::new();
    let mut i: usize = 0;
    while i < rows.len()
        invariant
            i <= rows@.len(),
            out@.len() == i as int,
            forall|j: int|
                0 <= j < i ==> (#[trigger] out@[j])@ == JVal::Arr(inline_keyboard_buttons_jvals(
                    rows@[j].deep_view(),
                )),
        decreases rows@.len() - i,
    {
        out.push(inline_keyboard_buttons_json(&rows[i]));
        i += 1;
    }
    let r = JsonValue::Arr(out);
    proof {
        assert(jvals_view(out@) =~= inline_keyboard_rows_jvals(rows.deep_view()));
        assert(r@ =~~= JVal::Arr(inline_keyboard_rows_jvals(rows.deep_view())));
    }
    r
}

/// The denotation of a grid of `KeyboardButton` values.
pub open spec fn keyboard_rows_jvals(s: Seq<Seq<KeyboardButtonView>>) -> Seq<JVal> {
    s.map_values(|row: Seq<KeyboardButtonView>| JVal::Arr(keyboard_buttons_jvals(row)))
}

/// A JSON array of arrays holding the grid, row by row.
pub fn keyboard_rows_json(rows: &Vec<Vec<KeyboardButton>>) -> (r: JsonValue)
    ensures
        r@ == JVal::Arr(keyboard_rows_jvals(rows.deep_view())),
{
    let mut out: Vec<JsonValue> = Vec::new();
    let mut i: usize = 0;
    while i < rows.len()
        invariant
            i <= rows@.len(),
            out@.len() == i as int,
            forall|j: int|
                0 <= j < i ==> (#[trigger] out@[j])@ == JVal::Arr(keyboard_buttons_jvals(
                    rows@[j].deep_view(),
                )),
        decreases rows@.len() - i,
    {
        out.push(keyboard_buttons_json(&rows[i]));
        i += 1;
    }
    let r = JsonValue::Arr(out);
    proof {
        assert(jvals_view(out@) =~= keyboard_rows_jvals(rows.deep_view()));
        assert(r@ =~~= JVal::Arr(keyboard_rows_jvals(rows.deep_view())));
    }
    r
}

/// Additional interface options. A JSON-serialized object for an inline keyboard, custom reply keyboard, instr...
pub enum ReplyMarkup {
    InlineKeyboardMarkup(InlineKeyboardMarkup),
    ReplyKeyboardMarkup(ReplyKeyboardMarkup),
    ReplyKeyboardRemove(ReplyKeyboardRemove),
    ForceReply(ForceReply),
}

pub enum ReplyMarkupView {
    InlineKeyboardMarkup(InlineKeyboardMarkupView),
    ReplyKeyboardMarkup(ReplyKeyboardMarkupView),
    ReplyKeyboardRemove(ReplyKeyboardRemoveView),
    ForceReply(ForceReplyView),
}

impl View for ReplyMarkup {
    type V = ReplyMarkupView;

    open spec fn view(&self) -> ReplyMarkupView {
        match self {
            ReplyMarkup::InlineKeyboardMarkup(x) => ReplyMarkupView::InlineKeyboardMarkup(x@),
            ReplyMarkup::ReplyKeyboardMarkup(x) => ReplyMarkupView::ReplyKeyboardMarkup(x@),
            ReplyMarkup::ReplyKeyboardRemove(x) => ReplyMarkupView::ReplyKeyboardRemove(x@),
            ReplyMarkup::ForceReply(x) => ReplyMarkupView::ForceReply(x@),
        }
    }
}

impl DeepView for ReplyMarkup {
    type V = ReplyMarkupView;

    open spec fn deep_view(&self) -> ReplyMarkupView {
        self.view()
    }
}

impl ReplyMarkupView {
    pub open spec fn to_jval(self) -> JVal {
        match self {
            ReplyMarkupView::InlineKeyboardMarkup(x) => x.to_jval(),
            ReplyMarkupView::ReplyKeyboardMarkup(x) => x.to_jval(),
            ReplyMarkupView::ReplyKeyboardRemove(x) => x.to_jval(),
            ReplyMarkupView::ForceReply(x) => x.to_jval(),
        }
    }
}

impl ReplyMarkup {
    pub fn to_json(&self) -> (r: JsonValue)
        ensures
            r@ == self@.to_jval(),
    {
        match self {
            ReplyMarkup::InlineKeyboardMarkup(x) => x.to_json(),
            ReplyMarkup::ReplyKeyboardMarkup(x) => x.to_json(),
            ReplyMarkup::ReplyKeyboardRemove(x) => x.to_json(),
            ReplyMarkup::ForceReply(x) => x.to_json(),
        }
    }
}

/// This object represents the scope to which bot commands are applied. Currently, the following 7 scopes are s...
pub enum BotCommandScope {
    BotCommandScopeDefault(BotCommandScopeDefault),
    BotCommandScopeAllPrivateChats(BotCommandScopeAllPrivateChats),
    BotCommandScopeAllGroupChats(BotCommandScopeAllGroupChats),
    BotCommandScopeAllChatAdministrators(BotCommandScopeAllChatAdministrators),
    BotCommandScopeChat(BotCommandScopeChat),
    BotCommandScopeChatAdministrators(BotCommandScopeChatAdministrators),
    BotCommandScopeChatMember(BotCommandScopeChatMember),
}

pub enum BotCommandScopeView {
    BotCommandScopeDefault(BotCommandScopeDefaultView),
    BotCommandScopeAllPrivateChats(BotCommandScopeAllPrivateChatsView),
    BotCommandScopeAllGroupChats(BotCommandScopeAllGroupChatsView),
    BotCommandScopeAllChatAdministrators(BotCommandScopeAllChatAdministratorsView),
    BotCommandScopeChat(BotCommandScopeChatView),
    BotCommandScopeChatAdministrators(BotCommandScopeChatAdministratorsView),
    BotCommandScopeChatMember(BotCommandScopeChatMemberView),
}

impl View for BotCommandScope {
    type V = BotCommandScopeView;

    open spec fn view(&self) -> BotCommandScopeView {
        match self {
            BotCommandScope::BotCommandScopeDefault(x) => BotCommandScopeView::BotCommandScopeDefault(x@),
            BotCommandScope::BotCommandScopeAllPrivateChats(x) => BotCommandScopeView::BotCommandScopeAllPrivateChats(x@),
            BotCommandScope::BotCommandScopeAllGroupChats(x) => BotCommandScopeView::BotCommandScopeAllGroupChats(x@),
            BotCommandScope::BotCommandScopeAllChatAdministrators(x) => BotCommandScopeView::BotCommandScopeAllChatAdministrators(x@),
            BotCommandScope::BotCommandScopeChat(x) => BotCommandScopeView::BotCommandScopeChat(x@),
            BotCommandScope::BotCommandScopeChatAdministrators(x) => BotCommandScopeView::BotCommandScopeChatAdministrators(x@),
            BotCommandScope::BotCommandScopeChatMember(x) => BotCommandScopeView::BotCommandScopeChatMember(x@),
        }
    }
}

impl DeepView for BotCommandScope {
    type V = BotCommandScopeView;

    open spec fn deep_view(&self) -> BotCommandScopeView {
        self.view()
    }
}

impl BotCommandScopeView {
    pub open spec fn to_jval(self) -> JVal {
        match self {
            BotCommandScopeView::BotCommandScopeDefault(x) => JVal::Obj(str_member("type"@, "default"@)),
            BotCommandScopeView::BotCommandScopeAllPrivateChats(x) => JVal::Obj(str_member("type"@, "all_private_chats"@)),
            BotCommandScopeView::BotCommandScopeAllGroupChats(x) => JVal::Obj(str_member("type"@, "all_group_chats"@)),
            BotCommandScopeView::BotCommandScopeAllChatAdministrators(x) => JVal::Obj(str_member("type"@, "all_chat_administrators"@)),
            BotCommandScopeView::BotCommandScopeChat(x) => JVal::Obj(str_member("type"@, "chat"@) + member("chat_id"@, x.chat_id.to_jval())),
            BotCommandScopeView::BotCommandScopeChatAdministrators(x) => JVal::Obj(str_member("type"@, "chat_administrators"@) + member("chat_id"@, x.chat_id.to_jval())),
            BotCommandScopeView::BotCommandScopeChatMember(x) => JVal::Obj(str_member("type"@, "chat_member"@) + member("chat_id"@, x.chat_id.to_jval()) + i64_member("user_id"@, x.user_id)),
        }
    }
}

impl BotCommandScope {
    pub fn to_json(&self) -> (r: JsonValue)
        ensures
            r@ == self@.to_jval(),
    {
        match self {
            BotCommandScope::BotCommandScopeDefault(x) => {
                let mut f: Vec<(String, JsonValue)> = Vec::new();
                obj_push(&mut f, "type", JsonValue::Str(String::from_str("default")));
                let r = JsonValue::Obj(f);
                proof {
                    assert(r@ == self@.to_jval());
                }
                r
            },
            BotCommandScope::BotCommandScopeAllPrivateChats(x) => {
                let mut f: Vec<(String, JsonValue)> = Vec::new();
                obj_push(&mut f, "type", JsonValue::Str(String::from_str("all_private_chats")));
                let r = JsonValue::Obj(f);
                proof {
                    assert(r@ == self@.to_jval());
                }
                r
            },
            BotCommandScope::BotCommandScopeAllGroupChats(x) => {
                let mut f: Vec<(String, JsonValue)> = Vec::new();
                obj_push(&mut f, "type", JsonValue::Str(String::from_str("all_group_chats")));
                let r = JsonValue::Obj(f);
                proof {
                    assert(r@ == self@.to_jval());
                }
                r
            },
            BotCommandScope::BotCommandScopeAllChatAdministrators(x) => {
                let mut f: Vec<(String, JsonValue)> = Vec::new();
                obj_push(&mut f, "type", JsonValue::Str(String::from_str("all_chat_administrators")));
                let r = JsonValue::Obj(f);
                proof {
                    assert(r@ == self@.to_jval());
                }
                r
            },
            BotCommandScope::BotCommandScopeChat(x) => {
                let mut f: Vec<(String, JsonValue)> = Vec::new();
                obj_push(&mut f, "type", JsonValue::Str(String::from_str("chat")));
                obj_push(&mut f, "chat_id", x.chat_id.to_json());
                let r = JsonValue::Obj(f);
                proof {
                    assert(r@ == self@.to_jval());
                }
                r
            },
            BotCommandScope::BotCommandScopeChatAdministrators(x) => {
                let mut f: Vec<(String, JsonValue)> = Vec::new();
                obj_push(&mut f, "type", JsonValue::Str(String::from_str("chat_administrators")));
                obj_push(&mut f, "chat_id", x.chat_id.to_json());
                let r = JsonValue::Obj(f);
                proof {
                    assert(r@ == self@.to_jval());
                }
                r
            },
            BotCommandScope::BotCommandScopeChatMember(x) => {
                let mut f: Vec<(String, JsonValue)> = Vec::new();
                obj_push(&mut f, "type", JsonValue::Str(String::from_str("chat_member")));
                obj_push(&mut f, "chat_id", x.chat_id.to_json());
                obj_push_i64(&mut f, "user_id", x.user_id);
                let r = JsonValue::Obj(f);
                proof {
                    assert(r@ == self@.to_jval());
                }
                r
            },
        }
    }
}

/// This object describes the bot's menu button in a private chat. It should be one of
pub enum MenuButton {
    MenuButtonCommands(MenuButtonCommands),
    MenuButtonWebApp(MenuButtonWebApp),
    MenuButtonDefault(MenuButtonDefault),
}

pub enum MenuButtonView {
    MenuButtonCommands(MenuButtonCommandsView),
    MenuButtonWebApp(MenuButtonWebAppView),
    MenuButtonDefault(MenuButtonDefaultView),
}

impl View for MenuButton {
    type V = MenuButtonView;

    open spec fn view(&self) -> MenuButtonView {
        match self {
            MenuButton::MenuButtonCommands(x) => MenuButtonView::MenuButtonCommands(x@),
            MenuButton::MenuButtonWebApp(x) => MenuButtonView::MenuButtonWebApp(x@),
            MenuButton::MenuButtonDefault(x) => MenuButtonView::MenuButtonDefault(x@),
        }
    }
}

impl DeepView for MenuButton {
    type V = MenuButtonView;

    open spec fn deep_view(&self) -> MenuButtonView {
        self.view()
    }
}

impl MenuButtonView {
    pub open spec fn to_jval(self) -> JVal {
        match self {
            MenuButtonView::MenuButtonCommands(x) => JVal::Obj(str_member("type"@, "commands"@)),
            MenuButtonView::MenuButtonWebApp(x) => JVal::Obj(str_member("type"@, "web_app"@) + str_member("text"@, x.text) + member("web_app"@, x.web_app.to_jval())),
            MenuButtonView::MenuButtonDefault(x) => JVal::Obj(str_member("type"@, "default"@)),
        }
    }
}

impl MenuButton {
    pub fn to_json(&self) -> (r: JsonValue)
        ensures
            r@ == self@.to_jval(),
    {
        match self {
            MenuButton::MenuButtonCommands(x) => {
                let mut f: Vec<(String, JsonValue)> = Vec::new();
                obj_push(&mut f, "type", JsonValue::Str(String::from_str("commands")));
                let r = JsonValue::Obj(f);
                proof {
                    assert(r@ == self@.to_jval());
                }
                r
            },
            MenuButton::MenuButtonWebApp(x) => {
                let mut f: Vec<(String, JsonValue)> = Vec::new();
                obj_push(&mut f, "type", JsonValue::Str(String::from_str("web_app")));
                obj_push_str(&mut f, "text", &x.text);
                obj_push(&mut f, "web_app", x.web_app.to_json());
                let r = JsonValue::Obj(f);
                proof {
                    assert(r@ == self@.to_jval());
                }
                r
            },
            MenuButton::MenuButtonDefault(x) => {
                let mut f: Vec<(String, JsonValue)> = Vec::new();
                obj_push(&mut f, "type", JsonValue::Str(String::from_str("default")));
                let r = JsonValue::Obj(f);
                proof {
                    assert(r@ == self@.to_jval());
                }
                r
            },
        }
    }
}

/// This object represents an error in the Telegram Passport element which was submitted that should be resolve...
pub enum PassportElementError {
    PassportElementErrorDataField(PassportElementErrorDataField),
    PassportElementErrorFrontSide(PassportElementErrorFrontSide),
    PassportElementErrorReverseSide(PassportElementErrorReverseSide),
    PassportElementErrorSelfie(PassportElementErrorSelfie),
    PassportElementErrorFile(PassportElementErrorFile),
    PassportElementErrorFiles(PassportElementErrorFiles),
    PassportElementErrorTranslationFile(PassportElementErrorTranslationFile),
    PassportElementErrorTranslationFiles(PassportElementErrorTranslationFiles),
    PassportElementErrorUnspecified(PassportElementErrorUnspecified),
}

pub enum PassportElementErrorView {
    PassportElementErrorDataField(PassportElementErrorDataFieldView),
    PassportElementErrorFrontSide(PassportElementErrorFrontSideView),
    PassportElementErrorReverseSide(PassportElementErrorReverseSideView),
    PassportElementErrorSelfie(PassportElementErrorSelfieView),
    PassportElementErrorFile(PassportElementErrorFileView),
    PassportElementErrorFiles(PassportElementErrorFilesView),
    PassportElementErrorTranslationFile(PassportElementErrorTranslationFileView),
    PassportElementErrorTranslationFiles(PassportElementErrorTranslationFilesView),
    PassportElementErrorUnspecified(PassportElementErrorUnspecifiedView),
}

impl View for PassportElementError {
    type V = PassportElementErrorView;

    open spec fn view(&self) -> PassportElementErrorView {
        match self {
            PassportElementError::PassportElementErrorDataField(x) => PassportElementErrorView::PassportElementErrorDataField(x@),
            PassportElementError::PassportElementErrorFrontSide(x) => PassportElementErrorView::PassportElementErrorFrontSide(x@),
            PassportElementError::PassportElementErrorReverseSide(x) => PassportElementErrorView::PassportElementErrorReverseSide(x@),
            PassportElementError::PassportElementErrorSelfie(x) => PassportElementErrorView::PassportElementErrorSelfie(x@),
            PassportElementError::PassportElementErrorFile(x) => PassportElementErrorView::PassportElementErrorFile(x@),
            PassportElementError::PassportElementErrorFiles(x) => PassportElementErrorView::PassportElementErrorFiles(x@),
            PassportElementError::PassportElementErrorTranslationFile(x) => PassportElementErrorView::PassportElementErrorTranslationFile(x@),
            PassportElementError::PassportElementErrorTranslationFiles(x) => PassportElementErrorView::PassportElementErrorTranslationFiles(x@),
            PassportElementError::PassportElementErrorUnspecified(x) => PassportElementErrorView::PassportElementErrorUnspecified(x@),
        }
    }
}

impl DeepView for PassportElementError {
    type V = PassportElementErrorView;

    open spec fn deep_view(&self) -> PassportElementErrorView {
        self.view()
    }
}

impl PassportElementErrorView {
    pub open spec fn to_jval(self) -> JVal {
        match self {
            PassportElementErrorView::PassportElementErrorDataField(x) => JVal::Obj(member("PassportElementErrorDataField"@, JVal::Obj(str_member("source"@, x.source) + str_member("type"@, x.kind) + str_member("field_name"@, x.field_name) + str_member("data_hash"@, x.data_hash) + str_member("message"@, x.message)))),
            PassportElementErrorView::PassportElementErrorFrontSide(x) => JVal::Obj(member("PassportElementErrorFrontSide"@, JVal::Obj(str_member("source"@, x.source) + str_member("type"@, x.kind) + str_member("file_hash"@, x.file_hash) + str_member("message"@, x.message)))),
            PassportElementErrorView::PassportElementErrorReverseSide(x) => JVal::Obj(member("PassportElementErrorReverseSide"@, JVal::Obj(str_member("source"@, x.source) + str_member("type"@, x.kind) + str_member("file_hash"@, x.file_hash) + str_member("message"@, x.message)))),
            PassportElementErrorView::PassportElementErrorSelfie(x) => JVal::Obj(member("PassportElementErrorSelfie"@, JVal::Obj(str_member("source"@, x.source) + str_member("type"@, x.kind) + str_member("file_hash"@, x.file_hash) + str_member("message"@, x.message)))),
            PassportElementErrorView::PassportElementErrorFile(x) => JVal::Obj(member("PassportElementErrorFile"@, JVal::Obj(str_member("source"@, x.source) + str_member("type"@, x.kind) + str_member("file_hash"@, x.file_hash) + str_member("message"@, x.message)))),
            PassportElementErrorView::PassportElementErrorFiles(x) => JVal::Obj(member("PassportElementErrorFiles"@, JVal::Obj(str_member("source"@, x.source) + str_member("type"@, x.kind) + member("file_hashes"@, JVal::Arr(strings_jvals(x.file_hashes))) + str_member("message"@, x.message)))),
            PassportElementErrorView::PassportElementErrorTranslationFile(x) => JVal::Obj(member("PassportElementErrorTranslationFile"@, JVal::Obj(str_member("source"@, x.source) + str_member("type"@, x.kind) + str_member("file_hash"@, x.file_hash) + str_member("message"@, x.message)))),
            PassportElementErrorView::PassportElementErrorTranslationFiles(x) => JVal::Obj(member("PassportElementErrorTranslationFiles"@, JVal::Obj(str_member("source"@, x.source) + str_member("type"@, x.kind) + member("file_hashes"@, JVal::Arr(strings_jvals(x.file_hashes))) + str_member("message"@, x.message)))),
            PassportElementErrorView::PassportElementErrorUnspecified(x) => JVal::Obj(member("PassportElementErrorUnspecified"@, JVal::Obj(str_member("source"@, x.source) + str_member("type"@, x.kind) + str_member("element_hash"@, x.element_hash) + str_member("message"@, x.message)))),
        }
    }
}

impl PassportElementError {
    pub fn to_json(&self) -> (r: JsonValue)
        ensures
            r@ == self@.to_jval(),
    {
        match self {
            PassportElementError::PassportElementErrorDataField(x) => {
                let mut f: Vec<(String, JsonValue)> = Vec::new();
                let mut g: Vec<(String, JsonValue)> = Vec::new();
                obj_push_str(&mut g, "source", &x.source);
                obj_push_str(&mut g, "type", &x.kind);
                obj_push_str(&mut g, "field_name", &x.field_name);
                obj_push_str(&mut g, "data_hash", &x.data_hash);
                obj_push_str(&mut g, "message", &x.message);
                obj_push(&mut f, "PassportElementErrorDataField", JsonValue::Obj(g));
                let r = JsonValue::Obj(f);
                proof {
                    assert(r@ == self@.to_jval());
                }
                r
            },
            PassportElementError::PassportElementErrorFrontSide(x) => {
                let mut f: Vec<(String, JsonValue)> = Vec::new();
                let mut g: Vec<(String, JsonValue)> = Vec::new();
                obj_push_str(&mut g, "source", &x.source);
                obj_push_str(&mut g, "type", &x.kind);
                obj_push_str(&mut g, "file_hash", &x.file_hash);
                obj_push_str(&mut g, "message", &x.message);
                obj_push(&mut f, "PassportElementErrorFrontSide", JsonValue::Obj(g));
                let r = JsonValue::Obj(f);
                proof {
                    assert(r@ == self@.to_jval());
                }
                r
            },
            PassportElementError::PassportElementErrorReverseSide(x) => {
                let mut f: Vec<(String, JsonValue)> = Vec::new();
                let mut g: Vec<(String, JsonValue)> = Vec::new();
                obj_push_str(&mut g, "source", &x.source);
                obj_push_str(&mut g, "type", &x.kind);
                obj_push_str(&mut g, "file_hash", &x.file_hash);
                obj_push_str(&mut g, "message", &x.message);
                obj_push(&mut f, "PassportElementErrorReverseSide", JsonValue::Obj(g));
                let r = JsonValue::Obj(f);
                proof {
                    assert(r@ == self@.to_jval());
                }
                r
            },
            PassportElementError::PassportElementErrorSelfie(x) => {
                let mut f: Vec<(String, JsonValue)> = Vec::new();
                let mut g: Vec<(String, JsonValue)> = Vec::new();
                obj_push_str(&mut g, "source", &x.source);
                obj_push_str(&mut g, "type", &x.kind);
                obj_push_str(&mut g, "file_hash", &x.file_hash);
                obj_push_str(&mut g, "message", &x.message);
                obj_push(&mut f, "PassportElementErrorSelfie", JsonValue::Obj(g));
                let r = JsonValue::Obj(f);
                proof {
                    assert(r@ == self@.to_jval());
                }
                r
            },
            PassportElementError::PassportElementErrorFile(x) => {
                let mut f: Vec<(String, JsonValue)> = Vec::new();
                let mut g: Vec<(String, JsonValue)> = Vec::new();
                obj_push_str(&mut g, "source", &x.source);
                obj_push_str(&mut g, "type", &x.kind);
                obj_push_str(&mut g, "file_hash", &x.file_hash);
                obj_push_str(&mut g, "message", &x.message);
                obj_push(&mut f, "PassportElementErrorFile", JsonValue::Obj(g));
                let r = JsonValue::Obj(f);
                proof {
                    assert(r@ == self@.to_jval());
                }
                r
            },
            PassportElementError::PassportElementErrorFiles(x) => {
                let mut f: Vec<(String, JsonValue)> = Vec::new();
                let mut g: Vec<(String, JsonValue)> = Vec::new();
                obj_push_str(&mut g, "source", &x.source);
                obj_push_str(&mut g, "type", &x.kind);
                obj_push(&mut g, "file_hashes", strings_json(&x.file_hashes));
                obj_push_str(&mut g, "message", &x.message);
                obj_push(&mut f, "PassportElementErrorFiles", JsonValue::Obj(g));
                let r = JsonValue::Obj(f);
                proof {
                    assert(r@ == self@.to_jval());
                }
                r
            },
            PassportElementError::PassportElementErrorTranslationFile(x) => {
                let mut f: Vec<(String, JsonValue)> = Vec::new();
                let mut g: Vec<(String, JsonValue)> = Vec::new();
                obj_push_str(&mut g, "source", &x.source);
                obj_push_str(&mut g, "type", &x.kind);
                obj_push_str(&mut g, "file_hash", &x.file_hash);
                obj_push_str(&mut g, "message", &x.message);
                obj_push(&mut f, "PassportElementErrorTranslationFile", JsonValue::Obj(g));
                let r = JsonValue::Obj(f);
                proof {
                    assert(r@ == self@.to_jval());
                }
                r
            },
            PassportElementError::PassportElementErrorTranslationFiles(x) => {
                let mut f: Vec<(String, JsonValue)> = Vec::new();
                let mut g: Vec<(String, JsonValue)> = Vec::new();
                obj_push_str(&mut g, "source", &x.source);
                obj_push_str(&mut g, "type", &x.kind);
                obj_push(&mut g, "file_hashes", strings_json(&x.file_hashes));
                obj_push_str(&mut g, "message", &x.message);
                obj_push(&mut f, "PassportElementErrorTranslationFiles", JsonValue::Obj(g));
                let r = JsonValue::Obj(f);
                proof {
                    assert(r@ == self@.to_jval());
                }
                r
            },
            PassportElementError::PassportElementErrorUnspecified(x) => {
                let mut f: Vec<(String, JsonValue)> = Vec::new();
                let mut g: Vec<(String, JsonValue)> = Vec::new();
                obj_push_str(&mut g, "source", &x.source);
                obj_push_str(&mut g, "type", &x.kind);
                obj_push_str(&mut g, "element_hash", &x.element_hash);
                obj_push_str(&mut g, "message", &x.message);
                obj_push(&mut f, "PassportElementErrorUnspecified", JsonValue::Obj(g));
                let r = JsonValue::Obj(f);
                proof {
                    assert(r@ == self@.to_jval());
                }
                r
            },
        }
    }
}

impl InputMediaView {
    /// How one item is written inside the `media` array.
    pub open spec fn to_jval(self) -> JVal {
        match self {
            InputMediaView::InputMediaAnimation(x) => JVal::Obj(
                str_member("type"@, "animation"@) + member("media"@, x.media.to_jval()) + opt_member("thumb"@, match x.thumb {
            Option::Some(x) => Some(x.to_jval()),
            Option::None => None,
        }) + opt_str_member("caption"@, x.caption) + opt_str_member("parse_mode"@, x.parse_mode) + opt_member("caption_entities"@, match x.caption_entities {
            Option::Some(x) => Some(JVal::Arr(entities_jvals(x))),
            Option::None => None,
        }) + opt_i64_member("width"@, x.width) + opt_i64_member("height"@, x.height) + opt_i64_member("duration"@, x.duration),
            ),
            InputMediaView::InputMediaDocument(x) => JVal::Obj(
                str_member("type"@, "document"@) + member("media"@, x.media.to_jval()) + opt_member("thumb"@, match x.thumb {
            Option::Some(x) => Some(x.to_jval()),
            Option::None => None,
        }) + opt_str_member("caption"@, x.caption) + opt_str_member("parse_mode"@, x.parse_mode) + opt_member("caption_entities"@, match x.caption_entities {
            Option::Some(x) => Some(JVal::Arr(entities_jvals(x))),
            Option::None => None,
        }) + opt_bool_member("disable_content_type_detection"@, x.disable_content_type_detection),
            ),
            InputMediaView::InputMediaAudio(x) => JVal::Obj(
                str_member("type"@, "audio"@) + member("media"@, x.media.to_jval()) + opt_member("thumb"@, match x.thumb {
            Option::Some(x) => Some(x.to_jval()),
            Option::None => None,
        }) + opt_str_member("caption"@, x.caption) + opt_str_member("parse_mode"@, x.parse_mode) + opt_member("caption_entities"@, match x.caption_entities {
            Option::Some(x) => Some(JVal::Arr(entities_jvals(x))),
            Option::None => None,
        }) + opt_i64_member("duration"@, x.duration) + opt_str_member("performer"@, x.performer) + opt_str_member("title"@, x.title),
            ),
            InputMediaView::InputMediaPhoto(x) => JVal::Obj(
                str_member("type"@, "photo"@) + member("media"@, x.media.to_jval()) + opt_str_member("caption"@, x.caption) + opt_str_member("parse_mode"@, x.parse_mode) + opt_member("caption_entities"@, match x.caption_entities {
            Option::Some(x) => Some(JVal::Arr(entities_jvals(x))),
            Option::None => None,
        }),
            ),
            InputMediaView::InputMediaVideo(x) => JVal::Obj(
                str_member("type"@, "video"@) + member("media"@, x.media.to_jval()) + opt_member("thumb"@, match x.thumb {
            Option::Some(x) => Some(x.to_jval()),
            Option::None => None,
        }) + opt_str_member("caption"@, x.caption) + opt_str_member("parse_mode"@, x.parse_mode) + opt_member("caption_entities"@, match x.caption_entities {
            Option::Some(x) => Some(JVal::Arr(entities_jvals(x))),
            Option::None => None,
        }) + opt_i64_member("width"@, x.width) + opt_i64_member("height"@, x.height) + opt_i64_member("duration"@, x.duration) + opt_bool_member("supports_streaming"@, x.supports_streaming),
            ),
        }
    }
}

impl InputMedia {
    pub fn to_json(&self) -> (r: JsonValue)
        ensures
            r@ == self@.to_jval(),
    {
        match self {
            InputMedia::InputMediaAnimation(x) => {
                let mut f: Vec<(String, JsonValue)> = Vec::new();
                obj_push(&mut f, "type", JsonValue::Str(String::from_str("animation")));
                obj_push(&mut f, "media", x.media.to_json());
                let v_thumb: Option<JsonValue> = match &x.thumb {
                    Option::Some(x) => Some(x.to_json()),
                    Option::None => None,
                };
                obj_push_opt_val(&mut f, "thumb", v_thumb);
                obj_push_opt_str(&mut f, "caption", &x.caption);
                obj_push_opt_str(&mut f, "parse_mode", &x.parse_mode);
                let v_caption_entities: Option<JsonValue> = match &x.caption_entities {
                    Option::Some(x) => Some(entities_json(x)),
                    Option::None => None,
                };
                obj_push_opt_val(&mut f, "caption_entities", v_caption_entities);
                obj_push_opt_i64(&mut f, "width", &x.width);
                obj_push_opt_i64(&mut f, "height", &x.height);
                obj_push_opt_i64(&mut f, "duration", &x.duration);
                let r = JsonValue::Obj(f);
                proof {
                    assert(r@ == self@.to_jval());
                }
                r
            },
            InputMedia::InputMediaDocument(x) => {
                let mut f: Vec<(String, JsonValue)> = Vec::new();
                obj_push(&mut f, "type", JsonValue::Str(String::from_str("document")));
                obj_push(&mut f, "media", x.media.to_json());
                let v_thumb: Option<JsonValue> = match &x.thumb {
                    Option::Some(x) => Some(x.to_json()),
                    Option::None => None,
                };
                obj_push_opt_val(&mut f, "thumb", v_thumb);
                obj_push_opt_str(&mut f, "caption", &x.caption);
                obj_push_opt_str(&mut f, "parse_mode", &x.parse_mode);
                let v_caption_entities: Option<JsonValue> = match &x.caption_entities {
                    Option::Some(x) => Some(entities_json(x)),
                    Option::None => None,
                };
                obj_push_opt_val(&mut f, "caption_entities", v_caption_entities);
                obj_push_opt_bool(&mut f, "disable_content_type_detection", &x.disable_content_type_detection);
                let r = JsonValue::Obj(f);
                proof {
                    assert(r@ == self@.to_jval());
                }
                r
            },
            InputMedia::InputMediaAudio(x) => {
                let mut f: Vec<(String, JsonValue)> = Vec::new();
                obj_push(&mut f, "type", JsonValue::Str(String::from_str("audio")));
                obj_push(&mut f, "media", x.media.to_json());
                let v_thumb: Option<JsonValue> = match &x.thumb {
                    Option::Some(x) => Some(x.to_json()),
                    Option::None => None,
                };
                obj_push_opt_val(&mut f, "thumb", v_thumb);
                obj_push_opt_str(&mut f, "caption", &x.caption);
                obj_push_opt_str(&mut f, "parse_mode", &x.parse_mode);
                let v_caption_entities: Option<JsonValue> = match &x.caption_entities {
                    Option::Some(x) => Some(entities_json(x)),
                    Option::None => None,
                };
                obj_push_opt_val(&mut f, "caption_entities", v_caption_entities);
                obj_push_opt_i64(&mut f, "duration", &x.duration);
                obj_push_opt_str(&mut f, "performer", &x.performer);
                obj_push_opt_str(&mut f, "title", &x.title);
                let r = JsonValue::Obj(f);
                proof {
                    assert(r@ == self@.to_jval());
                }
                r
            },
            InputMedia::InputMediaPhoto(x) => {
                let mut f: Vec<(String, JsonValue)> = Vec::new();
                obj_push(&mut f, "type", JsonValue::Str(String::from_str("photo")));
                obj_push(&mut f, "media", x.media.to_json());
                obj_push_opt_str(&mut f, "caption", &x.caption);
                obj_push_opt_str(&mut f, "parse_mode", &x.parse_mode);
                let v_caption_entities: Option<JsonValue> = match &x.caption_entities {
                    Option::Some(x) => Some(entities_json(x)),
                    Option::None => None,
                };
                obj_push_opt_val(&mut f, "caption_entities", v_caption_entities);
                let r = JsonValue::Obj(f);
                proof {
                    assert(r@ == self@.to_jval());
                }
                r
            },
            InputMedia::InputMediaVideo(x) => {
                let mut f: Vec<(String, JsonValue)> = Vec::new();
                obj_push(&mut f, "type", JsonValue::Str(String::from_str("video")));
                obj_push(&mut f, "media", x.media.to_json());
                let v_thumb: Option<JsonValue> = match &x.thumb {
                    Option::Some(x) => Some(x.to_json()),
                    Option::None => None,
                };
                obj_push_opt_val(&mut f, "thumb", v_thumb);
                obj_push_opt_str(&mut f, "caption", &x.caption);
                obj_push_opt_str(&mut f, "parse_mode", &x.parse_mode);
                let v_caption_entities: Option<JsonValue> = match &x.caption_entities {
                    Option::Some(x) => Some(entities_json(x)),
                    Option::None => None,
                };
                obj_push_opt_val(&mut f, "caption_entities", v_caption_entities);
                obj_push_opt_i64(&mut f, "width", &x.width);
                obj_push_opt_i64(&mut f, "height", &x.height);
                obj_push_opt_i64(&mut f, "duration", &x.duration);
                obj_push_opt_bool(&mut f, "supports_streaming", &x.supports_streaming);
                let r = JsonValue::Obj(f);
                proof {
                    assert(r@ == self@.to_jval());
                }
                r
            },
        }
    }
}

/// This object contains information about one member of a chat. Currently, the following 6 types of chat membe...
pub enum ChatMember {
    ChatMemberOwner(ChatMemberOwner),
    ChatMemberAdministrator(ChatMemberAdministrator),
    ChatMemberMember(ChatMemberMember),
    ChatMemberRestricted(ChatMemberRestricted),
    ChatMemberLeft(ChatMemberLeft),
    ChatMemberBanned(ChatMemberBanned),
}

/// Describes the current status of a webhook.
pub struct WebhookInfo {
    pub url: String,
    pub has_custom_certificate: bool,
    pub pending_update_count: i64,
    pub ip_address: Option<String>,
    pub last_error_date: Option<i64>,
    pub last_error_message: Option<String>,
    pub last_synchronization_error_date: Option<i64>,
    pub max_connections: Option<i64>,
    pub allowed_updates: Option<Vec<String>>,
}

impl WebhookInfo {
    pub fn new(url: String, has_custom_certificate: bool, pending_update_count: i64) -> (r: Self)
        ensures
            r.url == url,
            r.has_custom_certificate == has_custom_certificate,
            r.pending_update_count == pending_update_count,
            r.ip_address is None,
            r.last_error_date is None,
            r.last_error_message is None,
            r.last_synchronization_error_date is None,
            r.max_connections is None,
            r.allowed_updates is None,
    {
        Self {
            url,
            has_custom_certificate,
            pending_update_count,
            ip_address: None,
            last_error_date: None,
            last_error_message: None,
            last_synchronization_error_date: None,
            max_connections: None,
            allowed_updates: None,
        }
    }
}

/// This object represents a unique message identifier.
pub struct MessageId {
    pub message_id: i64,
}

impl MessageId {
    pub fn new(message_id: i64) -> (r: Self)
        ensures
            r.message_id == message_id,
    {
        Self {
            message_id,
        }
    }
}

/// This object represents one size of a photo or a file / sticker thumbnail.
pub struct PhotoSize {
    pub file_id: String,
    pub file_unique_id: String,
    pub width: i64,
    pub height: i64,
    pub file_size: Option<i64>,
}

impl PhotoSize {
    pub fn new(file_id: String, file_unique_id: String, width: i64, height: i64) -> (r: Self)
        ensures
            r.file_id == file_id,
            r.file_unique_id == file_unique_id,
            r.width == width,
            r.height == height,
            r.file_size is None,
    {
        Self {
            file_id,
            file_unique_id,
            width,
            height,
            file_size: None,
        }
    }
}

/// This object represents an animation file (GIF or H.264/MPEG-4 AVC video without sound).
pub struct Animation {
    pub file_id: String,
    pub file_unique_id: String,
    pub width: i64,
    pub height: i64,
    pub duration: i64,
    pub thumb: Option<PhotoSize>,
    pub file_name: Option<String>,
    pub mime_type: Option<String>,
    pub file_size: Option<i64>,
}

impl Animation {
    pub fn new(file_id: String, file_unique_id: String, width: i64, height: i64, duration: i64) -> (r: Self)
        ensures
            r.file_id == file_id,
            r.file_unique_id == file_unique_id,
            r.width == width,
            r.height == height,
            r.duration == duration,
            r.thumb is None,
            r.file_name is None,
            r.mime_type is None,
            r.file_size is None,
    {
        Self {
            file_id,
            file_unique_id,
            width,
            height,
            duration,
            thumb: None,
            file_name: None,
            mime_type: None,
            file_size: None,
        }
    }
}

/// This object represents an audio file to be treated as music by the Telegram clients.
pub struct Audio {
    pub file_id: String,
    pub file_unique_id: String,
    pub duration: i64,
    pub performer: Option<String>,
    pub title: Option<String>,
    pub file_name: Option<String>,
    pub mime_type: Option<String>,
    pub file_size: Option<i64>,
    pub thumb: Option<PhotoSize>,
}

impl Audio {
    pub fn new(file_id: String, file_unique_id: String, duration: i64) -> (r: Self)
        ensures
            r.file_id == file_id,
            r.file_unique_id == file_unique_id,
            r.duration == duration,
            r.performer is None,
            r.title is None,
            r.file_name is None,
            r.mime_type is None,
            r.file_size is None,
            r.thumb is None,
    {
        Self {
            file_id,
            file_unique_id,
            duration,
            performer: None,
            title: None,
            file_name: None,
            mime_type: None,
            file_size: None,
            thumb: None,
        }
    }
}

/// This object represents a general file (as opposed to photos, voice messages and audio files).
pub struct Document {
    pub file_id: String,
    pub file_unique_id: String,
    pub thumb: Option<PhotoSize>,
    pub file_name: Option<String>,
    pub mime_type: Option<String>,
    pub file_size: Option<i64>,
}

impl Document {
    pub fn new(file_id: String, file_unique_id: String) -> (r: Self)
        ensures
            r.file_id == file_id,
            r.file_unique_id == file_unique_id,
            r.thumb is None,
            r.file_name is None,
            r.mime_type is None,
            r.file_size is None,
    {
        Self {
            file_id,
            file_unique_id,
            thumb: None,
            file_name: None,
            mime_type: None,
            file_size: None,
        }
    }
}

/// This object represents a video file.
pub struct Video {
    pub file_id: String,
    pub file_unique_id: String,
    pub width: i64,
    pub height: i64,
    pub duration: i64,
    pub thumb: Option<PhotoSize>,
    pub file_name: Option<String>,
    pub mime_type: Option<String>,
    pub file_size: Option<i64>,
}

impl Video {
    pub fn new(file_id: String, file_unique_id: String, width: i64, height: i64, duration: i64) -> (r: Self)
        ensures
            r.file_id == file_id,
            r.file_unique_id == file_unique_id,
            r.width == width,
            r.height == height,
            r.duration == duration,
            r.thumb is None,
            r.file_name is None,
            r.mime_type is None,
            r.file_size is None,
    {
        Self {
            file_id,
            file_unique_id,
            width,
            height,
            duration,
            thumb: None,
            file_name: None,
            mime_type: None,
            file_size: None,
        }
    }
}

/// This object represents a video message (available in Telegram apps as of v.4.0).
pub struct VideoNote {
    pub file_id: String,
    pub file_unique_id: String,
    pub length: i64,
    pub duration: i64,
    pub thumb: Option<PhotoSize>,
    pub file_size: Option<i64>,
}

impl VideoNote {
    pub fn new(file_id: String, file_unique_id: String, length: i64, duration: i64) -> (r: Self)
        ensures
            r.file_id == file_id,
            r.file_unique_id == file_unique_id,
            r.length == length,
            r.duration == duration,
            r.thumb is None,
            r.file_size is None,
    {
        Self {
            file_id,
            file_unique_id,
            length,
            duration,
            thumb: None,
            file_size: None,
        }
    }
}

/// This object represents a voice note.
pub struct Voice {
    pub file_id: String,
    pub file_unique_id: String,
    pub duration: i64,
    pub mime_type: Option<String>,
    pub file_size: Option<i64>,
}

impl Voice {
    pub fn new(file_id: String, file_unique_id: String, duration: i64) -> (r: Self)
        ensures
            r.file_id == file_id,
            r.file_unique_id == file_unique_id,
            r.duration == duration,
            r.mime_type is None,
            r.file_size is None,
    {
        Self {
            file_id,
            file_unique_id,
            duration,
            mime_type: None,
            file_size: None,
        }
    }
}

/// This object represents a phone contact.
pub struct Contact {
    pub phone_number: String,
    pub first_name: String,
    pub last_name: Option<String>,
    pub user_id: Option<i64>,
    pub vcard: Option<String>,
}

impl Contact {
    pub fn new(phone_number: String, first_name: String) -> (r: Self)
        ensures
            r.phone_number == phone_number,
            r.first_name == first_name,
            r.last_name is None,
            r.user_id is None,
            r.vcard is None,
    {
        Self {
            phone_number,
            first_name,
            last_name: None,
            user_id: None,
            vcard: None,
        }
    }
}

/// This object represents an animated emoji that displays a random value.
pub struct Dice {
    pub emoji: String,
    pub value: i64,
}

impl Dice {
    pub fn new(emoji: String, value: i64) -> (r: Self)
        ensures
            r.emoji == emoji,
            r.value == value,
    {
        Self {
            emoji,
            value,
        }
    }
}

/// This object contains information about one answer option in a poll.
pub struct PollOption {
    pub text: String,
    pub voter_count: i64,
}

impl PollOption {
    pub fn new(text: String, voter_count: i64) -> (r: Self)
        ensures
            r.text == text,
            r.voter_count == voter_count,
    {
        Self {
            text,
            voter_count,
        }
    }
}

/// This object represents an answer of a user in a non-anonymous poll.
pub struct PollAnswer {
    pub poll_id: String,
    pub user: User,
    pub option_ids: Vec<i64>,
}

impl PollAnswer {
    pub fn new(poll_id: String, user: User, option_ids: Vec<i64>) -> (r: Self)
        ensures
            r.poll_id == poll_id,
            r.user == user,
            r.option_ids == option_ids,
    {
        Self {
            poll_id,
            user,
            option_ids,
        }
    }
}

/// This object contains information about a poll.
pub struct Poll {
    pub id: String,
    pub question: String,
    pub options: Vec<PollOption>,
    pub total_voter_count: i64,
    pub is_closed: bool,
    pub is_anonymous: bool,
    pub kind: String,
    pub allows_multiple_answers: bool,
    pub correct_option_id: Option<i64>,
    pub explanation: Option<String>,
    pub explanation_entities: Option<Vec<MessageEntity>>,
    pub open_period: Option<i64>,
    pub close_date: Option<i64>,
}

impl Poll {
    pub fn new(id: String, question: String, options: Vec<PollOption>, total_voter_count: i64, is_closed: bool, is_anonymous: bool, kind: String, allows_multiple_answers: bool) -> (r: Self)
        ensures
            r.id == id,
            r.question == question,
            r.options == options,
            r.total_voter_count == total_voter_count,
            r.is_closed == is_closed,
            r.is_anonymous == is_anonymous,
            r.kind == kind,
            r.allows_multiple_answers == allows_multiple_answers,
            r.correct_option_id is None,
            r.explanation is None,
            r.explanation_entities is None,
            r.open_period is None,
            r.close_date is None,
    {
        Self {
            id,
            question,
            options,
            total_voter_count,
            is_closed,
            is_anonymous,
            kind,
            allows_multiple_answers,
            correct_option_id: None,
            explanation: None,
            explanation_entities: None,
            open_period: None,
            close_date: None,
        }
    }
}

/// Describes data sent from a Web App to the bot.
pub struct WebAppData {
    pub data: String,
    pub button_text: String,
}

impl WebAppData {
    pub fn new(data: String, button_text: String) -> (r: Self)
        ensures
            r.data == data,
            r.button_text == button_text,
    {
        Self {
            data,
            button_text,
        }
    }
}

/// This object represents the content of a service message, sent whenever a user in the chat triggers a proxim...
pub struct ProximityAlertTriggered {
    pub traveler: User,
    pub watcher: User,
    pub distance: i64,
}

impl ProximityAlertTriggered {
    pub fn new(traveler: User, watcher: User, distance: i64) -> (r: Self)
        ensures
            r.traveler == traveler,
            r.watcher == watcher,
            r.distance == distance,
    {
        Self {
            traveler,
            watcher,
            distance,
        }
    }
}

/// This object represents a service message about a change in auto-delete timer settings.
pub struct MessageAutoDeleteTimerChanged {
    pub message_auto_delete_time: i64,
}

impl MessageAutoDeleteTimerChanged {
    pub fn new(message_auto_delete_time: i64) -> (r: Self)
        ensures
            r.message_auto_delete_time == message_auto_delete_time,
    {
        Self {
            message_auto_delete_time,
        }
    }
}

/// This object represents a service message about a video chat scheduled in the chat.
pub struct VideoChatScheduled {
    pub start_date: i64,
}

impl VideoChatScheduled {
    pub fn new(start_date: i64) -> (r: Self)
        ensures
            r.start_date == start_date,
    {
        Self {
            start_date,
        }
    }
}

/// This object represents a service message about a video chat started in the chat. Currently holds no informa...
pub struct VideoChatStarted {
}

impl VideoChatStarted {
    pub fn new() -> (r: Self)
    {
        Self {
        }
    }
}

/// This object represents a service message about a video chat ended in the chat.
pub struct VideoChatEnded {
    pub duration: i64,
}

impl VideoChatEnded {
    pub fn new(duration: i64) -> (r: Self)
        ensures
            r.duration == duration,
    {
        Self {
            duration,
        }
    }
}

/// This object represents a service message about new members invited to a video chat.
pub struct VideoChatParticipantsInvited {
    pub users: Vec<User>,
}

impl VideoChatParticipantsInvited {
    pub fn new(users: Vec<User>) -> (r: Self)
        ensures
            r.users == users,
    {
        Self {
            users,
        }
    }
}

/// This object represent a user's profile pictures.
pub struct UserProfilePhotos {
    pub total_count: i64,
    pub photos: Vec<Vec<PhotoSize>>,
}

impl UserProfilePhotos {
    pub fn new(total_count: i64, photos: Vec<Vec<PhotoSize>>) -> (r: Self)
        ensures
            r.total_count == total_count,
            r.photos == photos,
    {
        Self {
            total_count,
            photos,
        }
    }
}

/// This object represents a file ready to be downloaded. The file can be downloaded via the link https://api.t...
pub struct File {
    pub file_id: String,
    pub file_unique_id: String,
    pub file_size: Option<i64>,
    pub file_path: Option<String>,
}

impl File {
    pub fn new(file_id: String, file_unique_id: String) -> (r: Self)
        ensures
            r.file_id == file_id,
            r.file_unique_id == file_unique_id,
            r.file_size is None,
            r.file_path is None,
    {
        Self {
            file_id,
            file_unique_id,
            file_size: None,
            file_path: None,
        }
    }
}

/// This object represents a chat photo.
pub struct ChatPhoto {
    pub small_file_id: String,
    pub small_file_unique_id: String,
    pub big_file_id: String,
    pub big_file_unique_id: String,
}

impl ChatPhoto {
    pub fn new(small_file_id: String, small_file_unique_id: String, big_file_id: String, big_file_unique_id: String) -> (r: Self)
        ensures
            r.small_file_id == small_file_id,
            r.small_file_unique_id == small_file_unique_id,
            r.big_file_id == big_file_id,
            r.big_file_unique_id == big_file_unique_id,
    {
        Self {
            small_file_id,
            small_file_unique_id,
            big_file_id,
            big_file_unique_id,
        }
    }
}

/// Represents an invite link for a chat.
pub struct ChatInviteLink {
    pub invite_link: String,
    pub creator: User,
    pub creates_join_request: bool,
    pub is_primary: bool,
    pub is_revoked: bool,
    pub name: Option<String>,
    pub expire_date: Option<i64>,
    pub member_limit: Option<i64>,
    pub pending_join_request_count: Option<i64>,
}

impl ChatInviteLink {
    pub fn new(invite_link: String, creator: User, creates_join_request: bool, is_primary: bool, is_revoked: bool) -> (r: Self)
        ensures
            r.invite_link == invite_link,
            r.creator == creator,
            r.creates_join_request == creates_join_request,
            r.is_primary == is_primary,
            r.is_revoked == is_revoked,
            r.name is None,
            r.expire_date is None,
            r.member_limit is None,
            r.pending_join_request_count is None,
    {
        Self {
            invite_link,
            creator,
            creates_join_request,
            is_primary,
            is_revoked,
            name: None,
            expire_date: None,
            member_limit: None,
            pending_join_request_count: None,
        }
    }
}

/// Represents a chat member that owns the chat and has all administrator privileges.
pub struct ChatMemberOwner {
    pub user: User,
    pub is_anonymous: bool,
    pub custom_title: Option<String>,
}

impl ChatMemberOwner {
    pub fn new(user: User, is_anonymous: bool) -> (r: Self)
        ensures
            r.user == user,
            r.is_anonymous == is_anonymous,
            r.custom_title is None,
    {
        Self {
            user,
            is_anonymous,
            custom_title: None,
        }
    }
}

/// Represents a chat member that has some additional privileges.
pub struct ChatMemberAdministrator {
    pub user: User,
    pub can_be_edited: bool,
    pub is_anonymous: bool,
    pub can_manage_chat: bool,
    pub can_delete_messages: bool,
    pub can_manage_video_chats: bool,
    pub can_restrict_members: bool,
    pub can_promote_members: bool,
    pub can_change_info: bool,
    pub can_invite_users: bool,
    pub can_post_messages: Option<bool>,
    pub can_edit_messages: Option<bool>,
    pub can_pin_messages: Option<bool>,
    pub custom_title: Option<String>,
}

impl ChatMemberAdministrator {
    pub fn new(user: User, can_be_edited: bool, is_anonymous: bool, can_manage_chat: bool, can_delete_messages: bool, can_manage_video_chats: bool, can_restrict_members: bool, can_promote_members: bool, can_change_info: bool, can_invite_users: bool) -> (r: Self)
        ensures
            r.user == user,
            r.can_be_edited == can_be_edited,
            r.is_anonymous == is_anonymous,
            r.can_manage_chat == can_manage_chat,
            r.can_delete_messages == can_delete_messages,
            r.can_manage_video_chats == can_manage_video_chats,
            r.can_restrict_members == can_restrict_members,
            r.can_promote_members == can_promote_members,
            r.can_change_info == can_change_info,
            r.can_invite_users == can_invite_users,
            r.can_post_messages is None,
            r.can_edit_messages is None,
            r.can_pin_messages is None,
            r.custom_title is None,
    {
        Self {
            user,
            can_be_edited,
            is_anonymous,
            can_manage_chat,
            can_delete_messages,
            can_manage_video_chats,
            can_restrict_members,
            can_promote_members,
            can_change_info,
            can_invite_users,
            can_post_messages: None,
            can_edit_messages: None,
            can_pin_messages: None,
            custom_title: None,
        }
    }
}

/// Represents a chat member that has no additional privileges or restrictions.
pub struct ChatMemberMember {
    pub user: User,
}

impl ChatMemberMember {
    pub fn new(user: User) -> (r: Self)
        ensures
            r.user == user,
    {
        Self {
            user,
        }
    }
}

/// Represents a chat member that is under certain restrictions in the chat. Supergroups only.
pub struct ChatMemberRestricted {
    pub user: User,
    pub is_member: bool,
    pub can_change_info: bool,
    pub can_invite_users: bool,
    pub can_pin_messages: bool,
    pub can_send_messages: bool,
    pub can_send_media_messages: bool,
    pub can_send_polls: bool,
    pub can_send_other_messages: bool,
    pub can_add_web_page_previews: bool,
    pub until_date: i64,
}

impl ChatMemberRestricted {
    pub fn new(user: User, is_member: bool, can_change_info: bool, can_invite_users: bool, can_pin_messages: bool, can_send_messages: bool, can_send_media_messages: bool, can_send_polls: bool, can_send_other_messages: bool, can_add_web_page_previews: bool, until_date: i64) -> (r: Self)
        ensures
            r.user == user,
            r.is_member == is_member,
            r.can_change_info == can_change_info,
            r.can_invite_users == can_invite_users,
            r.can_pin_messages == can_pin_messages,
            r.can_send_messages == can_send_messages,
            r.can_send_media_messages == can_send_media_messages,
            r.can_send_polls == can_send_polls,
            r.can_send_other_messages == can_send_other_messages,
            r.can_add_web_page_previews == can_add_web_page_previews,
            r.until_date == until_date,
    {
        Self {
            user,
            is_member,
            can_change_info,
            can_invite_users,
            can_pin_messages,
            can_send_messages,
            can_send_media_messages,
            can_send_polls,
            can_send_other_messages,
            can_add_web_page_previews,
            until_date,
        }
    }
}

/// Represents a chat member that isn't currently a member of the chat, but may join it themselves.
pub struct ChatMemberLeft {
    pub user: User,
}

impl ChatMemberLeft {
    pub fn new(user: User) -> (r: Self)
        ensures
            r.user == user,
    {
        Self {
            user,
        }
    }
}

/// Represents a chat member that was banned in the chat and can't return to the chat or view chat messages.
pub struct ChatMemberBanned {
    pub user: User,
    pub until_date: i64,
}

impl ChatMemberBanned {
    pub fn new(user: User, until_date: i64) -> (r: Self)
        ensures
            r.user == user,
            r.until_date == until_date,
    {
        Self {
            user,
            until_date,
        }
    }
}

/// Represents a Game.
pub struct InlineQueryResultGame {
    pub id: String,
    pub game_short_name: String,
    pub reply_markup: Option<InlineKeyboardMarkup>,
}

impl InlineQueryResultGame {
    pub fn new(id: String, game_short_name: String) -> (r: Self)
        ensures
            r.id == id,
            r.game_short_name == game_short_name,
            r.reply_markup is None,
    {
        Self {
            id,
            game_short_name,
            reply_markup: None,
        }
    }
}

/// Represents the content of a text message to be sent as the result of an inline query.
pub struct InputTextMessageContent {
    pub message_text: String,
    pub parse_mode: Option<String>,
    pub entities: Option<Vec<MessageEntity>>,
    pub disable_web_page_preview: Option<bool>,
}

impl InputTextMessageContent {
    pub fn new(message_text: String) -> (r: Self)
        ensures
            r.message_text == message_text,
            r.parse_mode is None,
            r.entities is None,
            r.disable_web_page_preview is None,
    {
        Self {
            message_text,
            parse_mode: None,
            entities: None,
            disable_web_page_preview: None,
        }
    }
}

/// Represents the content of a contact message to be sent as the result of an inline query.
pub struct InputContactMessageContent {
    pub phone_number: String,
    pub first_name: String,
    pub last_name: Option<String>,
    pub vcard: Option<String>,
}

impl InputContactMessageContent {
    pub fn new(phone_number: String, first_name: String) -> (r: Self)
        ensures
            r.phone_number == phone_number,
            r.first_name == first_name,
            r.last_name is None,
            r.vcard is None,
    {
        Self {
            phone_number,
            first_name,
            last_name: None,
            vcard: None,
        }
    }
}

/// Represents the content of an invoice message to be sent as the result of an inline query.
pub struct InputInvoiceMessageContent {
    pub title: String,
    pub description: String,
    pub payload: String,
    pub provider_token: String,
    pub currency: String,
    pub prices: Vec<LabeledPrice>,
    pub max_tip_amount: Option<i64>,
    pub suggested_tip_amounts: Option<Vec<i64>>,
    pub provider_data: Option<String>,
    pub photo_url: Option<String>,
    pub photo_size: Option<i64>,
    pub photo_width: Option<i64>,
    pub photo_height: Option<i64>,
    pub need_name: Option<bool>,
    pub need_phone_number: Option<bool>,
    pub need_email: Option<bool>,
    pub need_shipping_address: Option<bool>,
    pub send_phone_number_to_provider: Option<bool>,
    pub send_email_to_provider: Option<bool>,
    pub is_flexible: Option<bool>,
}

impl InputInvoiceMessageContent {
    pub fn new(title: String, description: String, payload: String, provider_token: String, currency: String, prices: Vec<LabeledPrice>) -> (r: Self)
        ensures
            r.title == title,
            r.description == description,
            r.payload == payload,
            r.provider_token == provider_token,
            r.currency == currency,
            r.prices == prices,
            r.max_tip_amount is None,
            r.suggested_tip_amounts is None,
            r.provider_data is None,
            r.photo_url is None,
            r.photo_size is None,
            r.photo_width is None,
            r.photo_height is None,
            r.need_name is None,
            r.need_phone_number is None,
            r.need_email is None,
            r.need_shipping_address is None,
            r.send_phone_number_to_provider is None,
            r.send_email_to_provider is None,
            r.is_flexible is None,
    {
        Self {
            title,
            description,
            payload,
            provider_token,
            currency,
            prices,
            max_tip_amount: None,
            suggested_tip_amounts: None,
            provider_data: None,
            photo_url: None,
            photo_size: None,
            photo_width: None,
            photo_height: None,
            need_name: None,
            need_phone_number: None,
            need_email: None,
            need_shipping_address: None,
            send_phone_number_to_provider: None,
            send_email_to_provider: None,
            is_flexible: None,
        }
    }
}

/// Describes an inline message sent by a Web App on behalf of a user.
pub struct SentWebAppMessage {
    pub inline_message_id: Option<String>,
}

impl SentWebAppMessage {
    pub fn new() -> (r: Self)
        ensures
            r.inline_message_id is None,
    {
        Self {
            inline_message_id: None,
        }
    }
}

/// This object contains basic information about an invoice.
pub struct Invoice {
    pub title: String,
    pub description: String,
    pub start_parameter: String,
    pub currency: String,
    pub total_amount: i64,
}

impl Invoice {
    pub fn new(title: String, description: String, start_parameter: String, currency: String, total_amount: i64) -> (r: Self)
        ensures
            r.title == title,
            r.description == description,
            r.start_parameter == start_parameter,
            r.currency == currency,
            r.total_amount == total_amount,
    {
        Self {
            title,
            description,
            start_parameter,
            currency,
            total_amount,
        }
    }
}

/// This object represents a shipping address.
pub struct ShippingAddress {
    pub country_code: String,
    pub state: String,
    pub city: String,
    pub street_line1: String,
    pub street_line2: String,
    pub post_code: String,
}

impl ShippingAddress {
    pub fn new(country_code: String, state: String, city: String, street_line1: String, street_line2: String, post_code: String) -> (r: Self)
        ensures
            r.country_code == country_code,
            r.state == state,
            r.city == city,
            r.street_line1 == street_line1,
            r.street_line2 == street_line2,
            r.post_code == post_code,
    {
        Self {
            country_code,
            state,
            city,
            street_line1,
            street_line2,
            post_code,
        }
    }
}

/// This object represents information about an order.
pub struct OrderInfo {
    pub name: Option<String>,
    pub phone_number: Option<String>,
    pub email: Option<String>,
    pub shipping_address: Option<ShippingAddress>,
}

impl OrderInfo {
    pub fn new() -> (r: Self)
        ensures
            r.name is None,
            r.phone_number is None,
            r.email is None,
            r.shipping_address is None,
    {
        Self {
            name: None,
            phone_number: None,
            email: None,
            shipping_address: None,
        }
    }
}

/// This object contains basic information about a successful payment.
pub struct SuccessfulPayment {
    pub currency: String,
    pub total_amount: i64,
    pub invoice_payload: String,
    pub shipping_option_id: Option<String>,
    pub order_info: Option<OrderInfo>,
    pub telegram_payment_charge_id: String,
    pub provider_payment_charge_id: String,
}

impl SuccessfulPayment {
    pub fn new(currency: String, total_amount: i64, invoice_payload: String, telegram_payment_charge_id: String, provider_payment_charge_id: String) -> (r: Self)
        ensures
            r.currency == currency,
            r.total_amount == total_amount,
            r.invoice_payload == invoice_payload,
            r.shipping_option_id is None,
            r.order_info is None,
            r.telegram_payment_charge_id == telegram_payment_charge_id,
            r.provider_payment_charge_id == provider_payment_charge_id,
    {
        Self {
            currency,
            total_amount,
            invoice_payload,
            shipping_option_id: None,
            order_info: None,
            telegram_payment_charge_id,
            provider_payment_charge_id,
        }
    }
}

/// This object contains information about an incoming shipping query.
pub struct ShippingQuery {
    pub id: String,
    pub from: User,
    pub invoice_payload: String,
    pub shipping_address: ShippingAddress,
}

impl ShippingQuery {
    pub fn new(id: String, from: User, invoice_payload: String, shipping_address: ShippingAddress) -> (r: Self)
        ensures
            r.id == id,
            r.from == from,
            r.invoice_payload == invoice_payload,
            r.shipping_address == shipping_address,
    {
        Self {
            id,
            from,
            invoice_payload,
            shipping_address,
        }
    }
}

/// This object contains information about an incoming pre-checkout query.
pub struct PreCheckoutQuery {
    pub id: String,
    pub from: User,
    pub currency: String,
    pub total_amount: i64,
    pub invoice_payload: String,
    pub shipping_option_id: Option<String>,
    pub order_info: Option<OrderInfo>,
}

impl PreCheckoutQuery {
    pub fn new(id: String, from: User, currency: String, total_amount: i64, invoice_payload: String) -> (r: Self)
        ensures
            r.id == id,
            r.from == from,
            r.currency == currency,
            r.total_amount == total_amount,
            r.invoice_payload == invoice_payload,
            r.shipping_option_id is None,
            r.order_info is None,
    {
        Self {
            id,
            from,
            currency,
            total_amount,
            invoice_payload,
            shipping_option_id: None,
            order_info: None,
        }
    }
}

/// Describes Telegram Passport data shared with the bot by the user.
pub struct PassportData {
    pub data: Vec<EncryptedPassportElement>,
    pub credentials: EncryptedCredentials,
}

impl PassportData {
    pub fn new(data: Vec<EncryptedPassportElement>, credentials: EncryptedCredentials) -> (r: Self)
        ensures
            r.data == data,
            r.credentials == credentials,
    {
        Self {
            data,
            credentials,
        }
    }
}

/// This object represents a file uploaded to Telegram Passport. Currently all Telegram Passport files are in J...
pub struct PassportFile {
    pub file_id: String,
    pub file_unique_id: String,
    pub file_size: i64,
    pub file_date: i64,
}

impl PassportFile {
    pub fn new(file_id: String, file_unique_id: String, file_size: i64, file_date: i64) -> (r: Self)
        ensures
            r.file_id == file_id,
            r.file_unique_id == file_unique_id,
            r.file_size == file_size,
            r.file_date == file_date,
    {
        Self {
            file_id,
            file_unique_id,
            file_size,
            file_date,
        }
    }
}

/// Describes documents or other Telegram Passport elements shared with the bot by the user.
pub struct EncryptedPassportElement {
    pub kind: String,
    pub data: Option<String>,
    pub phone_number: Option<String>,
    pub email: Option<String>,
    pub files: Option<Vec<PassportFile>>,
    pub front_side: Option<PassportFile>,
    pub reverse_side: Option<PassportFile>,
    pub selfie: Option<PassportFile>,
    pub translation: Option<Vec<PassportFile>>,
    pub hash: String,
}

impl EncryptedPassportElement {
    pub fn new(kind: String, hash: String) -> (r: Self)
        ensures
            r.kind == kind,
            r.data is None,
            r.phone_number is None,
            r.email is None,
            r.files is None,
            r.front_side is None,
            r.reverse_side is None,
            r.selfie is None,
            r.translation is None,
            r.hash == hash,
    {
        Self {
            kind,
            data: None,
            phone_number: None,
            email: None,
            files: None,
            front_side: None,
            reverse_side: None,
            selfie: None,
            translation: None,
            hash,
        }
    }
}

/// Describes data required for decrypting and authenticating EncryptedPassportElement. See the Telegram Passpo...
pub struct EncryptedCredentials {
    pub data: String,
    pub hash: String,
    pub secret: String,
}

impl EncryptedCredentials {
    pub fn new(data: String, hash: String, secret: String) -> (r: Self)
        ensures
            r.data == data,
            r.hash == hash,
            r.secret == secret,
    {
        Self {
            data,
            hash,
            secret,
        }
    }
}

/// This object represents a game. Use BotFather to create and edit games, their short names will act as unique...
pub struct Game {
    pub title: String,
    pub description: String,
    pub photo: Vec<PhotoSize>,
    pub text: Option<String>,
    pub text_entities: Option<Vec<MessageEntity>>,
    pub animation: Option<Animation>,
}

impl Game {
    pub fn new(title: String, description: String, photo: Vec<PhotoSize>) -> (r: Self)
        ensures
            r.title == title,
            r.description == description,
            r.photo == photo,
            r.text is None,
            r.text_entities is None,
            r.animation is None,
    {
        Self {
            title,
            description,
            photo,
            text: None,
            text_entities: None,
            animation: None,
        }
    }
}

/// This object represents one row of the high scores table for a game.
pub struct GameHighScore {
    pub position: i64,
    pub user: User,
    pub score: i64,
}

impl GameHighScore {
    pub fn new(position: i64, user: User, score: i64) -> (r: Self)
        ensures
            r.position == position,
            r.user == user,
            r.score == score,
    {
        Self {
            position,
            user,
            score,
        }
    }
}

} // verus!
