//! The parameter types that requests carry.
//!
//! A chat is addressed either by its numeric identifier or by an
//! `@`-prefixed channel handle; both travel as text and stay losslessly
//! distinguishable ([`lemma_chat_id_text_lossless`]). A file parameter is a
//! local path, an in-memory buffer, a URL or a remote file identifier.
//! Structured parameters (keyboards, media descriptions, query results) are
//! carried as JSON documents and embedded in string form wherever a request
//! needs them as text.

use vstd::prelude::*;

use crate::json::{AsJson, JsonModel, JsonValue};
use crate::numtext::{dec_int, i64_dec, lemma_dec_int_injective, lemma_dec_int_no_at,
    lemma_dec_int_parse, parse_dec};

pub mod chat_or_inline_message;
pub mod circle_comment;
pub mod inline_query_result_cached_audio;
pub mod passport_element_error;
pub mod update;

verus! {

/// A chat's address: its numeric identifier, or its channel handle in the
/// format `@channelusername`.
#[derive(Debug, Clone, PartialEq, Eq, Hash)]
pub enum ChatId {
    Id(i64),
    ChannelUsername(String),
}

/// The mathematical value of a [`ChatId`].
pub ghost enum ChatIdModel {
    Id(int),
    ChannelUsername(Seq<char>),
}

impl View for ChatId {
    type V = ChatIdModel;

    open spec fn view(&self) -> ChatIdModel {
        match self {
            ChatId::Id(n) => ChatIdModel::Id(*n as int),
            ChatId::ChannelUsername(u) => ChatIdModel::ChannelUsername(u@),
        }
    }
}

/// The textual wire form of a chat address: the decimal digits of a numeric
/// identifier, or the handle verbatim.
pub open spec fn chat_id_text(m: ChatIdModel) -> Seq<char> {
    match m {
        ChatIdModel::Id(n) => dec_int(n),
        ChatIdModel::ChannelUsername(u) => u,
    }
}

/// A handle is well-formed when it starts with an at sign; the numeric
/// variant is always well-formed.
pub open spec fn chat_id_wf(m: ChatIdModel) -> bool {
    match m {
        ChatIdModel::Id(_) => true,
        ChatIdModel::ChannelUsername(u) => u.len() >= 1 && u[0] == '@',
    }
}

/// The JSON form of a chat address: a number for an identifier, a string
/// for a handle.
pub open spec fn chat_id_json(m: ChatIdModel) -> JsonModel {
    match m {
        ChatIdModel::Id(n) => JsonModel::Int(n),
        ChatIdModel::ChannelUsername(u) => JsonModel::Str(u),
    }
}

impl ChatId {
    /// The textual wire form of this address.
    pub fn to_text(&self) -> (r: String)
        ensures
            r@ == chat_id_text(self@),
    {
        match self {
            ChatId::Id(n) => i64_dec(*n),
            ChatId::ChannelUsername(u) => u.clone(),
        }
    }

    /// The JSON form of this address.
    pub fn to_json(&self) -> (r: JsonValue)
        ensures
            r@ == chat_id_json(self@),
    {
        match self {
            ChatId::Id(n) => JsonValue::Int(*n),
            ChatId::ChannelUsername(u) => JsonValue::Str(u.clone()),
        }
    }
}

/// The chat address a wire text denotes: a handle when the text starts
/// with an at sign, else the number its digits denote.
pub open spec fn chat_id_of_text(s: Seq<char>) -> ChatIdModel {
    if s.len() > 0 && s[0] == '@' {
        ChatIdModel::ChannelUsername(s)
    } else {
        ChatIdModel::Id(parse_dec(s))
    }
}

/// A well-formed chat address round-trips through its textual wire form:
/// reading the text back yields exactly the original address, for the
/// numeric variant and the handle variant alike.
pub proof fn lemma_chat_id_text_round_trip(c: ChatIdModel)
    requires
        chat_id_wf(c),
    ensures
        chat_id_of_text(chat_id_text(c)) == c,
{
    match c {
        ChatIdModel::Id(n) => {
            lemma_dec_int_no_at(n);
            lemma_dec_int_parse(n);
        },
        ChatIdModel::ChannelUsername(_) => {},
    }
}

/// The textual wire form of a chat address is lossless: two well-formed
/// addresses with the same text are the same address, so the receiving end
/// can always tell a numeric identifier from a handle and recover the
/// original value exactly.
pub proof fn lemma_chat_id_text_lossless(a: ChatIdModel, b: ChatIdModel)
    requires
        chat_id_wf(a),
        chat_id_wf(b),
    ensures
        chat_id_text(a) == chat_id_text(b) ==> a == b,
{
    match (a, b) {
        (ChatIdModel::Id(x), ChatIdModel::Id(y)) => {
            lemma_dec_int_injective(x, y);
        },
        (ChatIdModel::Id(x), ChatIdModel::ChannelUsername(u)) => {
            lemma_dec_int_no_at(x);
        },
        (ChatIdModel::ChannelUsername(u), ChatIdModel::Id(y)) => {
            lemma_dec_int_no_at(y);
        },
        (ChatIdModel::ChannelUsername(_), ChatIdModel::ChannelUsername(_)) => {},
    }
}

/// How the text of a message or caption is interpreted by the service.
#[derive(Debug, Clone, Copy, PartialEq, Eq)]
pub enum ParseMode {
    MarkdownV2,
    HTML,
    Markdown,
    Fanbook,
}

/// The wire name of a parse mode.
pub open spec fn parse_mode_text(m: ParseMode) -> Seq<char> {
    match m {
        ParseMode::MarkdownV2 => "MarkdownV2"@,
        ParseMode::HTML => "HTML"@,
        ParseMode::Markdown => "Markdown"@,
        ParseMode::Fanbook => "Fanbook"@,
    }
}

impl ParseMode {
    pub fn to_text(&self) -> (r: String)
        ensures
            r@ == parse_mode_text(*self),
    {
        match self {
            ParseMode::MarkdownV2 => "MarkdownV2".to_owned(),
            ParseMode::HTML => "HTML".to_owned(),
            ParseMode::Markdown => "Markdown".to_owned(),
            ParseMode::Fanbook => "Fanbook".to_owned(),
        }
    }

    /// The JSON form of a parse mode: its wire name as a string.
    pub fn to_json(&self) -> (r: JsonValue)
        ensures
            r@ == JsonModel::Str(parse_mode_text(*self)),
    {
        JsonValue::Str(self.to_text())
    }
}

/// A file parameter: where the bytes of the file come from.
#[derive(Debug, Clone, PartialEq, Eq)]
pub enum InputFile {
    /// A file on the local filesystem, read when the form is dispatched.
    File(String),
    /// An in-memory buffer with the logical file name to label it with.
    Memory { file_name: String, data: Vec<u8> },
    /// A URL the service fetches itself; travels as plain text.
    Url(String),
    /// An identifier of a file the service already holds; travels as plain
    /// text.
    FileId(String),
}

/// The mathematical value of an [`InputFile`].
pub ghost enum InputFileModel {
    File(Seq<char>),
    Memory { file_name: Seq<char>, data: Seq<u8> },
    Url(Seq<char>),
    FileId(Seq<char>),
}

impl View for InputFile {
    type V = InputFileModel;

    open spec fn view(&self) -> InputFileModel {
        match self {
            InputFile::File(p) => InputFileModel::File(p@),
            InputFile::Memory { file_name, data } => InputFileModel::Memory {
                file_name: file_name@,
                data: data@,
            },
            InputFile::Url(u) => InputFileModel::Url(u@),
            InputFile::FileId(id) => InputFileModel::FileId(id@),
        }
    }
}

/// A keyboard or other reply-interface description, carried as the JSON
/// document the service expects.
#[derive(Debug, PartialEq)]
pub struct ReplyMarkup {
    pub doc: JsonValue,
}

impl View for ReplyMarkup {
    type V = JsonModel;

    open spec fn view(&self) -> JsonModel {
        self.doc@
    }
}

impl ReplyMarkup {
    pub fn new(doc: JsonValue) -> (r: Self)
        ensures
            r@ == doc@,
    {
        ReplyMarkup { doc }
    }
}

/// An inline keyboard description, carried as its JSON document.
#[derive(Debug, PartialEq)]
pub struct InlineKeyboardMarkup {
    pub doc: JsonValue,
}

impl View for InlineKeyboardMarkup {
    type V = JsonModel;

    open spec fn view(&self) -> JsonModel {
        self.doc@
    }
}

impl InlineKeyboardMarkup {
    pub fn new(doc: JsonValue) -> (r: Self)
        ensures
            r@ == doc@,
    {
        InlineKeyboardMarkup { doc }
    }
}

/// A sticker mask position, carried as its JSON document.
#[derive(Debug, PartialEq)]
pub struct MaskPosition {
    pub doc: JsonValue,
}

impl View for MaskPosition {
    type V = JsonModel;

    open spec fn view(&self) -> JsonModel {
        self.doc@
    }
}

impl MaskPosition {
    pub fn new(doc: JsonValue) -> (r: Self)
        ensures
            r@ == doc@,
    {
        MaskPosition { doc }
    }
}

/// One element of a media album, carried as its JSON document.
#[derive(Debug, PartialEq)]
pub struct InputMedia {
    pub doc: JsonValue,
}

impl View for InputMedia {
    type V = JsonModel;

    open spec fn view(&self) -> JsonModel {
        self.doc@
    }
}

impl InputMedia {
    pub fn new(doc: JsonValue) -> (r: Self)
        ensures
            r@ == doc@,
    {
        InputMedia { doc }
    }
}

/// One result offered in answer to an inline query, carried as its JSON
/// document.
#[derive(Debug, PartialEq)]
pub struct InlineQueryResult {
    pub doc: JsonValue,
}

impl View for InlineQueryResult {
    type V = JsonModel;

    open spec fn view(&self) -> JsonModel {
        self.doc@
    }
}

impl InlineQueryResult {
    pub fn new(doc: JsonValue) -> (r: Self)
        ensures
            r@ == doc@,
    {
        InlineQueryResult { doc }
    }
}

/// The content of a message to be sent in place of another payload, carried
/// as its JSON document.
#[derive(Debug, PartialEq)]
pub struct InputMessageContent {
    pub doc: JsonValue,
}

impl View for InputMessageContent {
    type V = JsonModel;

    open spec fn view(&self) -> JsonModel {
        self.doc@
    }
}

impl InputMessageContent {
    pub fn new(doc: JsonValue) -> (r: Self)
        ensures
            r@ == doc@,
    {
        InputMessageContent { doc }
    }
}

/// A member's permission set, carried as its JSON document.
#[derive(Debug, PartialEq)]
pub struct ChatPermissions {
    pub doc: JsonValue,
}

impl View for ChatPermissions {
    type V = JsonModel;

    open spec fn view(&self) -> JsonModel {
        self.doc@
    }
}

impl ChatPermissions {
    pub fn new(doc: JsonValue) -> (r: Self)
        ensures
            r@ == doc@,
    {
        ChatPermissions { doc }
    }
}

impl AsJson for InputMedia {
    fn to_json_value(&self) -> (r: JsonValue) {
        self.doc.deep_copy()
    }
}

impl AsJson for InlineQueryResult {
    fn to_json_value(&self) -> (r: JsonValue) {
        self.doc.deep_copy()
    }
}

/// The kinds of inbound event a poll can ask for.
#[derive(Debug, Clone, Copy, PartialEq, Eq)]
pub enum AllowedUpdate {
    Message,
    EditedMessage,
    ChannelPost,
    EditedChannelPost,
    InlineQuery,
    ChosenInlineResult,
    CallbackQuery,
}

impl View for AllowedUpdate {
    type V = JsonModel;

    open spec fn view(&self) -> JsonModel {
        JsonModel::Str(allowed_update_text(*self))
    }
}

impl AsJson for AllowedUpdate {
    fn to_json_value(&self) -> (r: JsonValue) {
        self.to_json()
    }
}

/// The wire name of an event kind.
pub open spec fn allowed_update_text(u: AllowedUpdate) -> Seq<char> {
    match u {
        AllowedUpdate::Message => "message"@,
        AllowedUpdate::EditedMessage => "edited_message"@,
        AllowedUpdate::ChannelPost => "channel_post"@,
        AllowedUpdate::EditedChannelPost => "edited_channel_post"@,
        AllowedUpdate::InlineQuery => "inline_query"@,
        AllowedUpdate::ChosenInlineResult => "chosen_inline_result"@,
        AllowedUpdate::CallbackQuery => "callback_query"@,
    }
}

impl AllowedUpdate {
    pub fn to_json(&self) -> (r: JsonValue)
        ensures
            r@ == JsonModel::Str(allowed_update_text(*self)),
    {
        let text = match self {
            AllowedUpdate::Message => "message".to_owned(),
            AllowedUpdate::EditedMessage => "edited_message".to_owned(),
            AllowedUpdate::ChannelPost => "channel_post".to_owned(),
            AllowedUpdate::EditedChannelPost => "edited_channel_post".to_owned(),
            AllowedUpdate::InlineQuery => "inline_query".to_owned(),
            AllowedUpdate::ChosenInlineResult => "chosen_inline_result".to_owned(),
            AllowedUpdate::CallbackQuery => "callback_query".to_owned(),
        };
        JsonValue::Str(text)
    }
}

} // verus!
