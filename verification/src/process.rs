//! The event extractor: one protocol event in, one action on the archive out.
use vstd::prelude::*;
use crate::messages::{Model, ModelView};
use crate::tags::{contains_key, has_key, value, value_of, Tag};
use crate::text::{
    decimal_i64, eq_ignore_ascii_case, lowercase, parse_i64, parse_uuid,
    same_ignoring_ascii_case, text_view, to_lowercase, trim, trimmed, uuid_value,
};
use crate::timestamp::{representable, Timestamp};

verus! {

/// What kind of protocol event arrived, with the parts the extractor reads.
#[derive(Debug)]
pub enum Command {
    /// A notice from the server.
    Notice { target: String, body: String },
    /// A chat post in a channel.
    Privmsg { channel: String, body: String },
    /// A command that the protocol layer passes on by name only.
    Raw { command: String },
    /// Anything else.
    Other,
}

/// One protocol event.
#[derive(Debug)]
pub struct Event {
    pub command: Command,
    /// The nickname of the sender, where the event names one.
    pub sender: Option<String>,
    pub tags: Vec<Tag>,
}

/// Why an event led to no action.
#[derive(Debug, Clone, Copy, PartialEq, Eq, Structural)]
pub enum Dropped {
    MissingSender,
    MissingId,
    MalformedId,
    MissingRoomId,
    MalformedRoomId,
    MissingUserId,
    MalformedUserId,
    MissingTimestamp,
    MalformedTimestamp,
    MalformedReplyId,
    MissingTargetId,
    MalformedTargetId,
    Unhandled,
}

/// What the ingestion worker is to do for one event.
#[derive(Debug)]
pub enum Action {
    /// Insert this record.
    StoreMessage(Model),
    /// Mark the record with this id as deleted.
    DeleteMessage { id: u128, deleted_at: Timestamp },
    /// Nothing to store; the body is worth reporting.
    Notice { body: String },
    /// Nothing to do, and why.
    Ignore(Dropped),
}

/// The mathematical value of an [`Action`].
pub enum ActionView {
    StoreMessage(ModelView),
    DeleteMessage { id: u128, deleted_at: int },
    Notice { body: Seq<char> },
    Ignore(Dropped),
}

impl View for Action {
    type V = ActionView;

    open spec fn view(&self) -> ActionView {
        match self {
            Action::StoreMessage(m) => ActionView::StoreMessage(m@),
            Action::DeleteMessage { id, deleted_at } => ActionView::DeleteMessage {
                id: *id,
                deleted_at: deleted_at@,
            },
            Action::Notice { body } => ActionView::Notice { body: body@ },
            Action::Ignore(why) => ActionView::Ignore(*why),
        }
    }
}

/// What a notice from the server reports.
#[derive(Debug, Clone, Copy, PartialEq, Eq, Structural)]
pub enum NoticeKind {
    /// The network refused the credentials.
    AuthenticationFailed,
    /// The network could not read the credentials.
    ImproperlyFormattedAuth,
    /// Nothing the archive reacts to.
    Other,
}

/// A tag that must parse: absent or without a value, present but unreadable,
/// or read.
#[derive(Debug)]
pub enum Field<T> {
    Missing,
    Malformed,
    Present(T),
}

/// The identifier under `key`.
pub open spec fn id_field(tags: Seq<Tag>, key: Seq<char>) -> Field<u128> {
    match value_of(tags, key) {
        None => Field::Missing,
        Some(v) => match uuid_value(v) {
            Some(id) => Field::Present(id),
            None => Field::Malformed,
        },
    }
}

/// The number under `key`.
pub open spec fn number_field(tags: Seq<Tag>, key: Seq<char>) -> Field<i64> {
    match value_of(tags, key) {
        None => Field::Missing,
        Some(v) => match decimal_i64(v) {
            Some(n) => Field::Present(n),
            None => Field::Malformed,
        },
    }
}

/// The instant under `key`, given in milliseconds since the Unix epoch.
pub open spec fn time_field(tags: Seq<Tag>, key: Seq<char>) -> Field<int> {
    match value_of(tags, key) {
        None => Field::Missing,
        Some(v) => match decimal_i64(v) {
            Some(n) if representable(n as int) => Field::Present(n as int),
            _ => Field::Malformed,
        },
    }
}

/// The instant of a timestamp field.
pub open spec fn time_view(f: Field<Timestamp>) -> Field<int> {
    match f {
        Field::Missing => Field::Missing,
        Field::Malformed => Field::Malformed,
        Field::Present(t) => Field::Present(t@),
    }
}

/// Reads the identifier under `key`.
pub fn read_id(tags: &Vec<Tag>, key: &str) -> (r: Field<u128>)
    ensures
        r == id_field(tags@, key@),
{
    match value(tags, key) {
        None => Field::Missing,
        Some(v) => match parse_uuid(v.as_str()) {
            Some(id) => Field::Present(id),
            None => Field::Malformed,
        },
    }
}

/// Reads the number under `key`.
pub fn read_number(tags: &Vec<Tag>, key: &str) -> (r: Field<i64>)
    ensures
        r == number_field(tags@, key@),
{
    match value(tags, key) {
        None => Field::Missing,
        Some(v) => match parse_i64(v.as_str()) {
            Some(n) => Field::Present(n),
            None => Field::Malformed,
        },
    }
}

/// Reads the instant under `key`.
pub fn read_time(tags: &Vec<Tag>, key: &str) -> (r: Field<Timestamp>)
    ensures
        time_view(r) == time_field(tags@, key@),
{
    match value(tags, key) {
        None => Field::Missing,
        Some(v) => match parse_i64(v.as_str()) {
            Some(n) => match Timestamp::from_unix_millis(n) {
                Some(t) => Field::Present(t),
                None => Field::Malformed,
            },
            None => Field::Malformed,
        },
    }
}

/// The tags of a chat post, read.
#[derive(Debug)]
pub struct PostTags {
    pub id: Field<u128>,
    pub room_id: Field<i64>,
    pub user_id: Field<i64>,
    pub sent: Field<Timestamp>,
    pub replying_to: Field<u128>,
    pub subscriber: bool,
    pub moderator: bool,
    pub vip: bool,
    pub emotes: Option<String>,
    pub badges: Option<String>,
    pub user_type: Option<String>,
}

/// The mathematical value of [`PostTags`].
pub struct PostTagsView {
    pub id: Field<u128>,
    pub room_id: Field<i64>,
    pub user_id: Field<i64>,
    pub sent: Field<int>,
    pub replying_to: Field<u128>,
    pub subscriber: bool,
    pub moderator: bool,
    pub vip: bool,
    pub emotes: Option<Seq<char>>,
    pub badges: Option<Seq<char>>,
    pub user_type: Option<Seq<char>>,
}

impl View for PostTags {
    type V = PostTagsView;

    open spec fn view(&self) -> PostTagsView {
        PostTagsView {
            id: self.id,
            room_id: self.room_id,
            user_id: self.user_id,
            sent: time_view(self.sent),
            replying_to: self.replying_to,
            subscriber: self.subscriber,
            moderator: self.moderator,
            vip: self.vip,
            emotes: text_view(self.emotes),
            badges: text_view(self.badges),
            user_type: text_view(self.user_type),
        }
    }
}

/// What the tag mapping of a chat post says. The three role flags go by the
/// presence of their key, whatever its value.
pub open spec fn post_tags(tags: Seq<Tag>) -> PostTagsView {
    PostTagsView {
        id: id_field(tags, "id"@),
        room_id: number_field(tags, "room-id"@),
        user_id: number_field(tags, "user-id"@),
        sent: time_field(tags, "tmi-sent-ts"@),
        replying_to: id_field(tags, "reply-parent-msg-id"@),
        subscriber: has_key(tags, "subscriber"@),
        moderator: has_key(tags, "mod"@),
        vip: has_key(tags, "vip"@),
        emotes: value_of(tags, "emotes"@),
        badges: value_of(tags, "badges"@),
        user_type: value_of(tags, "user-type"@),
    }
}

/// The first reason, in the order id, room, user, time, reply, for which a
/// chat post cannot be stored.
pub open spec fn post_fault(t: PostTagsView) -> Option<Dropped> {
    if t.id is Missing {
        Some(Dropped::MissingId)
    } else if t.id is Malformed {
        Some(Dropped::MalformedId)
    } else if t.room_id is Missing {
        Some(Dropped::MissingRoomId)
    } else if t.room_id is Malformed {
        Some(Dropped::MalformedRoomId)
    } else if t.user_id is Missing {
        Some(Dropped::MissingUserId)
    } else if t.user_id is Malformed {
        Some(Dropped::MalformedUserId)
    } else if t.sent is Missing {
        Some(Dropped::MissingTimestamp)
    } else if t.sent is Malformed {
        Some(Dropped::MalformedTimestamp)
    } else if t.replying_to is Malformed {
        Some(Dropped::MalformedReplyId)
    } else {
        None
    }
}

/// The record that a chat post with readable tags becomes.
pub open spec fn post_record(
    channel: Seq<char>,
    username: Seq<char>,
    msg: Seq<char>,
    t: PostTagsView,
) -> ModelView {
    ModelView {
        id: t.id->Present_0,
        channel,
        room_id: t.room_id->Present_0,
        user_id: t.user_id->Present_0,
        username,
        message: msg,
        timestamp: t.sent->Present_0,
        deleted: false,
        deleted_at: None,
        replying_to: match t.replying_to {
            Field::Present(id) => Some(id),
            _ => None,
        },
        subscriber: t.subscriber,
        moderator: t.moderator,
        vip: t.vip,
        emotes: t.emotes,
        badges: t.badges,
        user_type: t.user_type,
    }
}

/// The action for a chat post whose tags have been read.
pub open spec fn post_action(
    channel: Seq<char>,
    username: Seq<char>,
    msg: Seq<char>,
    t: PostTagsView,
) -> ActionView {
    match post_fault(t) {
        Some(why) => ActionView::Ignore(why),
        None => ActionView::StoreMessage(post_record(channel, username, msg, t)),
    }
}

/// Turns a chat post whose tags have been read into a record to store, or
/// says which tag stands in the way.
pub fn store_action(channel: &str, username: &str, msg: &str, t: PostTags) -> (r: Action)
    ensures
        r@ == post_action(channel@, username@, msg@, t@),
        r matches Action::StoreMessage(m) ==> m.wf(),
{
    let id = match t.id {
        Field::Missing => { return Action::Ignore(Dropped::MissingId); },
        Field::Malformed => { return Action::Ignore(Dropped::MalformedId); },
        Field::Present(id) => id,
    };
    let room_id = match t.room_id {
        Field::Missing => { return Action::Ignore(Dropped::MissingRoomId); },
        Field::Malformed => { return Action::Ignore(Dropped::MalformedRoomId); },
        Field::Present(n) => n,
    };
    let user_id = match t.user_id {
        Field::Missing => { return Action::Ignore(Dropped::MissingUserId); },
        Field::Malformed => { return Action::Ignore(Dropped::MalformedUserId); },
        Field::Present(n) => n,
    };
    let timestamp = match t.sent {
        Field::Missing => { return Action::Ignore(Dropped::MissingTimestamp); },
        Field::Malformed => { return Action::Ignore(Dropped::MalformedTimestamp); },
        Field::Present(at) => at,
    };
    let replying_to = match t.replying_to {
        Field::Missing => None,
        Field::Malformed => { return Action::Ignore(Dropped::MalformedReplyId); },
        Field::Present(id) => Some(id),
    };
    Action::StoreMessage(
        Model {
            id,
            channel: channel.to_owned(),
            room_id,
            user_id,
            username: username.to_owned(),
            message: msg.to_owned(),
            timestamp,
            deleted: false,
            deleted_at: None,
            replying_to,
            subscriber: t.subscriber,
            moderator: t.moderator,
            vip: t.vip,
            emotes: t.emotes,
            badges: t.badges,
            user_type: t.user_type,
        },
    )
}

/// Reads the tags of a chat post.
pub fn read_post_tags(tags: &Vec<Tag>) -> (r: PostTags)
    ensures
        r@ == post_tags(tags@),
{
    PostTags {
        id: read_id(tags, "id"),
        room_id: read_number(tags, "room-id"),
        user_id: read_number(tags, "user-id"),
        sent: read_time(tags, "tmi-sent-ts"),
        replying_to: read_id(tags, "reply-parent-msg-id"),
        subscriber: contains_key(tags, "subscriber"),
        moderator: contains_key(tags, "mod"),
        vip: contains_key(tags, "vip"),
        emotes: value(tags, "emotes"),
        badges: value(tags, "badges"),
        user_type: value(tags, "user-type"),
    }
}

/// The action for a chat post in `channel` by `username`.
pub open spec fn privmsg_action(
    channel: Seq<char>,
    username: Seq<char>,
    msg: Seq<char>,
    tags: Seq<Tag>,
) -> ActionView {
    post_action(channel, username, msg, post_tags(tags))
}

/// Extracts the record of a chat post. The post is stored only if the id,
/// room, user and send-time tags are present and readable; a record keeps the
/// channel, the sender and the text as given.
pub fn handle_privmsg(channel: &str, username: &str, msg: &str, tags: &Vec<Tag>) -> (r: Action)
    ensures
        r@ == privmsg_action(channel@, username@, msg@, tags@),
        r matches Action::StoreMessage(m) ==> m.wf(),
        (value_of(tags@, "id"@) is None || value_of(tags@, "room-id"@) is None || value_of(
            tags@,
            "user-id"@,
        ) is None || value_of(tags@, "tmi-sent-ts"@) is None) ==> r@ is Ignore,
{
    store_action(channel, username, msg, read_post_tags(tags))
}

/// A chat post whose id, room, user and send-time tags can all be read, and
/// whose reply tag is absent or can be read, is stored with exactly what the
/// event and its tags say, and not marked deleted.
pub proof fn lemma_complete_post_stored(
    channel: Seq<char>,
    username: Seq<char>,
    msg: Seq<char>,
    tags: Seq<Tag>,
    id: u128,
    room_id: i64,
    user_id: i64,
    sent: int,
)
    requires
        id_field(tags, "id"@) == Field::Present(id),
        number_field(tags, "room-id"@) == Field::Present(room_id),
        number_field(tags, "user-id"@) == Field::Present(user_id),
        time_field(tags, "tmi-sent-ts"@) == Field::Present(sent),
        !(id_field(tags, "reply-parent-msg-id"@) is Malformed),
    ensures
        privmsg_action(channel, username, msg, tags) matches ActionView::StoreMessage(m) && {
            &&& m.id == id
            &&& m.room_id == room_id
            &&& m.user_id == user_id
            &&& m.timestamp == sent
            &&& m.channel == channel
            &&& m.username == username
            &&& m.message == msg
            &&& !m.deleted
            &&& m.deleted_at is None
            &&& m.subscriber == has_key(tags, "subscriber"@)
            &&& m.moderator == has_key(tags, "mod"@)
            &&& m.vip == has_key(tags, "vip"@)
            &&& m.emotes == value_of(tags, "emotes"@)
            &&& m.badges == value_of(tags, "badges"@)
            &&& m.user_type == value_of(tags, "user-type"@)
        },
{
}

/// A chat post that lacks the id, the room, the user or the send-time tag is
/// ignored.
pub proof fn lemma_incomplete_post_ignored(
    channel: Seq<char>,
    username: Seq<char>,
    msg: Seq<char>,
    tags: Seq<Tag>,
)
    requires
        value_of(tags, "id"@) is None || value_of(tags, "room-id"@) is None || value_of(
            tags,
            "user-id"@,
        ) is None || value_of(tags, "tmi-sent-ts"@) is None,
    ensures
        privmsg_action(channel, username, msg, tags) is Ignore,
{
}

/// The action for a removal whose tags have been read: the send time is
/// looked at first, then the target.
pub open spec fn removal_action(sent: Field<int>, target: Field<u128>) -> ActionView {
    match sent {
        Field::Missing => ActionView::Ignore(Dropped::MissingTimestamp),
        Field::Malformed => ActionView::Ignore(Dropped::MalformedTimestamp),
        Field::Present(at) => match target {
            Field::Missing => ActionView::Ignore(Dropped::MissingTargetId),
            Field::Malformed => ActionView::Ignore(Dropped::MalformedTargetId),
            Field::Present(id) => ActionView::DeleteMessage { id, deleted_at: at },
        },
    }
}

/// Turns a removal whose tags have been read into a deletion, or says which
/// tag stands in the way.
pub fn delete_action(sent: Field<Timestamp>, target: Field<u128>) -> (r: Action)
    ensures
        r@ == removal_action(time_view(sent), target),
{
    match sent {
        Field::Missing => Action::Ignore(Dropped::MissingTimestamp),
        Field::Malformed => Action::Ignore(Dropped::MalformedTimestamp),
        Field::Present(at) => match target {
            Field::Missing => Action::Ignore(Dropped::MissingTargetId),
            Field::Malformed => Action::Ignore(Dropped::MalformedTargetId),
            Field::Present(id) => Action::DeleteMessage { id, deleted_at: at },
        },
    }
}

/// The action for a message-removal event.
pub open spec fn clearmsg_action(tags: Seq<Tag>) -> ActionView {
    removal_action(time_field(tags, "tmi-sent-ts"@), id_field(tags, "target-msg-id"@))
}

/// Extracts the deletion that a message-removal event asks for.
pub fn handle_clearmsg(tags: &Vec<Tag>) -> (r: Action)
    ensures
        r@ == clearmsg_action(tags@),
{
    delete_action(read_time(tags, "tmi-sent-ts"), read_id(tags, "target-msg-id"))
}

/// What a notice means, given its body with the surrounding white space
/// removed.
pub open spec fn notice_kind_of(body: Seq<char>) -> NoticeKind {
    if same_ignoring_ascii_case(body, "login authentication failed"@)
        || same_ignoring_ascii_case(body, "login unsuccessful failed"@) {
        NoticeKind::AuthenticationFailed
    } else if same_ignoring_ascii_case(body, "improperly formatted auth"@) {
        NoticeKind::ImproperlyFormattedAuth
    } else {
        NoticeKind::Other
    }
}

/// Classifies a notice that has no white space around it.
pub fn classify_notice(body: &str) -> (r: NoticeKind)
    ensures
        r == notice_kind_of(body@),
{
    if eq_ignore_ascii_case(body, "login authentication failed") || eq_ignore_ascii_case(
        body,
        "login unsuccessful failed",
    ) {
        NoticeKind::AuthenticationFailed
    } else if eq_ignore_ascii_case(body, "improperly formatted auth") {
        NoticeKind::ImproperlyFormattedAuth
    } else {
        NoticeKind::Other
    }
}

/// Classifies a notice from the server by its body, ignoring the white space
/// around it and the case of ASCII letters.
pub fn handle_notice(msg: &str) -> (r: NoticeKind)
    ensures
        r == notice_kind_of(trimmed(msg@)),
{
    classify_notice(trim(msg))
}

/// A channel name without its leading `#`, if it has one.
pub open spec fn without_hash(channel: Seq<char>) -> Seq<char> {
    if channel.len() > 0 && channel[0] == '#' {
        channel.skip(1)
    } else {
        channel
    }
}

/// Removes the leading `#` of a channel name, if it has one.
pub fn strip_hash(channel: &str) -> (r: &str)
    ensures
        r@ == without_hash(channel@),
{
    let n = channel.unicode_len();
    if n > 0 && channel.get_char(0) == '#' {
        let rest = channel.substring_char(1, n);
        assert(channel@.subrange(1, n as int) == channel@.skip(1));
        rest
    } else {
        channel
    }
}

/// The action for one protocol event.
pub open spec fn action_of(event: Event) -> ActionView {
    match event.command {
        Command::Notice { target, body } => ActionView::Notice { body: body@ },
        Command::Privmsg { channel, body } => match event.sender {
            None => ActionView::Ignore(Dropped::MissingSender),
            Some(sender) => privmsg_action(
                lowercase(without_hash(channel@)),
                sender@,
                body@,
                event.tags@,
            ),
        },
        Command::Raw { command } => if command@ == "CLEARMSG"@ {
            clearmsg_action(event.tags@)
        } else {
            ActionView::Ignore(Dropped::Unhandled)
        },
        Command::Other => ActionView::Ignore(Dropped::Unhandled),
    }
}

/// Extracts the action that one protocol event asks for. Notices are passed
/// on, chat posts become records, `CLEARMSG` becomes a deletion, and every
/// other event is ignored.
pub fn extract(event: &Event) -> (r: Action)
    ensures
        r@ == action_of(*event),
        r matches Action::StoreMessage(m) ==> m.wf(),
{
    match &event.command {
        Command::Notice { target, body } => Action::Notice { body: body.clone() },
        Command::Privmsg { channel, body } => match &event.sender {
            None => Action::Ignore(Dropped::MissingSender),
            Some(sender) => {
                let name = to_lowercase(strip_hash(channel.as_str()));
                handle_privmsg(name.as_str(), sender.as_str(), body.as_str(), &event.tags)
            },
        },
        Command::Raw { command } => {
            if *command == "CLEARMSG".to_owned() {
                handle_clearmsg(&event.tags)
            } else {
                Action::Ignore(Dropped::Unhandled)
            }
        },
        Command::Other => Action::Ignore(Dropped::Unhandled),
    }
}

} // verus!
