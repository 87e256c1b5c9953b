//! The archived message, the one record that the archive keeps.
use vstd::prelude::*;
use crate::text::{copy_text, text_view};
use crate::timestamp::Timestamp;

verus! {

/// One archived chat message.
#[derive(Debug)]
pub struct Model {
    /// Identifier assigned by the chat network.
    pub id: u128,
    /// Lower-cased channel name, without the leading `#`.
    pub channel: String,
    pub room_id: i64,
    pub user_id: i64,
    pub username: String,
    pub message: String,
    /// When the network sent the message.
    pub timestamp: Timestamp,
    pub deleted: bool,
    /// When the message was removed; set exactly when `deleted` is.
    pub deleted_at: Option<Timestamp>,
    /// The message this one answers; never checked against the archive.
    pub replying_to: Option<u128>,
    pub subscriber: bool,
    pub moderator: bool,
    pub vip: bool,
    pub emotes: Option<String>,
    pub badges: Option<String>,
    pub user_type: Option<String>,
}

/// The mathematical value of a [`Model`].
pub struct ModelView {
    pub id: u128,
    pub channel: Seq<char>,
    pub room_id: i64,
    pub user_id: i64,
    pub username: Seq<char>,
    pub message: Seq<char>,
    pub timestamp: int,
    pub deleted: bool,
    pub deleted_at: Option<int>,
    pub replying_to: Option<u128>,
    pub subscriber: bool,
    pub moderator: bool,
    pub vip: bool,
    pub emotes: Option<Seq<char>>,
    pub badges: Option<Seq<char>>,
    pub user_type: Option<Seq<char>>,
}

/// The instant of an optional timestamp.
pub open spec fn instant_view(o: Option<Timestamp>) -> Option<int> {
    match o {
        Some(t) => Some(t@),
        None => None,
    }
}

impl ModelView {
    /// A record carries a deletion time exactly when it is marked deleted.
    pub open spec fn wf(self) -> bool {
        self.deleted_at.is_some() <==> self.deleted
    }

    /// This record as it is first stored: not deleted.
    pub open spec fn fresh(self) -> ModelView {
        ModelView { deleted: false, deleted_at: None, ..self }
    }

    /// This record marked as deleted at `at`.
    pub open spec fn marked(self, at: int) -> ModelView {
        ModelView { deleted: true, deleted_at: Some(at), ..self }
    }
}

impl View for Model {
    type V = ModelView;

    open spec fn view(&self) -> ModelView {
        ModelView {
            id: self.id,
            channel: self.channel@,
            room_id: self.room_id,
            user_id: self.user_id,
            username: self.username@,
            message: self.message@,
            timestamp: self.timestamp@,
            deleted: self.deleted,
            deleted_at: instant_view(self.deleted_at),
            replying_to: self.replying_to,
            subscriber: self.subscriber,
            moderator: self.moderator,
            vip: self.vip,
            emotes: text_view(self.emotes),
            badges: text_view(self.badges),
            user_type: text_view(self.user_type),
        }
    }
}

impl Model {
    /// A record carries a deletion time exactly when it is marked deleted.
    pub open spec fn wf(&self) -> bool {
        self@.wf()
    }

    /// A copy of this record.
    pub fn duplicate(&self) -> (r: Model)
        ensures
            r@ == self@,
    {
        Model {
            id: self.id,
            channel: self.channel.clone(),
            room_id: self.room_id,
            user_id: self.user_id,
            username: self.username.clone(),
            message: self.message.clone(),
            timestamp: self.timestamp,
            deleted: self.deleted,
            deleted_at: self.deleted_at,
            replying_to: self.replying_to,
            subscriber: self.subscriber,
            moderator: self.moderator,
            vip: self.vip,
            emotes: copy_text(&self.emotes),
            badges: copy_text(&self.badges),
            user_type: copy_text(&self.user_type),
        }
    }
}

} // verus!
