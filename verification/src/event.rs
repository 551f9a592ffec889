//! Gateway events: the typed form of an inbound frame, and the decoder that
//! produces it from a JSON document.

use vstd::prelude::*;
use crate::document::{dig, document_of, parse, signed_of, text_of, unsigned_of, Json};
use crate::text::same_text;

verus! {

/// The group that a message was sent in.
#[derive(Debug, Clone, PartialEq, Eq)]
pub struct Group {
    pub id: u64,
    pub name: Option<String>,
}

/// One element of a message, in the order in which the platform sent it.
#[derive(Debug, Clone, PartialEq, Eq)]
pub enum Segment {
    /// The message's own id and the time it was sent, in seconds since the epoch.
    Source { message: u64, time: i64 },
    Image { id: String, url: String },
    FlashImage { id: String, url: String },
    /// An uploaded file; its address has to be asked for.
    File { id: String },
    Other,
}

/// A message from a friend or in a group.
#[derive(Debug, Clone, PartialEq, Eq)]
pub struct MessageEvent {
    pub sender: u64,
    pub group: Option<Group>,
    pub segments: Vec<Segment>,
}

/// The business events that the gateway reports.
#[derive(Debug, Clone, PartialEq, Eq)]
pub enum Business {
    FriendMessage(MessageEvent),
    GroupMessage(MessageEvent),
    FriendInputStatusChanged,
    FriendRecall,
    GroupRecall,
    Other,
}

/// A decoded frame.
#[derive(Debug, Clone, PartialEq, Eq)]
pub enum Event {
    /// The gateway's greeting, with the session token.
    Handshake(String),
    Business(Business),
}

/// Why a frame could not be decoded.
#[derive(Debug, Clone, Copy, PartialEq, Eq)]
pub enum DecodeError {
    /// The text is no JSON document, or holds a run of digits too long for
    /// the parser.
    Syntax,
    /// The document carries neither an event type nor a session.
    Shape,
    /// A message without a numeric sender id.
    Sender,
    /// A message with a segment that lacks its type or one of its fields.
    Segment,
}

pub struct GroupView {
    pub id: u64,
    pub name: Option<Seq<char>>,
}

pub enum SegmentView {
    Source { message: u64, time: i64 },
    Image { id: Seq<char>, url: Seq<char> },
    FlashImage { id: Seq<char>, url: Seq<char> },
    File { id: Seq<char> },
    Other,
}

pub struct MessageView {
    pub sender: u64,
    pub group: Option<GroupView>,
    pub segments: Seq<SegmentView>,
}

pub enum BusinessView {
    FriendMessage(MessageView),
    GroupMessage(MessageView),
    FriendInputStatusChanged,
    FriendRecall,
    GroupRecall,
    Other,
}

pub enum EventView {
    Handshake(Seq<char>),
    Business(BusinessView),
}

impl View for Group {
    type V = GroupView;

    open spec fn view(&self) -> GroupView {
        GroupView {
            id: self.id,
            name: match self.name {
                Some(n) => Some(n@),
                None => None,
            },
        }
    }
}

impl View for Segment {
    type V = SegmentView;

    open spec fn view(&self) -> SegmentView {
        match *self {
            Segment::Source { message, time } => SegmentView::Source { message, time },
            Segment::Image { id, url } => SegmentView::Image { id: id@, url: url@ },
            Segment::FlashImage { id, url } => SegmentView::FlashImage { id: id@, url: url@ },
            Segment::File { id } => SegmentView::File { id: id@ },
            Segment::Other => SegmentView::Other,
        }
    }
}

impl View for MessageEvent {
    type V = MessageView;

    open spec fn view(&self) -> MessageView {
        MessageView {
            sender: self.sender,
            group: match self.group {
                Some(g) => Some(g@),
                None => None,
            },
            segments: self.segments@.map_values(|s: Segment| s@),
        }
    }
}

impl View for Business {
    type V = BusinessView;

    open spec fn view(&self) -> BusinessView {
        match *self {
            Business::FriendMessage(m) => BusinessView::FriendMessage(m@),
            Business::GroupMessage(m) => BusinessView::GroupMessage(m@),
            Business::FriendInputStatusChanged => BusinessView::FriendInputStatusChanged,
            Business::FriendRecall => BusinessView::FriendRecall,
            Business::GroupRecall => BusinessView::GroupRecall,
            Business::Other => BusinessView::Other,
        }
    }
}

impl View for Event {
    type V = EventView;

    open spec fn view(&self) -> EventView {
        match *self {
            Event::Handshake(token) => EventView::Handshake(token@),
            Event::Business(b) => EventView::Business(b@),
        }
    }
}

/// An image-like segment needs its id and its address, both strings.
pub open spec fn picture_fields(doc: Json) -> Option<(Seq<char>, Seq<char>)> {
    match (doc.member("imageId"@).text(), doc.member("url"@).text()) {
        (Some(id), Some(url)) => Some((id, url)),
        _ => None,
    }
}

/// The segment that a document stands for. The member `type` decides; a
/// known type asks for its fields, an unknown one is `Other`, and a document
/// without a string `type` is no segment.
pub open spec fn segment_of(doc: Json) -> Option<SegmentView> {
    match doc.member("type"@).text() {
        None => None,
        Some(tag) => if tag == "Source"@ {
            match (doc.member("id"@).unsigned(), doc.member("time"@).signed()) {
                (Some(message), Some(time)) => Some(SegmentView::Source { message, time }),
                _ => None,
            }
        } else if tag == "Image"@ {
            match picture_fields(doc) {
                Some((id, url)) => Some(SegmentView::Image { id, url }),
                None => None,
            }
        } else if tag == "FlashImage"@ {
            match picture_fields(doc) {
                Some((id, url)) => Some(SegmentView::FlashImage { id, url }),
                None => None,
            }
        } else if tag == "File"@ {
            match doc.member("id"@).text() {
                Some(id) => Some(SegmentView::File { id }),
                None => None,
            }
        } else {
            Some(SegmentView::Other)
        },
    }
}

/// The group of a sender: present exactly when the sender's `group` has a
/// numeric `id`.
pub open spec fn group_of(sender: Json) -> Option<GroupView> {
    match sender.member("group"@).member("id"@).unsigned() {
        Some(id) => Some(GroupView { id, name: sender.member("group"@).member("name"@).text() }),
        None => None,
    }
}

/// Whether every element of a message chain is a segment.
pub open spec fn chain_decodes(chain: Json) -> bool {
    forall|i: int| 0 <= i < chain.size() ==> (#[trigger] segment_of(chain.item(i))).is_some()
}

/// The segments of a message chain, in its order.
pub open spec fn chain_of(chain: Json) -> Seq<SegmentView> {
    Seq::new(chain.size(), |i: int| segment_of(chain.item(i)).unwrap())
}

/// The message that the `data` of a frame stands for.
pub open spec fn message_of(data: Json) -> Result<MessageView, DecodeError> {
    match data.member("sender"@).member("id"@).unsigned() {
        None => Err(DecodeError::Sender),
        Some(sender) => if chain_decodes(data.member("messageChain"@)) {
            Ok(
                MessageView {
                    sender,
                    group: group_of(data.member("sender"@)),
                    segments: chain_of(data.member("messageChain"@)),
                },
            )
        } else {
            Err(DecodeError::Segment)
        },
    }
}

/// The business event with the type `tag` and the payload `data`.
pub open spec fn business_of(tag: Seq<char>, data: Json) -> Result<BusinessView, DecodeError> {
    if tag == "FriendMessage"@ {
        match message_of(data) {
            Ok(m) => Ok(BusinessView::FriendMessage(m)),
            Err(e) => Err(e),
        }
    } else if tag == "GroupMessage"@ {
        match message_of(data) {
            Ok(m) => Ok(BusinessView::GroupMessage(m)),
            Err(e) => Err(e),
        }
    } else if tag == "FriendInputStatusChangedEvent"@ {
        Ok(BusinessView::FriendInputStatusChanged)
    } else if tag == "FriendRecallEvent"@ {
        Ok(BusinessView::FriendRecall)
    } else if tag == "GroupRecallEvent"@ {
        Ok(BusinessView::GroupRecall)
    } else {
        Ok(BusinessView::Other)
    }
}

/// The event that a document stands for: a business event where `data.type`
/// is a string, else a handshake where `data.session` is one, else nothing.
pub open spec fn event_of(doc: Json) -> Result<EventView, DecodeError> {
    let data = doc.member("data"@);
    match data.member("type"@).text() {
        Some(tag) => match business_of(tag, data) {
            Ok(b) => Ok(EventView::Business(b)),
            Err(e) => Err(e),
        },
        None => match data.member("session"@).text() {
            Some(token) => Ok(EventView::Handshake(token)),
            None => Err(DecodeError::Shape),
        },
    }
}

/// The event that a frame's text stands for.
pub open spec fn frame_of(text: Seq<char>) -> Result<EventView, DecodeError> {
    match document_of(text) {
        None => Err(DecodeError::Syntax),
        Some(doc) => event_of(doc),
    }
}

fn decode_picture(doc: &Json) -> (r: Option<(String, String)>)
    ensures
        r.is_some() == picture_fields(*doc).is_some(),
        r matches Some(p) ==> picture_fields(*doc) == Some((p.0@, p.1@)),
{
    let id = text_of(doc.get("imageId"));
    let url = text_of(doc.get("url"));
    match (id, url) {
        (Some(id), Some(url)) => Some((id.clone(), url.clone())),
        _ => None,
    }
}

/// Decodes one element of a message chain.
pub fn decode_segment(doc: &Json) -> (r: Option<Segment>)
    ensures
        r.is_some() == segment_of(*doc).is_some(),
        r matches Some(s) ==> segment_of(*doc) == Some(s@),
{
    let tag = match text_of(doc.get("type")) {
        Some(tag) => tag,
        None => {
            return None;
        },
    };
    if same_text(tag.as_str(), "Source") {
        let id = unsigned_of(doc.get("id"));
        let time = signed_of(doc.get("time"));
        match (id, time) {
            (Some(message), Some(time)) => Some(Segment::Source { message, time }),
            _ => None,
        }
    } else if same_text(tag.as_str(), "Image") {
        match decode_picture(doc) {
            Some((id, url)) => Some(Segment::Image { id, url }),
            None => None,
        }
    } else if same_text(tag.as_str(), "FlashImage") {
        match decode_picture(doc) {
            Some((id, url)) => Some(Segment::FlashImage { id, url }),
            None => None,
        }
    } else if same_text(tag.as_str(), "File") {
        match text_of(doc.get("id")) {
            Some(id) => Some(Segment::File { id: id.clone() }),
            None => None,
        }
    } else {
        Some(Segment::Other)
    }
}

fn decode_group(sender: Option<&Json>) -> (r: Option<Group>)
    ensures
        r.is_some() == group_of(crate::document::or_null(sender)).is_some(),
        r matches Some(g) ==> group_of(crate::document::or_null(sender)) == Some(g@),
{
    let group = dig(sender, "group");
    match unsigned_of(dig(group, "id")) {
        Some(id) => {
            let name = match text_of(dig(group, "name")) {
                Some(n) => Some(n.clone()),
                None => None,
            };
            Some(Group { id, name })
        },
        None => None,
    }
}

/// Decodes the `data` of a message frame.
#[verifier::loop_isolation(false)]
pub fn decode_message(data: &Json) -> (r: Result<MessageEvent, DecodeError>)
    ensures
        match r {
            Ok(m) => message_of(*data) == Ok::<MessageView, DecodeError>(m@),
            Err(e) => message_of(*data) == Err::<MessageView, DecodeError>(e),
        },
{
    let sender_doc = data.get("sender");
    let sender = match unsigned_of(dig(sender_doc, "id")) {
        Some(id) => id,
        None => {
            return Err(DecodeError::Sender);
        },
    };
    let group = decode_group(sender_doc);
    let null = Json::Null;
    let chain: &Json = match data.get("messageChain") {
        Some(c) => c,
        None => &null,
    };
    let n = chain.len();
    let mut segments: Vec<Segment> = Vec::new();
    let mut i: usize = 0;
    while i < n
        invariant
            i <= n,
            n == chain.size(),
            null == Json::Null,
            segments@.len() == i,
            forall|j: int| 0 <= j < i ==> segment_of(chain.item(j)) == Some(#[trigger] segments@[j]@),
        decreases n - i,
    {
        let item: &Json = match chain.at(i) {
            Some(v) => v,
            None => &null,
        };
        match decode_segment(item) {
            Some(s) => {
                segments.push(s);
            },
            None => {
                return Err(DecodeError::Segment);
            },
        }
        i += 1;
    }
    let message = MessageEvent { sender, group, segments };
    proof {
        assert(*chain == data.member("messageChain"@));
        assert forall|k: int| 0 <= k < chain.size() implies (#[trigger] segment_of(
            chain.item(k),
        )).is_some() by {
            assert(segment_of(chain.item(k)) == Some(segments@[k]@));
        }
        assert(message@.segments =~= chain_of(*chain));
    }
    Ok(message)
}

/// Decodes a document into an event.
pub fn decode_event(doc: &Json) -> (r: Result<Event, DecodeError>)
    ensures
        match r {
            Ok(e) => event_of(*doc) == Ok::<EventView, DecodeError>(e@),
            Err(e) => event_of(*doc) == Err::<EventView, DecodeError>(e),
        },
{
    let null = Json::Null;
    let data: &Json = match doc.get("data") {
        Some(d) => d,
        None => &null,
    };
    match text_of(data.get("type")) {
        Some(tag) => {
            let tag = tag.as_str();
            if same_text(tag, "FriendMessage") {
                match decode_message(data) {
                    Ok(m) => Ok(Event::Business(Business::FriendMessage(m))),
                    Err(e) => Err(e),
                }
            } else if same_text(tag, "GroupMessage") {
                match decode_message(data) {
                    Ok(m) => Ok(Event::Business(Business::GroupMessage(m))),
                    Err(e) => Err(e),
                }
            } else if same_text(tag, "FriendInputStatusChangedEvent") {
                Ok(Event::Business(Business::FriendInputStatusChanged))
            } else if same_text(tag, "FriendRecallEvent") {
                Ok(Event::Business(Business::FriendRecall))
            } else if same_text(tag, "GroupRecallEvent") {
                Ok(Event::Business(Business::GroupRecall))
            } else {
                Ok(Event::Business(Business::Other))
            }
        },
        None => match text_of(data.get("session")) {
            Some(token) => Ok(Event::Handshake(token.clone())),
            None => Err(DecodeError::Shape),
        },
    }
}

/// Decodes the text of a frame: parses it and decodes the document. A text
/// that cannot be handed to the parser is answered like one that is no JSON.
pub fn decode_frame(text: &str) -> (r: Result<Event, DecodeError>)
    ensures
        match r {
            Ok(e) => frame_of(text@) == Ok::<EventView, DecodeError>(e@),
            Err(e) => frame_of(text@) == Err::<EventView, DecodeError>(e),
        },
{
    match parse(text) {
        Some(doc) => decode_event(&doc),
        None => Err(DecodeError::Syntax),
    }
}

} // verus!
