//! Events of a conversation, in the domain model.
use vstd::prelude::*;

use crate::model::{NotificationLevel, ParticipantId};
use crate::time::AbsoluteTime;

verus! {

/// A single event in a conversation.
#[derive(Debug, Clone, PartialEq)]
pub struct Event {
    /// ID of the event.
    pub id: String,
    /// Sender or initiator of the event.
    pub sender: ParticipantId,
    /// Time of the event.
    pub timestamp: AbsoluteTime,
    /// Event-specific data.
    pub data: EventData,
    /// The user's state with regard to the event.
    pub self_state: SelfEventState,
    /// Whether the event advances the sort timestamp of the conversation.
    pub advances_sort_timestamp: bool,
    pub version: u64,
}

/// The user's state with regard to an event.
#[derive(Debug, Clone, PartialEq)]
pub struct SelfEventState {
    /// Client generated ID of the event.
    pub client_generated_id: Option<String>,
    /// Notification level of the event.
    pub notification_level: Option<NotificationLevel>,
}

/// Data body of an event, which is of one of four kinds.
#[derive(Debug, Clone, PartialEq)]
pub enum EventData {
    /// A regular chat message.
    ChatMessage(ChatMessage),
    /// A call starting or ending.
    HangoutEvent(HangoutEvent),
    /// Participants joining or leaving the conversation.
    MembershipChange(MembershipChange),
    /// The conversation getting a new name.
    ConversationRename(ConversationRename),
}

impl EventData {
    pub fn is_chat_message(&self) -> (r: bool)
        ensures
            r == self is ChatMessage,
    {
        matches!(self, EventData::ChatMessage(..))
    }

    pub fn as_chat_message(&self) -> (r: Option<&ChatMessage>)
        ensures
            r == (match self {
                EventData::ChatMessage(v) => Some(v),
                _ => None,
            }),
    {
        match self {
            EventData::ChatMessage(v) => Some(v),
            _ => None,
        }
    }

    pub fn is_hangout_event(&self) -> (r: bool)
        ensures
            r == self is HangoutEvent,
    {
        matches!(self, EventData::HangoutEvent(..))
    }

    pub fn as_hangout_event(&self) -> (r: Option<&HangoutEvent>)
        ensures
            r == (match self {
                EventData::HangoutEvent(v) => Some(v),
                _ => None,
            }),
    {
        match self {
            EventData::HangoutEvent(v) => Some(v),
            _ => None,
        }
    }

    pub fn is_membership_change(&self) -> (r: bool)
        ensures
            r == self is MembershipChange,
    {
        matches!(self, EventData::MembershipChange(..))
    }

    pub fn as_membership_change(&self) -> (r: Option<&MembershipChange>)
        ensures
            r == (match self {
                EventData::MembershipChange(v) => Some(v),
                _ => None,
            }),
    {
        match self {
            EventData::MembershipChange(v) => Some(v),
            _ => None,
        }
    }

    pub fn is_conversation_rename(&self) -> (r: bool)
        ensures
            r == self is ConversationRename,
    {
        matches!(self, EventData::ConversationRename(..))
    }

    pub fn as_conversation_rename(&self) -> (r: Option<&ConversationRename>)
        ensures
            r == (match self {
                EventData::ConversationRename(v) => Some(v),
                _ => None,
            }),
    {
        match self {
            EventData::ConversationRename(v) => Some(v),
            _ => None,
        }
    }
}

/// A regular chat message.
#[derive(Debug, Clone, PartialEq)]
pub struct ChatMessage {
    /// The textual contents of the message, segment by segment.
    pub contents: Vec<ChatSegment>,
    /// The attachments of the message.
    pub attachments: Vec<AttachmentSegment>,
}

/// The texts of the first `n` segments, one after the other.
pub open spec fn joined_text(segments: Seq<ChatSegment>, n: int) -> Seq<char>
    decreases n,
{
    if n <= 0 {
        Seq::empty()
    } else {
        joined_text(segments, n - 1) + segments[n - 1].text_view()
    }
}

impl ChatMessage {
    /// The whole text of the message: the text of each segment in turn.
    pub fn contents_as_str(&self) -> (r: String)
        ensures
            r@ == joined_text(self.contents@, self.contents@.len() as int),
    {
        let mut acc = String::new();
        let mut i: usize = 0;
        while i < self.contents.len()
            invariant
                i <= self.contents@.len(),
                acc@ == joined_text(self.contents@, i as int),
            decreases self.contents@.len() - i,
        {
            acc.append(self.contents[i].text());
            i = i + 1;
        }
        acc
    }
}

/// A segment of a chat message.
#[derive(Debug, Clone, PartialEq)]
pub enum ChatSegment {
    /// Plain text.
    Text {
        /// The text of the segment.
        text: String,
        /// Formatting of the text.
        format: Formatting,
    },
    /// A link.
    Link {
        /// Text shown in the message.
        text: String,
        /// Where the link leads.
        target: String,
        display_url: Option<String>,
        /// Formatting of the text.
        format: Formatting,
    },
    /// A line break within a message.
    LinkBreak {
        /// Raw text of the line break.
        text: Option<String>,
        /// Formatting of the text.
        format: Formatting,
    },
}

impl ChatSegment {
    /// The text that the segment shows; a line break without its own text
    /// shows a newline.
    pub open spec fn text_view(self) -> Seq<char> {
        match self {
            ChatSegment::Text { text, .. } => text@,
            ChatSegment::Link { text, .. } => text@,
            ChatSegment::LinkBreak { text, .. } => match text {
                Some(t) => t@,
                None => seq!['\n'],
            },
        }
    }

    pub open spec fn format_view(self) -> Formatting {
        match self {
            ChatSegment::Text { format, .. } => format,
            ChatSegment::Link { format, .. } => format,
            ChatSegment::LinkBreak { format, .. } => format,
        }
    }

    /// Returns the text of the segment.
    pub fn text(&self) -> (r: &str)
        ensures
            r@ == self.text_view(),
    {
        match self {
            ChatSegment::Text { text, .. } => text.as_str(),
            ChatSegment::Link { text, .. } => text.as_str(),
            ChatSegment::LinkBreak { text, .. } => match text {
                Some(t) => t.as_str(),
                None => {
                    let nl = "\n";
                    proof {
                        reveal_strlit("\n");
                    }
                    assert(nl@ =~= seq!['\n']);
                    nl
                },
            },
        }
    }

    /// Returns the formatting of the segment.
    pub fn formatting(&self) -> (r: &Formatting)
        ensures
            *r == self.format_view(),
    {
        match self {
            ChatSegment::Text { format, .. } => format,
            ChatSegment::Link { format, .. } => format,
            ChatSegment::LinkBreak { format, .. } => format,
        }
    }

    pub fn is_text(&self) -> (r: bool)
        ensures
            r == self is Text,
    {
        matches!(self, ChatSegment::Text { .. })
    }

    pub fn is_link(&self) -> (r: bool)
        ensures
            r == self is Link,
    {
        matches!(self, ChatSegment::Link { .. })
    }

    pub fn is_link_break(&self) -> (r: bool)
        ensures
            r == self is LinkBreak,
    {
        matches!(self, ChatSegment::LinkBreak { .. })
    }
}

/// Formatting of a text segment.
#[derive(Debug, Clone, Copy, PartialEq, Eq, Structural)]
pub struct Formatting {
    pub bold: bool,
    pub italics: bool,
    pub strikethrough: bool,
    pub underline: bool,
}

/// An attachment of a chat message.
#[derive(Debug, Clone, PartialEq)]
pub struct AttachmentSegment {
    /// ID of the attachment.
    pub id: String,
    /// The attached item.
    pub item: EmbedItem,
}

/// An attached item; at most one of its kinds is usually present.
#[derive(Debug, Clone, PartialEq)]
pub struct EmbedItem {
    pub id: Option<String>,
    pub photo: Option<Photo>,
    pub place: Option<PlaceV2>,
    pub thing: Option<ThingV2>,
}

/// A photo or video attachment.
#[derive(Debug, Clone, PartialEq)]
pub struct Photo {
    pub media_type: MediaType,
    pub thumbnail: Thumbnail,
    /// ID of the album the media was saved to.
    pub album_id: String,
    pub photo_id: String,
    pub stream_id: Vec<String>,
    pub url: String,
    /// URL from which the media can be downloaded.
    pub download_url: Option<String>,
    pub original_url: String,
    pub owner_obfuscated_id: String,
}

/// Thumbnail of a media item.
#[derive(Debug, Clone, PartialEq)]
pub struct Thumbnail {
    pub height: u64,
    pub width: u64,
    pub url: Option<String>,
}

/// A place attachment.
#[derive(Debug, Clone, PartialEq)]
pub struct PlaceV2 {
    pub url: String,
    pub name: Option<String>,
    pub address: Address,
    pub geo: Geo,
    pub representative_image: RepresentativeImage,
    pub place_id: Option<String>,
    pub cluster_id: Option<String>,
    pub reference_id: Option<String>,
}

/// A postal address.
#[derive(Debug, Clone, PartialEq)]
pub struct Address {
    pub name: Option<String>,
    pub street: Option<String>,
    pub locality: Option<String>,
    pub region: Option<String>,
    pub country: Option<String>,
    pub postal_code: Option<String>,
}

/// A latitude and longitude in degrees, each held as the bit pattern of an
/// IEEE 754 double so that it passes through unchanged.
#[derive(Debug, Clone, Copy, PartialEq, Eq, Structural)]
pub struct Geo {
    pub latitude_bits: u64,
    pub longitude_bits: u64,
}

/// An image that stands for a place or a thing.
#[derive(Debug, Clone, PartialEq)]
pub struct RepresentativeImage {
    pub id: String,
    pub url: String,
    /// Width in pixels, if known.
    pub width: Option<u64>,
    /// Height in pixels, if known.
    pub height: Option<u64>,
}

/// A thing attachment.
#[derive(Debug, Clone, PartialEq)]
pub struct ThingV2 {
    pub url: String,
    pub name: Option<String>,
    pub representative_image: RepresentativeImage,
}

/// A call event.
#[derive(Debug, Clone, PartialEq)]
pub struct HangoutEvent {
    /// Whether the call starts or ends.
    pub typ: HangoutEventType,
    /// The media of the call.
    pub media_type: Option<MediaType>,
    /// Participants of the call.
    pub participants: Vec<ParticipantId>,
}

/// The start or the end of a call.
#[derive(Debug, Clone, Copy, PartialEq, Eq, Structural)]
pub enum HangoutEventType {
    Start,
    End {
        /// Length of the call in seconds.
        duration: u64,
    },
}

impl HangoutEventType {
    pub fn is_start(&self) -> (r: bool)
        ensures
            r == self is Start,
    {
        matches!(self, HangoutEventType::Start)
    }

    pub fn is_end(&self) -> (r: bool)
        ensures
            r == self is End,
    {
        matches!(self, HangoutEventType::End { .. })
    }
}

/// The media of an attachment or a call.
#[derive(Debug, Clone, Copy, PartialEq, Eq, Structural)]
pub enum MediaType {
    Audio,
    Video,
    AudioVideo,
    Photo,
    /// An animated photo, such as a gif.
    AnimatedPhoto,
}

impl MediaType {
    pub fn is_audio(&self) -> (r: bool)
        ensures
            r == (*self == MediaType::Audio),
    {
        matches!(self, MediaType::Audio)
    }

    pub fn is_video(&self) -> (r: bool)
        ensures
            r == (*self == MediaType::Video),
    {
        matches!(self, MediaType::Video)
    }

    pub fn is_audio_video(&self) -> (r: bool)
        ensures
            r == (*self == MediaType::AudioVideo),
    {
        matches!(self, MediaType::AudioVideo)
    }

    pub fn is_photo(&self) -> (r: bool)
        ensures
            r == (*self == MediaType::Photo),
    {
        matches!(self, MediaType::Photo)
    }

    pub fn is_animated_photo(&self) -> (r: bool)
        ensures
            r == (*self == MediaType::AnimatedPhoto),
    {
        matches!(self, MediaType::AnimatedPhoto)
    }
}

/// Participants joining or leaving a conversation.
#[derive(Debug, Clone, PartialEq)]
pub struct MembershipChange {
    pub typ: MembershipChangeType,
    pub participants: Vec<ParticipantId>,
}

#[derive(Debug, Clone, Copy, PartialEq, Eq, Structural)]
pub enum MembershipChangeType {
    Join,
    Leave,
}

impl MembershipChangeType {
    pub fn is_join(&self) -> (r: bool)
        ensures
            r == (*self == MembershipChangeType::Join),
    {
        matches!(self, MembershipChangeType::Join)
    }

    pub fn is_leave(&self) -> (r: bool)
        ensures
            r == (*self == MembershipChangeType::Leave),
    {
        matches!(self, MembershipChangeType::Leave)
    }
}

/// A conversation getting a new name.
#[derive(Debug, Clone, PartialEq)]
pub struct ConversationRename {
    /// The name before.
    pub old: String,
    /// The name after.
    pub new: String,
}

} // verus!
