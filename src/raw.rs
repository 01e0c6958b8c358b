//! The raw model: the export as it is written, with numbers and instants
//! as text and enumerations as open codes.
use vstd::prelude::*;

verus! {

/// A whole export.
#[derive(Debug, Clone, PartialEq)]
pub struct Hangouts {
    pub conversations: Vec<Conversation>,
}

#[derive(Debug, Clone, PartialEq)]
pub struct Conversation {
    pub header: ConversationHeader,
    pub events: Vec<Event>,
}

#[derive(Debug, Clone, PartialEq)]
pub struct ConversationHeader {
    pub conversation_id: ConversationId,
    pub details: ConversationDetails,
}

#[derive(Debug, Clone, PartialEq)]
pub struct ConversationDetails {
    pub id: ConversationId,
    /// Conversation type code (`GROUP` or `STICKY_ONE_TO_ONE`).
    pub typ: String,
    /// Meaningful for group conversations only.
    pub name: Option<String>,
    pub self_conversation_state: SelfConversationState,
    /// One read state per participant, keyed by participant.
    pub read_state: Vec<ReadState>,
    pub has_active_hangout: bool,
    pub otr_status: String,
    pub otr_toggle: String,
    pub current_participant: Vec<ParticipantId>,
    /// The roster.
    pub participant_data: Vec<ParticipantData>,
    pub fork_on_external_invite: bool,
    pub network_type: Vec<String>,
    pub force_history_state: String,
    /// Link sharing code (`LINK_SHARING_OFF` or `LINK_SHARING_ON`).
    pub group_link_sharing_status: String,
}

#[derive(Debug, Clone, PartialEq)]
pub struct ConversationId {
    pub id: String,
}

/// The two kinds of conversation.
#[derive(Debug, Clone, Copy, PartialEq, Eq, Structural)]
pub enum ConversationType {
    Group,
    OneToOne,
}

#[derive(Debug, Clone, PartialEq)]
pub struct SelfConversationState {
    pub self_read_state: ReadState,
    /// Status code (`ACTIVE` or `INVITED`).
    pub status: String,
    /// Notification level code (`QUIET` or `RING`).
    pub notification_level: String,
    /// View codes (`INBOX_VIEW` or `ARCHIVED_VIEW`).
    pub view: Vec<String>,
    pub inviter_id: ParticipantId,
    /// Decimal count of timestamp units since the Unix epoch.
    pub invite_timestamp: String,
    pub invitation_display_type: Option<String>,
    /// Affinity code (`INVITE_AFFINITY_LOW` or `INVITE_AFFINITY_HIGH`), when given.
    pub invite_affinity: Option<String>,
    /// Decimal count of timestamp units since the Unix epoch.
    pub sort_timestamp: String,
    pub active_timestamp: Option<String>,
    pub is_guest: Option<bool>,
}

#[derive(Debug, Clone, PartialEq)]
pub struct ReadState {
    pub participant_id: ParticipantId,
    /// Decimal count of timestamp units since the Unix epoch.
    pub latest_read_timestamp: String,
}

#[derive(Debug, Clone, PartialEq)]
pub struct ParticipantId {
    pub gaia_id: String,
    pub chat_id: String,
}

impl ParticipantId {
    /// The pair of components that identifies the participant.
    pub open spec fn key(self) -> (Seq<char>, Seq<char>) {
        (self.gaia_id@, self.chat_id@)
    }
}

#[derive(Debug, Clone, PartialEq)]
pub struct ParticipantData {
    pub id: ParticipantId,
    pub fallback_name: Option<String>,
    /// Invitation code (`PENDING_INVITATION` or `ACCEPTED_INVITATION`).
    pub invitation_status: Option<String>,
    /// Participant type code (`GAIA` or `OFF_NETWORK_PHONE`).
    pub participant_type: Option<String>,
    /// Invitation code (`PENDING_INVITATION` or `ACCEPTED_INVITATION`).
    pub new_invitation_status: Option<String>,
    pub in_different_customer_as_requester: Option<bool>,
    pub domain_id: Option<String>,
}

/// An event: a header, and a payload filed under a kind tag.
#[derive(Debug, Clone, PartialEq)]
pub struct Event {
    pub header: EventHeader,
    /// The kind tag under which the payload stands (`chat_message`,
    /// `hangout_event`, `membership_change` or `conversation_rename`).
    pub kind: String,
    pub data: EventData,
    pub event_type: String,
}

#[derive(Debug, Clone, PartialEq)]
pub struct EventHeader {
    pub conversation_id: ConversationId,
    pub sender_id: ParticipantId,
    /// Decimal count of timestamp units since the Unix epoch.
    pub timestamp: String,
    pub self_event_state: SelfEventState,
    pub event_id: String,
    pub advances_sort_timestamp: bool,
    pub event_otr: String,
    /// Decimal version number.
    pub event_version: String,
}

#[derive(Debug, Clone, PartialEq)]
pub struct SelfEventState {
    pub user_id: ParticipantId,
    pub client_generated_id: Option<String>,
    /// Notification level code (`QUIET` or `RING`), when given.
    pub notification_level: Option<String>,
}

/// The payload of an event, by shape.
#[derive(Debug, Clone, PartialEq)]
pub enum EventData {
    ChatMessage {
        message_content: ChatSegments,
        annotation: Option<Vec<Annotation>>,
    },
    HangoutEvent {
        data: HangoutEvent,
        /// Media type code, when given.
        media_type: Option<String>,
        participant_id: Vec<ParticipantId>,
    },
    MembershipChange {
        /// Change code (`JOIN` or `LEAVE`).
        typ: String,
        participant_id: Vec<ParticipantId>,
    },
    ConversationRename {
        new_name: String,
        old_name: String,
    },
}

#[derive(Debug, Clone, PartialEq)]
pub struct ChatSegments {
    pub segments: Vec<ChatSegment>,
    pub attachments: Vec<AttachmentSegment>,
}

#[derive(Debug, Clone, PartialEq)]
pub enum ChatSegment {
    Text {
        text: String,
        formatting: Option<Formatting>,
    },
    Link {
        text: String,
        link_data: LinkData,
        formatting: Option<Formatting>,
    },
    LineBreak {
        text: Option<String>,
        formatting: Option<Formatting>,
    },
}

#[derive(Debug, Clone, PartialEq)]
pub struct Annotation {
    pub typ: i32,
    pub value: String,
}

#[derive(Debug, Clone, PartialEq)]
pub struct LinkData {
    pub link_target: String,
    pub display_url: Option<String>,
}

/// Formatting flags; an absent flag is off.
#[derive(Debug, Clone, Copy, PartialEq, Eq, Structural)]
pub struct Formatting {
    pub bold: Option<bool>,
    pub italics: Option<bool>,
    pub strikethrough: Option<bool>,
    pub underline: Option<bool>,
}

#[derive(Debug, Clone, PartialEq)]
pub struct AttachmentSegment {
    pub embed_item: EmbedItem,
    pub id: String,
}

#[derive(Debug, Clone, PartialEq)]
pub struct EmbedItem {
    pub id: Option<String>,
    pub plus_photo: Option<PlusPhoto>,
    pub place_v2: Option<PlaceV2>,
    pub thing_v2: Option<ThingV2>,
    pub types: Vec<String>,
}

#[derive(Debug, Clone, PartialEq)]
pub struct PlusPhoto {
    pub album_id: String,
    /// Media type code.
    pub media_type: String,
    pub original_content_url: String,
    pub owner_obfuscated_id: String,
    pub photo_id: String,
    pub stream_id: Vec<String>,
    pub thumbnail: Thumbnail,
    pub url: String,
    pub download_url: Option<String>,
}

#[derive(Debug, Clone, PartialEq)]
pub struct Thumbnail {
    pub height_px: u64,
    pub width_px: u64,
    pub image_url: String,
    pub url: Option<String>,
}

#[derive(Debug, Clone, PartialEq)]
pub struct PlaceV2 {
    pub url: String,
    pub name: Option<String>,
    pub address: Address,
    pub geo: Geo,
    pub representative_image: RepresentativeImage,
    pub place_id: Option<String>,
    pub cluster_id: Option<String>,
    pub reference_id: Option<String>,
}

#[derive(Debug, Clone, PartialEq)]
pub struct Address {
    pub types: Vec<String>,
    pub postal_address_v2: PostalAddressV2,
}

#[derive(Debug, Clone, PartialEq)]
pub struct PostalAddressV2 {
    pub name: Option<String>,
    pub street_address: Option<String>,
    pub address_locality: Option<String>,
    pub address_region: Option<String>,
    pub address_country: Option<String>,
    pub postal_code: Option<String>,
}

#[derive(Debug, Clone, PartialEq)]
pub struct Geo {
    pub types: Vec<String>,
    pub geo_coordinates_v2: GeoCoordinatesV2,
}

/// Degrees, each as the bit pattern of an IEEE 754 double.
#[derive(Debug, Clone, Copy, PartialEq, Eq, Structural)]
pub struct GeoCoordinatesV2 {
    pub latitude_bits: u64,
    pub longitude_bits: u64,
}

#[derive(Debug, Clone, PartialEq)]
pub struct RepresentativeImage {
    pub types: Vec<String>,
    pub id: String,
    pub image_object_v2: ImageObjectV2,
}

#[derive(Debug, Clone, PartialEq)]
pub struct ImageObjectV2 {
    pub url: String,
    /// Decimal pixel width, when given.
    pub width: Option<String>,
    /// Decimal pixel height, when given.
    pub height: Option<String>,
}

#[derive(Debug, Clone, PartialEq)]
pub struct ThingV2 {
    pub url: String,
    pub name: Option<String>,
    pub representative_image: RepresentativeImage,
}

/// A call payload: its sub-tag (`START_HANGOUT` or `END_HANGOUT`), and the
/// call's length, which an end carries.
#[derive(Debug, Clone, PartialEq)]
pub struct HangoutEvent {
    pub event_type: String,
    /// Decimal number of seconds.
    pub hangout_duration_secs: Option<String>,
}

} // verus!
