//! Conversion of a messaging-service history export from its loosely typed
//! raw form into a closed, strongly typed domain model.
//!
//! The raw model (`raw`) mirrors the export: numbers and instants as text,
//! enumerations as open codes, a tagged payload per event, and read states
//! in a side table. The domain model holds closed enumerations, instants and
//! integers, and each participant joined with its read state. Every
//! conversion either gives the domain value or one `ConversionError`.

pub mod codes;
pub mod conversation;
pub mod convert;
pub mod error;
pub mod event;
pub mod model;
pub mod numeric;
pub mod raw;
pub mod reconcile;
pub mod time;

pub use crate::error::ConversionError;
pub use crate::event::{
    Address, AttachmentSegment, ChatMessage, ChatSegment, ConversationRename, EmbedItem, Event,
    EventData, Formatting, Geo, HangoutEvent, HangoutEventType, MediaType, MembershipChange,
    MembershipChangeType, Photo, PlaceV2, RepresentativeImage, SelfEventState, ThingV2, Thumbnail,
};
pub use crate::model::{
    Conversation, ConversationStatus, Hangouts, InvitationAffinity, InvitationData,
    InvitationStatus, LinkSharingStatus, NotificationLevel, Participant, ParticipantId,
    ParticipantType, ReadState, SelfState, View,
};
pub use crate::numeric::{decode_integer, decode_unsigned, IntErrorKind};
pub use crate::reconcile::reconcile;
pub use crate::time::{
    decode_timestamp, encode_timestamp, parse_timestamp, AbsoluteTime, TimestampUnit,
    MAX_UTC_SECS, MIN_UTC_SECS,
};
