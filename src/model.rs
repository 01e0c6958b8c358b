//! The domain model of a conversation history.
use vstd::prelude::*;
use vstd::view::View as _;

use crate::event::Event;
use crate::time::AbsoluteTime;

verus! {

/// A whole history: its conversations, in the order of the export.
#[derive(Debug, Clone, PartialEq)]
pub struct Hangouts {
    pub conversations: Vec<Conversation>,
}

/// A single conversation.
#[derive(Debug, Clone, PartialEq)]
pub struct Conversation {
    pub conversation_id: String,
    pub id: String,
    /// Name of a group conversation; a one-to-one conversation has none.
    pub name: Option<String>,
    /// Participants, each with its read state.
    pub participants: Vec<Participant>,
    /// Events, in the order of the export.
    pub events: Vec<Event>,
    pub self_state: SelfState,
    pub sort_timestamp: AbsoluteTime,
    pub group_link_sharing_status: LinkSharingStatus,
}

/// A member of a conversation's roster.
#[derive(Debug, Clone, PartialEq)]
pub struct Participant {
    pub id: ParticipantId,
    pub fallback_name: Option<String>,
    pub typ: Option<ParticipantType>,
    pub invitation_status: Option<InvitationStatus>,
    pub new_invitation_status: Option<InvitationStatus>,
    /// How far the participant has read.
    pub read_state: ReadState,
}

/// The exporting user's own standing in a conversation.
#[derive(Debug, Clone, PartialEq)]
pub struct SelfState {
    pub status: ConversationStatus,
    pub notification_level: NotificationLevel,
    pub invitation: InvitationData,
    pub views: Vec<View>,
}

#[derive(Debug, Clone, Copy, PartialEq, Eq, Structural)]
pub enum InvitationStatus {
    Pending,
    Accepted,
}

/// How the exporting user came into a conversation.
#[derive(Debug, Clone, PartialEq)]
pub struct InvitationData {
    /// The participant who made the invitation.
    pub inviter: ParticipantId,
    /// When the invitation was made.
    pub timestamp: AbsoluteTime,
    pub affinity: InvitationAffinity,
}

#[derive(Debug, Clone, Copy, PartialEq, Eq, Structural)]
pub enum InvitationAffinity {
    /// The export gives no affinity.
    Unspecified,
    Low,
    High,
}

#[derive(Debug, Clone, Copy, PartialEq, Eq, Structural)]
pub enum ConversationStatus {
    Active,
    Invited,
}

#[derive(Debug, Clone, Copy, PartialEq, Eq, Structural)]
pub enum NotificationLevel {
    Quiet,
    Ring,
}

/// Identity of a participant: two opaque components, compared as they are.
#[derive(Debug, Clone, Eq, PartialOrd, Ord, Hash)]
pub struct ParticipantId {
    pub gaia_id: String,
    pub chat_id: String,
}

impl ParticipantId {
    /// The pair of components that identifies the participant.
    pub open spec fn key(self) -> (Seq<char>, Seq<char>) {
        (self.gaia_id@, self.chat_id@)
    }
}

impl PartialEq for ParticipantId {
    fn eq(&self, other: &ParticipantId) -> (r: bool)
        ensures
            r == (self.key() == other.key()),
    {
        self.gaia_id == other.gaia_id && self.chat_id == other.chat_id
    }
}

impl vstd::std_specs::cmp::PartialEqSpecImpl for ParticipantId {
    open spec fn obeys_eq_spec() -> bool {
        true
    }

    open spec fn eq_spec(&self, other: &ParticipantId) -> bool {
        self.key() == other.key()
    }
}

#[derive(Debug, Clone, Copy, PartialEq, Eq, Structural)]
pub enum ParticipantType {
    Gaia,
    OffNetworkPhone,
}

/// The instant up to which a participant has read a conversation.
#[derive(Debug, Clone, Copy, PartialEq, Eq)]
pub struct ReadState {
    pub timestamp: AbsoluteTime,
}

#[derive(Debug, Clone, Copy, PartialEq, Eq, Structural)]
pub enum View {
    Inbox,
    Archived,
}

#[derive(Debug, Clone, Copy, PartialEq, Eq, Structural)]
pub enum LinkSharingStatus {
    /// Link sharing is disabled.
    Off,
    /// Link sharing is enabled.
    On,
}

} // verus!
