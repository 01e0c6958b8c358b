//! The closed sets of codes that the export uses for its enumerations.
use vstd::prelude::*;
use vstd::view::View as _;

use crate::error::ConversionError;
use crate::event::{MediaType, MembershipChangeType};
use crate::model::{
    ConversationStatus, InvitationAffinity, InvitationStatus, LinkSharingStatus, NotificationLevel,
    ParticipantType, View,
};
use crate::raw::ConversationType;

verus! {

/// Whether two texts hold the same characters.
pub fn text_is(s: &str, t: &str) -> (r: bool)
    ensures
        r == (s@ == t@),
{
    let n = s.unicode_len();
    if n != t.unicode_len() {
        return false;
    }
    let mut i: usize = 0;
    while i < n
        invariant
            n == s@.len(),
            n == t@.len(),
            i <= n,
            s@.take(i as int) == t@.take(i as int),
        decreases n - i,
    {
        if s.get_char(i) != t.get_char(i) {
            return false;
        }
        assert(s@.take(i + 1) =~= s@.take(i as int).push(s@[i as int]));
        assert(t@.take(i + 1) =~= t@.take(i as int).push(t@[i as int]));
        i = i + 1;
    }
    assert(s@ =~= s@.take(n as int));
    assert(t@ =~= t@.take(n as int));
    true
}

/// The result of looking a code up: the variant found, or the failure that
/// names the field and the code.
pub open spec fn mapped<T>(found: Option<T>, field: &'static str, code: String) -> Result<T, ConversionError> {
    match found {
        Some(v) => Ok(v),
        None => Err(ConversionError::UnknownEnumValue { field, value: code }),
    }
}

pub open spec fn conversation_type_of(code: Seq<char>) -> Option<ConversationType> {
    if code == "GROUP"@ {
        Some(ConversationType::Group)
    } else if code == "STICKY_ONE_TO_ONE"@ {
        Some(ConversationType::OneToOne)
    } else {
        None
    }
}

pub open spec fn conversation_status_of(code: Seq<char>) -> Option<ConversationStatus> {
    if code == "ACTIVE"@ {
        Some(ConversationStatus::Active)
    } else if code == "INVITED"@ {
        Some(ConversationStatus::Invited)
    } else {
        None
    }
}

pub open spec fn notification_level_of(code: Seq<char>) -> Option<NotificationLevel> {
    if code == "QUIET"@ {
        Some(NotificationLevel::Quiet)
    } else if code == "RING"@ {
        Some(NotificationLevel::Ring)
    } else {
        None
    }
}

pub open spec fn view_of(code: Seq<char>) -> Option<View> {
    if code == "INBOX_VIEW"@ {
        Some(View::Inbox)
    } else if code == "ARCHIVED_VIEW"@ {
        Some(View::Archived)
    } else {
        None
    }
}

pub open spec fn invitation_status_of(code: Seq<char>) -> Option<InvitationStatus> {
    if code == "PENDING_INVITATION"@ {
        Some(InvitationStatus::Pending)
    } else if code == "ACCEPTED_INVITATION"@ {
        Some(InvitationStatus::Accepted)
    } else {
        None
    }
}

pub open spec fn participant_type_of(code: Seq<char>) -> Option<ParticipantType> {
    if code == "GAIA"@ {
        Some(ParticipantType::Gaia)
    } else if code == "OFF_NETWORK_PHONE"@ {
        Some(ParticipantType::OffNetworkPhone)
    } else {
        None
    }
}

pub open spec fn invitation_affinity_of(code: Seq<char>) -> Option<InvitationAffinity> {
    if code == "INVITE_AFFINITY_LOW"@ {
        Some(InvitationAffinity::Low)
    } else if code == "INVITE_AFFINITY_HIGH"@ {
        Some(InvitationAffinity::High)
    } else {
        None
    }
}

pub open spec fn link_sharing_status_of(code: Seq<char>) -> Option<LinkSharingStatus> {
    if code == "LINK_SHARING_OFF"@ {
        Some(LinkSharingStatus::Off)
    } else if code == "LINK_SHARING_ON"@ {
        Some(LinkSharingStatus::On)
    } else {
        None
    }
}

pub open spec fn media_type_of(code: Seq<char>) -> Option<MediaType> {
    if code == "AUDIO_ONLY"@ {
        Some(MediaType::Audio)
    } else if code == "VIDEO"@ {
        Some(MediaType::Video)
    } else if code == "AUDIO_VIDEO"@ {
        Some(MediaType::AudioVideo)
    } else if code == "PHOTO"@ {
        Some(MediaType::Photo)
    } else if code == "ANIMATED_PHOTO"@ {
        Some(MediaType::AnimatedPhoto)
    } else {
        None
    }
}

pub open spec fn membership_change_type_of(code: Seq<char>) -> Option<MembershipChangeType> {
    if code == "JOIN"@ {
        Some(MembershipChangeType::Join)
    } else if code == "LEAVE"@ {
        Some(MembershipChangeType::Leave)
    } else {
        None
    }
}

/// What an optional affinity code maps to: its absence is the unspecified
/// affinity, a code outside the set fails.
pub open spec fn optional_affinity_of(code: Option<String>) -> Result<InvitationAffinity, ConversionError> {
    match code {
        None => Ok(InvitationAffinity::Unspecified),
        Some(c) => mapped(invitation_affinity_of(c@), "invite_affinity", c),
    }
}

impl ConversationType {
    /// Maps a conversation type code: `GROUP` or `STICKY_ONE_TO_ONE`. Any other code fails.
    pub fn from_code(code: String) -> (r: Result<ConversationType, ConversionError>)
        ensures
            r == mapped(conversation_type_of(code@), "type", code),
    {
        if text_is(code.as_str(), "GROUP") {
            Ok(ConversationType::Group)
        } else if text_is(code.as_str(), "STICKY_ONE_TO_ONE") {
            Ok(ConversationType::OneToOne)
        } else {
            Err(ConversionError::UnknownEnumValue { field: "type", value: code })
        }
    }
}

impl ConversationStatus {
    /// Maps a status code: `ACTIVE` or `INVITED`. Any other code fails.
    pub fn from_code(code: String) -> (r: Result<ConversationStatus, ConversionError>)
        ensures
            r == mapped(conversation_status_of(code@), "status", code),
    {
        if text_is(code.as_str(), "ACTIVE") {
            Ok(ConversationStatus::Active)
        } else if text_is(code.as_str(), "INVITED") {
            Ok(ConversationStatus::Invited)
        } else {
            Err(ConversionError::UnknownEnumValue { field: "status", value: code })
        }
    }
}

impl NotificationLevel {
    /// Maps a notification level code: `QUIET` or `RING`. Any other code fails.
    pub fn from_code(code: String) -> (r: Result<NotificationLevel, ConversionError>)
        ensures
            r == mapped(notification_level_of(code@), "notification_level", code),
    {
        if text_is(code.as_str(), "QUIET") {
            Ok(NotificationLevel::Quiet)
        } else if text_is(code.as_str(), "RING") {
            Ok(NotificationLevel::Ring)
        } else {
            Err(ConversionError::UnknownEnumValue { field: "notification_level", value: code })
        }
    }
}

impl View {
    /// Maps a view code: `INBOX_VIEW` or `ARCHIVED_VIEW`. Any other code fails.
    pub fn from_code(code: String) -> (r: Result<View, ConversionError>)
        ensures
            r == mapped(view_of(code@), "view", code),
    {
        if text_is(code.as_str(), "INBOX_VIEW") {
            Ok(View::Inbox)
        } else if text_is(code.as_str(), "ARCHIVED_VIEW") {
            Ok(View::Archived)
        } else {
            Err(ConversionError::UnknownEnumValue { field: "view", value: code })
        }
    }
}

impl InvitationStatus {
    /// Maps an invitation code: `PENDING_INVITATION` or `ACCEPTED_INVITATION`. Any other code fails.
    pub fn from_code(code: String) -> (r: Result<InvitationStatus, ConversionError>)
        ensures
            r == mapped(invitation_status_of(code@), "invitation_status", code),
    {
        if text_is(code.as_str(), "PENDING_INVITATION") {
            Ok(InvitationStatus::Pending)
        } else if text_is(code.as_str(), "ACCEPTED_INVITATION") {
            Ok(InvitationStatus::Accepted)
        } else {
            Err(ConversionError::UnknownEnumValue { field: "invitation_status", value: code })
        }
    }
}

impl ParticipantType {
    /// Maps a participant type code: `GAIA` or `OFF_NETWORK_PHONE`. Any other code fails.
    pub fn from_code(code: String) -> (r: Result<ParticipantType, ConversionError>)
        ensures
            r == mapped(participant_type_of(code@), "participant_type", code),
    {
        if text_is(code.as_str(), "GAIA") {
            Ok(ParticipantType::Gaia)
        } else if text_is(code.as_str(), "OFF_NETWORK_PHONE") {
            Ok(ParticipantType::OffNetworkPhone)
        } else {
            Err(ConversionError::UnknownEnumValue { field: "participant_type", value: code })
        }
    }
}

impl InvitationAffinity {
    /// Maps an affinity code: `INVITE_AFFINITY_LOW` or `INVITE_AFFINITY_HIGH`;
    /// an absent code is the unspecified affinity. Any other code fails.
    pub fn from_code(code: Option<String>) -> (r: Result<InvitationAffinity, ConversionError>)
        ensures
            r == optional_affinity_of(code),
    {
        match code {
            None => Ok(InvitationAffinity::Unspecified),
            Some(c) => {
                if text_is(c.as_str(), "INVITE_AFFINITY_LOW") {
                    Ok(InvitationAffinity::Low)
                } else if text_is(c.as_str(), "INVITE_AFFINITY_HIGH") {
                    Ok(InvitationAffinity::High)
                } else {
                    Err(ConversionError::UnknownEnumValue { field: "invite_affinity", value: c })
                }
            },
        }
    }
}

impl LinkSharingStatus {
    /// Maps a link sharing code: `LINK_SHARING_OFF` or `LINK_SHARING_ON`. Any other code fails.
    pub fn from_code(code: String) -> (r: Result<LinkSharingStatus, ConversionError>)
        ensures
            r == mapped(link_sharing_status_of(code@), "group_link_sharing_status", code),
    {
        if text_is(code.as_str(), "LINK_SHARING_OFF") {
            Ok(LinkSharingStatus::Off)
        } else if text_is(code.as_str(), "LINK_SHARING_ON") {
            Ok(LinkSharingStatus::On)
        } else {
            Err(ConversionError::UnknownEnumValue { field: "group_link_sharing_status", value: code })
        }
    }
}

impl MediaType {
    /// Maps a media type code: `AUDIO_ONLY`, `VIDEO`, `AUDIO_VIDEO`, `PHOTO` or
    /// `ANIMATED_PHOTO`. Any other code fails.
    pub fn from_code(code: String) -> (r: Result<MediaType, ConversionError>)
        ensures
            r == mapped(media_type_of(code@), "media_type", code),
    {
        if text_is(code.as_str(), "AUDIO_ONLY") {
            Ok(MediaType::Audio)
        } else if text_is(code.as_str(), "VIDEO") {
            Ok(MediaType::Video)
        } else if text_is(code.as_str(), "AUDIO_VIDEO") {
            Ok(MediaType::AudioVideo)
        } else if text_is(code.as_str(), "PHOTO") {
            Ok(MediaType::Photo)
        } else if text_is(code.as_str(), "ANIMATED_PHOTO") {
            Ok(MediaType::AnimatedPhoto)
        } else {
            Err(ConversionError::UnknownEnumValue { field: "media_type", value: code })
        }
    }
}

impl MembershipChangeType {
    /// Maps a membership change code: `JOIN` or `LEAVE`. Any other code fails.
    pub fn from_code(code: String) -> (r: Result<MembershipChangeType, ConversionError>)
        ensures
            r == mapped(membership_change_type_of(code@), "type", code),
    {
        if text_is(code.as_str(), "JOIN") {
            Ok(MembershipChangeType::Join)
        } else if text_is(code.as_str(), "LEAVE") {
            Ok(MembershipChangeType::Leave)
        } else {
            Err(ConversionError::UnknownEnumValue { field: "type", value: code })
        }
    }
}

} // verus!
