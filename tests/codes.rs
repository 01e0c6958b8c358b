use hangouts_rs::raw::ConversationType;
use hangouts_rs::{
    ConversationStatus, ConversionError, InvitationAffinity, InvitationStatus, LinkSharingStatus,
    MediaType, MembershipChangeType, NotificationLevel, ParticipantType, View,
};

fn s(v: &str) -> String {
    v.to_string()
}

fn unknown(field: &'static str, value: &str) -> ConversionError {
    ConversionError::UnknownEnumValue { field, value: value.to_string() }
}

#[test]
fn conversation_type_codes() {
    assert_eq!(ConversationType::from_code(s("GROUP")), Ok(ConversationType::Group));
    assert_eq!(ConversationType::from_code(s("STICKY_ONE_TO_ONE")), Ok(ConversationType::OneToOne));
    assert_eq!(ConversationType::from_code(s("group")), Err(unknown("type", "group")));
}

#[test]
fn status_codes() {
    assert_eq!(ConversationStatus::from_code(s("ACTIVE")), Ok(ConversationStatus::Active));
    assert_eq!(ConversationStatus::from_code(s("INVITED")), Ok(ConversationStatus::Invited));
    assert_eq!(ConversationStatus::from_code(s("LEFT")), Err(unknown("status", "LEFT")));
}

#[test]
fn notification_codes() {
    assert_eq!(NotificationLevel::from_code(s("QUIET")), Ok(NotificationLevel::Quiet));
    assert_eq!(NotificationLevel::from_code(s("RING")), Ok(NotificationLevel::Ring));
    assert_eq!(NotificationLevel::from_code(s("")), Err(unknown("notification_level", "")));
}

#[test]
fn view_codes() {
    assert_eq!(View::from_code(s("INBOX_VIEW")), Ok(View::Inbox));
    assert_eq!(View::from_code(s("ARCHIVED_VIEW")), Ok(View::Archived));
    assert_eq!(View::from_code(s("INBOX")), Err(unknown("view", "INBOX")));
}

#[test]
fn invitation_codes() {
    assert_eq!(InvitationStatus::from_code(s("PENDING_INVITATION")), Ok(InvitationStatus::Pending));
    assert_eq!(InvitationStatus::from_code(s("ACCEPTED_INVITATION")), Ok(InvitationStatus::Accepted));
    assert_eq!(InvitationStatus::from_code(s("DECLINED")), Err(unknown("invitation_status", "DECLINED")));
}

#[test]
fn participant_type_codes() {
    assert_eq!(ParticipantType::from_code(s("GAIA")), Ok(ParticipantType::Gaia));
    assert_eq!(ParticipantType::from_code(s("OFF_NETWORK_PHONE")), Ok(ParticipantType::OffNetworkPhone));
    assert_eq!(ParticipantType::from_code(s("BOT")), Err(unknown("participant_type", "BOT")));
}

#[test]
fn affinity_codes_and_absence() {
    assert_eq!(InvitationAffinity::from_code(None), Ok(InvitationAffinity::Unspecified));
    assert_eq!(InvitationAffinity::from_code(Some(s("INVITE_AFFINITY_LOW"))), Ok(InvitationAffinity::Low));
    assert_eq!(InvitationAffinity::from_code(Some(s("INVITE_AFFINITY_HIGH"))), Ok(InvitationAffinity::High));
    assert_eq!(
        InvitationAffinity::from_code(Some(s("MEDIUM"))),
        Err(unknown("invite_affinity", "MEDIUM"))
    );
}

#[test]
fn link_sharing_codes() {
    assert_eq!(LinkSharingStatus::from_code(s("LINK_SHARING_OFF")), Ok(LinkSharingStatus::Off));
    assert_eq!(LinkSharingStatus::from_code(s("LINK_SHARING_ON")), Ok(LinkSharingStatus::On));
    assert_eq!(
        LinkSharingStatus::from_code(s("ON")),
        Err(unknown("group_link_sharing_status", "ON"))
    );
}

#[test]
fn media_type_codes() {
    assert_eq!(MediaType::from_code(s("AUDIO_ONLY")), Ok(MediaType::Audio));
    assert_eq!(MediaType::from_code(s("VIDEO")), Ok(MediaType::Video));
    assert_eq!(MediaType::from_code(s("AUDIO_VIDEO")), Ok(MediaType::AudioVideo));
    assert_eq!(MediaType::from_code(s("PHOTO")), Ok(MediaType::Photo));
    assert_eq!(MediaType::from_code(s("ANIMATED_PHOTO")), Ok(MediaType::AnimatedPhoto));
    assert_eq!(MediaType::from_code(s("AUDIO")), Err(unknown("media_type", "AUDIO")));
}

#[test]
fn membership_codes() {
    assert_eq!(MembershipChangeType::from_code(s("JOIN")), Ok(MembershipChangeType::Join));
    assert_eq!(MembershipChangeType::from_code(s("LEAVE")), Ok(MembershipChangeType::Leave));
    assert_eq!(MembershipChangeType::from_code(s("KICK")), Err(unknown("type", "KICK")));
}

#[test]
fn media_and_membership_predicates() {
    assert!(MediaType::Audio.is_audio() && !MediaType::Audio.is_video());
    assert!(MediaType::Video.is_video());
    assert!(MediaType::AudioVideo.is_audio_video());
    assert!(MediaType::Photo.is_photo() && !MediaType::Photo.is_animated_photo());
    assert!(MediaType::AnimatedPhoto.is_animated_photo());
    assert!(MembershipChangeType::Join.is_join() && !MembershipChangeType::Join.is_leave());
    assert!(MembershipChangeType::Leave.is_leave());
}
