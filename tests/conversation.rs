use hangouts_rs::raw;
use hangouts_rs::{
    reconcile, ChatSegment, Conversation, ConversationStatus, ConversionError, EventData, Formatting,
    Hangouts, IntErrorKind, InvitationAffinity, InvitationStatus, LinkSharingStatus,
    NotificationLevel, ParticipantId, ParticipantType, TimestampUnit, View,
};

fn s(v: &str) -> String {
    v.to_string()
}

fn rid(g: &str) -> raw::ParticipantId {
    raw::ParticipantId { gaia_id: s(g), chat_id: s(g) }
}

fn pid(g: &str) -> ParticipantId {
    ParticipantId { gaia_id: s(g), chat_id: s(g) }
}

fn member(g: &str) -> raw::ParticipantData {
    raw::ParticipantData {
        id: rid(g),
        fallback_name: Some(format!("name of {g}")),
        invitation_status: Some(s("ACCEPTED_INVITATION")),
        participant_type: Some(s("GAIA")),
        new_invitation_status: None,
        in_different_customer_as_requester: None,
        domain_id: None,
    }
}

fn read(g: &str, ts: &str) -> raw::ReadState {
    raw::ReadState { participant_id: rid(g), latest_read_timestamp: s(ts) }
}

fn bold_hi_from(g: &str) -> raw::Event {
    raw::Event {
        header: raw::EventHeader {
            conversation_id: raw::ConversationId { id: s("conv") },
            sender_id: rid(g),
            timestamp: s("1500000000000000"),
            self_event_state: raw::SelfEventState {
                user_id: rid("alice"),
                client_generated_id: None,
                notification_level: None,
            },
            event_id: s("ev1"),
            advances_sort_timestamp: true,
            event_otr: s("ON_THE_RECORD"),
            event_version: s("1500000000000001"),
        },
        kind: s("chat_message"),
        data: raw::EventData::ChatMessage {
            message_content: raw::ChatSegments {
                segments: vec![raw::ChatSegment::Text {
                    text: s("hi"),
                    formatting: Some(raw::Formatting { bold: Some(true), italics: None, strikethrough: None, underline: None }),
                }],
                attachments: vec![],
            },
            annotation: None,
        },
        event_type: s("REGULAR_CHAT_MESSAGE"),
    }
}

fn conversation(typ: &str, name: Option<&str>) -> raw::Conversation {
    raw::Conversation {
        header: raw::ConversationHeader {
            conversation_id: raw::ConversationId { id: s("conv") },
            details: raw::ConversationDetails {
                id: raw::ConversationId { id: s("conv") },
                typ: s(typ),
                name: name.map(s),
                self_conversation_state: raw::SelfConversationState {
                    self_read_state: read("alice", "1500000000000000"),
                    status: s("ACTIVE"),
                    notification_level: s("RING"),
                    view: vec![s("INBOX_VIEW")],
                    inviter_id: rid("bob"),
                    invite_timestamp: s("1400000000000000"),
                    invitation_display_type: None,
                    invite_affinity: None,
                    sort_timestamp: s("1500000000500000"),
                    active_timestamp: None,
                    is_guest: None,
                },
                read_state: vec![read("bob", "1500000000000002"), read("alice", "1500000000000001")],
                has_active_hangout: false,
                otr_status: s("ON_THE_RECORD"),
                otr_toggle: s("ENABLED"),
                current_participant: vec![rid("alice"), rid("bob")],
                participant_data: vec![member("alice"), member("bob")],
                fork_on_external_invite: false,
                network_type: vec![s("BABEL")],
                force_history_state: s("NO_FORCE"),
                group_link_sharing_status: s("LINK_SHARING_OFF"),
            },
        },
        events: vec![bold_hi_from("alice")],
    }
}

fn micros_of(c: &hangouts_rs::ReadState) -> (i64, u32) {
    (c.timestamp.timestamp(), c.timestamp.timestamp_subsec_nanos())
}

#[test]
fn group_conversation_end_to_end() {
    let c = Conversation::from_raw(conversation("GROUP", Some("Friends")), TimestampUnit::Microseconds).unwrap();
    assert_eq!(c.name.as_deref(), Some("Friends"));
    assert_eq!(c.conversation_id, "conv");
    assert_eq!(c.id, "conv");
    assert_eq!(c.participants.len(), 2);
    assert_eq!(c.participants[0].id, pid("alice"));
    assert_eq!(micros_of(&c.participants[0].read_state), (1_500_000_000, 1_000));
    assert_eq!(c.participants[1].id, pid("bob"));
    assert_eq!(micros_of(&c.participants[1].read_state), (1_500_000_000, 2_000));
    assert_eq!(c.participants[0].typ, Some(ParticipantType::Gaia));
    assert_eq!(c.participants[0].invitation_status, Some(InvitationStatus::Accepted));
    assert_eq!(c.participants[0].fallback_name.as_deref(), Some("name of alice"));
    assert_eq!(c.events.len(), 1);
    let ev = &c.events[0];
    assert_eq!(ev.sender, pid("alice"));
    match &ev.data {
        EventData::ChatMessage(m) => {
            assert_eq!(
                m.contents,
                vec![ChatSegment::Text {
                    text: s("hi"),
                    format: Formatting { bold: true, italics: false, strikethrough: false, underline: false },
                }]
            );
            assert!(m.attachments.is_empty());
        },
        other => panic!("expected a chat message, got {other:?}"),
    }
    assert_eq!(c.self_state.status, ConversationStatus::Active);
    assert_eq!(c.self_state.notification_level, NotificationLevel::Ring);
    assert_eq!(c.self_state.views, vec![View::Inbox]);
    assert_eq!(c.self_state.invitation.inviter, pid("bob"));
    assert_eq!(c.self_state.invitation.affinity, InvitationAffinity::Unspecified);
    assert_eq!(c.self_state.invitation.timestamp.timestamp(), 1_400_000_000);
    assert_eq!((c.sort_timestamp.timestamp(), c.sort_timestamp.timestamp_subsec_nanos()), (1_500_000_000, 500_000_000));
    assert_eq!(c.group_link_sharing_status, LinkSharingStatus::Off);
}

#[test]
fn one_to_one_drops_stray_name() {
    let c = Conversation::from_raw(conversation("STICKY_ONE_TO_ONE", Some("stray")), TimestampUnit::Microseconds).unwrap();
    assert_eq!(c.name, None);
    let c = Conversation::from_raw(conversation("STICKY_ONE_TO_ONE", None), TimestampUnit::Microseconds).unwrap();
    assert_eq!(c.name, None);
}

#[test]
fn group_without_name_fails() {
    assert_eq!(
        Conversation::from_raw(conversation("GROUP", None), TimestampUnit::Microseconds).unwrap_err(),
        ConversionError::MissingRequiredField { field: "name" }
    );
}

#[test]
fn unknown_conversation_type_fails() {
    assert_eq!(
        Conversation::from_raw(conversation("CHANNEL", Some("x")), TimestampUnit::Microseconds).unwrap_err(),
        ConversionError::UnknownEnumValue { field: "type", value: s("CHANNEL") }
    );
}

#[test]
fn unknown_view_and_bad_affinity_fail() {
    let mut raw = conversation("GROUP", Some("x"));
    raw.header.details.self_conversation_state.view.push(s("TRASH_VIEW"));
    assert_eq!(
        Conversation::from_raw(raw, TimestampUnit::Microseconds).unwrap_err(),
        ConversionError::UnknownEnumValue { field: "view", value: s("TRASH_VIEW") }
    );
    let mut raw = conversation("GROUP", Some("x"));
    raw.header.details.self_conversation_state.invite_affinity = Some(s("INVITE_AFFINITY_HIGH"));
    let c = Conversation::from_raw(raw, TimestampUnit::Microseconds).unwrap();
    assert_eq!(c.self_state.invitation.affinity, InvitationAffinity::High);
}

#[test]
fn reconcile_pairs_each_member_with_its_state() {
    let out = reconcile(
        vec![member("A"), member("B"), member("C")],
        vec![read("C", "3"), read("A", "1"), read("B", "2"), read("Z", "9")],
        TimestampUnit::Seconds,
    )
    .unwrap();
    let got: Vec<(ParticipantId, i64)> = out.iter().map(|p| (p.id.clone(), p.read_state.timestamp.timestamp())).collect();
    assert_eq!(got, vec![(pid("A"), 1), (pid("B"), 2), (pid("C"), 3)]);
}

#[test]
fn reconcile_missing_state_fails() {
    assert_eq!(
        reconcile(vec![member("A"), member("B")], vec![read("A", "1")], TimestampUnit::Seconds).unwrap_err(),
        ConversionError::MissingReadState(pid("B"))
    );
}

#[test]
fn reconcile_duplicate_state_fails() {
    assert_eq!(
        reconcile(vec![member("A")], vec![read("A", "1"), read("B", "2"), read("A", "3")], TimestampUnit::Seconds)
            .unwrap_err(),
        ConversionError::DuplicateReadState(pid("A"))
    );
    assert_eq!(
        reconcile(vec![], vec![read("Q", "1"), read("Q", "1")], TimestampUnit::Seconds).unwrap_err(),
        ConversionError::DuplicateReadState(pid("Q"))
    );
}

#[test]
fn reconcile_consumes_each_state_once() {
    assert_eq!(
        reconcile(vec![member("A"), member("A")], vec![read("A", "1")], TimestampUnit::Seconds).unwrap_err(),
        ConversionError::MissingReadState(pid("A"))
    );
}

#[test]
fn reconcile_bad_timestamp_and_code_fail() {
    assert_eq!(
        reconcile(vec![member("A")], vec![read("A", "noon")], TimestampUnit::Seconds).unwrap_err(),
        ConversionError::ParseInt(IntErrorKind::InvalidDigit)
    );
    let mut odd = member("A");
    odd.participant_type = Some(s("ROBOT"));
    assert_eq!(
        reconcile(vec![odd], vec![read("A", "1")], TimestampUnit::Seconds).unwrap_err(),
        ConversionError::UnknownEnumValue { field: "participant_type", value: s("ROBOT") }
    );
}

#[test]
fn reconcile_empty_roster() {
    assert!(reconcile(vec![], vec![], TimestampUnit::Seconds).unwrap().is_empty());
}

#[test]
fn document_fails_fast_and_each_isolates() {
    let ok = conversation("GROUP", Some("a"));
    let bad = conversation("GROUP", None);
    let doc = raw::Hangouts { conversations: vec![ok.clone(), bad.clone(), ok.clone()] };
    assert_eq!(
        Hangouts::from_raw(doc.clone(), TimestampUnit::Microseconds).unwrap_err(),
        ConversionError::MissingRequiredField { field: "name" }
    );
    let each = Hangouts::convert_each(doc, TimestampUnit::Microseconds);
    assert_eq!(each.len(), 3);
    assert!(each[0].is_ok() && each[1].is_err() && each[2].is_ok());
    let all = Hangouts::from_raw(raw::Hangouts { conversations: vec![ok.clone(), ok] }, TimestampUnit::Microseconds).unwrap();
    assert_eq!(all.conversations.len(), 2);
}
