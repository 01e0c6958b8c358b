use hangouts_rs::raw;
use hangouts_rs::{
    AttachmentSegment, ChatMessage, ChatSegment, ConversionError, EmbedItem, Event, EventData,
    Formatting, HangoutEventType, IntErrorKind, MediaType, MembershipChangeType, NotificationLevel,
    ParticipantId, RepresentativeImage, TimestampUnit,
};

fn s(v: &str) -> String {
    v.to_string()
}

fn rid(g: &str, c: &str) -> raw::ParticipantId {
    raw::ParticipantId { gaia_id: s(g), chat_id: s(c) }
}

fn image(width: Option<&str>, height: Option<&str>) -> raw::RepresentativeImage {
    raw::RepresentativeImage {
        types: vec![],
        id: s("img"),
        image_object_v2: raw::ImageObjectV2 {
            url: s("https://img"),
            width: width.map(s),
            height: height.map(s),
        },
    }
}

fn photo(media_type: &str) -> raw::PlusPhoto {
    raw::PlusPhoto {
        album_id: s("album"),
        media_type: s(media_type),
        original_content_url: s("https://orig"),
        owner_obfuscated_id: s("owner"),
        photo_id: s("p1"),
        stream_id: vec![s("s1"), s("s2")],
        thumbnail: raw::Thumbnail {
            height_px: 20,
            width_px: 30,
            image_url: s("https://thumb-img"),
            url: Some(s("https://thumb")),
        },
        url: s("https://photo"),
        download_url: None,
    }
}

fn text(t: &str, formatting: Option<raw::Formatting>) -> raw::ChatSegment {
    raw::ChatSegment::Text { text: s(t), formatting }
}

fn header(timestamp: &str, version: &str) -> raw::EventHeader {
    raw::EventHeader {
        conversation_id: raw::ConversationId { id: s("c1") },
        sender_id: rid("g1", "c1"),
        timestamp: s(timestamp),
        self_event_state: raw::SelfEventState {
            user_id: rid("me", "me"),
            client_generated_id: Some(s("cg")),
            notification_level: Some(s("QUIET")),
        },
        event_id: s("e1"),
        advances_sort_timestamp: true,
        event_otr: s("ON_THE_RECORD"),
        event_version: s(version),
    }
}

fn chat(segments: Vec<raw::ChatSegment>, attachments: Vec<raw::AttachmentSegment>) -> raw::EventData {
    raw::EventData::ChatMessage {
        message_content: raw::ChatSegments { segments, attachments },
        annotation: None,
    }
}

fn hangout(event_type: &str, duration: Option<&str>) -> raw::EventData {
    raw::EventData::HangoutEvent {
        data: raw::HangoutEvent { event_type: s(event_type), hangout_duration_secs: duration.map(s) },
        media_type: Some(s("AUDIO_VIDEO")),
        participant_id: vec![rid("g1", "c1"), rid("g2", "c2")],
    }
}

fn membership(typ: &str) -> raw::EventData {
    raw::EventData::MembershipChange { typ: s(typ), participant_id: vec![rid("g3", "c3")] }
}

fn rename() -> raw::EventData {
    raw::EventData::ConversationRename { new_name: s("new"), old_name: s("old") }
}

fn event(kind: &str, data: raw::EventData) -> raw::Event {
    raw::Event { header: header("1500000000", "7"), kind: s(kind), data, event_type: s("REGULAR_CHAT_MESSAGE") }
}

#[test]
fn formatting_defaults_to_plain() {
    let seg = ChatSegment::from(text("a", None));
    assert_eq!(*seg.formatting(), Formatting { bold: false, italics: false, strikethrough: false, underline: false });
    let partial = raw::Formatting { bold: Some(true), italics: None, strikethrough: Some(false), underline: Some(true) };
    let seg = ChatSegment::from(text("a", Some(partial)));
    assert_eq!(*seg.formatting(), Formatting { bold: true, italics: false, strikethrough: false, underline: true });
}

#[test]
fn segments_of_each_shape() {
    let link = ChatSegment::from(raw::ChatSegment::Link {
        text: s("site"),
        link_data: raw::LinkData { link_target: s("https://t"), display_url: Some(s("t")) },
        formatting: None,
    });
    assert!(link.is_link() && !link.is_text());
    assert_eq!(link.text(), "site");
    match &link {
        ChatSegment::Link { target, display_url, .. } => {
            assert_eq!(target, "https://t");
            assert_eq!(display_url.as_deref(), Some("t"));
        },
        _ => panic!("not a link"),
    }
    let br = ChatSegment::from(raw::ChatSegment::LineBreak { text: None, formatting: None });
    assert!(br.is_link_break());
    assert_eq!(br.text(), "\n");
    let br2 = ChatSegment::from(raw::ChatSegment::LineBreak { text: Some(s("\r\n")), formatting: None });
    assert_eq!(br2.text(), "\r\n");
    let t = ChatSegment::from(text("hi", None));
    assert!(t.is_text());
}

#[test]
fn message_text_joins_segments() {
    let m = ChatMessage::from_raw(raw::ChatSegments {
        segments: vec![text("hello", None), raw::ChatSegment::LineBreak { text: None, formatting: None }, text("world", None)],
        attachments: vec![],
    })
    .unwrap();
    assert_eq!(m.contents_as_str(), "hello\nworld");
    let empty = ChatMessage::from_raw(raw::ChatSegments { segments: vec![], attachments: vec![] }).unwrap();
    assert_eq!(empty.contents_as_str(), "");
}

#[test]
fn image_dimensions_are_decoded() {
    let img = RepresentativeImage::from_raw(image(Some("640"), None)).unwrap();
    assert_eq!(img.width, Some(640));
    assert_eq!(img.height, None);
    assert_eq!(img.url, "https://img");
    assert_eq!(
        RepresentativeImage::from_raw(image(Some("640"), Some("tall"))).unwrap_err(),
        ConversionError::ParseInt(IntErrorKind::InvalidDigit)
    );
}

#[test]
fn attachments_convert_each_kind() {
    let raw_item = raw::EmbedItem {
        id: Some(s("item")),
        plus_photo: Some(photo("PHOTO")),
        place_v2: None,
        thing_v2: Some(raw::ThingV2 { url: s("https://thing"), name: None, representative_image: image(None, Some("10")) }),
        types: vec![s("PLUS_PHOTO"), s("THING_V2")],
    };
    let a = AttachmentSegment::from_raw(raw::AttachmentSegment { embed_item: raw_item, id: s("att") }).unwrap();
    assert_eq!(a.id, "att");
    let p = a.item.photo.unwrap();
    assert_eq!(p.media_type, MediaType::Photo);
    assert_eq!(p.thumbnail.width, 30);
    assert_eq!(p.thumbnail.height, 20);
    assert_eq!(p.original_url, "https://orig");
    assert_eq!(p.stream_id, vec![s("s1"), s("s2")]);
    assert!(a.item.place.is_none());
    assert_eq!(a.item.thing.unwrap().representative_image.height, Some(10));
}

#[test]
fn place_keeps_address_and_coordinates() {
    let lat = 47.5f64.to_bits();
    let lng = (-122.25f64).to_bits();
    let place = raw::PlaceV2 {
        url: s("https://place"),
        name: Some(s("Cafe")),
        address: raw::Address {
            types: vec![],
            postal_address_v2: raw::PostalAddressV2 {
                name: Some(s("Cafe")),
                street_address: Some(s("1 Main St")),
                address_locality: Some(s("Town")),
                address_region: None,
                address_country: Some(s("US")),
                postal_code: Some(s("12345")),
            },
        },
        geo: raw::Geo { types: vec![], geo_coordinates_v2: raw::GeoCoordinatesV2 { latitude_bits: lat, longitude_bits: lng } },
        representative_image: image(None, None),
        place_id: Some(s("pid")),
        cluster_id: None,
        reference_id: None,
    };
    let item = EmbedItem::from_raw(raw::EmbedItem { id: None, plus_photo: None, place_v2: Some(place), thing_v2: None, types: vec![] }).unwrap();
    let p = item.place.unwrap();
    assert_eq!(p.address.street.as_deref(), Some("1 Main St"));
    assert_eq!(p.address.locality.as_deref(), Some("Town"));
    assert_eq!(p.address.postal_code.as_deref(), Some("12345"));
    assert_eq!(f64::from_bits(p.geo.latitude_bits), 47.5);
    assert_eq!(f64::from_bits(p.geo.longitude_bits), -122.25);
}

#[test]
fn photo_with_unknown_media_fails() {
    let item = raw::EmbedItem { id: None, plus_photo: Some(photo("HOLOGRAM")), place_v2: None, thing_v2: None, types: vec![] };
    assert_eq!(
        EmbedItem::from_raw(item).unwrap_err(),
        ConversionError::UnknownEnumValue { field: "media_type", value: s("HOLOGRAM") }
    );
}

#[test]
fn each_kind_tag_gives_its_variant() {
    let d = EventData::from_raw(s("chat_message"), chat(vec![text("x", None)], vec![])).unwrap();
    assert!(d.is_chat_message() && d.as_chat_message().is_some() && d.as_hangout_event().is_none());
    let d = EventData::from_raw(s("hangout_event"), hangout("START_HANGOUT", None)).unwrap();
    assert!(d.is_hangout_event());
    let h = d.as_hangout_event().unwrap();
    assert!(h.typ.is_start());
    assert_eq!(h.media_type, Some(MediaType::AudioVideo));
    assert_eq!(h.participants.len(), 2);
    let d = EventData::from_raw(s("membership_change"), membership("JOIN")).unwrap();
    assert!(d.is_membership_change());
    let m = d.as_membership_change().unwrap();
    assert_eq!(m.typ, MembershipChangeType::Join);
    assert_eq!(m.participants, vec![ParticipantId { gaia_id: s("g3"), chat_id: s("c3") }]);
    let d = EventData::from_raw(s("conversation_rename"), rename()).unwrap();
    assert!(d.is_conversation_rename());
    let r = d.as_conversation_rename().unwrap();
    assert_eq!((r.old.as_str(), r.new.as_str()), ("old", "new"));
}

#[test]
fn unknown_kind_tag_fails() {
    assert_eq!(
        EventData::from_raw(s("sticker"), chat(vec![], vec![])).unwrap_err(),
        ConversionError::UnknownEnumValue { field: "kind", value: s("sticker") }
    );
}

#[test]
fn tag_and_payload_must_agree() {
    assert_eq!(
        EventData::from_raw(s("hangout_event"), rename()).unwrap_err(),
        ConversionError::TagPayloadMismatch { tag: s("hangout_event") }
    );
}

#[test]
fn hangout_end_carries_duration() {
    let d = EventData::from_raw(s("hangout_event"), hangout("END_HANGOUT", Some("125"))).unwrap();
    let h = d.as_hangout_event().unwrap();
    assert_eq!(h.typ, HangoutEventType::End { duration: 125 });
    assert!(h.typ.is_end() && !h.typ.is_start());
    assert_eq!(
        EventData::from_raw(s("hangout_event"), hangout("END_HANGOUT", None)).unwrap_err(),
        ConversionError::MissingRequiredField { field: "hangout_duration_secs" }
    );
    assert_eq!(
        EventData::from_raw(s("hangout_event"), hangout("END_HANGOUT", Some("1h"))).unwrap_err(),
        ConversionError::ParseInt(IntErrorKind::InvalidDigit)
    );
    assert_eq!(
        EventData::from_raw(s("hangout_event"), hangout("START_HANGOUT", Some("5"))).unwrap_err(),
        ConversionError::TagPayloadMismatch { tag: s("START_HANGOUT") }
    );
    assert_eq!(
        EventData::from_raw(s("hangout_event"), hangout("RING_HANGOUT", None)).unwrap_err(),
        ConversionError::UnknownEnumValue { field: "event_type", value: s("RING_HANGOUT") }
    );
}

#[test]
fn event_header_fields() {
    let ev = Event::from_raw(event("conversation_rename", rename()), TimestampUnit::Milliseconds).unwrap();
    assert_eq!(ev.id, "e1");
    assert_eq!(ev.sender, ParticipantId { gaia_id: s("g1"), chat_id: s("c1") });
    assert_eq!((ev.timestamp.timestamp(), ev.timestamp.timestamp_subsec_nanos()), (1_500_000, 0));
    assert_eq!(ev.version, 7);
    assert!(ev.advances_sort_timestamp);
    assert_eq!(ev.self_state.client_generated_id.as_deref(), Some("cg"));
    assert_eq!(ev.self_state.notification_level, Some(NotificationLevel::Quiet));
}

#[test]
fn event_failures_in_order() {
    let mut bad_time = event("conversation_rename", rename());
    bad_time.header.timestamp = s("x");
    bad_time.header.event_version = s("y");
    assert_eq!(
        Event::from_raw(bad_time, TimestampUnit::Microseconds).unwrap_err(),
        ConversionError::ParseInt(IntErrorKind::InvalidDigit)
    );
    let mut bad_version = event("conversation_rename", rename());
    bad_version.header.event_version = s("");
    assert_eq!(
        Event::from_raw(bad_version, TimestampUnit::Microseconds).unwrap_err(),
        ConversionError::ParseInt(IntErrorKind::Empty)
    );
    let mut bad_level = event("conversation_rename", rename());
    bad_level.header.self_event_state.notification_level = Some(s("LOUD"));
    assert_eq!(
        Event::from_raw(bad_level, TimestampUnit::Microseconds).unwrap_err(),
        ConversionError::UnknownEnumValue { field: "notification_level", value: s("LOUD") }
    );
}
