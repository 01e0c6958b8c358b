//! The conversion of the raw model into the domain model.
use vstd::prelude::*;

use crate::codes::{
    mapped, media_type_of, membership_change_type_of, notification_level_of, text_is,
};
use crate::error::ConversionError;
use crate::event::{
    Address, AttachmentSegment, ChatMessage, ChatSegment, ConversationRename, EmbedItem, Event,
    EventData, Formatting, Geo, HangoutEvent, HangoutEventType, MediaType, MembershipChange,
    MembershipChangeType, Photo, PlaceV2, RepresentativeImage, SelfEventState, ThingV2, Thumbnail,
};
use crate::model::{NotificationLevel, ParticipantId};
use crate::time::{is_instant, parse_timestamp, timestamp_of_text, TimestampUnit};
use crate::numeric::{decode_unsigned, parse_u64_spec};
use crate::raw;

verus! {

/// The failure of a result, if it failed.
pub open spec fn error_of<T>(r: Result<T, ConversionError>) -> Option<ConversionError> {
    match r {
        Ok(_) => None,
        Err(e) => Some(e),
    }
}

/// The first of two failures, if either happened.
pub open spec fn first_of(a: Option<ConversionError>, b: Option<ConversionError>) -> Option<ConversionError> {
    match a {
        Some(e) => Some(e),
        None => b,
    }
}

/// The first failure of a run of steps taken in order, if any failed.
pub open spec fn first_error(errs: Seq<Option<ConversionError>>) -> Option<ConversionError>
    decreases errs.len(),
{
    if errs.len() == 0 {
        None
    } else {
        match first_error(errs.drop_last()) {
            Some(e) => Some(e),
            None => errs.last(),
        }
    }
}

pub(crate) proof fn lemma_first_error_step(errs: Seq<Option<ConversionError>>, i: int)
    requires
        0 <= i < errs.len(),
    ensures
        first_error(errs.take(i + 1)) == (match first_error(errs.take(i)) {
            Some(e) => Some(e),
            None => errs[i],
        }),
{
    assert(errs.take(i + 1).drop_last() =~= errs.take(i));
}

pub(crate) proof fn lemma_first_error_prefix(errs: Seq<Option<ConversionError>>, k: int)
    requires
        0 <= k <= errs.len(),
        first_error(errs.take(k)) is Some,
    ensures
        first_error(errs) == first_error(errs.take(k)),
    decreases errs.len() - k,
{
    if k < errs.len() {
        lemma_first_error_step(errs, k);
        lemma_first_error_prefix(errs, k + 1);
    } else {
        assert(errs.take(k) =~= errs);
    }
}

/// No step failed when there is no first failure.
pub(crate) proof fn lemma_first_error_none(errs: Seq<Option<ConversionError>>)
    requires
        first_error(errs) is None,
    ensures
        forall|i: int| 0 <= i < errs.len() ==> (#[trigger] errs[i]) is None,
    decreases errs.len(),
{
    if errs.len() > 0 {
        lemma_first_error_none(errs.drop_last());
        assert forall|i: int| 0 <= i < errs.len() implies (#[trigger] errs[i]) is None by {
            if i < errs.len() - 1 {
                assert(errs.drop_last()[i] == errs[i]);
            }
        }
    }
}

/// No first failure when no step failed.
pub(crate) proof fn lemma_first_error_all_none(errs: Seq<Option<ConversionError>>)
    requires
        forall|i: int| 0 <= i < errs.len() ==> (#[trigger] errs[i]) is None,
    ensures
        first_error(errs) is None,
    decreases errs.len(),
{
    if errs.len() > 0 {
        assert forall|i: int| 0 <= i < errs.len() - 1 implies (#[trigger] errs.drop_last()[i]) is None by {
            assert(errs.drop_last()[i] == errs[i]);
        }
        lemma_first_error_all_none(errs.drop_last());
        assert(errs[errs.len() - 1] is None);
    }
}

/// Some step failed when one of them did.
pub(crate) proof fn lemma_first_error_some(errs: Seq<Option<ConversionError>>, i: int)
    requires
        0 <= i < errs.len(),
        errs[i] is Some,
    ensures
        first_error(errs) is Some,
    decreases errs.len(),
{
    if i < errs.len() - 1 {
        assert(errs.drop_last()[i] == errs[i]);
        lemma_first_error_some(errs.drop_last(), i);
    }
}

/// The first failure, once a loop has gone through every step.
pub(crate) proof fn lemma_first_error_whole(errs: Seq<Option<ConversionError>>)
    ensures
        first_error(errs.take(errs.len() as int)) == first_error(errs),
{
    assert(errs.take(errs.len() as int) =~= errs);
}

pub open spec fn participant_id_of(val: raw::ParticipantId) -> ParticipantId {
    ParticipantId { gaia_id: val.gaia_id, chat_id: val.chat_id }
}

impl From<raw::ParticipantId> for ParticipantId {
    fn from(val: raw::ParticipantId) -> (r: ParticipantId)
        ensures
            r == participant_id_of(val),
    {
        ParticipantId { gaia_id: val.gaia_id, chat_id: val.chat_id }
    }
}

impl vstd::std_specs::convert::FromSpecImpl<raw::ParticipantId> for ParticipantId {
    open spec fn obeys_from_spec() -> bool {
        true
    }

    open spec fn from_spec(val: raw::ParticipantId) -> ParticipantId {
        participant_id_of(val)
    }
}

/// Converts a list of participant identities, keeping their order.
pub fn participant_ids(ids: Vec<raw::ParticipantId>) -> (r: Vec<ParticipantId>)
    ensures
        r@ == ids@.map_values(|p: raw::ParticipantId| participant_id_of(p)),
{
    let ghost src = ids@;
    let mut out: Vec<ParticipantId> = Vec::new();
    for p in it: ids.into_iter()
        invariant
            it.seq() == src,
            out@ == src.take(it.index() as int).map_values(|p: raw::ParticipantId| participant_id_of(p)),
    {
        out.push(ParticipantId::from(p));
        assert(src.take(it.index() + 1) =~= src.take(it.index() as int).push(p));
    }
    assert(src.take(src.len() as int) =~= src);
    out
}

pub open spec fn flag_of(b: Option<bool>) -> bool {
    b == Some(true)
}

/// Formatting flags, an absent one off.
pub open spec fn formatting_of(val: raw::Formatting) -> Formatting {
    Formatting {
        bold: flag_of(val.bold),
        italics: flag_of(val.italics),
        strikethrough: flag_of(val.strikethrough),
        underline: flag_of(val.underline),
    }
}

/// Formatting of a segment; a segment without any is plain.
pub open spec fn segment_formatting_of(val: Option<raw::Formatting>) -> Formatting {
    match val {
        Some(f) => formatting_of(f),
        None => Formatting { bold: false, italics: false, strikethrough: false, underline: false },
    }
}

fn flag(b: Option<bool>) -> (r: bool)
    ensures
        r == flag_of(b),
{
    match b {
        Some(v) => v,
        None => false,
    }
}

impl From<raw::Formatting> for Formatting {
    fn from(val: raw::Formatting) -> (r: Formatting)
        ensures
            r == formatting_of(val),
    {
        Formatting {
            bold: flag(val.bold),
            italics: flag(val.italics),
            strikethrough: flag(val.strikethrough),
            underline: flag(val.underline),
        }
    }
}

impl vstd::std_specs::convert::FromSpecImpl<raw::Formatting> for Formatting {
    open spec fn obeys_from_spec() -> bool {
        true
    }

    open spec fn from_spec(val: raw::Formatting) -> Formatting {
        formatting_of(val)
    }
}

fn segment_formatting(val: Option<raw::Formatting>) -> (r: Formatting)
    ensures
        r == segment_formatting_of(val),
{
    match val {
        Some(f) => Formatting::from(f),
        None => Formatting { bold: false, italics: false, strikethrough: false, underline: false },
    }
}

pub open spec fn segment_of(val: raw::ChatSegment) -> ChatSegment {
    match val {
        raw::ChatSegment::Text { text, formatting } => ChatSegment::Text {
            text,
            format: segment_formatting_of(formatting),
        },
        raw::ChatSegment::Link { text, link_data, formatting } => ChatSegment::Link {
            text,
            target: link_data.link_target,
            display_url: link_data.display_url,
            format: segment_formatting_of(formatting),
        },
        raw::ChatSegment::LineBreak { text, formatting } => ChatSegment::LinkBreak {
            text,
            format: segment_formatting_of(formatting),
        },
    }
}

impl From<raw::ChatSegment> for ChatSegment {
    fn from(val: raw::ChatSegment) -> (r: ChatSegment)
        ensures
            r == segment_of(val),
    {
        match val {
            raw::ChatSegment::Text { text, formatting } => ChatSegment::Text {
                text,
                format: segment_formatting(formatting),
            },
            raw::ChatSegment::Link { text, link_data, formatting } => {
                let raw::LinkData { link_target, display_url } = link_data;
                ChatSegment::Link {
                    text,
                    target: link_target,
                    display_url,
                    format: segment_formatting(formatting),
                }
            },
            raw::ChatSegment::LineBreak { text, formatting } => ChatSegment::LinkBreak {
                text,
                format: segment_formatting(formatting),
            },
        }
    }
}

impl vstd::std_specs::convert::FromSpecImpl<raw::ChatSegment> for ChatSegment {
    open spec fn obeys_from_spec() -> bool {
        true
    }

    open spec fn from_spec(val: raw::ChatSegment) -> ChatSegment {
        segment_of(val)
    }
}

pub open spec fn address_of(val: raw::Address) -> Address {
    let postal = val.postal_address_v2;
    Address {
        name: postal.name,
        street: postal.street_address,
        locality: postal.address_locality,
        region: postal.address_region,
        country: postal.address_country,
        postal_code: postal.postal_code,
    }
}

impl From<raw::Address> for Address {
    fn from(val: raw::Address) -> (r: Address)
        ensures
            r == address_of(val),
    {
        let raw::PostalAddressV2 {
            name,
            street_address,
            address_locality,
            address_region,
            address_country,
            postal_code,
        } = val.postal_address_v2;
        Address {
            name,
            street: street_address,
            locality: address_locality,
            region: address_region,
            country: address_country,
            postal_code,
        }
    }
}

impl vstd::std_specs::convert::FromSpecImpl<raw::Address> for Address {
    open spec fn obeys_from_spec() -> bool {
        true
    }

    open spec fn from_spec(val: raw::Address) -> Address {
        address_of(val)
    }
}

pub open spec fn geo_of(val: raw::Geo) -> Geo {
    Geo {
        latitude_bits: val.geo_coordinates_v2.latitude_bits,
        longitude_bits: val.geo_coordinates_v2.longitude_bits,
    }
}

impl From<raw::Geo> for Geo {
    fn from(val: raw::Geo) -> (r: Geo)
        ensures
            r == geo_of(val),
    {
        Geo {
            latitude_bits: val.geo_coordinates_v2.latitude_bits,
            longitude_bits: val.geo_coordinates_v2.longitude_bits,
        }
    }
}

impl vstd::std_specs::convert::FromSpecImpl<raw::Geo> for Geo {
    open spec fn obeys_from_spec() -> bool {
        true
    }

    open spec fn from_spec(val: raw::Geo) -> Geo {
        geo_of(val)
    }
}

pub open spec fn thumbnail_of(val: raw::Thumbnail) -> Thumbnail {
    Thumbnail { height: val.height_px, width: val.width_px, url: val.url }
}

impl From<raw::Thumbnail> for Thumbnail {
    fn from(val: raw::Thumbnail) -> (r: Thumbnail)
        ensures
            r == thumbnail_of(val),
    {
        Thumbnail { height: val.height_px, width: val.width_px, url: val.url }
    }
}

impl vstd::std_specs::convert::FromSpecImpl<raw::Thumbnail> for Thumbnail {
    open spec fn obeys_from_spec() -> bool {
        true
    }

    open spec fn from_spec(val: raw::Thumbnail) -> Thumbnail {
        thumbnail_of(val)
    }
}

/// An optional pixel size written as decimal text.
pub open spec fn dimension_of(text: Option<String>) -> Result<Option<u64>, ConversionError> {
    match text {
        None => Ok(None),
        Some(t) => match parse_u64_spec(t@) {
            Ok(v) => Ok(Some(v)),
            Err(kind) => Err(ConversionError::ParseInt(kind)),
        },
    }
}

fn dimension(text: Option<String>) -> (r: Result<Option<u64>, ConversionError>)
    ensures
        r == dimension_of(text),
{
    match text {
        None => Ok(None),
        Some(t) => match decode_unsigned(t.as_str()) {
            Ok(v) => Ok(Some(v)),
            Err(kind) => Err(ConversionError::ParseInt(kind)),
        },
    }
}

pub open spec fn representative_image_of(val: raw::RepresentativeImage) -> Result<RepresentativeImage, ConversionError> {
    let obj = val.image_object_v2;
    match dimension_of(obj.width) {
        Err(e) => Err(e),
        Ok(width) => match dimension_of(obj.height) {
            Err(e) => Err(e),
            Ok(height) => Ok(RepresentativeImage { id: val.id, url: obj.url, width, height }),
        },
    }
}

impl RepresentativeImage {
    pub fn from_raw(val: raw::RepresentativeImage) -> (r: Result<RepresentativeImage, ConversionError>)
        ensures
            r == representative_image_of(val),
    {
        let raw::RepresentativeImage { types: _, id, image_object_v2 } = val;
        let raw::ImageObjectV2 { url, width, height } = image_object_v2;
        let width = dimension(width)?;
        let height = dimension(height)?;
        Ok(RepresentativeImage { id, url, width, height })
    }
}

pub open spec fn thing_of(val: raw::ThingV2) -> Result<ThingV2, ConversionError> {
    match representative_image_of(val.representative_image) {
        Err(e) => Err(e),
        Ok(image) => Ok(ThingV2 { url: val.url, name: val.name, representative_image: image }),
    }
}

impl ThingV2 {
    pub fn from_raw(val: raw::ThingV2) -> (r: Result<ThingV2, ConversionError>)
        ensures
            r == thing_of(val),
    {
        let raw::ThingV2 { url, name, representative_image } = val;
        let representative_image = RepresentativeImage::from_raw(representative_image)?;
        Ok(ThingV2 { url, name, representative_image })
    }
}

pub open spec fn place_of(val: raw::PlaceV2) -> Result<PlaceV2, ConversionError> {
    match representative_image_of(val.representative_image) {
        Err(e) => Err(e),
        Ok(image) => Ok(
            PlaceV2 {
                url: val.url,
                name: val.name,
                address: address_of(val.address),
                geo: geo_of(val.geo),
                representative_image: image,
                place_id: val.place_id,
                cluster_id: val.cluster_id,
                reference_id: val.reference_id,
            },
        ),
    }
}

impl PlaceV2 {
    pub fn from_raw(val: raw::PlaceV2) -> (r: Result<PlaceV2, ConversionError>)
        ensures
            r == place_of(val),
    {
        let raw::PlaceV2 {
            url,
            name,
            address,
            geo,
            representative_image,
            place_id,
            cluster_id,
            reference_id,
        } = val;
        let representative_image = RepresentativeImage::from_raw(representative_image)?;
        Ok(PlaceV2 {
            url,
            name,
            address: Address::from(address),
            geo: Geo::from(geo),
            representative_image,
            place_id,
            cluster_id,
            reference_id,
        })
    }
}

pub open spec fn photo_of(val: raw::PlusPhoto) -> Result<Photo, ConversionError> {
    match mapped(media_type_of(val.media_type@), "media_type", val.media_type) {
        Err(e) => Err(e),
        Ok(media_type) => Ok(
            Photo {
                media_type,
                thumbnail: thumbnail_of(val.thumbnail),
                album_id: val.album_id,
                photo_id: val.photo_id,
                stream_id: val.stream_id,
                url: val.url,
                download_url: val.download_url,
                original_url: val.original_content_url,
                owner_obfuscated_id: val.owner_obfuscated_id,
            },
        ),
    }
}

impl Photo {
    pub fn from_raw(val: raw::PlusPhoto) -> (r: Result<Photo, ConversionError>)
        ensures
            r == photo_of(val),
    {
        let raw::PlusPhoto {
            album_id,
            media_type,
            original_content_url,
            owner_obfuscated_id,
            photo_id,
            stream_id,
            thumbnail,
            url,
            download_url,
        } = val;
        let media_type = MediaType::from_code(media_type)?;
        Ok(Photo {
            media_type,
            thumbnail: Thumbnail::from(thumbnail),
            album_id,
            photo_id,
            stream_id,
            url,
            download_url,
            original_url: original_content_url,
            owner_obfuscated_id,
        })
    }
}

/// Converts an optional part with a converter that may fail.
pub open spec fn optional_of<A, B>(val: Option<A>, f: spec_fn(A) -> Result<B, ConversionError>) -> Result<Option<B>, ConversionError> {
    match val {
        None => Ok(None),
        Some(v) => match f(v) {
            Ok(b) => Ok(Some(b)),
            Err(e) => Err(e),
        },
    }
}

pub open spec fn embed_item_of(val: raw::EmbedItem) -> Result<EmbedItem, ConversionError> {
    match optional_of(val.plus_photo, |p: raw::PlusPhoto| photo_of(p)) {
        Err(e) => Err(e),
        Ok(photo) => match optional_of(val.place_v2, |p: raw::PlaceV2| place_of(p)) {
            Err(e) => Err(e),
            Ok(place) => match optional_of(val.thing_v2, |t: raw::ThingV2| thing_of(t)) {
                Err(e) => Err(e),
                Ok(thing) => Ok(EmbedItem { id: val.id, photo, place, thing }),
            },
        },
    }
}

impl EmbedItem {
    pub fn from_raw(val: raw::EmbedItem) -> (r: Result<EmbedItem, ConversionError>)
        ensures
            r == embed_item_of(val),
    {
        let raw::EmbedItem { id, plus_photo, place_v2, thing_v2, types: _ } = val;
        let photo = match plus_photo {
            None => None,
            Some(p) => Some(Photo::from_raw(p)?),
        };
        let place = match place_v2 {
            None => None,
            Some(p) => Some(PlaceV2::from_raw(p)?),
        };
        let thing = match thing_v2 {
            None => None,
            Some(t) => Some(ThingV2::from_raw(t)?),
        };
        Ok(EmbedItem { id, photo, place, thing })
    }
}

pub open spec fn attachment_of(val: raw::AttachmentSegment) -> Result<AttachmentSegment, ConversionError> {
    match embed_item_of(val.embed_item) {
        Err(e) => Err(e),
        Ok(item) => Ok(AttachmentSegment { id: val.id, item }),
    }
}

impl AttachmentSegment {
    pub fn from_raw(val: raw::AttachmentSegment) -> (r: Result<AttachmentSegment, ConversionError>)
        ensures
            r == attachment_of(val),
    {
        let raw::AttachmentSegment { embed_item, id } = val;
        let item = EmbedItem::from_raw(embed_item)?;
        Ok(AttachmentSegment { id, item })
    }
}

/// The failure of each attachment, in order.
pub open spec fn attachment_errors(atts: Seq<raw::AttachmentSegment>) -> Seq<Option<ConversionError>> {
    atts.map_values(|a: raw::AttachmentSegment| error_of(attachment_of(a)))
}

pub open spec fn chat_message_error(val: raw::ChatSegments) -> Option<ConversionError> {
    first_error(attachment_errors(val.attachments@))
}

/// Whether a chat message holds the segments and attachments of its raw
/// form, each converted, in order.
pub open spec fn chat_message_matches(val: raw::ChatSegments, m: ChatMessage) -> bool {
    &&& m.contents@ == val.segments@.map_values(|s: raw::ChatSegment| segment_of(s))
    &&& m.attachments@.len() == val.attachments@.len()
    &&& forall|i: int|
        0 <= i < m.attachments@.len() ==> attachment_of(#[trigger] val.attachments@[i]) == Ok::<
            AttachmentSegment,
            ConversionError,
        >(m.attachments@[i])
}

impl ChatMessage {
    pub fn from_raw(val: raw::ChatSegments) -> (r: Result<ChatMessage, ConversionError>)
        ensures
            match chat_message_error(val) {
                Some(e) => r == Err::<ChatMessage, ConversionError>(e),
                None => r matches Ok(m) && chat_message_matches(val, m),
            },
    {
        let raw::ChatSegments { segments, attachments } = val;
        let ghost segs = segments@;
        let ghost atts = attachments@;
        let ghost errs = attachment_errors(atts);
        let mut contents: Vec<ChatSegment> = Vec::new();
        for s in it: segments.into_iter()
            invariant
                it.seq() == segs,
                contents@ == segs.take(it.index() as int).map_values(|s: raw::ChatSegment| segment_of(s)),
        {
            contents.push(ChatSegment::from(s));
            assert(segs.take(it.index() + 1) =~= segs.take(it.index() as int).push(s));
        }
        assert(segs.take(segs.len() as int) =~= segs);
        let mut converted: Vec<AttachmentSegment> = Vec::new();
        for a in it: attachments.into_iter()
            invariant
                it.seq() == atts,
                atts == val.attachments@,
                errs == attachment_errors(atts),
                converted@.len() == it.index(),
                forall|i: int|
                    0 <= i < it.index() ==> attachment_of(#[trigger] atts[i]) == Ok::<
                        AttachmentSegment,
                        ConversionError,
                    >(converted@[i]),
                first_error(errs.take(it.index() as int)) is None,
        {
            let ghost k = it.index() as int;
            proof {
                lemma_first_error_step(errs, k);
            }
            match AttachmentSegment::from_raw(a) {
                Ok(c) => converted.push(c),
                Err(e) => {
                    proof {
                        assert(errs[k] == error_of(attachment_of(atts[k])));
                        lemma_first_error_prefix(errs, k + 1);
                    }
                    return Err(e);
                },
            }
        }
        proof {
            lemma_first_error_whole(errs);
        }
        Ok(ChatMessage { contents, attachments: converted })
    }
}

/// What the sub-tag of a call payload and the length it carries give.
pub open spec fn hangout_type_of(val: raw::HangoutEvent) -> Result<HangoutEventType, ConversionError> {
    if val.event_type@ == "START_HANGOUT"@ {
        match val.hangout_duration_secs {
            None => Ok(HangoutEventType::Start),
            Some(_) => Err(ConversionError::TagPayloadMismatch { tag: val.event_type }),
        }
    } else if val.event_type@ == "END_HANGOUT"@ {
        match val.hangout_duration_secs {
            None => Err(ConversionError::MissingRequiredField { field: "hangout_duration_secs" }),
            Some(t) => match parse_u64_spec(t@) {
                Ok(d) => Ok(HangoutEventType::End { duration: d }),
                Err(kind) => Err(ConversionError::ParseInt(kind)),
            },
        }
    } else {
        Err(ConversionError::UnknownEnumValue { field: "event_type", value: val.event_type })
    }
}

impl HangoutEventType {
    pub fn from_raw(val: raw::HangoutEvent) -> (r: Result<HangoutEventType, ConversionError>)
        ensures
            r == hangout_type_of(val),
    {
        let raw::HangoutEvent { event_type, hangout_duration_secs } = val;
        if text_is(event_type.as_str(), "START_HANGOUT") {
            match hangout_duration_secs {
                None => Ok(HangoutEventType::Start),
                Some(_) => Err(ConversionError::TagPayloadMismatch { tag: event_type }),
            }
        } else if text_is(event_type.as_str(), "END_HANGOUT") {
            match hangout_duration_secs {
                None => Err(ConversionError::MissingRequiredField { field: "hangout_duration_secs" }),
                Some(t) => match decode_unsigned(t.as_str()) {
                    Ok(d) => Ok(HangoutEventType::End { duration: d }),
                    Err(kind) => Err(ConversionError::ParseInt(kind)),
                },
            }
        } else {
            Err(ConversionError::UnknownEnumValue { field: "event_type", value: event_type })
        }
    }
}

pub open spec fn media_type_code_of(code: String) -> Result<MediaType, ConversionError> {
    mapped(media_type_of(code@), "media_type", code)
}

pub open spec fn hangout_error(data: raw::HangoutEvent, media_type: Option<String>) -> Option<ConversionError> {
    first_of(
        error_of(hangout_type_of(data)),
        error_of(optional_of(media_type, |c: String| media_type_code_of(c))),
    )
}

pub open spec fn hangout_matches(
    data: raw::HangoutEvent,
    media_type: Option<String>,
    participant_id: Vec<raw::ParticipantId>,
    h: HangoutEvent,
) -> bool {
    &&& hangout_type_of(data) == Ok::<HangoutEventType, ConversionError>(h.typ)
    &&& optional_of(media_type, |c: String| media_type_code_of(c)) == Ok::<
        Option<MediaType>,
        ConversionError,
    >(h.media_type)
    &&& h.participants@ == participant_id@.map_values(|p: raw::ParticipantId| participant_id_of(p))
}

impl HangoutEvent {
    pub fn from_raw(
        data: raw::HangoutEvent,
        media_type: Option<String>,
        participant_id: Vec<raw::ParticipantId>,
    ) -> (r: Result<HangoutEvent, ConversionError>)
        ensures
            match hangout_error(data, media_type) {
                Some(e) => r == Err::<HangoutEvent, ConversionError>(e),
                None => r matches Ok(h) && hangout_matches(data, media_type, participant_id, h),
            },
    {
        let typ = HangoutEventType::from_raw(data)?;
        let media_type = match media_type {
            None => None,
            Some(c) => Some(MediaType::from_code(c)?),
        };
        Ok(HangoutEvent { typ, media_type, participants: participant_ids(participant_id) })
    }
}

pub open spec fn membership_type_of(code: String) -> Result<MembershipChangeType, ConversionError> {
    mapped(membership_change_type_of(code@), "type", code)
}

/// The kind tag that names the shape of a payload.
pub open spec fn payload_tag(data: raw::EventData) -> Seq<char> {
    match data {
        raw::EventData::ChatMessage { .. } => "chat_message"@,
        raw::EventData::HangoutEvent { .. } => "hangout_event"@,
        raw::EventData::MembershipChange { .. } => "membership_change"@,
        raw::EventData::ConversationRename { .. } => "conversation_rename"@,
    }
}

/// The four kind tags of the export.
pub open spec fn is_event_tag(tag: Seq<char>) -> bool {
    tag == "chat_message"@ || tag == "hangout_event"@ || tag == "membership_change"@ || tag
        == "conversation_rename"@
}

pub open spec fn payload_error(data: raw::EventData) -> Option<ConversionError> {
    match data {
        raw::EventData::ChatMessage { message_content, .. } => chat_message_error(message_content),
        raw::EventData::HangoutEvent { data, media_type, .. } => hangout_error(data, media_type),
        raw::EventData::MembershipChange { typ, .. } => error_of(membership_type_of(typ)),
        raw::EventData::ConversationRename { .. } => None,
    }
}

/// The failure of a tagged payload: an unknown tag, a tag that names
/// another shape than the payload has, or the payload's own.
pub open spec fn event_data_error(kind: String, data: raw::EventData) -> Option<ConversionError> {
    if !is_event_tag(kind@) {
        Some(ConversionError::UnknownEnumValue { field: "kind", value: kind })
    } else if kind@ != payload_tag(data) {
        Some(ConversionError::TagPayloadMismatch { tag: kind })
    } else {
        payload_error(data)
    }
}

/// Whether `d` is the domain variant of the payload's shape, holding the
/// payload converted.
pub open spec fn event_data_matches(data: raw::EventData, d: EventData) -> bool {
    match data {
        raw::EventData::ChatMessage { message_content, .. } => d matches EventData::ChatMessage(m)
            && chat_message_matches(message_content, m),
        raw::EventData::HangoutEvent { data, media_type, participant_id } => d matches EventData::HangoutEvent(h)
            && hangout_matches(data, media_type, participant_id, h),
        raw::EventData::MembershipChange { typ, participant_id } => d matches EventData::MembershipChange(m)
            && membership_type_of(typ) == Ok::<MembershipChangeType, ConversionError>(m.typ)
            && m.participants@ == participant_id@.map_values(
            |p: raw::ParticipantId| participant_id_of(p),
        ),
        raw::EventData::ConversationRename { new_name, old_name } => d == EventData::ConversationRename(
            ConversationRename { old: old_name, new: new_name },
        ),
    }
}

fn payload_kind_is(kind: &String, data: &raw::EventData) -> (r: bool)
    ensures
        r == (kind@ == payload_tag(*data)),
{
    match data {
        raw::EventData::ChatMessage { .. } => text_is(kind.as_str(), "chat_message"),
        raw::EventData::HangoutEvent { .. } => text_is(kind.as_str(), "hangout_event"),
        raw::EventData::MembershipChange { .. } => text_is(kind.as_str(), "membership_change"),
        raw::EventData::ConversationRename { .. } => text_is(kind.as_str(), "conversation_rename"),
    }
}

/// Each of the four kind tags, over a payload of its own shape, is accepted
/// and gives the domain variant of that shape; a tag outside the four fails
/// as an unknown code, and one of the four over a payload of another shape
/// fails as a mismatch.
pub proof fn lemma_event_kind_tags(kind: String, data: raw::EventData)
    ensures
        kind@ == payload_tag(data) ==> event_data_error(kind, data) == payload_error(data),
        forall|d: EventData|
            #[trigger] event_data_matches(data, d) ==> {
                &&& (data is ChatMessage <==> d is ChatMessage)
                &&& (data is HangoutEvent <==> d is HangoutEvent)
                &&& (data is MembershipChange <==> d is MembershipChange)
                &&& (data is ConversationRename <==> d is ConversationRename)
            },
        !is_event_tag(kind@) ==> event_data_error(kind, data) == Some(
            ConversionError::UnknownEnumValue { field: "kind", value: kind },
        ),
        is_event_tag(kind@) && kind@ != payload_tag(data) ==> event_data_error(kind, data) == Some(
            ConversionError::TagPayloadMismatch { tag: kind },
        ),
{
    assert(is_event_tag(payload_tag(data)));
}

impl EventData {
    /// Converts a payload filed under the kind tag `kind`.
    pub fn from_raw(kind: String, data: raw::EventData) -> (r: Result<EventData, ConversionError>)
        ensures
            match event_data_error(kind, data) {
                Some(e) => r == Err::<EventData, ConversionError>(e),
                None => r matches Ok(d) && event_data_matches(data, d),
            },
    {
        let known = text_is(kind.as_str(), "chat_message") || text_is(kind.as_str(), "hangout_event")
            || text_is(kind.as_str(), "membership_change") || text_is(
            kind.as_str(),
            "conversation_rename",
        );
        if !known {
            return Err(ConversionError::UnknownEnumValue { field: "kind", value: kind });
        }
        if !payload_kind_is(&kind, &data) {
            return Err(ConversionError::TagPayloadMismatch { tag: kind });
        }
        match data {
            raw::EventData::ChatMessage { message_content, annotation: _ } => {
                Ok(EventData::ChatMessage(ChatMessage::from_raw(message_content)?))
            },
            raw::EventData::HangoutEvent { data, media_type, participant_id } => {
                Ok(EventData::HangoutEvent(HangoutEvent::from_raw(data, media_type, participant_id)?))
            },
            raw::EventData::MembershipChange { typ, participant_id } => {
                let typ = MembershipChangeType::from_code(typ)?;
                Ok(
                    EventData::MembershipChange(
                        MembershipChange { typ, participants: participant_ids(participant_id) },
                    ),
                )
            },
            raw::EventData::ConversationRename { new_name, old_name } => {
                Ok(EventData::ConversationRename(ConversationRename { old: old_name, new: new_name }))
            },
        }
    }
}

pub open spec fn version_of(text: Seq<char>) -> Result<u64, ConversionError> {
    match parse_u64_spec(text) {
        Ok(v) => Ok(v),
        Err(kind) => Err(ConversionError::ParseInt(kind)),
    }
}

pub open spec fn notification_code_of(code: String) -> Result<NotificationLevel, ConversionError> {
    mapped(notification_level_of(code@), "notification_level", code)
}

pub open spec fn event_notification_of(code: Option<String>) -> Result<Option<NotificationLevel>, ConversionError> {
    optional_of(code, |c: String| notification_code_of(c))
}

/// The first failure of an event's steps: its timestamp, its payload, its
/// notification level, its version.
pub open spec fn event_error(val: raw::Event, unit: TimestampUnit) -> Option<ConversionError> {
    first_of(
        error_of(timestamp_of_text(val.header.timestamp@, unit)),
        first_of(
            event_data_error(val.kind, val.data),
            first_of(
                error_of(event_notification_of(val.header.self_event_state.notification_level)),
                error_of(version_of(val.header.event_version@)),
            ),
        ),
    )
}

/// Whether `ev` is the raw event converted.
pub open spec fn event_matches(val: raw::Event, unit: TimestampUnit, ev: Event) -> bool {
    &&& ev.id == val.header.event_id
    &&& ev.sender == participant_id_of(val.header.sender_id)
    &&& timestamp_of_text(val.header.timestamp@, unit) matches Ok(p) && is_instant(ev.timestamp, p)
    &&& event_data_matches(val.data, ev.data)
    &&& ev.self_state.client_generated_id == val.header.self_event_state.client_generated_id
    &&& event_notification_of(val.header.self_event_state.notification_level) == Ok::<
        Option<NotificationLevel>,
        ConversionError,
    >(ev.self_state.notification_level)
    &&& ev.advances_sort_timestamp == val.header.advances_sort_timestamp
    &&& version_of(val.header.event_version@) == Ok::<u64, ConversionError>(ev.version)
}

impl Event {
    /// Converts one event, with its timestamps counted in `unit`.
    pub fn from_raw(val: raw::Event, unit: TimestampUnit) -> (r: Result<Event, ConversionError>)
        ensures
            match event_error(val, unit) {
                Some(e) => r == Err::<Event, ConversionError>(e),
                None => r matches Ok(ev) && event_matches(val, unit, ev),
            },
    {
        let raw::Event { header, kind, data, event_type: _ } = val;
        let raw::EventHeader {
            conversation_id: _,
            sender_id,
            timestamp,
            self_event_state,
            event_id,
            advances_sort_timestamp,
            event_otr: _,
            event_version,
        } = header;
        let timestamp = parse_timestamp(timestamp.as_str(), unit)?;
        let data = EventData::from_raw(kind, data)?;
        let raw::SelfEventState { user_id: _, client_generated_id, notification_level } =
            self_event_state;
        let notification_level = match notification_level {
            None => None,
            Some(c) => Some(NotificationLevel::from_code(c)?),
        };
        let version = match decode_unsigned(event_version.as_str()) {
            Ok(v) => v,
            Err(kind) => {
                return Err(ConversionError::ParseInt(kind));
            },
        };
        Ok(Event {
            id: event_id,
            sender: ParticipantId::from(sender_id),
            timestamp,
            data,
            self_state: SelfEventState { client_generated_id, notification_level },
            advances_sort_timestamp,
            version,
        })
    }
}

/// The failure of each event, in order.
pub open spec fn event_errors(events: Seq<raw::Event>, unit: TimestampUnit) -> Seq<Option<ConversionError>> {
    events.map_values(|ev: raw::Event| event_error(ev, unit))
}

/// Whether `out` holds each raw event converted, in order.
pub open spec fn events_match(events: Seq<raw::Event>, unit: TimestampUnit, out: Seq<Event>) -> bool {
    &&& out.len() == events.len()
    &&& forall|i: int| 0 <= i < out.len() ==> event_matches(#[trigger] events[i], unit, out[i])
}

/// Converts the events of a conversation in order, failing on the first
/// event that fails.
pub fn convert_events(events: Vec<raw::Event>, unit: TimestampUnit) -> (r: Result<Vec<Event>, ConversionError>)
    ensures
        match first_error(event_errors(events@, unit)) {
            Some(e) => r == Err::<Vec<Event>, ConversionError>(e),
            None => r matches Ok(out) && events_match(events@, unit, out@),
        },
{
    let ghost evs = events@;
    let ghost errs = event_errors(evs, unit);
    let mut out: Vec<Event> = Vec::new();
    for ev in it: events.into_iter()
        invariant
            it.seq() == evs,
            errs == event_errors(evs, unit),
            out@.len() == it.index(),
            forall|i: int| 0 <= i < it.index() ==> event_matches(#[trigger] evs[i], unit, out@[i]),
            first_error(errs.take(it.index() as int)) is None,
    {
        let ghost k = it.index() as int;
        proof {
            lemma_first_error_step(errs, k);
        }
        match Event::from_raw(ev, unit) {
            Ok(c) => out.push(c),
            Err(e) => {
                proof {
                    assert(errs[k] == event_error(evs[k], unit));
                    lemma_first_error_prefix(errs, k + 1);
                }
                return Err(e);
            },
        }
    }
    proof {
        lemma_first_error_whole(errs);
    }
    Ok(out)
}

} // verus!
