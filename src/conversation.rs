//! The conversion of whole conversations and of a whole export.
use vstd::prelude::*;
use vstd::view::View as _;

use crate::codes::{
    conversation_status_of, link_sharing_status_of, mapped, optional_affinity_of, view_of,
    conversation_type_of,
};
use crate::convert::{
    convert_events, error_of, event_errors, events_match, first_error, first_of,
    lemma_first_error_prefix, lemma_first_error_step, lemma_first_error_whole,
    notification_code_of, participant_id_of,
};
use crate::error::ConversionError;
use crate::model::{
    Conversation, ConversationStatus, Hangouts, InvitationAffinity, InvitationData,
    LinkSharingStatus, NotificationLevel, ParticipantId, SelfState, View,
};
use crate::raw;
use crate::raw::ConversationType;
use crate::reconcile::{reconcile, reconcile_error, reconcile_matches};
use crate::time::{is_instant, parse_timestamp, timestamp_of_text, TimestampUnit};

verus! {

pub open spec fn view_code_of(code: String) -> Result<View, ConversionError> {
    mapped(view_of(code@), "view", code)
}

pub open spec fn view_errors(codes: Seq<String>) -> Seq<Option<ConversionError>> {
    codes.map_values(|c: String| error_of(view_code_of(c)))
}

pub open spec fn views_match(codes: Seq<String>, views: Seq<View>) -> bool {
    &&& views.len() == codes.len()
    &&& forall|i: int|
        0 <= i < views.len() ==> view_code_of(#[trigger] codes[i]) == Ok::<View, ConversionError>(views[i])
}

/// Maps view codes in order, failing on the first unknown one.
pub fn convert_views(codes: Vec<String>) -> (r: Result<Vec<View>, ConversionError>)
    ensures
        match first_error(view_errors(codes@)) {
            Some(e) => r == Err::<Vec<View>, ConversionError>(e),
            None => r matches Ok(v) && views_match(codes@, v@),
        },
{
    let ghost src = codes@;
    let ghost errs = view_errors(src);
    let mut out: Vec<View> = Vec::new();
    for c in it: codes.into_iter()
        invariant
            it.seq() == src,
            src == codes@,
            errs == view_errors(src),
            out@.len() == it.index(),
            forall|i: int|
                0 <= i < it.index() ==> view_code_of(#[trigger] src[i]) == Ok::<View, ConversionError>(out@[i]),
            first_error(errs.take(it.index() as int)) is None,
    {
        let ghost k = it.index() as int;
        proof {
            lemma_first_error_step(errs, k);
            assert(errs[k] == error_of(view_code_of(src[k])));
        }
        match View::from_code(c) {
            Ok(v) => out.push(v),
            Err(e) => {
                proof {
                    lemma_first_error_prefix(errs, k + 1);
                }
                return Err(e);
            },
        }
    }
    proof {
        lemma_first_error_whole(errs);
    }
    Ok(out)
}

/// The name of a conversation: a group's raw name, which it must have; a
/// one-to-one conversation has none, whatever the raw record says.
pub open spec fn conversation_name_of(typ: String, name: Option<String>) -> Result<Option<String>, ConversionError> {
    match mapped(conversation_type_of(typ@), "type", typ) {
        Err(e) => Err(e),
        Ok(ConversationType::OneToOne) => Ok(None),
        Ok(ConversationType::Group) => match name {
            Some(n) => Ok(Some(n)),
            None => Err(ConversionError::MissingRequiredField { field: "name" }),
        },
    }
}

fn conversation_name(typ: String, name: Option<String>) -> (r: Result<Option<String>, ConversionError>)
    ensures
        r == conversation_name_of(typ, name),
{
    match ConversationType::from_code(typ)? {
        ConversationType::OneToOne => Ok(None),
        ConversationType::Group => match name {
            Some(n) => Ok(Some(n)),
            None => Err(ConversionError::MissingRequiredField { field: "name" }),
        },
    }
}

pub open spec fn status_code_of(code: String) -> Result<ConversationStatus, ConversionError> {
    mapped(conversation_status_of(code@), "status", code)
}

pub open spec fn link_code_of(code: String) -> Result<LinkSharingStatus, ConversionError> {
    mapped(link_sharing_status_of(code@), "group_link_sharing_status", code)
}

/// The first failure of a conversation's steps, in the order in which they
/// are taken.
pub open spec fn conversation_error(val: raw::Conversation, unit: TimestampUnit) -> Option<ConversionError> {
    let d = val.header.details;
    let st = d.self_conversation_state;
    first_of(
        error_of(conversation_name_of(d.typ, d.name)),
        first_of(
            error_of(status_code_of(st.status)),
            first_of(
                error_of(notification_code_of(st.notification_level)),
                first_of(
                    first_error(view_errors(st.view@)),
                    first_of(
                        error_of(timestamp_of_text(st.invite_timestamp@, unit)),
                        first_of(
                            error_of(optional_affinity_of(st.invite_affinity)),
                            first_of(
                                error_of(timestamp_of_text(st.sort_timestamp@, unit)),
                                first_of(
                                    error_of(link_code_of(d.group_link_sharing_status)),
                                    first_of(
                                        reconcile_error(d.participant_data@, d.read_state@, unit),
                                        first_error(event_errors(val.events@, unit)),
                                    ),
                                ),
                            ),
                        ),
                    ),
                ),
            ),
        ),
    )
}

/// Whether `c` is the raw conversation converted.
pub open spec fn conversation_matches(val: raw::Conversation, unit: TimestampUnit, c: Conversation) -> bool {
    let d = val.header.details;
    let st = d.self_conversation_state;
    &&& c.conversation_id == val.header.conversation_id.id
    &&& c.id == d.id.id
    &&& conversation_name_of(d.typ, d.name) == Ok::<Option<String>, ConversionError>(c.name)
    &&& status_code_of(st.status) == Ok::<ConversationStatus, ConversionError>(c.self_state.status)
    &&& notification_code_of(st.notification_level) == Ok::<NotificationLevel, ConversionError>(
        c.self_state.notification_level,
    )
    &&& views_match(st.view@, c.self_state.views@)
    &&& c.self_state.invitation.inviter == participant_id_of(st.inviter_id)
    &&& optional_affinity_of(st.invite_affinity) == Ok::<InvitationAffinity, ConversionError>(
        c.self_state.invitation.affinity,
    )
    &&& link_code_of(d.group_link_sharing_status) == Ok::<LinkSharingStatus, ConversionError>(
        c.group_link_sharing_status,
    )
    &&& reconcile_matches(d.participant_data@, d.read_state@, unit, c.participants@)
    &&& events_match(val.events@, unit, c.events@)
    &&& timestamp_of_text(st.invite_timestamp@, unit) matches Ok(p) && is_instant(
        c.self_state.invitation.timestamp,
        p,
    )
    &&& timestamp_of_text(st.sort_timestamp@, unit) matches Ok(q) && is_instant(c.sort_timestamp, q)
}

impl Conversation {
    /// Converts one conversation, with its timestamps counted in `unit`;
    /// any failing step fails the whole conversation.
    pub fn from_raw(val: raw::Conversation, unit: TimestampUnit) -> (r: Result<Conversation, ConversionError>)
        ensures
            match conversation_error(val, unit) {
                Some(e) => r == Err::<Conversation, ConversionError>(e),
                None => r matches Ok(c) && conversation_matches(val, unit, c),
            },
    {
        let raw::Conversation { header, events } = val;
        let raw::ConversationHeader { conversation_id, details } = header;
        let raw::ConversationDetails {
            id,
            typ,
            name,
            self_conversation_state,
            read_state,
            has_active_hangout: _,
            otr_status: _,
            otr_toggle: _,
            current_participant: _,
            participant_data,
            fork_on_external_invite: _,
            network_type: _,
            force_history_state: _,
            group_link_sharing_status,
        } = details;
        let raw::SelfConversationState {
            self_read_state: _,
            status,
            notification_level,
            view,
            inviter_id,
            invite_timestamp,
            invitation_display_type: _,
            invite_affinity,
            sort_timestamp,
            active_timestamp: _,
            is_guest: _,
        } = self_conversation_state;
        let name = conversation_name(typ, name)?;
        let status = ConversationStatus::from_code(status)?;
        let notification_level = NotificationLevel::from_code(notification_level)?;
        let views = convert_views(view)?;
        let inviter = ParticipantId::from(inviter_id);
        let invite_time = parse_timestamp(invite_timestamp.as_str(), unit)?;
        let affinity = InvitationAffinity::from_code(invite_affinity)?;
        let sort_timestamp = parse_timestamp(sort_timestamp.as_str(), unit)?;
        let group_link_sharing_status = LinkSharingStatus::from_code(group_link_sharing_status)?;
        let participants = reconcile(participant_data, read_state, unit)?;
        let events = convert_events(events, unit)?;
        Ok(Conversation {
            conversation_id: conversation_id.id,
            id: id.id,
            name,
            participants,
            events,
            self_state: SelfState {
                status,
                notification_level,
                invitation: InvitationData { inviter, timestamp: invite_time, affinity },
                views,
            },
            sort_timestamp,
            group_link_sharing_status,
        })
    }
}

/// The failure of each conversation, in order.
pub open spec fn conversation_errors(convs: Seq<raw::Conversation>, unit: TimestampUnit) -> Seq<Option<ConversionError>> {
    convs.map_values(|c: raw::Conversation| conversation_error(c, unit))
}

/// Whether `out` holds each raw conversation converted, in order.
pub open spec fn conversations_match(convs: Seq<raw::Conversation>, unit: TimestampUnit, out: Seq<Conversation>) -> bool {
    &&& out.len() == convs.len()
    &&& forall|i: int| 0 <= i < out.len() ==> conversation_matches(#[trigger] convs[i], unit, out[i])
}

impl Hangouts {
    /// Converts a whole export, failing on the first conversation that
    /// fails.
    pub fn from_raw(val: raw::Hangouts, unit: TimestampUnit) -> (r: Result<Hangouts, ConversionError>)
        ensures
            match first_error(conversation_errors(val.conversations@, unit)) {
                Some(e) => r == Err::<Hangouts, ConversionError>(e),
                None => r matches Ok(h) && conversations_match(val.conversations@, unit, h.conversations@),
            },
    {
        let raw::Hangouts { conversations } = val;
        let ghost src = conversations@;
        let ghost errs = conversation_errors(src, unit);
        let mut out: Vec<Conversation> = Vec::new();
        for c in it: conversations.into_iter()
            invariant
                it.seq() == src,
                src == val.conversations@,
                errs == conversation_errors(src, unit),
                out@.len() == it.index(),
                forall|i: int| 0 <= i < it.index() ==> conversation_matches(#[trigger] src[i], unit, out@[i]),
                first_error(errs.take(it.index() as int)) is None,
        {
            let ghost k = it.index() as int;
            proof {
                lemma_first_error_step(errs, k);
                assert(errs[k] == conversation_error(src[k], unit));
            }
            match Conversation::from_raw(c, unit) {
                Ok(conv) => out.push(conv),
                Err(e) => {
                    proof {
                        lemma_first_error_prefix(errs, k + 1);
                    }
                    return Err(e);
                },
            }
        }
        proof {
            lemma_first_error_whole(errs);
        }
        Ok(Hangouts { conversations: out })
    }

    /// Converts each conversation of an export on its own: one outcome per
    /// conversation, in order, so that a failing conversation does not take
    /// the others with it.
    pub fn convert_each(val: raw::Hangouts, unit: TimestampUnit) -> (r: Vec<Result<Conversation, ConversionError>>)
        ensures
            r@.len() == val.conversations@.len(),
            forall|i: int|
                0 <= i < r@.len() ==> match conversation_error(#[trigger] val.conversations@[i], unit) {
                    Some(e) => r@[i] == Err::<Conversation, ConversionError>(e),
                    None => r@[i] matches Ok(c) && conversation_matches(val.conversations@[i], unit, c),
                },
    {
        let raw::Hangouts { conversations } = val;
        let ghost src = conversations@;
        let mut out: Vec<Result<Conversation, ConversionError>> = Vec::new();
        for c in it: conversations.into_iter()
            invariant
                it.seq() == src,
                src == val.conversations@,
                out@.len() == it.index(),
                forall|i: int|
                    0 <= i < it.index() ==> match conversation_error(#[trigger] src[i], unit) {
                        Some(e) => out@[i] == Err::<Conversation, ConversionError>(e),
                        None => out@[i] matches Ok(c) && conversation_matches(src[i], unit, c),
                    },
        {
            out.push(Conversation::from_raw(c, unit));
        }
        out
    }
}

/// A one-to-one conversation never has a name, whatever name its raw
/// record carries; a group conversation has exactly the raw name, and its
/// conversion fails when the raw record has none.
pub proof fn lemma_group_name_scoping(val: raw::Conversation, unit: TimestampUnit)
    ensures
        val.header.details.typ@ == "STICKY_ONE_TO_ONE"@ ==> forall|c: Conversation|
            #[trigger] conversation_matches(val, unit, c) ==> c.name is None,
        val.header.details.typ@ == "GROUP"@ ==> forall|c: Conversation|
            #[trigger] conversation_matches(val, unit, c) ==> c.name == val.header.details.name,
        val.header.details.typ@ == "GROUP"@ && val.header.details.name is None ==> conversation_error(
            val,
            unit,
        ) == Some(ConversionError::MissingRequiredField { field: "name" }),
{
    reveal_strlit("STICKY_ONE_TO_ONE");
    reveal_strlit("GROUP");
    assert("STICKY_ONE_TO_ONE"@.len() != "GROUP"@.len());
    if val.header.details.typ@ == "STICKY_ONE_TO_ONE"@ {
        assert(conversation_type_of(val.header.details.typ@) == Some(ConversationType::OneToOne));
    }
}

} // verus!
