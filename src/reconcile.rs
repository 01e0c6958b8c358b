//! Joining the roster of a conversation with its side table of read states.
use vstd::prelude::*;

use crate::codes::{invitation_status_of, mapped, participant_type_of};
use crate::convert::{
    error_of, first_error, first_of, lemma_first_error_all_none, lemma_first_error_none,
    lemma_first_error_prefix, lemma_first_error_some, lemma_first_error_step,
    lemma_first_error_whole, optional_of, participant_id_of,
};
use crate::error::ConversionError;
use crate::model::{InvitationStatus, Participant, ParticipantId, ParticipantType, ReadState};
use crate::raw;
use crate::time::{is_instant, parse_timestamp, timestamp_of_text, TimestampUnit};

verus! {

/// Whether two raw identities name the same participant.
pub fn same_participant(a: &raw::ParticipantId, b: &raw::ParticipantId) -> (r: bool)
    ensures
        r == (a.key() == b.key()),
{
    a.gaia_id == b.gaia_id && a.chat_id == b.chat_id
}

/// The participants that the read states name, in order.
pub open spec fn state_ids(states: Seq<raw::ReadState>) -> Seq<raw::ParticipantId> {
    states.map_values(|s: raw::ReadState| s.participant_id)
}

/// What the read timestamp of a read state gives.
pub open spec fn read_time_of(state: raw::ReadState, unit: TimestampUnit) -> Result<(int, int), ConversionError> {
    timestamp_of_text(state.latest_read_timestamp@, unit)
}

/// Whether `rs` holds the instant that the read state's timestamp gives.
pub open spec fn read_state_decoded(state: raw::ReadState, unit: TimestampUnit, rs: ReadState) -> bool {
    read_time_of(state, unit) matches Ok(t) && is_instant(rs.timestamp, t)
}

/// The failure of each read state's timestamp, in order.
pub open spec fn read_time_errors(states: Seq<raw::ReadState>, unit: TimestampUnit) -> Seq<Option<ConversionError>> {
    states.map_values(|s: raw::ReadState| error_of(read_time_of(s, unit)))
}

/// Whether the identity at `i` repeats an earlier one.
pub open spec fn repeats_earlier(ids: Seq<raw::ParticipantId>, i: int) -> bool {
    exists|j: int| 0 <= j < i && ids[j].key() == ids[i].key()
}

/// For each identity, the failure that it repeats an earlier one.
pub open spec fn duplicate_errors(ids: Seq<raw::ParticipantId>) -> Seq<Option<ConversionError>> {
    Seq::new(
        ids.len(),
        |i: int|
            if repeats_earlier(ids, i) {
                Some(ConversionError::DuplicateReadState(participant_id_of(ids[i])))
            } else {
                None
            },
    )
}

/// Whether one of `ids` is the participant `id`.
pub open spec fn has_read_state(ids: Seq<raw::ParticipantId>, id: raw::ParticipantId) -> bool {
    exists|j: int| 0 <= j < ids.len() && ids[j].key() == id.key()
}

/// Whether a roster member before position `i` has the identity of the one
/// at `i`, and so has consumed its read state.
pub open spec fn claimed_earlier(roster: Seq<raw::ParticipantData>, i: int) -> bool {
    exists|k: int| 0 <= k < i && roster[k].id.key() == roster[i].id.key()
}

pub open spec fn participant_type_code_of(code: String) -> Result<ParticipantType, ConversionError> {
    mapped(participant_type_of(code@), "participant_type", code)
}

pub open spec fn invitation_code_of(code: String) -> Result<InvitationStatus, ConversionError> {
    mapped(invitation_status_of(code@), "invitation_status", code)
}

pub open spec fn member_type_of(pd: raw::ParticipantData) -> Result<Option<ParticipantType>, ConversionError> {
    optional_of(pd.participant_type, |c: String| participant_type_code_of(c))
}

pub open spec fn member_invitation_of(pd: raw::ParticipantData) -> Result<Option<InvitationStatus>, ConversionError> {
    optional_of(pd.invitation_status, |c: String| invitation_code_of(c))
}

pub open spec fn member_new_invitation_of(pd: raw::ParticipantData) -> Result<Option<InvitationStatus>, ConversionError> {
    optional_of(pd.new_invitation_status, |c: String| invitation_code_of(c))
}

/// The failure of the roster member at `i`: one of its codes, or no read
/// state left for it.
pub open spec fn member_error(roster: Seq<raw::ParticipantData>, i: int, states: Seq<raw::ReadState>) -> Option<ConversionError> {
    let pd = roster[i];
    first_of(
        error_of(member_type_of(pd)),
        first_of(
            error_of(member_invitation_of(pd)),
            first_of(
                error_of(member_new_invitation_of(pd)),
                if has_read_state(state_ids(states), pd.id) && !claimed_earlier(roster, i) {
                    None
                } else {
                    Some(ConversionError::MissingReadState(participant_id_of(pd.id)))
                },
            ),
        ),
    )
}

pub open spec fn member_errors(roster: Seq<raw::ParticipantData>, states: Seq<raw::ReadState>) -> Seq<Option<ConversionError>> {
    Seq::new(roster.len(), |i: int| member_error(roster, i, states))
}

/// The first failure of reconciliation: a read timestamp, then a repeated
/// read state, then a roster member.
pub open spec fn reconcile_error(
    roster: Seq<raw::ParticipantData>,
    states: Seq<raw::ReadState>,
    unit: TimestampUnit,
) -> Option<ConversionError> {
    first_of(
        first_error(read_time_errors(states, unit)),
        first_of(
            first_error(duplicate_errors(state_ids(states))),
            first_error(member_errors(roster, states)),
        ),
    )
}

/// Whether `p` is the roster member `pd` converted and joined with a read
/// state that names it.
pub open spec fn member_matches(
    pd: raw::ParticipantData,
    states: Seq<raw::ReadState>,
    unit: TimestampUnit,
    p: Participant,
) -> bool {
    &&& p.id == participant_id_of(pd.id)
    &&& p.fallback_name == pd.fallback_name
    &&& member_type_of(pd) == Ok::<Option<ParticipantType>, ConversionError>(p.typ)
    &&& member_invitation_of(pd) == Ok::<Option<InvitationStatus>, ConversionError>(p.invitation_status)
    &&& member_new_invitation_of(pd) == Ok::<Option<InvitationStatus>, ConversionError>(
        p.new_invitation_status,
    )
    &&& exists|j: int|
        #![trigger states[j]]
        0 <= j < states.len() && states[j].participant_id.key() == pd.id.key() && read_state_decoded(
            states[j],
            unit,
            p.read_state,
        )
}

pub open spec fn reconcile_matches(
    roster: Seq<raw::ParticipantData>,
    states: Seq<raw::ReadState>,
    unit: TimestampUnit,
    out: Seq<Participant>,
) -> bool {
    &&& out.len() == roster.len()
    &&& forall|i: int| 0 <= i < out.len() ==> member_matches(#[trigger] roster[i], states, unit, out[i])
}

/// Whether `keys` and `times` hold, for each read state in order, its
/// identity and its decoded instant.
pub open spec fn decoded_states(
    states: Seq<raw::ReadState>,
    unit: TimestampUnit,
    keys: Seq<raw::ParticipantId>,
    times: Seq<ReadState>,
) -> bool {
    &&& keys.len() == states.len()
    &&& times.len() == states.len()
    &&& forall|j: int| 0 <= j < states.len() ==> #[trigger] keys[j] == states[j].participant_id
    &&& forall|j: int| 0 <= j < states.len() ==> read_state_decoded(states[j], unit, #[trigger] times[j])
}

/// Decodes the read states in order: their identities and their instants.
fn decode_read_states(states: Vec<raw::ReadState>, unit: TimestampUnit) -> (r: Result<
    (Vec<raw::ParticipantId>, Vec<ReadState>),
    ConversionError,
>)
    ensures
        match first_error(read_time_errors(states@, unit)) {
            Some(e) => r == Err::<(Vec<raw::ParticipantId>, Vec<ReadState>), ConversionError>(e),
            None => r matches Ok((keys, times)) && decoded_states(states@, unit, keys@, times@),
        },
{
    let ghost sts = states@;
    let ghost errs = read_time_errors(sts, unit);
    let mut keys: Vec<raw::ParticipantId> = Vec::new();
    let mut times: Vec<ReadState> = Vec::new();
    for s in it: states.into_iter()
        invariant
            it.seq() == sts,
            errs == read_time_errors(sts, unit),
            keys@.len() == it.index(),
            times@.len() == it.index(),
            decoded_states(sts.take(it.index() as int), unit, keys@, times@),
            first_error(errs.take(it.index() as int)) is None,
    {
        let ghost k = it.index() as int;
        proof {
            lemma_first_error_step(errs, k);
            assert(errs[k] == error_of(read_time_of(sts[k], unit)));
        }
        let raw::ReadState { participant_id, latest_read_timestamp } = s;
        match parse_timestamp(latest_read_timestamp.as_str(), unit) {
            Ok(t) => {
                keys.push(participant_id);
                times.push(ReadState { timestamp: t });
                assert(sts.take(k + 1) =~= sts.take(k).push(sts[k]));
            },
            Err(e) => {
                proof {
                    lemma_first_error_prefix(errs, k + 1);
                }
                return Err(e);
            },
        }
    }
    proof {
        lemma_first_error_whole(errs);
        assert(sts.take(sts.len() as int) =~= sts);
    }
    Ok((keys, times))
}

/// Checks that no identity repeats an earlier one, and hands the
/// identities back.
fn check_distinct(keys: Vec<raw::ParticipantId>) -> (r: Result<Vec<raw::ParticipantId>, ConversionError>)
    ensures
        match first_error(duplicate_errors(keys@)) {
            Some(e) => r == Err::<Vec<raw::ParticipantId>, ConversionError>(e),
            None => r matches Ok(k) && k@ == keys@,
        },
{
    let mut list = keys;
    let ghost ids = list@;
    let ghost errs = duplicate_errors(ids);
    let n = list.len();
    let mut i: usize = 0;
    while i < n
        invariant
            n == ids.len(),
            list@ == ids,
            keys@ == ids,
            errs == duplicate_errors(ids),
            i <= n,
            first_error(errs.take(i as int)) is None,
        decreases n - i,
    {
        proof {
            lemma_first_error_step(errs, i as int);
        }
        let mut j: usize = 0;
        while j < i
            invariant
                n == ids.len(),
                list@ == ids,
            keys@ == ids,
                errs == duplicate_errors(ids),
                first_error(errs.take(i as int)) is None,
                i < n,
                j <= i,
                forall|m: int| 0 <= m < j ==> ids[m].key() != ids[i as int].key(),
            decreases i - j,
        {
            if same_participant(&list[j], &list[i]) {
                proof {
                    lemma_first_error_step(errs, i as int);
                    assert(repeats_earlier(ids, i as int));
                    assert(errs[i as int] == Some(ConversionError::DuplicateReadState(participant_id_of(ids[i as int]))));
                    lemma_first_error_prefix(errs, i + 1);
                }
                let repeated = list.remove(i);
                return Err(ConversionError::DuplicateReadState(ParticipantId::from(repeated)));
            }
            j = j + 1;
        }
        assert(!repeats_earlier(ids, i as int));
        i = i + 1;
    }
    proof {
        lemma_first_error_whole(errs);
    }
    Ok(list)
}

/// Whether no two identities name the same participant.
pub open spec fn all_distinct(ids: Seq<raw::ParticipantId>) -> bool {
    forall|a: int, b: int| 0 <= a < b < ids.len() ==> ids[a].key() != ids[b].key()
}

proof fn lemma_no_duplicates_distinct(ids: Seq<raw::ParticipantId>)
    requires
        first_error(duplicate_errors(ids)) is None,
    ensures
        all_distinct(ids),
{
    lemma_first_error_none(duplicate_errors(ids));
    assert forall|a: int, b: int| 0 <= a < b < ids.len() implies ids[a].key() != ids[b].key() by {
        assert(duplicate_errors(ids)[b] is None);
    }
}

/// The first identity in `keys` that is `id` and not yet consumed.
fn find_unconsumed(keys: &Vec<raw::ParticipantId>, consumed: &Vec<bool>, id: &raw::ParticipantId) -> (r: Option<usize>)
    requires
        consumed@.len() == keys@.len(),
    ensures
        match r {
            Some(j) => j < keys@.len() && !consumed@[j as int] && keys@[j as int].key() == id.key(),
            None => forall|j: int|
                0 <= j < keys@.len() ==> consumed@[j] || keys@[j].key() != id.key(),
        },
{
    let mut j: usize = 0;
    while j < keys.len()
        invariant
            consumed@.len() == keys@.len(),
            j <= keys@.len(),
            forall|m: int| 0 <= m < j ==> consumed@[m] || keys@[m].key() != id.key(),
        decreases keys@.len() - j,
    {
        if !consumed[j] && same_participant(&keys[j], id) {
            return Some(j);
        }
        j = j + 1;
    }
    None
}

/// Maps the codes of a roster member, in order.
fn member_codes(
    participant_type: Option<String>,
    invitation_status: Option<String>,
    new_invitation_status: Option<String>,
) -> (r: Result<
    (Option<ParticipantType>, Option<InvitationStatus>, Option<InvitationStatus>),
    ConversionError,
>)
    ensures
        ({
            let t = optional_of(participant_type, |c: String| participant_type_code_of(c));
            let a = optional_of(invitation_status, |c: String| invitation_code_of(c));
            let b = optional_of(new_invitation_status, |c: String| invitation_code_of(c));
            match first_of(error_of(t), first_of(error_of(a), error_of(b))) {
                Some(e) => r == Err::<
                    (Option<ParticipantType>, Option<InvitationStatus>, Option<InvitationStatus>),
                    ConversionError,
                >(e),
                None => r matches Ok((x, y, z)) && t == Ok::<Option<ParticipantType>, ConversionError>(x)
                    && a == Ok::<Option<InvitationStatus>, ConversionError>(y) && b == Ok::<
                    Option<InvitationStatus>,
                    ConversionError,
                >(z),
            }
        }),
{
    let typ = match participant_type {
        None => None,
        Some(c) => Some(ParticipantType::from_code(c)?),
    };
    let invitation = match invitation_status {
        None => None,
        Some(c) => Some(InvitationStatus::from_code(c)?),
    };
    let new_invitation = match new_invitation_status {
        None => None,
        Some(c) => Some(InvitationStatus::from_code(c)?),
    };
    Ok((typ, invitation, new_invitation))
}

/// Joins each roster member with the read state that names it, consuming
/// each read state at most once; the members keep their order. Read states
/// that no member claims are left unused.
pub fn reconcile(
    roster: Vec<raw::ParticipantData>,
    states: Vec<raw::ReadState>,
    unit: TimestampUnit,
) -> (r: Result<Vec<Participant>, ConversionError>)
    ensures
        match reconcile_error(roster@, states@, unit) {
            Some(e) => r == Err::<Vec<Participant>, ConversionError>(e),
            None => r matches Ok(out) && reconcile_matches(roster@, states@, unit, out@),
        },
{
    let ghost ros = roster@;
    let ghost sts = states@;
    let (keys, times) = decode_read_states(states, unit)?;
    assert(keys@ =~= state_ids(sts));
    let keys = check_distinct(keys)?;
    proof {
        lemma_no_duplicates_distinct(keys@);
    }
    let n = keys.len();
    let mut consumed: Vec<bool> = Vec::new();
    while consumed.len() < n
        invariant
            consumed@.len() <= n,
            forall|j: int| 0 <= j < consumed@.len() ==> !consumed@[j],
        decreases n - consumed@.len(),
    {
        consumed.push(false);
    }
    let ghost errs = member_errors(ros, sts);
    let mut out: Vec<Participant> = Vec::new();
    for pd in it: roster.into_iter()
        invariant
            it.seq() == ros,
            ros == roster@,
            sts == states@,
            errs == member_errors(ros, sts),
            first_error(read_time_errors(sts, unit)) is None,
            first_error(duplicate_errors(state_ids(sts))) is None,
            keys@ == state_ids(sts),
            decoded_states(sts, unit, keys@, times@),
            all_distinct(keys@),
            n == keys@.len(),
            consumed@.len() == n,
            forall|j: int|
                0 <= j < n ==> (#[trigger] consumed@[j] <==> exists|k: int|
                    0 <= k < it.index() && ros[k].id.key() == keys@[j].key()),
            out@.len() == it.index(),
            forall|i: int| 0 <= i < it.index() ==> member_matches(#[trigger] ros[i], sts, unit, out@[i]),
            first_error(errs.take(it.index() as int)) is None,
    {
        let ghost k = it.index() as int;
        proof {
            lemma_first_error_step(errs, k);
        }
        let raw::ParticipantData {
            id,
            fallback_name,
            invitation_status,
            participant_type,
            new_invitation_status,
            in_different_customer_as_requester: _,
            domain_id: _,
        } = pd;
        let (typ, invitation_status, new_invitation_status) = match member_codes(
            participant_type,
            invitation_status,
            new_invitation_status,
        ) {
            Ok(codes) => codes,
            Err(e) => {
                proof {
                    lemma_first_error_prefix(errs, k + 1);
                }
                return Err(e);
            },
        };
        match find_unconsumed(&keys, &consumed, &id) {
            None => {
                proof {
                    if has_read_state(state_ids(sts), id) {
                        let j0 = choose|j: int| 0 <= j < n && keys@[j].key() == id.key();
                        assert(consumed@[j0]);
                    }
                    assert(errs[k] == member_error(ros, k, sts));
                    lemma_first_error_prefix(errs, k + 1);
                }
                return Err(ConversionError::MissingReadState(ParticipantId::from(id)));
            },
            Some(j) => {
                proof {
                    assert(!claimed_earlier(ros, k)) by {
                        if claimed_earlier(ros, k) {
                            let k2 = choose|k2: int| 0 <= k2 < k && ros[k2].id.key() == ros[k].id.key();
                            assert(ros[k2].id.key() == keys@[j as int].key());
                        }
                    }
                    assert(errs[k] == member_error(ros, k, sts));
                    assert(sts[j as int].participant_id == keys@[j as int]);
                    assert(read_state_decoded(sts[j as int], unit, times@[j as int]));
                }
                let read_state = times[j];
                let ghost before = consumed@;
                consumed.set(j, true);
                proof {
                    assert forall|m: int| 0 <= m < n implies (#[trigger] consumed@[m] <==> exists|k3: int|
                        0 <= k3 < k + 1 && ros[k3].id.key() == keys@[m].key()) by {
                        if m != j {
                            assert(consumed@[m] == before[m]);
                            assert(keys@[m].key() != keys@[j as int].key());
                            if exists|k3: int| 0 <= k3 < k + 1 && ros[k3].id.key() == keys@[m].key() {
                                let k3 = choose|k3: int| 0 <= k3 < k + 1 && ros[k3].id.key() == keys@[m].key();
                                assert(k3 != k);
                            }
                        } else {
                            assert(ros[k].id.key() == keys@[m].key());
                        }
                    }
                }
                out.push(
                    Participant {
                        id: ParticipantId::from(id),
                        fallback_name,
                        typ,
                        invitation_status,
                        new_invitation_status,
                        read_state,
                    },
                );
                proof {
                    assert(member_matches(ros[k], sts, unit, out@[k]));
                }
            },
        }
    }
    proof {
        lemma_first_error_whole(errs);
    }
    Ok(out)
}

/// Reconciliation succeeds when the read states name pairwise distinct
/// participants, the roster members are pairwise distinct, each member is
/// named by a read state, and every read timestamp and member code is
/// valid; it then pairs each member with the one read state that names it.
pub proof fn lemma_reconcile_pairs_each_member(
    roster: Seq<raw::ParticipantData>,
    states: Seq<raw::ReadState>,
    unit: TimestampUnit,
)
    requires
        all_distinct(state_ids(states)),
        forall|a: int, b: int| 0 <= a < b < roster.len() ==> roster[a].id.key() != roster[b].id.key(),
        forall|i: int| 0 <= i < roster.len() ==> has_read_state(state_ids(states), #[trigger] roster[i].id),
        forall|j: int| 0 <= j < states.len() ==> (#[trigger] read_time_of(states[j], unit)) is Ok,
        forall|i: int|
            0 <= i < roster.len() ==> (#[trigger] member_type_of(roster[i])) is Ok && member_invitation_of(
                roster[i],
            ) is Ok && member_new_invitation_of(roster[i]) is Ok,
    ensures
        reconcile_error(roster, states, unit) is None,
        forall|out: Seq<Participant>|
            #[trigger] reconcile_matches(roster, states, unit, out) ==> forall|i: int, j: int|
                0 <= i < roster.len() && 0 <= j < states.len() && #[trigger] states[j].participant_id.key()
                    == #[trigger] roster[i].id.key() ==> read_state_decoded(
                    states[j],
                    unit,
                    out[i].read_state,
                ),
{
    let ids = state_ids(states);
    let te = read_time_errors(states, unit);
    assert forall|j: int| 0 <= j < te.len() implies (#[trigger] te[j]) is None by {
        assert(read_time_of(states[j], unit) is Ok);
    }
    lemma_first_error_all_none(te);
    let de = duplicate_errors(ids);
    assert forall|j: int| 0 <= j < de.len() implies (#[trigger] de[j]) is None by {
        if repeats_earlier(ids, j) {
            let a = choose|a: int| 0 <= a < j && ids[a].key() == ids[j].key();
            assert(ids[a].key() != ids[j].key());
        }
    }
    lemma_first_error_all_none(de);
    let me = member_errors(roster, states);
    assert forall|i: int| 0 <= i < me.len() implies (#[trigger] me[i]) is None by {
        assert(member_type_of(roster[i]) is Ok);
        assert(has_read_state(ids, roster[i].id));
        if claimed_earlier(roster, i) {
            let k = choose|k: int| 0 <= k < i && roster[k].id.key() == roster[i].id.key();
            assert(roster[k].id.key() != roster[i].id.key());
        }
    }
    lemma_first_error_all_none(me);
    assert forall|out: Seq<Participant>| #[trigger] reconcile_matches(roster, states, unit, out) implies forall|i: int, j: int|
        0 <= i < roster.len() && 0 <= j < states.len() && #[trigger] states[j].participant_id.key()
            == #[trigger] roster[i].id.key() ==> read_state_decoded(states[j], unit, out[i].read_state) by {
        assert forall|i: int, j: int|
            0 <= i < roster.len() && 0 <= j < states.len() && #[trigger] states[j].participant_id.key()
                == #[trigger] roster[i].id.key() implies read_state_decoded(states[j], unit, out[i].read_state) by {
            assert(member_matches(roster[i], states, unit, out[i]));
            let j2 = choose|j2: int|
                #![trigger states[j2]]
                0 <= j2 < states.len() && states[j2].participant_id.key() == roster[i].id.key()
                    && read_state_decoded(states[j2], unit, out[i].read_state);
            if j2 != j {
                assert(ids[j] == states[j].participant_id);
                assert(ids[j2] == states[j2].participant_id);
                if j < j2 {
                    assert(ids[j].key() != ids[j2].key());
                } else {
                    assert(ids[j2].key() != ids[j].key());
                }
            }
        }
    }
}

/// Reconciliation fails when some roster member is named by no read state.
pub proof fn lemma_reconcile_missing_fails(
    roster: Seq<raw::ParticipantData>,
    states: Seq<raw::ReadState>,
    unit: TimestampUnit,
    i: int,
)
    requires
        0 <= i < roster.len(),
        !has_read_state(state_ids(states), roster[i].id),
    ensures
        reconcile_error(roster, states, unit) is Some,
{
    let me = member_errors(roster, states);
    assert(me[i] is Some);
    lemma_first_error_some(me, i);
}

/// Reconciliation fails when two read states name the same participant.
pub proof fn lemma_reconcile_duplicate_fails(
    roster: Seq<raw::ParticipantData>,
    states: Seq<raw::ReadState>,
    unit: TimestampUnit,
    a: int,
    b: int,
)
    requires
        0 <= a < b < states.len(),
        states[a].participant_id.key() == states[b].participant_id.key(),
    ensures
        reconcile_error(roster, states, unit) is Some,
{
    let ids = state_ids(states);
    let de = duplicate_errors(ids);
    assert(ids[a] == states[a].participant_id);
    assert(ids[b] == states[b].participant_id);
    assert(repeats_earlier(ids, b));
    assert(de[b] is Some);
    lemma_first_error_some(de, b);
}

} // verus!
