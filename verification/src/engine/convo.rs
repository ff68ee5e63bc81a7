//! Conversations and their participants, as read from the Instagram conversations API.
use vstd::prelude::*;

use crate::error::{is_deserialize_error, Error};
use crate::json::JsonValue;

verus! {

/// One member of a conversation.
#[derive(Debug, PartialEq, Eq)]
pub struct ConvoParticipant {
    pub id: String,
    pub username: String,
}

/// A conversation: its id and its participants, in the order the API lists them.
#[derive(Debug, PartialEq, Eq)]
pub struct Convo {
    pub id: String,
    pub participants: Vec<ConvoParticipant>,
}

/// A participant as text.
pub struct ParticipantModel {
    pub id: Seq<char>,
    pub username: Seq<char>,
}

/// A conversation as text.
pub struct ConvoModel {
    pub id: Seq<char>,
    pub participants: Seq<ParticipantModel>,
}

impl View for ConvoParticipant {
    type V = ParticipantModel;

    open spec fn view(&self) -> ParticipantModel {
        ParticipantModel { id: self.id@, username: self.username@ }
    }
}

/// The texts of a sequence of participants.
pub open spec fn participants_view(ps: Seq<ConvoParticipant>) -> Seq<ParticipantModel> {
    ps.map_values(|p: ConvoParticipant| p@)
}

impl View for Convo {
    type V = ConvoModel;

    open spec fn view(&self) -> ConvoModel {
        ConvoModel { id: self.id@, participants: participants_view(self.participants@) }
    }
}

/// The texts of a sequence of conversations.
pub open spec fn convos_view(cs: Seq<Convo>) -> Seq<ConvoModel> {
    cs.map_values(|c: Convo| c@)
}

/// A participant read from one element of `participants.data`: both `id` and
/// `username` must be strings. The error is the message of the deserialize error.
pub open spec fn participant_from_json(p: JsonValue) -> Result<ParticipantModel, Seq<char>> {
    match p.field("id"@).str_spec() {
        None => Err("Invalid or missing participants[id]"@),
        Some(id) => match p.field("username"@).str_spec() {
            None => Err("Invalid or missing participants[username]"@),
            Some(username) => Ok(ParticipantModel { id, username }),
        },
    }
}

/// Reads each element of `items` with `read`, in order: the values read, or the
/// error of the first element that fails.
pub open spec fn read_all<T>(items: Seq<JsonValue>, read: spec_fn(JsonValue) -> Result<T, Seq<char>>) -> Result<
    Seq<T>,
    Seq<char>,
>
    decreases items.len(),
{
    if items.len() == 0 {
        Ok(seq![])
    } else {
        match read_all(items.drop_last(), read) {
            Err(e) => Err(e),
            Ok(vs) => match read(items.last()) {
                Err(e) => Err(e),
                Ok(v) => Ok(vs.push(v)),
            },
        }
    }
}

/// Once a prefix of `items` fails to read, every longer prefix fails with the same error.
pub proof fn lemma_read_all_error_persists<T>(
    items: Seq<JsonValue>,
    read: spec_fn(JsonValue) -> Result<T, Seq<char>>,
    k: int,
    j: int,
)
    requires
        0 <= k <= j <= items.len(),
        read_all(items.take(k), read) is Err,
    ensures
        read_all(items.take(j), read) == read_all(items.take(k), read),
    decreases j - k,
{
    if j > k {
        lemma_read_all_error_persists(items, read, k, j - 1);
        assert(items.take(j).drop_last() =~= items.take(j - 1));
    }
}

/// Reading succeeds with one value per element, each the reading of that element.
pub proof fn lemma_read_all_ok<T>(items: Seq<JsonValue>, read: spec_fn(JsonValue) -> Result<T, Seq<char>>)
    requires
        read_all(items, read) is Ok,
    ensures
        read_all(items, read)->Ok_0.len() == items.len(),
        forall|i: int|
            0 <= i < items.len() ==> read(#[trigger] items[i]) == Ok::<T, Seq<char>>(
                read_all(items, read)->Ok_0[i],
            ),
    decreases items.len(),
{
    if items.len() > 0 {
        lemma_read_all_ok(items.drop_last(), read);
        let prefix = read_all(items.drop_last(), read)->Ok_0;
        assert forall|i: int| 0 <= i < items.len() implies read(#[trigger] items[i]) == Ok::<
            T,
            Seq<char>,
        >(read_all(items, read)->Ok_0[i]) by {
            if i < items.len() - 1 {
                assert(items.drop_last()[i] == items[i]);
            }
        }
    }
}

/// Reading fails exactly when some element fails to read.
pub proof fn lemma_read_all_ok_iff<T>(items: Seq<JsonValue>, read: spec_fn(JsonValue) -> Result<T, Seq<char>>)
    ensures
        read_all(items, read) is Ok <==> forall|k: int|
            0 <= k < items.len() ==> #[trigger] read(items[k]) is Ok,
    decreases items.len(),
{
    if items.len() > 0 {
        lemma_read_all_ok_iff(items.drop_last(), read);
        if forall|k: int| 0 <= k < items.len() ==> #[trigger] read(items[k]) is Ok {
            assert forall|k: int| 0 <= k < items.drop_last().len() implies #[trigger] read(
                items.drop_last()[k],
            ) is Ok by {
                assert(items.drop_last()[k] == items[k]);
            }
            assert(read(items[items.len() - 1]) is Ok);
        }
        if read_all(items, read) is Ok {
            lemma_read_all_ok(items, read);
        }
    }
}

/// The participants read from the elements of `participants.data`, in order;
/// the first element that fails gives the error.
pub open spec fn participants_from_json(items: Seq<JsonValue>) -> Result<
    Seq<ParticipantModel>,
    Seq<char>,
> {
    read_all(items, |p: JsonValue| participant_from_json(p))
}

/// A conversation read from one element of a conversation listing: `id` must be a
/// string and `participants.data` an array of participants.
pub open spec fn convo_from_json(v: JsonValue) -> Result<ConvoModel, Seq<char>> {
    match v.field("id"@).str_spec() {
        None => Err("Invalid or missing convo[id]"@),
        Some(id) => match v.field("participants"@).field("data"@).array_spec() {
            None => Err("Invalid or missing convo[participants][data]"@),
            Some(items) => match participants_from_json(items) {
                Err(e) => Err(e),
                Ok(participants) => Ok(ConvoModel { id, participants }),
            },
        },
    }
}

/// A conversation reads exactly when its `id` is a string, `participants.data` is
/// an array, and every element of it has a string `id` and a string `username`.
/// Then it has that id and one participant per element, in the same order, each
/// with that element's `id` and `username`.
pub proof fn lemma_convo_participants_follow_data(v: JsonValue)
    ensures
        convo_from_json(v) is Ok <==> {
            &&& v.field("id"@).str_spec() is Some
            &&& v.field("participants"@).field("data"@).array_spec() is Some
            &&& forall|k: int|
                0 <= k < v.field("participants"@).field("data"@).array_spec()->Some_0.len() ==> {
                    &&& (#[trigger] v.field("participants"@).field("data"@).array_spec()->Some_0[k]).field(
                        "id"@,
                    ).str_spec() is Some
                    &&& v.field("participants"@).field("data"@).array_spec()->Some_0[k].field(
                        "username"@,
                    ).str_spec() is Some
                }
        },
        convo_from_json(v) is Ok ==> ({
            let items = v.field("participants"@).field("data"@).array_spec()->Some_0;
            let c = convo_from_json(v)->Ok_0;
            &&& Some(c.id) == v.field("id"@).str_spec()
            &&& c.participants.len() == items.len()
            &&& forall|i: int|
                0 <= i < items.len() ==> {
                    &&& Some(#[trigger] c.participants[i].id) == items[i].field("id"@).str_spec()
                    &&& Some(c.participants[i].username) == items[i].field("username"@).str_spec()
                }
        }),
{
    let read = |p: JsonValue| participant_from_json(p);
    if v.field("participants"@).field("data"@).array_spec() is Some {
        let items = v.field("participants"@).field("data"@).array_spec()->Some_0;
        lemma_read_all_ok_iff(items, read);
        assert(forall|k: int| 0 <= k < items.len() ==> (#[trigger] read(items[k]) is Ok <==> (
        items[k].field("id"@).str_spec() is Some && items[k].field("username"@).str_spec() is Some)));
        if convo_from_json(v) is Ok {
            lemma_read_all_ok(items, read);
            let c = convo_from_json(v)->Ok_0;
            assert forall|i: int| 0 <= i < items.len() implies {
                &&& Some(#[trigger] c.participants[i].id) == items[i].field("id"@).str_spec()
                &&& Some(c.participants[i].username) == items[i].field("username"@).str_spec()
            } by {
                assert(read(items[i]) == Ok::<ParticipantModel, Seq<char>>(c.participants[i]));
            }
        }
    }
}

/// A conversation listing reads exactly when each of its elements reads as a
/// conversation; then it has one conversation per element, in order, the k-th
/// being what the k-th element reads as.
pub proof fn lemma_convo_list_reads_each_element(items: Seq<JsonValue>)
    ensures
        convos_from_json(items) is Ok <==> forall|k: int|
            0 <= k < items.len() ==> #[trigger] convo_from_json(items[k]) is Ok,
        convos_from_json(items) is Ok ==> ({
            let cs = convos_from_json(items)->Ok_0;
            &&& cs.len() == items.len()
            &&& forall|k: int|
                0 <= k < items.len() ==> #[trigger] convo_from_json(items[k]) == Ok::<
                    ConvoModel,
                    Seq<char>,
                >(cs[k])
        }),
{
    let read = |c: JsonValue| convo_from_json(c);
    lemma_read_all_ok_iff(items, read);
    assert(forall|k: int| 0 <= k < items.len() ==> #[trigger] read(items[k]) == convo_from_json(items[k]));
    if convos_from_json(items) is Ok {
        lemma_read_all_ok(items, read);
    }
}

/// The conversations read from the elements of a listing, in order; the first
/// element that fails gives the error.
pub open spec fn convos_from_json(items: Seq<JsonValue>) -> Result<Seq<ConvoModel>, Seq<char>> {
    read_all(items, |c: JsonValue| convo_from_json(c))
}

impl ConvoParticipant {
    /// Reads one participant.
    pub fn try_from(value: &JsonValue) -> (r: Result<ConvoParticipant, Error>)
        ensures
            match (r, participant_from_json(*value)) {
                (Ok(p), Ok(m)) => p@ == m,
                (Err(e), Err(msg)) => is_deserialize_error(e, msg),
                _ => false,
            },
    {
        let id = match value.field_str("id") {
            Some(s) => s.clone(),
            None => {
                return Err(Error::deserialize("Invalid or missing participants[id]"));
            },
        };
        let username = match value.field_str("username") {
            Some(s) => s.clone(),
            None => {
                return Err(Error::deserialize("Invalid or missing participants[username]"));
            },
        };
        Ok(ConvoParticipant { id, username })
    }
}

impl Convo {
    /// Reads one conversation of a listing.
    pub fn try_from(value: &JsonValue) -> (r: Result<Convo, Error>)
        ensures
            match (r, convo_from_json(*value)) {
                (Ok(c), Ok(m)) => c@ == m,
                (Err(e), Err(msg)) => is_deserialize_error(e, msg),
                _ => false,
            },
    {
        let id = match value.field_str("id") {
            Some(s) => s.clone(),
            None => {
                return Err(Error::deserialize("Invalid or missing convo[id]"));
            },
        };
        let items = match value.get("participants") {
            Some(p) => p.field_array("data"),
            None => None,
        };
        let items = match items {
            Some(items) => items,
            None => {
                return Err(Error::deserialize("Invalid or missing convo[participants][data]"));
            },
        };
        let mut participants: Vec<ConvoParticipant> = Vec::new();
        let mut i: usize = 0;
        assert(items@.take(0) =~= Seq::<JsonValue>::empty());
        assert(participants_view(participants@) =~= Seq::<ParticipantModel>::empty());
        while i < items.len()
            invariant
                i <= items.len(),
                value.field("id"@).str_spec() == Some(id@),
                value.field("participants"@).field("data"@).array_spec() == Some(items@),
                participants_from_json(items@.take(i as int)) == Ok::<
                    Seq<ParticipantModel>,
                    Seq<char>,
                >(participants_view(participants@)),
            decreases items.len() - i,
        {
            let ghost before = participants@;
            let p = ConvoParticipant::try_from(&items[i]);
            proof {
                assert(items@.take(i + 1).drop_last() =~= items@.take(i as int));
                assert(items@.take(i + 1).last() == items@[i as int]);
            }
            match p {
                Ok(p) => {
                    participants.push(p);
                    assert(participants_view(participants@) =~= participants_view(before).push(p@));
                },
                Err(e) => {
                    proof {
                        lemma_read_all_error_persists(
                            items@,
                            |p: JsonValue| participant_from_json(p),
                            i + 1,
                            items@.len() as int,
                        );
                        assert(items@.take(items@.len() as int) =~= items@);
                    }
                    return Err(e);
                },
            }
            i = i + 1;
        }
        assert(items@.take(items@.len() as int) =~= items@);
        Ok(Convo { id, participants })
    }
}

} // verus!
