//! The Discord side: what the bot posts and which channels its setup replaces.
use vstd::prelude::*;

use crate::constants::{DISCORD_MOD_CHANNEL_NAME, OWN_USERNAME};
use crate::engine::convo::{participants_view, ConvoModel, ParticipantModel, convos_view};
use crate::engine::{Convo, ConvoParticipant};
use crate::error::Error;
use crate::text::joined;

verus! {

/// One line of a conversation listing, without its line break:
/// `{username}: ({id}, {convo_id}) `.
pub open spec fn participant_line(p: ParticipantModel, convo_id: Seq<char>) -> Seq<char> {
    p.username + ": ("@ + p.id + ", "@ + convo_id + ") "@
}

/// The text posted in a conversation's channel: one line per participant.
pub open spec fn convo_channel_text_spec(ps: Seq<ParticipantModel>, convo_id: Seq<char>) -> Seq<
    char,
>
    decreases ps.len(),
{
    if ps.len() == 0 {
        Seq::<char>::empty()
    } else {
        convo_channel_text_spec(ps.drop_last(), convo_id) + participant_line(ps.last(), convo_id)
            + "\n"@
    }
}

/// The first participant at or after position `i` who is not the bot's own account.
pub open spec fn other_participant_from(ps: Seq<ParticipantModel>, i: int) -> Option<
    ParticipantModel,
>
    decreases ps.len() - i,
{
    if i < 0 || i >= ps.len() {
        None
    } else if ps[i].username != OWN_USERNAME@ {
        Some(ps[i])
    } else {
        other_participant_from(ps, i + 1)
    }
}

/// The line of a conversation in the listing: the first participant other than
/// the bot's own account, or nothing when there is none.
pub open spec fn convo_list_line(c: ConvoModel) -> Seq<char> {
    match other_participant_from(c.participants, 0) {
        Some(p) => participant_line(p, c.id),
        None => Seq::<char>::empty(),
    }
}

/// The conversation listing: one line per conversation, each ended by a line break.
pub open spec fn convo_list_text_spec(cs: Seq<ConvoModel>) -> Seq<char>
    decreases cs.len(),
{
    if cs.len() == 0 {
        Seq::<char>::empty()
    } else {
        convo_list_text_spec(cs.drop_last()) + convo_list_line(cs.last()) + "\n"@
    }
}

/// The ids of the channels whose name is not the moderation channel's, in order.
pub open spec fn channels_to_delete_spec(channels: Seq<(u64, String)>) -> Seq<u64>
    decreases channels.len(),
{
    if channels.len() == 0 {
        Seq::<u64>::empty()
    } else {
        let rest = channels_to_delete_spec(channels.drop_last());
        if channels.last().1@ == DISCORD_MOD_CHANNEL_NAME@ {
            rest
        } else {
            rest.push(channels.last().0)
        }
    }
}

/// A conversation's channel text is one line per participant, in order, whatever
/// the username: the k-th line is "{username}: ({id}, {convo_id}) " of the k-th
/// participant, and a line break.
pub proof fn lemma_channel_text_one_line_per_participant(ps: Seq<ParticipantModel>, convo_id: Seq<char>)
    ensures
        convo_channel_text_spec(ps, convo_id) == Seq::new(
            ps.len(),
            |k: int| ps[k].username + ": ("@ + ps[k].id + ", "@ + convo_id + ") "@ + "\n"@,
        ).flatten(),
    decreases ps.len(),
{
    let lines = Seq::new(
        ps.len(),
        |k: int| ps[k].username + ": ("@ + ps[k].id + ", "@ + convo_id + ") "@ + "\n"@,
    );
    if ps.len() == 0 {
        assert(lines =~= Seq::<Seq<char>>::empty());
    } else {
        let prefix = ps.drop_last();
        lemma_channel_text_one_line_per_participant(prefix, convo_id);
        let prev = Seq::new(
            prefix.len(),
            |k: int| prefix[k].username + ": ("@ + prefix[k].id + ", "@ + convo_id + ") "@ + "\n"@,
        );
        assert(lines.drop_last() =~= prev);
        lines.drop_last().lemma_flatten_push(lines.last());
        assert(lines.drop_last().push(lines.last()) =~= lines);
    }
}

/// The participant a conversation listing names is the first one who is not the
/// bot's own account; there is none only when every participant is that account.
pub proof fn lemma_other_participant_is_first(ps: Seq<ParticipantModel>)
    ensures
        match other_participant_from(ps, 0) {
            Some(p) => exists|j: int|
                0 <= j < ps.len() && #[trigger] ps[j] == p && p.username != OWN_USERNAME@ && forall|
                    i: int,
                | 0 <= i < j ==> ps[i].username == OWN_USERNAME@,
            None => forall|i: int| 0 <= i < ps.len() ==> ps[i].username == OWN_USERNAME@,
        },
{
    lemma_other_participant_from(ps, 0);
}

proof fn lemma_other_participant_from(ps: Seq<ParticipantModel>, start: int)
    requires
        0 <= start,
    ensures
        match other_participant_from(ps, start) {
            Some(p) => exists|j: int|
                start <= j < ps.len() && #[trigger] ps[j] == p && p.username != OWN_USERNAME@
                    && forall|i: int| start <= i < j ==> ps[i].username == OWN_USERNAME@,
            None => forall|i: int| start <= i < ps.len() ==> ps[i].username == OWN_USERNAME@,
        },
    decreases ps.len() - start,
{
    if start < ps.len() {
        lemma_other_participant_from(ps, start + 1);
        if ps[start].username != OWN_USERNAME@ {
            assert(ps[start] == ps[start]);
        } else {
            match other_participant_from(ps, start + 1) {
                Some(p) => {
                    let j = choose|j: int|
                        start + 1 <= j < ps.len() && #[trigger] ps[j] == p && p.username
                            != OWN_USERNAME@ && forall|i: int|
                            start + 1 <= i < j ==> ps[i].username == OWN_USERNAME@;
                    assert(forall|i: int| start <= i < j ==> ps[i].username == OWN_USERNAME@);
                },
                None => {},
            }
        }
    }
}

/// The conversation listing is one line per conversation, in order: the k-th names
/// the first participant of the k-th conversation who is not the bot's own account,
/// as "{username}: ({id}, {convo_id}) ", or is empty when there is none; each line
/// ends with a line break.
pub proof fn lemma_convo_list_one_line_per_convo(cs: Seq<ConvoModel>)
    ensures
        convo_list_text_spec(cs) == Seq::new(
            cs.len(),
            |k: int|
                match other_participant_from(cs[k].participants, 0) {
                    Some(p) => p.username + ": ("@ + p.id + ", "@ + cs[k].id + ") "@,
                    None => Seq::<char>::empty(),
                } + "\n"@,
        ).flatten(),
    decreases cs.len(),
{
    let lines = Seq::new(
        cs.len(),
        |k: int|
            match other_participant_from(cs[k].participants, 0) {
                Some(p) => p.username + ": ("@ + p.id + ", "@ + cs[k].id + ") "@,
                None => Seq::<char>::empty(),
            } + "\n"@,
    );
    if cs.len() == 0 {
        assert(lines =~= Seq::<Seq<char>>::empty());
    } else {
        let prefix = cs.drop_last();
        lemma_convo_list_one_line_per_convo(prefix);
        let prev = Seq::new(
            prefix.len(),
            |k: int|
                match other_participant_from(prefix[k].participants, 0) {
                    Some(p) => p.username + ": ("@ + p.id + ", "@ + prefix[k].id + ") "@,
                    None => Seq::<char>::empty(),
                } + "\n"@,
        );
        assert(lines.drop_last() =~= prev);
        lines.drop_last().lemma_flatten_push(lines.last());
        assert(lines.drop_last().push(lines.last()) =~= lines);
    }
}

/// Setup deletes exactly the channels not named like the moderation channel: an
/// id is deleted when, and only when, some channel with that id has another name.
pub proof fn lemma_only_moderation_channel_kept(channels: Seq<(u64, String)>, id: u64)
    ensures
        channels_to_delete_spec(channels).contains(id) <==> exists|i: int|
            0 <= i < channels.len() && #[trigger] channels[i].0 == id && channels[i].1@
                != DISCORD_MOD_CHANNEL_NAME@,
    decreases channels.len(),
{
    if channels.len() > 0 {
        let prefix = channels.drop_last();
        lemma_only_moderation_channel_kept(prefix, id);
        let last = channels.len() - 1;
        let rest = channels_to_delete_spec(prefix);
        let r = channels_to_delete_spec(channels);
        let kept = channels[last].1@ == DISCORD_MOD_CHANNEL_NAME@;
        assert(kept ==> r == rest);
        assert(!kept ==> r == rest.push(channels[last].0));
        if r.contains(id) {
            let j = choose|j: int| 0 <= j < r.len() && r[j] == id;
            if j < rest.len() {
                assert(rest[j] == id);
                assert(rest.contains(id));
                let i = choose|i: int|
                    0 <= i < prefix.len() && #[trigger] prefix[i].0 == id && prefix[i].1@
                        != DISCORD_MOD_CHANNEL_NAME@;
                assert(channels[i] == prefix[i]);
            } else {
                assert(channels[last].0 == id);
            }
        }
        if exists|i: int|
            0 <= i < channels.len() && #[trigger] channels[i].0 == id && channels[i].1@
                != DISCORD_MOD_CHANNEL_NAME@ {
            let i = choose|i: int|
                0 <= i < channels.len() && #[trigger] channels[i].0 == id && channels[i].1@
                    != DISCORD_MOD_CHANNEL_NAME@;
            if i < last {
                assert(prefix[i] == channels[i]);
                assert(rest.contains(id));
                let j = choose|j: int| 0 <= j < rest.len() && rest[j] == id;
                assert(r[j] == id);
            } else {
                assert(r[rest.len() as int] == id);
            }
        }
    }
}

/// One participant's line, without its line break.
fn participant_line_text(p: &ConvoParticipant, convo_id: &String) -> (r: String)
    ensures
        r@ == participant_line(p@, convo_id@),
{
    let mut r = joined(p.username.as_str(), ": (");
    r.append(p.id.as_str());
    r.append(", ");
    r.append(convo_id.as_str());
    r.append(") ");
    r
}

/// The guild the bot was set up in: the first it is installed in.
pub fn first_guild(guilds: &Vec<u64>) -> (r: Result<u64, Error>)
    ensures
        guilds@.len() > 0 ==> r == Ok::<u64, Error>(guilds@[0]),
        guilds@.len() == 0 ==> (r matches Err(Error::SerenityError(m)) && m@
            == "Bot is not installed in any guilds"@),
{
    if guilds.len() > 0 {
        Ok(guilds[0])
    } else {
        Err(Error::SerenityError(String::from_str("Bot is not installed in any guilds")))
    }
}

/// The channels (id and name) that setup deletes: every one but the moderation channel.
pub fn channels_to_delete(channels: &Vec<(u64, String)>) -> (r: Vec<u64>)
    ensures
        r@ == channels_to_delete_spec(channels@),
{
    let mod_name = String::from_str(DISCORD_MOD_CHANNEL_NAME);
    let mut r: Vec<u64> = Vec::new();
    let mut i: usize = 0;
    assert(channels@.take(0) =~= Seq::<(u64, String)>::empty());
    while i < channels.len()
        invariant
            i <= channels.len(),
            mod_name@ == DISCORD_MOD_CHANNEL_NAME@,
            r@ == channels_to_delete_spec(channels@.take(i as int)),
        decreases channels.len() - i,
    {
        proof {
            assert(channels@.take(i + 1).drop_last() =~= channels@.take(i as int));
            assert(channels@.take(i + 1).last() == channels@[i as int]);
        }
        if channels[i].1 != mod_name {
            r.push(channels[i].0);
        }
        i = i + 1;
    }
    assert(channels@.take(channels@.len() as int) =~= channels@);
    r
}

/// The text posted in a conversation's new channel: `{username}: ({id}, {convo_id}) `
/// and a line break for each participant.
pub fn convo_channel_text(convo: &Convo) -> (r: String)
    ensures
        r@ == convo_channel_text_spec(convo@.participants, convo@.id),
        r@ == Seq::new(
            convo@.participants.len(),
            |k: int|
                convo@.participants[k].username + ": ("@ + convo@.participants[k].id + ", "@
                    + convo@.id + ") "@ + "\n"@,
        ).flatten(),
{
    proof {
        lemma_channel_text_one_line_per_participant(convo@.participants, convo@.id);
    }
    let ps = &convo.participants;
    let mut r = String::new();
    let mut i: usize = 0;
    let ghost view = participants_view(ps@);
    assert(view.take(0) =~= Seq::<ParticipantModel>::empty());
    while i < ps.len()
        invariant
            i <= ps.len(),
            view == participants_view(ps@),
            view.len() == ps@.len(),
            r@ == convo_channel_text_spec(view.take(i as int), convo.id@),
        decreases ps.len() - i,
    {
        proof {
            assert(view.take(i + 1).drop_last() =~= view.take(i as int));
            assert(view.take(i + 1).last() == ps@[i as int]@);
        }
        let line = participant_line_text(&ps[i], &convo.id);
        r.append(line.as_str());
        r.append("\n");
        i = i + 1;
    }
    assert(view.take(view.len() as int) =~= view);
    r
}

/// The first participant other than the bot's own account.
fn other_participant(ps: &Vec<ConvoParticipant>) -> (r: Option<&ConvoParticipant>)
    ensures
        match r {
            Some(p) => other_participant_from(participants_view(ps@), 0) == Some(p@),
            None => other_participant_from(participants_view(ps@), 0) is None,
        },
{
    let own = String::from_str(OWN_USERNAME);
    let ghost view = participants_view(ps@);
    let mut i: usize = 0;
    while i < ps.len()
        invariant
            i <= ps.len(),
            own@ == OWN_USERNAME@,
            view == participants_view(ps@),
            other_participant_from(view, 0) == other_participant_from(view, i as int),
        decreases ps.len() - i,
    {
        assert(view[i as int] == ps@[i as int]@);
        if ps[i].username != own {
            return Some(&ps[i]);
        }
        i = i + 1;
    }
    None
}

/// The conversation listing the bot answers with: for each conversation, the first
/// participant other than the bot's own account, then a line break.
pub fn convo_list_text(convos: &Vec<Convo>) -> (r: String)
    ensures
        r@ == convo_list_text_spec(convos_view(convos@)),
        r@ == Seq::new(
            convos@.len(),
            |k: int|
                match other_participant_from(convos@[k]@.participants, 0) {
                    Some(p) => p.username + ": ("@ + p.id + ", "@ + convos@[k]@.id + ") "@,
                    None => Seq::<char>::empty(),
                } + "\n"@,
        ).flatten(),
{
    proof {
        lemma_convo_list_one_line_per_convo(convos_view(convos@));
        assert(Seq::new(
            convos@.len(),
            |k: int|
                match other_participant_from(convos@[k]@.participants, 0) {
                    Some(p) => p.username + ": ("@ + p.id + ", "@ + convos@[k]@.id + ") "@,
                    None => Seq::<char>::empty(),
                } + "\n"@,
        ) =~= Seq::new(
            convos_view(convos@).len(),
            |k: int|
                match other_participant_from(convos_view(convos@)[k].participants, 0) {
                    Some(p) => p.username + ": ("@ + p.id + ", "@ + convos_view(convos@)[k].id + ") "@,
                    None => Seq::<char>::empty(),
                } + "\n"@,
        ));
    }
    let mut r = String::new();
    let mut i: usize = 0;
    let ghost view = convos_view(convos@);
    assert(view.take(0) =~= Seq::<ConvoModel>::empty());
    while i < convos.len()
        invariant
            i <= convos.len(),
            view == convos_view(convos@),
            view.len() == convos@.len(),
            r@ == convo_list_text_spec(view.take(i as int)),
        decreases convos.len() - i,
    {
        proof {
            assert(view.take(i + 1).drop_last() =~= view.take(i as int));
            assert(view.take(i + 1).last() == convos@[i as int]@);
        }
        let c = &convos[i];
        match other_participant(&c.participants) {
            Some(p) => {
                let line = participant_line_text(p, &c.id);
                r.append(line.as_str());
            },
            None => {},
        }
        r.append("\n");
        i = i + 1;
    }
    assert(view.take(view.len() as int) =~= view);
    r
}

} // verus!
