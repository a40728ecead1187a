//! What holds of the media players, whatever comes and goes on the bus.

use vstd::prelude::*;

use crate::lists::{lemma_filter_add, lemma_filter_all, lemma_filter_members, lemma_filter_shorter};
use crate::media::{
    cancel_effects, claimed, consistent, discoverable, dispatch_effects, dispatches,
    dispatches_all, init_step, is_ignored, is_live, is_player_name, is_published,
    law_published_is_listed_last, law_removed_player_is_gone, lemma_dispatch_is_consistent,
    lemma_without_player, lists, name_change, owner_of, publishes, removes, without_player,
};
use crate::media::{
    InitEvent, InitStep, ListedPlayer, ListedView, MediaEffectView, MediaView, NameChange,
};
use crate::text::has_text;

verus! {

/// After every publication the active player is what the selection gives on the list as it
/// is then, whichever player was active before.
pub proof fn law_publication_selects_on_the_new_list<
    F: Fn(&Vec<ListedPlayer>) -> Option<ListedPlayer>,
>(select: F, before: MediaView, id: Seq<char>, generation: u64, after: MediaView)
    requires
        publishes(select, before, id, generation, after),
    ensures
        exists|l: Vec<ListedPlayer>, best: Option<ListedPlayer>|
            l.deep_view() == after.player_list && best.deep_view() == after.active_player
                && #[trigger] call_ensures(select, (&l,), best),
{
}

/// A selection that always prefers a player when it is listed makes it the active player as
/// soon as it is published.
pub proof fn law_preferred_player_becomes_active<
    F: Fn(&Vec<ListedPlayer>) -> Option<ListedPlayer>,
>(select: F, before: MediaView, id: Seq<char>, generation: u64, after: MediaView)
    requires
        consistent(before),
        is_live(before, id, generation),
        publishes(select, before, id, generation, after),
        forall|l: Vec<ListedPlayer>, best: Option<ListedPlayer>| #[trigger]
            call_ensures(select, (&l,), best) && l.deep_view().contains(
                ListedView { id, generation },
            ) ==> best.deep_view() == Some(ListedView { id, generation }),
    ensures
        after.active_player == Some(ListedView { id, generation }),
{
    law_published_is_listed_last(select, before, id, generation, after);
    let (l, best) = choose|l: Vec<ListedPlayer>, best: Option<ListedPlayer>|
        l.deep_view() == after.player_list && best.deep_view() == after.active_player
            && #[trigger] call_ensures(select, (&l,), best);
    assert(after.player_list[after.player_list.len() - 1] == ListedView { id, generation });
    assert(l.deep_view().contains(ListedView { id, generation }));
}

/// A publication changes nothing but the published player's slot, its place in the list and
/// the active player: no generation starts or ends, and no other slot changes.
pub proof fn law_publication_touches_nothing_else<
    F: Fn(&Vec<ListedPlayer>) -> Option<ListedPlayer>,
>(
    select: F,
    before: MediaView,
    id: Seq<char>,
    generation: u64,
    after: MediaView,
    other: Seq<char>,
)
    requires
        publishes(select, before, id, generation, after),
    ensures
        after.tokens == before.tokens,
        after.next_generation == before.next_generation,
        after.players.contains_key(id),
        after.players[id].published,
        after.players[id].generation.number == generation,
        other != id ==> after.players.contains_key(other) == before.players.contains_key(other),
        other != id && before.players.contains_key(other) ==> after.players[other]
            == before.players[other],
        after.player_list.len() > 0,
        after.player_list.last() == (ListedView { id, generation }),
        forall|i: int|
            0 <= i < before.player_list.len() && (#[trigger] before.player_list[i]).id != id
                ==> after.player_list.contains(before.player_list[i]),
        forall|i: int|
            0 <= i < after.player_list.len() - 1 ==> before.player_list.contains(
                #[trigger] after.player_list[i],
            ) && after.player_list[i].id != id,
{
    let rest = without_player(before.player_list, id);
    let pred = |p: ListedView| p.id != id;
    lemma_filter_members(before.player_list, pred);
    lemma_without_player(before.player_list, id);
    assert forall|i: int|
        0 <= i < before.player_list.len() && (
        #[trigger] before.player_list[i]).id != id implies after.player_list.contains(
        before.player_list[i],
    ) by {
        assert(pred(before.player_list[i]));
        assert(rest.contains(before.player_list[i]));
        let j = choose|j: int| 0 <= j < rest.len() && rest[j] == before.player_list[i];
        assert(after.player_list[j] == rest[j]);
    }
    assert forall|i: int| 0 <= i < after.player_list.len() - 1 implies before.player_list.contains(
        #[trigger] after.player_list[i],
    ) && after.player_list[i].id != id by {
        assert(after.player_list[i] == rest[i]);
        assert(pred(rest[i]));
    }
}

/// Players leave the list entry by entry: of two parts, what is left is what is left of the
/// first and then of the second, and an entry goes exactly if it is the player's. So no
/// other player is lost, moved or changed.
pub proof fn law_players_leave_one_by_one(
    a: Seq<ListedView>,
    b: Seq<ListedView>,
    p: ListedView,
    id: Seq<char>,
)
    ensures
        without_player(a + b, id) == without_player(a, id) + without_player(b, id),
        p.id == id ==> without_player(seq![p], id).len() == 0,
        p.id != id ==> without_player(seq![p], id) == seq![p],
        without_player(seq![], id).len() == 0,
{
    let pred = |p: ListedView| p.id != id;
    lemma_filter_add(a, b, pred);
    lemma_filter_shorter(seq![p], pred);
    lemma_filter_shorter(Seq::<ListedView>::empty(), pred);
    if p.id != id {
        lemma_filter_all(seq![p], pred);
    } else {
        assert(!pred(seq![p][0]));
    }
}

/// Taking a player out changes the active player only if it was the one, and then to what
/// the selection gives on the list that is left. Every other slot and generation stays.
pub proof fn law_removal_selects_only_when_the_active_player_left<
    F: Fn(&Vec<ListedPlayer>) -> Option<ListedPlayer>,
>(
    select: F,
    before: MediaView,
    id: Seq<char>,
    after: MediaView,
    other: Seq<char>,
    generation: u64,
)
    requires
        consistent(before),
        removes(select, before, id, after),
    ensures
        !lists(before.player_list, id) ==> after.active_player == before.active_player,
        (before.active_player matches Some(active) ==> active.id != id) ==> after.active_player
            == before.active_player,
        lists(before.player_list, id) && (before.active_player matches Some(active) && active.id
            == id) ==> exists|l: Vec<ListedPlayer>, best: Option<ListedPlayer>|
            l.deep_view() == after.player_list && best.deep_view() == after.active_player
                && #[trigger] call_ensures(select, (&l,), best),
        !after.players.contains_key(id),
        other != id ==> after.players.contains_key(other) == before.players.contains_key(other),
        other != id && before.players.contains_key(other) ==> after.players[other]
            == before.players[other],
        after.tokens.contains_key(generation) == (before.tokens.contains_key(generation)
            && before.tokens[generation] != id),
        after.tokens.contains_key(generation) ==> after.tokens[generation]
            == before.tokens[generation],
        after.next_generation == before.next_generation,
        !before.players.contains_key(id) ==> after == before,
{
    law_removed_player_is_gone(select, before, id, after, generation, other);
    if lists(before.player_list, id) {
        let i = choose|i: int|
            0 <= i < before.player_list.len() && (#[trigger] before.player_list[i]).id == id;
        assert(before.players.contains_key(before.player_list[i].id));
    }
    if before.players.contains_key(id) {
        let owner = before.players[id].generation@;
        assert(is_live(before, id, owner));
        if before.tokens.contains_key(generation) && before.tokens[generation] == id {
            assert(before.players[before.tokens[generation]].generation@ == generation);
        }
    } else if before.tokens.contains_key(generation) {
        assert(before.players.contains_key(before.tokens[generation]));
    }
}

/// Dispatching a player starts exactly one generation, for that player, under a number that
/// was never used; the player is not listed. Every other player keeps its slot, its place
/// in the list and its generation. The active player stays unless it was the dispatched
/// one.
pub proof fn law_dispatch_starts_one_generation<
    F: Fn(&Vec<ListedPlayer>) -> Option<ListedPlayer>,
>(
    select: F,
    before: MediaView,
    id: Seq<char>,
    after: MediaView,
    other: Seq<char>,
    generation: u64,
)
    requires
        consistent(before),
        before.next_generation < u64::MAX,
        dispatches(select, before, id, after),
    ensures
        after.next_generation == before.next_generation + 1,
        !before.tokens.contains_key(before.next_generation),
        after.tokens.contains_key(before.next_generation),
        after.tokens[before.next_generation] == id,
        generation != before.next_generation ==> after.tokens.contains_key(generation) == (
        before.tokens.contains_key(generation) && before.tokens[generation] != id),
        after.players.contains_key(id),
        !after.players[id].published,
        after.players[id].generation.number == before.next_generation,
        other != id ==> after.players.contains_key(other) == before.players.contains_key(other),
        other != id && before.players.contains_key(other) ==> after.players[other]
            == before.players[other],
        !lists(after.player_list, id),
        other != id ==> lists(after.player_list, other) == lists(before.player_list, other),
        after.player_list == without_player(before.player_list, id),
        (before.active_player matches Some(active) ==> active.id != id) ==> after.active_player
            == before.active_player,
        lists(before.player_list, id) && (before.active_player matches Some(active) && active.id
            == id) ==> exists|l: Vec<ListedPlayer>, best: Option<ListedPlayer>|
            l.deep_view() == after.player_list && best.deep_view() == after.active_player
                && #[trigger] call_ensures(select, (&l,), best),
{
    let mid = choose|mid: MediaView| #[trigger]
        removes(select, before, id, mid) && after == claimed(mid, id);
    law_removal_selects_only_when_the_active_player_left(
        select,
        before,
        id,
        mid,
        other,
        generation,
    );
    law_removed_player_is_gone(select, before, id, mid, generation, other);
}

/// What is told to the outside agrees with what happens to the generations: when a player
/// is taken out, a generation is cancelled exactly if it ends, and nothing starts.
pub proof fn law_removal_cancels_what_ends<F: Fn(&Vec<ListedPlayer>) -> Option<ListedPlayer>>(
    select: F,
    before: MediaView,
    id: Seq<char>,
    after: MediaView,
    effect: MediaEffectView,
)
    requires
        consistent(before),
        removes(select, before, id, after),
    ensures
        cancel_effects(before, id).len() <= 1,
        effect matches MediaEffectView::Cancel(g) ==> cancel_effects(before, id).contains(effect)
            == (before.tokens.contains_key(g) && !after.tokens.contains_key(g)),
        effect is Start ==> !cancel_effects(before, id).contains(effect),
{
    let effects = cancel_effects(before, id);
    if effect is Cancel {
        let g = effect->Cancel_0;
        law_removal_selects_only_when_the_active_player_left(select, before, id, after, id, g);
        if before.tokens.contains_key(g) && before.tokens[g] == id {
            assert(before.players[before.tokens[g]].generation@ == g);
            assert(effects[0] == effect);
        }
        if effects.contains(effect) {
            assert(before.players.contains_key(id));
            assert(is_live(before, id, before.players[id].generation@));
        }
    }
}

/// When a player is dispatched, a generation is cancelled exactly if it ends, before
/// anything starts, and exactly the generation that begins is started, for that player.
pub proof fn law_dispatch_tells_what_ends_and_begins<
    F: Fn(&Vec<ListedPlayer>) -> Option<ListedPlayer>,
>(select: F, before: MediaView, id: Seq<char>, after: MediaView, effect: MediaEffectView)
    requires
        consistent(before),
        before.next_generation < u64::MAX,
        dispatches(select, before, id, after),
    ensures
        effect matches MediaEffectView::Cancel(g) ==> dispatch_effects(before, id).contains(effect)
            == (before.tokens.contains_key(g) && !after.tokens.contains_key(g)),
        effect matches MediaEffectView::Start { player_id, generation } ==> dispatch_effects(
            before,
            id,
        ).contains(effect) == (player_id == id && !before.tokens.contains_key(generation)
            && after.tokens.contains_key(generation)),
        dispatch_effects(before, id).len() > 0,
        dispatch_effects(before, id).last() is Start,
        dispatch_effects(before, id).len() <= 2,
{
    let effects = dispatch_effects(before, id);
    let cancels = cancel_effects(before, id);
    let fresh = before.next_generation;
    let start = MediaEffectView::Start { player_id: id, generation: fresh };
    assert(effects[effects.len() - 1] == start);
    assert(effects.contains(start));
    match effect {
        MediaEffectView::Cancel(g) => {
            law_dispatch_starts_one_generation(select, before, id, after, id, g);
            if before.tokens.contains_key(g) && before.tokens[g] == id {
                assert(before.players[before.tokens[g]].generation@ == g);
                assert(effects[0] == effect);
            }
            if effects.contains(effect) {
                assert(cancels.contains(effect));
                assert(before.players.contains_key(id));
                assert(is_live(before, id, before.players[id].generation@));
                assert(before.tokens.contains_key(g));
            }
        },
        MediaEffectView::Start { player_id, generation } => {
            law_dispatch_starts_one_generation(select, before, id, after, id, generation);
        },
    }
}

/// A bus name is a player's exactly if it is the prefix of all players' names and then
/// anything.
pub proof fn law_player_names_have_the_prefix(name: Seq<char>, rest: Seq<char>)
    ensures
        is_player_name("org.mpris.MediaPlayer2."@ + rest),
        is_player_name(name) ==> exists|tail: Seq<char>|
            name == #[trigger] ("org.mpris.MediaPlayer2."@ + tail),
{
    let prefix = "org.mpris.MediaPlayer2."@;
    assert((prefix + rest).take(prefix.len() as int) =~= prefix);
    if is_player_name(name) {
        assert(name =~= prefix + name.skip(prefix.len() as int));
    }
}

/// A name is ignored exactly if some pattern stands in it, with anything around it.
pub proof fn law_a_pattern_anywhere_ignores(
    patterns: Seq<Seq<char>>,
    at: int,
    head: Seq<char>,
    tail: Seq<char>,
    name: Seq<char>,
)
    ensures
        0 <= at < patterns.len() ==> is_ignored(head + patterns[at] + tail, patterns),
        is_ignored(name, patterns) ==> exists|i: int, a: Seq<char>, b: Seq<char>|
            0 <= i < patterns.len() && name == #[trigger] (a + patterns[i] + b),
        patterns.len() == 0 ==> !is_ignored(name, patterns),
{
    if 0 <= at < patterns.len() {
        let whole = head + patterns[at] + tail;
        let n = head.len() as int;
        assert(whole.subrange(n, n + patterns[at].len()) =~= patterns[at]);
        assert(has_text(whole, patterns[at]));
    }
    if is_ignored(name, patterns) {
        let i = choose|i: int| 0 <= i < patterns.len() && has_text(name, #[trigger] patterns[i]);
        let needle = patterns[i];
        let k = choose|k: int|
            0 <= k && k + needle.len() <= name.len() && #[trigger] name.subrange(
                k,
                k + needle.len(),
            ) == needle;
        let a = name.take(k);
        let b = name.skip(k + needle.len());
        assert(name =~= a + patterns[i] + b);
    }
}

/// What a change of a name's owner means. A name that is no player's means nothing. A
/// player that lost its owner always leaves, ignored or not. A name with an owner arrives,
/// also if it had another owner before, unless it is ignored; an ignored one never arrives,
/// but leaves if it had an owner.
pub proof fn law_owner_changes(
    name: Seq<char>,
    had_owner: bool,
    has_owner: bool,
    ignored: Seq<Seq<char>>,
)
    ensures
        !is_player_name(name) ==> name_change(name, had_owner, has_owner, ignored) is Nothing,
        is_player_name(name) && had_owner ==> name_change(name, true, false, ignored) is Leaves,
        is_player_name(name) && !is_ignored(name, ignored) ==> name_change(
            name,
            had_owner,
            true,
            ignored,
        ) is Arrives,
        is_player_name(name) && is_ignored(name, ignored) ==> name_change(
            name,
            true,
            has_owner,
            ignored,
        ) is Leaves,
        is_ignored(name, ignored) ==> !(name_change(name, had_owner, has_owner, ignored) is Arrives),
        is_ignored(name, ignored) ==> name_change(name, false, has_owner, ignored) is Nothing,
        name_change(name, false, false, ignored) is Nothing,
{
}

/// Discovery finds every player among the names that is not ignored, and nothing else, in
/// the order of the names: of two parts, those of the first and then those of the second.
pub proof fn law_discovery_finds_every_player(
    a: Seq<Seq<char>>,
    b: Seq<Seq<char>>,
    ignored: Seq<Seq<char>>,
    name: Seq<char>,
)
    ensures
        discoverable(a + b, ignored) == discoverable(a, ignored) + discoverable(b, ignored),
        is_player_name(name) && !is_ignored(name, ignored) ==> discoverable(seq![name], ignored)
            == seq![name],
        !(is_player_name(name) && !is_ignored(name, ignored)) ==> discoverable(
            seq![name],
            ignored,
        ).len() == 0,
        discoverable(a, ignored).contains(name) == (a.contains(name) && is_player_name(name)
            && !is_ignored(name, ignored)),
{
    let pred = |name: Seq<char>| is_player_name(name) && !is_ignored(name, ignored);
    lemma_filter_add(a, b, pred);
    lemma_filter_members(a, pred);
    lemma_filter_shorter(seq![name], pred);
    if pred(name) {
        lemma_filter_all(seq![name], pred);
    } else {
        assert(!pred(seq![name][0]));
    }
    if a.contains(name) && pred(name) {
        let i = choose|i: int| 0 <= i < a.len() && a[i] == name;
        assert(pred(a[i]));
    }
    let found = a.filter(pred);
    if found.contains(name) {
        let i = choose|i: int| 0 <= i < found.len() && found[i] == name;
        assert(pred(found[i]));
    }
}

/// The players that some effects start, in their order.
pub open spec fn started_by(effects: Seq<MediaEffectView>) -> Seq<Seq<char>>
    decreases effects.len(),
{
    if effects.len() == 0 {
        seq![]
    } else {
        match effects.last() {
            MediaEffectView::Start { player_id, generation } => started_by(
                effects.drop_last(),
            ).push(player_id),
            _ => started_by(effects.drop_last()),
        }
    }
}

/// Dispatching some players starts each of them, in their order and nothing else; each is
/// then waited for and not yet listed. A player that is not among them keeps its slot and
/// its place in the list.
pub proof fn law_every_dispatched_player_starts<
    F: Fn(&Vec<ListedPlayer>) -> Option<ListedPlayer>,
>(
    select: F,
    before: MediaView,
    ids: Seq<Seq<char>>,
    after: MediaView,
    effects: Seq<MediaEffectView>,
    other: Seq<char>,
)
    requires
        consistent(before),
        before.next_generation + ids.len() <= u64::MAX,
        dispatches_all(select, before, ids, after, effects),
    ensures
        consistent(after),
        started_by(effects) == ids,
        after.next_generation == before.next_generation + ids.len(),
        ids.contains(other) ==> after.players.contains_key(other)
            && !after.players[other].published && !lists(after.player_list, other),
        !ids.contains(other) ==> after.players.contains_key(other) == before.players.contains_key(
            other,
        ) && lists(after.player_list, other) == lists(before.player_list, other),
        !ids.contains(other) && before.players.contains_key(other) ==> after.players[other]
            == before.players[other],
    decreases ids.len(),
{
    if ids.len() == 0 {
        assert(started_by(effects) =~= ids);
    } else {
        let front = ids.drop_last();
        let last = ids.last();
        let (mid, first) = choose|mid: MediaView, first: Seq<MediaEffectView>|
            #![trigger dispatches(select, mid, ids.last(), after),
                first + dispatch_effects(mid, ids.last())]
            dispatches_all(select, before, ids.drop_last(), mid, first) && dispatches(
                select,
                mid,
                ids.last(),
                after,
            ) && effects == first + dispatch_effects(mid, ids.last());
        law_every_dispatched_player_starts(select, before, front, mid, first, other);
        lemma_dispatch_is_consistent(select, mid, last, after);
        law_dispatch_starts_one_generation(select, mid, last, after, other, 0);
        lemma_started_add(first, cancel_effects(mid, last));
        let start = MediaEffectView::Start { player_id: last, generation: mid.next_generation };
        let told = first + cancel_effects(mid, last);
        assert(effects =~= told.push(start));
        assert(effects.drop_last() =~= told);
        lemma_no_start(mid, last);
        assert(started_by(told) =~= front);
        assert(started_by(effects) =~= ids);
        if ids.contains(other) {
            let i = choose|i: int| 0 <= i < ids.len() && ids[i] == other;
            if i < front.len() {
                assert(front[i] == other);
            }
        } else {
            if front.contains(other) {
                let i = choose|i: int| 0 <= i < front.len() && front[i] == other;
                assert(ids[i] == other);
            }
            assert(ids[ids.len() - 1] == last);
        }
    }
}

proof fn lemma_started_add(a: Seq<MediaEffectView>, b: Seq<MediaEffectView>)
    ensures
        started_by(a + b) == started_by(a) + started_by(b),
    decreases b.len(),
{
    if b.len() == 0 {
        assert(a + b =~= a);
        assert(started_by(a) + started_by(b) =~= started_by(a));
    } else {
        lemma_started_add(a, b.drop_last());
        assert((a + b).drop_last() =~= a + b.drop_last());
        assert(started_by(a + b) =~= started_by(a) + started_by(b));
    }
}

proof fn lemma_no_start(state: MediaView, id: Seq<char>)
    ensures
        started_by(cancel_effects(state, id)) == Seq::<Seq<char>>::empty(),
{
    let effects = cancel_effects(state, id);
    reveal_with_fuel(started_by, 2);
    if effects.len() > 0 {
        assert(effects.drop_last() =~= Seq::<MediaEffectView>::empty());
    }
    assert(started_by(effects) =~= Seq::<Seq<char>>::empty());
}

/// A player that answers is published however long it took, one that fails is given up, and
/// a cancelled one is dropped; waiting goes on past the deadline, which is told of the
/// first time.
pub proof fn law_initialization_ends_with_the_player(fired: bool)
    ensures
        init_step(fired, InitEvent::Answered) == InitStep::Publish,
        init_step(fired, InitEvent::Failed) == InitStep::Discard,
        init_step(fired, InitEvent::Cancelled) == InitStep::Stop,
        init_step(false, InitEvent::DeadlinePassed) == InitStep::Warn,
        init_step(true, InitEvent::DeadlinePassed) == InitStep::Wait,
{
}

/// A generation of a player is published exactly if the list has it, under that generation.
pub proof fn law_published_is_listed(state: MediaView, id: Seq<char>, generation: u64)
    requires
        consistent(state),
    ensures
        is_published(state, id, generation) == state.player_list.contains(
            ListedView { id, generation },
        ),
{
    let list = state.player_list;
    let shown = ListedView { id, generation };
    if is_published(state, id, generation) {
        assert(lists(list, id));
        let i = choose|i: int| 0 <= i < list.len() && (#[trigger] list[i]).id == id;
        assert(state.players[list[i].id].generation@ == list[i].generation);
        assert(list[i] == shown);
    }
    if list.contains(shown) {
        let i = choose|i: int| 0 <= i < list.len() && list[i] == shown;
        assert(state.players.contains_key(list[i].id));
    }
}

/// A generation is live for a player exactly if it is not cancelled and was started for
/// that player; a slot's owner is the generation in the slot.
pub proof fn law_live_generations_are_uncancelled(state: MediaView, id: Seq<char>, generation: u64)
    ensures
        !state.tokens.contains_key(generation) ==> !is_live(state, id, generation),
        state.tokens.contains_key(generation) ==> is_live(state, id, generation) == (
        state.tokens[generation] == id),
        owner_of(state, id) is Some == state.players.contains_key(id),
        state.players.contains_key(id) ==> owner_of(state, id) == Some(
            state.players[id].generation,
        ),
{
}

} // verus!
