//! Discovery of media players: which bus names are players, who owns a player's slot, and
//! which players are listed.
//!
//! Every owner of a player's bus name gets a generation. A generation that is superseded,
//! removed or fails is cancelled; one that is not cancelled owns the slot of its player.

use vstd::prelude::*;

use crate::assoc::{AssocMap, MapKey};
use crate::lists::{lemma_filter_members, lemma_filter_step};
use crate::text::{begins_with, contains_text, has_text, strip_text_prefix};

verus! {

/// Prefix of the bus names of media players.
pub const MPRIS_BUS_PREFIX: &'static str = "org.mpris.MediaPlayer2.";

/// How many seconds a player may sit on its initial snapshot before a diagnostic is
/// logged. Log-only by design: behavior never depends on this deadline.
pub const INIT_WATCHDOG_SECONDS: u64 = 10;

/// Whether a bus name holds one of some patterns.
pub open spec fn is_ignored(bus_name: Seq<char>, patterns: Seq<Seq<char>>) -> bool {
    exists|i: int| 0 <= i < patterns.len() && has_text(bus_name, #[trigger] patterns[i])
}

/// Whether a bus name holds one of some patterns.
pub fn should_ignore(bus_name: &str, ignored_patterns: &[String]) -> (ignore: bool)
    ensures
        ignore == is_ignored(bus_name@, ignored_patterns.deep_view()),
{
    let ghost patterns = ignored_patterns.deep_view();
    let mut i: usize = 0;
    while i < ignored_patterns.len()
        invariant
            i <= ignored_patterns@.len(),
            patterns == ignored_patterns.deep_view(),
            forall|j: int| 0 <= j < i ==> !has_text(bus_name@, #[trigger] patterns[j]),
        decreases ignored_patterns@.len() - i,
    {
        assert(patterns[i as int] == ignored_patterns@[i as int]@);
        if contains_text(bus_name, ignored_patterns[i].as_str()) {
            return true;
        }
        i += 1;
    }
    false
}

/// Whether a bus name is that of a media player.
pub open spec fn is_player_name(bus_name: Seq<char>) -> bool {
    begins_with(bus_name, MPRIS_BUS_PREFIX@)
}

fn names_player(bus_name: &str) -> (yes: bool)
    ensures
        yes == is_player_name(bus_name@),
{
    strip_text_prefix(bus_name, MPRIS_BUS_PREFIX).is_some()
}

/// A media player, by its bus name.
#[derive(Debug)]
pub struct PlayerId {
    bus_name: String,
}

impl View for PlayerId {
    type V = Seq<char>;

    closed spec fn view(&self) -> Seq<char> {
        self.bus_name@
    }
}

impl MapKey for PlayerId {
    fn same_key(&self, other: &Self) -> (same: bool) {
        self.bus_name == other.bus_name
    }
}

impl PlayerId {
    /// The player of a bus name.
    pub fn from_bus_name(bus_name: &str) -> (id: PlayerId)
        ensures
            id@ == bus_name@,
    {
        PlayerId { bus_name: bus_name.to_owned() }
    }

    /// The bus name of the player.
    pub fn bus_name(&self) -> (bus_name: &str)
        ensures
            bus_name@ == self@,
    {
        self.bus_name.as_str()
    }
}

impl Clone for PlayerId {
    fn clone(&self) -> (copy: Self)
        ensures
            copy@ == self@,
    {
        PlayerId { bus_name: self.bus_name.clone() }
    }
}

/// One owner of a player's bus name.
#[derive(Debug, Clone, Copy, PartialEq, Eq, Structural)]
pub struct Generation {
    /// Its number.
    pub number: u64,
}

impl View for Generation {
    type V = u64;

    open spec fn view(&self) -> u64 {
        self.number
    }
}

impl MapKey for Generation {
    fn same_key(&self, other: &Self) -> (same: bool) {
        self.number == other.number
    }
}

/// The slot of a player.
#[derive(Debug, Clone, Copy, PartialEq, Eq, Structural)]
pub struct PlayerSlot {
    /// The generation that owns the slot.
    pub generation: Generation,
    /// Whether the player is listed.
    pub published: bool,
}

/// A listed player.
#[derive(Debug)]
pub struct ListedPlayer {
    /// The player.
    pub id: PlayerId,
    /// The generation that was published.
    pub generation: Generation,
}

/// What a [`ListedPlayer`] denotes.
pub struct ListedView {
    /// The player.
    pub id: Seq<char>,
    /// The generation that was published.
    pub generation: u64,
}

impl View for ListedPlayer {
    type V = ListedView;

    open spec fn view(&self) -> ListedView {
        ListedView { id: self.id@, generation: self.generation@ }
    }
}

impl DeepView for ListedPlayer {
    type V = ListedView;

    open spec fn deep_view(&self) -> ListedView {
        self@
    }
}

impl Clone for ListedPlayer {
    fn clone(&self) -> (copy: Self)
        ensures
            copy@ == self@,
    {
        ListedPlayer { id: self.id.clone(), generation: self.generation }
    }
}

/// The players that are known.
pub struct MediaState {
    players: AssocMap<PlayerId, PlayerSlot>,
    tokens: AssocMap<Generation, PlayerId>,
    player_list: Vec<ListedPlayer>,
    active_player: Option<ListedPlayer>,
    next_generation: u64,
}

/// What a [`MediaState`] denotes.
pub struct MediaView {
    /// The slots, by player.
    pub players: Map<Seq<char>, PlayerSlot>,
    /// The generations that are not cancelled, and the player that each was started for.
    pub tokens: Map<u64, Seq<char>>,
    /// The listed players.
    pub player_list: Seq<ListedView>,
    /// The active player.
    pub active_player: Option<ListedView>,
    /// The number of generations that were started.
    pub next_generation: u64,
}

/// What the uncancelled generations denote.
pub open spec fn tokens_view(tokens: Map<u64, PlayerId>) -> Map<u64, Seq<char>> {
    tokens.map_values(|id: PlayerId| id@)
}

impl View for MediaState {
    type V = MediaView;

    closed spec fn view(&self) -> MediaView {
        MediaView {
            players: self.players@,
            tokens: tokens_view(self.tokens@),
            player_list: self.player_list.deep_view(),
            active_player: self.active_player.deep_view(),
            next_generation: self.next_generation,
        }
    }
}

/// Whether a player is listed.
pub open spec fn lists(list: Seq<ListedView>, id: Seq<char>) -> bool {
    exists|i: int| 0 <= i < list.len() && (#[trigger] list[i]).id == id
}

/// The list without a player.
pub open spec fn without_player(list: Seq<ListedView>, id: Seq<char>) -> Seq<ListedView> {
    list.filter(|p: ListedView| p.id != id)
}

/// Whether no player is listed twice.
pub open spec fn lists_once(list: Seq<ListedView>) -> bool {
    forall|i: int, j: int|
        0 <= i < j < list.len() ==> (#[trigger] list[i]).id != (#[trigger] list[j]).id
}

/// Whether a generation is not cancelled and was started for a player.
pub open spec fn is_live(state: MediaView, id: Seq<char>, generation: u64) -> bool {
    state.tokens.contains_key(generation) && state.tokens[generation] == id
}

/// Whether the slots, the generations and the list agree: a generation that is not
/// cancelled owns the slot of its player, a slot is owned by such a generation, and the
/// listed players are those whose slot says so.
pub open spec fn consistent(state: MediaView) -> bool {
    &&& forall|g: u64| #[trigger]
        state.tokens.contains_key(g) ==> g < state.next_generation && state.players.contains_key(
            state.tokens[g],
        ) && state.players[state.tokens[g]].generation@ == g
    &&& forall|id: Seq<char>| #[trigger]
        state.players.contains_key(id) ==> is_live(state, id, state.players[id].generation@)
    &&& lists_once(state.player_list)
    &&& forall|i: int|
        0 <= i < state.player_list.len() ==> {
            let p = #[trigger] state.player_list[i];
            &&& state.players.contains_key(p.id)
            &&& state.players[p.id].published
            &&& state.players[p.id].generation@ == p.generation
        }
    &&& forall|id: Seq<char>| #[trigger]
        state.players.contains_key(id) && state.players[id].published ==> lists(
            state.player_list,
            id,
        )
}

/// Whether a choice among the listed players came out as a player, or none.
pub open spec fn chosen<F: Fn(&Vec<ListedPlayer>) -> Option<ListedPlayer>>(
    select: F,
    list: Seq<ListedView>,
    best: Option<ListedView>,
) -> bool {
    exists|l: Vec<ListedPlayer>, b: Option<ListedPlayer>|
        l.deep_view() == list && b.deep_view() == best && #[trigger] call_ensures(select, (&l,), b)
}

/// Whether retracting a player came out as a list and an active player: the player leaves
/// the list, and the active player is chosen anew if it was the one.
pub open spec fn retracts<F: Fn(&Vec<ListedPlayer>) -> Option<ListedPlayer>>(
    select: F,
    before: MediaView,
    id: Seq<char>,
    list: Seq<ListedView>,
    active: Option<ListedView>,
) -> bool {
    &&& list == without_player(before.player_list, id)
    &&& if lists(before.player_list, id) && before.active_player is Some
        && before.active_player->0.id == id {
        chosen(select, list, active)
    } else {
        active == before.active_player
    }
}

/// Whether taking a player out came out as a state: its generation is cancelled, its slot
/// goes, and it is retracted if it was listed. Nothing changes for an unknown player.
pub open spec fn removes<F: Fn(&Vec<ListedPlayer>) -> Option<ListedPlayer>>(
    select: F,
    before: MediaView,
    id: Seq<char>,
    after: MediaView,
) -> bool {
    if before.players.contains_key(id) {
        let slot = before.players[id];
        &&& after.players == before.players.remove(id)
        &&& after.tokens == before.tokens.remove(slot.generation@)
        &&& after.next_generation == before.next_generation
        &&& if slot.published {
            retracts(select, before, id, after.player_list, after.active_player)
        } else {
            after.player_list == before.player_list && after.active_player == before.active_player
        }
    } else {
        after == before
    }
}

/// What a dispatched player starts from: the state after the previous generation of the
/// player was cancelled and retracted, with a new generation that owns the slot.
pub open spec fn claimed(state: MediaView, id: Seq<char>) -> MediaView {
    MediaView {
        players: state.players.insert(
            id,
            PlayerSlot {
                generation: Generation { number: state.next_generation },
                published: false,
            },
        ),
        tokens: state.tokens.insert(state.next_generation, id),
        next_generation: (state.next_generation + 1) as u64,
        ..state
    }
}

/// Whether dispatching a player came out as a state: the previous generation of the player
/// is taken out as by a removal, and a new generation claims the slot.
pub open spec fn dispatches<F: Fn(&Vec<ListedPlayer>) -> Option<ListedPlayer>>(
    select: F,
    before: MediaView,
    id: Seq<char>,
    after: MediaView,
) -> bool {
    exists|mid: MediaView| #[trigger]
        removes(select, before, id, mid) && after == claimed(mid, id)
}

/// The state after a player answered: it is listed last, and its slot says so.
pub open spec fn listed(state: MediaView, id: Seq<char>, generation: u64) -> MediaView {
    MediaView {
        players: state.players.insert(
            id,
            PlayerSlot { generation: Generation { number: generation }, published: true },
        ),
        player_list: without_player(state.player_list, id).push(ListedView { id, generation }),
        ..state
    }
}

/// Whether publishing a player came out as a state: the player is listed, and the active
/// player is chosen anew.
pub open spec fn publishes<F: Fn(&Vec<ListedPlayer>) -> Option<ListedPlayer>>(
    select: F,
    before: MediaView,
    id: Seq<char>,
    generation: u64,
    after: MediaView,
) -> bool {
    let next = listed(before, id, generation);
    &&& after == MediaView { active_player: after.active_player, ..next }
    &&& chosen(select, next.player_list, after.active_player)
}

/// The generation that owns the slot of a player.
pub open spec fn owner_of(state: MediaView, id: Seq<char>) -> Option<Generation> {
    if state.players.contains_key(id) {
        Some(state.players[id].generation)
    } else {
        None
    }
}

impl MediaState {
    /// No players.
    pub fn new() -> (state: MediaState)
        ensures
            consistent(state@),
            state@ == (MediaView {
                players: Map::empty(),
                tokens: Map::empty(),
                player_list: seq![],
                active_player: None,
                next_generation: 0,
            }),
    {
        let state = MediaState {
            players: AssocMap::new(),
            tokens: AssocMap::new(),
            player_list: Vec::new(),
            active_player: None,
            next_generation: 0,
        };
        assert(tokens_view(state.tokens@) =~= Map::<u64, Seq<char>>::empty());
        assert(state.player_list.deep_view() =~= seq![]);
        state
    }

    /// The listed players.
    pub fn player_list(&self) -> (list: &Vec<ListedPlayer>)
        ensures
            list.deep_view() == self@.player_list,
    {
        &self.player_list
    }

    /// The active player.
    pub fn active_player(&self) -> (active: &Option<ListedPlayer>)
        ensures
            active.deep_view() == self@.active_player,
    {
        &self.active_player
    }

    /// Whether a generation that was started for a player is cancelled.
    pub fn is_cancelled(&self, player_id: &PlayerId, generation: Generation) -> (cancelled: bool)
        ensures
            cancelled == !is_live(self@, player_id@, generation@),
    {
        match self.tokens.get(&generation) {
            Some(id) => !id.same_key(player_id),
            None => true,
        }
    }

    fn cancel(&mut self, generation: Generation)
        ensures
            final(self)@ == (MediaView {
                tokens: old(self)@.tokens.remove(generation@),
                ..old(self)@
            }),
    {
        let ghost before = self.tokens@;
        self.tokens.remove(&generation);
        assert(tokens_view(self.tokens@) =~= tokens_view(before).remove(generation@));
    }

    /// Retracts a player from the list, choosing the active player anew if it was the one
    /// removed.
    fn retract_player<F: Fn(&Vec<ListedPlayer>) -> Option<ListedPlayer>>(
        &mut self,
        player_id: &PlayerId,
        select: &F,
    )
        requires
            forall|l: Vec<ListedPlayer>| call_requires(*select, (&l,)),
        ensures
            final(self)@ == (MediaView {
                player_list: final(self)@.player_list,
                active_player: final(self)@.active_player,
                ..old(self)@
            }),
            retracts(
                *select,
                old(self)@,
                player_id@,
                final(self)@.player_list,
                final(self)@.active_player,
            ),
    {
        let ghost before = self.player_list.deep_view();
        let count: usize = self.player_list.len();
        drop_player(&mut self.player_list, player_id);
        proof {
            lemma_without_player(before, player_id@);
        }
        if self.player_list.len() == count {
            return;
        }
        let was_active = match &self.active_player {
            Some(current) => current.id.same_key(player_id),
            None => false,
        };
        if was_active {
            let best = select(&self.player_list);
            assert(call_ensures(*select, (&self.player_list,), best));
            self.active_player = best;
        }
    }

    /// Publishes a fully-initialized player on the list and chooses the active player anew.
    fn publish_player<F: Fn(&Vec<ListedPlayer>) -> Option<ListedPlayer>>(
        &mut self,
        player: ListedPlayer,
        select: &F,
    )
        requires
            forall|l: Vec<ListedPlayer>| call_requires(*select, (&l,)),
        ensures
            final(self)@ == (MediaView {
                player_list: without_player(old(self)@.player_list, player.id@).push(player@),
                active_player: final(self)@.active_player,
                ..old(self)@
            }),
            chosen(*select, final(self)@.player_list, final(self)@.active_player),
    {
        let ghost shown = player@;
        drop_player(&mut self.player_list, &player.id);
        let ghost rest = self.player_list.deep_view();
        self.player_list.push(player);
        assert(self.player_list.deep_view() =~= rest.push(shown));
        let best = select(&self.player_list);
        assert(call_ensures(*select, (&self.player_list,), best));
        self.active_player = best;
    }

    /// Removes a player whose bus name disappeared: cancels its generation, whether or not
    /// its initialization ever completed, and retracts it from the list. The result is the
    /// generation that was cancelled.
    pub fn handle_player_removed<F: Fn(&Vec<ListedPlayer>) -> Option<ListedPlayer>>(
        &mut self,
        player_id: &PlayerId,
        select: &F,
    ) -> (cancelled: Option<Generation>)
        requires
            consistent(old(self)@),
            forall|l: Vec<ListedPlayer>| call_requires(*select, (&l,)),
        ensures
            consistent(final(self)@),
            removes(*select, old(self)@, player_id@, final(self)@),
            cancelled == owner_of(old(self)@, player_id@),
    {
        let ghost before = self@;
        let slot = match self.players.remove(player_id) {
            Some(slot) => slot,
            None => {
                assert(self.players@ =~= before.players);
                return None;
            },
        };
        self.cancel(slot.generation);
        if slot.published {
            self.retract_player(player_id, select);
        }
        proof {
            lemma_removal_is_consistent(*select, before, player_id@, self@);
        }
        Some(slot.generation)
    }

    /// Claims a generation for a player. Any previous generation for the same player, be it
    /// listed or still initializing, is cancelled and retracted first. The result is the
    /// generation that was cancelled, if any, and the new one, whose initialization is to
    /// be started.
    pub fn dispatch_player_added<F: Fn(&Vec<ListedPlayer>) -> Option<ListedPlayer>>(
        &mut self,
        player_id: &PlayerId,
        select: &F,
    ) -> (generations: (Option<Generation>, Generation))
        requires
            consistent(old(self)@),
            old(self)@.next_generation < u64::MAX,
            forall|l: Vec<ListedPlayer>| call_requires(*select, (&l,)),
        ensures
            consistent(final(self)@),
            dispatches(*select, old(self)@, player_id@, final(self)@),
            generations.0 == owner_of(old(self)@, player_id@),
            generations.1@ == old(self)@.next_generation,
            final(self)@.next_generation == old(self)@.next_generation + 1,
            is_live(final(self)@, player_id@, generations.1@),
    {
        let cancelled = self.handle_player_removed(player_id, select);
        let ghost mid = self@;
        let generation = Generation { number: self.next_generation };
        self.next_generation = self.next_generation + 1;
        self.players.insert(player_id.clone(), PlayerSlot { generation, published: false });
        let ghost tokens = self.tokens@;
        let id = player_id.clone();
        self.tokens.insert(generation, id);
        proof {
            assert(tokens_view(self.tokens@) =~= tokens_view(tokens).insert(
                generation@,
                player_id@,
            ));
            lemma_claim_is_consistent(mid, player_id@);
        }
        (cancelled, generation)
    }

    /// What follows when a player answered its initial snapshot: it is published if its
    /// generation is not cancelled. Supersession and removal both cancel the generation
    /// before touching the slot, so one that is not cancelled still owns the slot.
    /// `shut_down` says that every generation is cancelled because the service stops. The
    /// result says whether the player was published; if not, whatever was started for the
    /// generation is to be cancelled.
    pub fn player_answered<F: Fn(&Vec<ListedPlayer>) -> Option<ListedPlayer>>(
        &mut self,
        player_id: &PlayerId,
        generation: Generation,
        shut_down: bool,
        select: &F,
    ) -> (published: bool)
        requires
            consistent(old(self)@),
            forall|l: Vec<ListedPlayer>| call_requires(*select, (&l,)),
        ensures
            consistent(final(self)@),
            published == (!shut_down && is_live(old(self)@, player_id@, generation@)),
            published ==> publishes(
                *select,
                old(self)@,
                player_id@,
                generation@,
                final(self)@,
            ),
            !published ==> final(self)@ == old(self)@,
            published ==> exists|l: Vec<ListedPlayer>, best: Option<ListedPlayer>|
                l.deep_view() == final(self)@.player_list && best.deep_view()
                    == final(self)@.active_player && #[trigger] call_ensures(*select, (&l,), best),
    {
        if shut_down || self.is_cancelled(player_id, generation) {
            return false;
        }
        let ghost before = self@;
        if self.players.get(player_id).is_none() {
            return false;
        }
        self.players.insert(player_id.clone(), PlayerSlot { generation, published: true });
        self.publish_player(ListedPlayer { id: player_id.clone(), generation }, select);
        proof {
            lemma_publication_is_consistent(*select, before, player_id@, generation@, self@);
        }
        true
    }

    /// What follows when a player could not be initialized: its slot goes if its generation
    /// still owns it. Either way, whatever was started for the generation is to be
    /// cancelled.
    pub fn player_failed(&mut self, player_id: &PlayerId, generation: Generation, shut_down: bool)
        requires
            consistent(old(self)@),
            !is_published(old(self)@, player_id@, generation@),
        ensures
            consistent(final(self)@),
            final(self)@ == (if !shut_down && is_live(old(self)@, player_id@, generation@) {
                MediaView {
                    players: old(self)@.players.remove(player_id@),
                    tokens: old(self)@.tokens.remove(generation@),
                    ..old(self)@
                }
            } else {
                old(self)@
            }),
    {
        if shut_down || self.is_cancelled(player_id, generation) {
            return;
        }
        let ghost before = self@;
        self.players.remove(player_id);
        self.cancel(generation);
        proof {
            lemma_failure_is_consistent(before, player_id@, generation@);
        }
    }

    /// Whether a generation of a player is listed.
    pub fn has_published(&self, player_id: &PlayerId, generation: Generation) -> (published: bool)
        ensures
            published == is_published(self@, player_id@, generation@),
    {
        match self.players.get(player_id) {
            Some(slot) => slot.published && slot.generation.number == generation.number,
            None => false,
        }
    }

    /// Whether some more generations can be numbered.
    pub fn has_room(&self, count: usize) -> (room: bool)
        ensures
            room == (self@.next_generation + count <= u64::MAX),
    {
        count as u64 <= u64::MAX - self.next_generation
    }

    /// Claims a generation for each media player among the names already on the bus, but
    /// for those that are ignored.
    pub fn discover_existing_players<F: Fn(&Vec<ListedPlayer>) -> Option<ListedPlayer>>(
        &mut self,
        names: &[String],
        ignored_patterns: &[String],
        select: &F,
    ) -> (effects: Vec<MediaEffect>)
        requires
            consistent(old(self)@),
            old(self)@.next_generation + names@.len() <= u64::MAX,
            forall|l: Vec<ListedPlayer>| call_requires(*select, (&l,)),
        ensures
            consistent(final(self)@),
            dispatches_all(
                *select,
                old(self)@,
                discoverable(names.deep_view(), ignored_patterns.deep_view()),
                final(self)@,
                effects.deep_view(),
            ),
    {
        let ghost before = self@;
        let ghost all = names.deep_view();
        let ghost ignored = ignored_patterns.deep_view();
        let ghost pred = |name: Seq<char>| is_player_name(name) && !is_ignored(name, ignored);
        let mut effects: Vec<MediaEffect> = Vec::new();
        let mut i: usize = 0;
        assert(effects.deep_view() =~= seq![]);
        assert(all.take(0) =~= seq![]);
        assert(all.take(0).filter(pred) =~= seq![]) by {
            reveal(Seq::filter);
        }
        while i < names.len()
            invariant
                i <= names@.len(),
                all == names.deep_view(),
                ignored == ignored_patterns.deep_view(),
                pred == (|name: Seq<char>| is_player_name(name) && !is_ignored(name, ignored)),
                consistent(self@),
                self@.next_generation <= before.next_generation + i,
                before.next_generation + names@.len() <= u64::MAX,
                forall|l: Vec<ListedPlayer>| call_requires(*select, (&l,)),
                dispatches_all(
                    *select,
                    before,
                    all.take(i as int).filter(pred),
                    self@,
                    effects.deep_view(),
                ),
            decreases names@.len() - i,
        {
            let name = names[i].as_str();
            let ghost mid = self@;
            let ghost told = effects.deep_view();
            let ghost ids = all.take(i as int).filter(pred);
            proof {
                assert(all[i as int] == name@);
                lemma_filter_step(all, i as int, pred);
            }
            if names_player(name) && !should_ignore(name, ignored_patterns) {
                let player_id = PlayerId::from_bus_name(name);
                let (cancelled, generation) = self.dispatch_player_added(&player_id, select);
                push_dispatch(&mut effects, cancelled, player_id, generation);
                proof {
                    lemma_dispatch_one_more(*select, before, ids, mid, told, name@, self@);
                }
            }
            i += 1;
        }
        assert(all.take(all.len() as int) =~= all);
        effects
    }

    /// Follows a change of a name's owner: a new player is dispatched unless it is ignored,
    /// a player that left is removed, and a player whose name went to a new owner is
    /// removed and, unless it is ignored, dispatched again.
    ///
    /// Only local bookkeeping happens here, so one unresponsive client can never stall name
    /// events for the others.
    pub fn handle_name_owner_changed<F: Fn(&Vec<ListedPlayer>) -> Option<ListedPlayer>>(
        &mut self,
        name: &str,
        had_owner: bool,
        has_owner: bool,
        ignored_patterns: &[String],
        select: &F,
    ) -> (effects: Vec<MediaEffect>)
        requires
            consistent(old(self)@),
            old(self)@.next_generation < u64::MAX,
            forall|l: Vec<ListedPlayer>| call_requires(*select, (&l,)),
        ensures
            consistent(final(self)@),
            match name_change(name@, had_owner, has_owner, ignored_patterns.deep_view()) {
                NameChange::Nothing => final(self)@ == old(self)@ && effects.deep_view().len() == 0,
                NameChange::Leaves => removes(*select, old(self)@, name@, final(self)@)
                    && effects.deep_view() == cancel_effects(old(self)@, name@),
                NameChange::Arrives => dispatches(*select, old(self)@, name@, final(self)@)
                    && effects.deep_view() == dispatch_effects(old(self)@, name@),
            },
    {
        let ghost before = self@;
        let mut effects: Vec<MediaEffect> = Vec::new();
        assert(effects.deep_view() =~= seq![]);
        if !names_player(name) {
            return effects;
        }
        let player_id = PlayerId::from_bus_name(name);
        let is_player_added = !had_owner && has_owner;
        let is_player_removed = had_owner && !has_owner;
        let is_owner_replaced = had_owner && has_owner;
        if is_player_added && !should_ignore(name, ignored_patterns) {
            let (cancelled, generation) = self.dispatch_player_added(&player_id, select);
            push_dispatch(&mut effects, cancelled, player_id, generation);
            assert(effects.deep_view() =~= dispatch_effects(before, name@));
        } else if is_player_removed {
            let cancelled = self.handle_player_removed(&player_id, select);
            push_cancel(&mut effects, cancelled);
            assert(effects.deep_view() =~= cancel_effects(before, name@));
        } else if is_owner_replaced {
            let cancelled = self.handle_player_removed(&player_id, select);
            push_cancel(&mut effects, cancelled);
            assert(effects.deep_view() =~= cancel_effects(before, name@));
            if !should_ignore(name, ignored_patterns) {
                let ghost mid = self@;
                let (none, generation) = self.dispatch_player_added(&player_id, select);
                push_dispatch(&mut effects, none, player_id, generation);
                proof {
                    let again = choose|again: MediaView| #[trigger]
                        removes(*select, mid, name@, again) && self@ == claimed(again, name@);
                    assert(again == mid);
                    assert(removes(*select, before, name@, mid) && self@ == claimed(mid, name@));
                    assert(effects.deep_view() =~= dispatch_effects(before, name@));
                }
            }
        }
        effects
    }
}

/// Whether a generation of a player is listed.
pub open spec fn is_published(state: MediaView, id: Seq<char>, generation: u64) -> bool {
    state.players.contains_key(id) && state.players[id].published
        && state.players[id].generation@ == generation
}

/// Something to be done as a consequence of a change on the bus.
pub enum MediaEffect {
    /// Cancel a generation: its initialization, its monitors, any fetch in flight.
    Cancel(Generation),
    /// Start the initialization of a generation of a player.
    Start {
        /// The player.
        player_id: PlayerId,
        /// The generation.
        generation: Generation,
    },
}

/// What a [`MediaEffect`] denotes.
pub enum MediaEffectView {
    /// Cancel a generation.
    Cancel(u64),
    /// Start the initialization of a generation of a player.
    Start {
        /// The player.
        player_id: Seq<char>,
        /// The generation.
        generation: u64,
    },
}

impl View for MediaEffect {
    type V = MediaEffectView;

    open spec fn view(&self) -> MediaEffectView {
        match self {
            MediaEffect::Cancel(generation) => MediaEffectView::Cancel(generation@),
            MediaEffect::Start { player_id, generation } => MediaEffectView::Start {
                player_id: player_id@,
                generation: generation@,
            },
        }
    }
}

impl DeepView for MediaEffect {
    type V = MediaEffectView;

    open spec fn deep_view(&self) -> MediaEffectView {
        self@
    }
}

/// What follows when a player is taken out: its generation is cancelled.
pub open spec fn cancel_effects(before: MediaView, id: Seq<char>) -> Seq<MediaEffectView> {
    match owner_of(before, id) {
        Some(generation) => seq![MediaEffectView::Cancel(generation@)],
        None => seq![],
    }
}

/// What follows when a player is dispatched: its previous generation is cancelled, and the
/// new one starts.
pub open spec fn dispatch_effects(before: MediaView, id: Seq<char>) -> Seq<MediaEffectView> {
    cancel_effects(before, id).push(
        MediaEffectView::Start { player_id: id, generation: before.next_generation },
    )
}

fn push_cancel(effects: &mut Vec<MediaEffect>, cancelled: Option<Generation>)
    ensures
        final(effects).deep_view() == old(effects).deep_view() + (match cancelled {
            Some(generation) => seq![MediaEffectView::Cancel(generation@)],
            None => seq![],
        }),
{
    let ghost before = effects.deep_view();
    match cancelled {
        Some(generation) => {
            effects.push(MediaEffect::Cancel(generation));
        },
        None => {},
    }
    assert(effects.deep_view() =~= before + (match cancelled {
        Some(generation) => seq![MediaEffectView::Cancel(generation@)],
        None => seq![],
    }));
}

fn push_dispatch(
    effects: &mut Vec<MediaEffect>,
    cancelled: Option<Generation>,
    player_id: PlayerId,
    generation: Generation,
)
    ensures
        final(effects).deep_view() == old(effects).deep_view() + (match cancelled {
            Some(old_generation) => seq![MediaEffectView::Cancel(old_generation@)],
            None => seq![],
        }).push(MediaEffectView::Start { player_id: player_id@, generation: generation@ }),
{
    let ghost before = effects.deep_view();
    let ghost id = player_id@;
    push_cancel(effects, cancelled);
    let ghost told = effects.deep_view();
    effects.push(MediaEffect::Start { player_id, generation });
    assert(effects.deep_view() =~= told.push(
        MediaEffectView::Start { player_id: id, generation: generation@ },
    ));
    assert(effects.deep_view() =~= before + (match cancelled {
        Some(old_generation) => seq![MediaEffectView::Cancel(old_generation@)],
        None => seq![],
    }).push(MediaEffectView::Start { player_id: id, generation: generation@ }));
}

/// The media players among some names, but for those that are ignored, in their order.
pub open spec fn discoverable(names: Seq<Seq<char>>, ignored: Seq<Seq<char>>) -> Seq<Seq<char>> {
    names.filter(|name: Seq<char>| is_player_name(name) && !is_ignored(name, ignored))
}

/// Whether dispatching some players one after the other came out as a state and effects.
pub open spec fn dispatches_all<F: Fn(&Vec<ListedPlayer>) -> Option<ListedPlayer>>(
    select: F,
    before: MediaView,
    ids: Seq<Seq<char>>,
    after: MediaView,
    effects: Seq<MediaEffectView>,
) -> bool
    decreases ids.len(),
{
    if ids.len() == 0 {
        after == before && effects.len() == 0
    } else {
        exists|mid: MediaView, first: Seq<MediaEffectView>|
            #![trigger dispatches(select, mid, ids.last(), after),
                first + dispatch_effects(mid, ids.last())]
            dispatches_all(select, before, ids.drop_last(), mid, first) && dispatches(
                select,
                mid,
                ids.last(),
                after,
            ) && effects == first + dispatch_effects(mid, ids.last())
    }
}

proof fn lemma_dispatch_one_more<F: Fn(&Vec<ListedPlayer>) -> Option<ListedPlayer>>(
    select: F,
    before: MediaView,
    ids: Seq<Seq<char>>,
    mid: MediaView,
    first: Seq<MediaEffectView>,
    id: Seq<char>,
    after: MediaView,
)
    requires
        dispatches_all(select, before, ids, mid, first),
        dispatches(select, mid, id, after),
    ensures
        dispatches_all(
            select,
            before,
            ids.push(id),
            after,
            first + dispatch_effects(mid, id),
        ),
{
    let more = ids.push(id);
    let effects = first + dispatch_effects(mid, more.last());
    assert(more.drop_last() =~= ids);
    assert(dispatches(select, mid, more.last(), after));
}

/// What a change of a name's owner means for the players.
pub enum NameChange {
    /// Nothing: no player, or an ignored one that is new.
    Nothing,
    /// The player of the name is gone.
    Leaves,
    /// The name has a new player.
    Arrives,
}

/// What a change of a name's owner means for the players: a name that lost its owner, or
/// went to an owner that is ignored, is a player that leaves; any other name with an owner
/// is a player that arrives.
pub open spec fn name_change(
    name: Seq<char>,
    had_owner: bool,
    has_owner: bool,
    ignored: Seq<Seq<char>>,
) -> NameChange {
    if !is_player_name(name) {
        NameChange::Nothing
    } else if has_owner && !is_ignored(name, ignored) {
        NameChange::Arrives
    } else if had_owner {
        NameChange::Leaves
    } else {
        NameChange::Nothing
    }
}

/// An event while a player initializes.
pub enum InitEvent {
    /// The generation was cancelled.
    Cancelled,
    /// The player answered its initial snapshot.
    Answered,
    /// The player could not be created.
    Failed,
    /// The watchdog's deadline passed.
    DeadlinePassed,
}

/// What to do next while a player initializes.
#[derive(Debug, Clone, Copy, PartialEq, Eq, Structural)]
pub enum InitStep {
    /// Stop: the player left or was superseded.
    Stop,
    /// Publish the player, see [`MediaState::player_answered`].
    Publish,
    /// Give up on the player, see [`MediaState::player_failed`].
    Discard,
    /// Log that the player has not answered, and go on waiting.
    Warn,
    /// Go on waiting.
    Wait,
}

/// The wait for a player's initial snapshot. There is no timeout: a slow player is
/// published whenever it answers.
pub struct InitWatch {
    /// Whether the diagnostic was logged.
    pub watchdog_fired: bool,
}

impl InitWatch {
    /// A wait that begins.
    pub fn new() -> (watch: InitWatch)
        ensures
            !watch.watchdog_fired,
    {
        InitWatch { watchdog_fired: false }
    }

    /// Whether the watchdog's deadline still matters.
    pub fn awaits_deadline(&self) -> (awaits: bool)
        ensures
            awaits == !self.watchdog_fired,
    {
        !self.watchdog_fired
    }

    /// Follows an event. The diagnostic is logged at most once.
    pub fn step(&mut self, event: InitEvent) -> (step: InitStep)
        ensures
            step == init_step(old(self).watchdog_fired, event),
            final(self).watchdog_fired == (old(self).watchdog_fired || event is DeadlinePassed),
    {
        match event {
            InitEvent::Cancelled => InitStep::Stop,
            InitEvent::Answered => InitStep::Publish,
            InitEvent::Failed => InitStep::Discard,
            InitEvent::DeadlinePassed => {
                if self.watchdog_fired {
                    InitStep::Wait
                } else {
                    self.watchdog_fired = true;
                    InitStep::Warn
                }
            },
        }
    }
}

/// What to do on an event while a player initializes.
pub open spec fn init_step(watchdog_fired: bool, event: InitEvent) -> InitStep {
    match event {
        InitEvent::Cancelled => InitStep::Stop,
        InitEvent::Answered => InitStep::Publish,
        InitEvent::Failed => InitStep::Discard,
        InitEvent::DeadlinePassed => if watchdog_fired {
            InitStep::Wait
        } else {
            InitStep::Warn
        },
    }
}

/// The deadline never decides anything: whether it passed makes no difference to what is
/// done when the player answers, fails or is cancelled, and it is warned of at most once.
pub proof fn law_deadline_only_warns(watchdog_fired: bool, event: InitEvent)
    ensures
        !(event is DeadlinePassed) ==> init_step(true, event) == init_step(false, event),
        event is DeadlinePassed ==> init_step(watchdog_fired, event) == InitStep::Warn
            || init_step(watchdog_fired, event) == InitStep::Wait,
        init_step(true, event) != InitStep::Warn,
{
}

fn drop_player(list: &mut Vec<ListedPlayer>, id: &PlayerId)
    ensures
        final(list).deep_view() == without_player(old(list).deep_view(), id@),
{
    let ghost orig = list.deep_view();
    let ghost pred = |p: ListedView| p.id != id@;
    let mut kept: Vec<ListedPlayer> = Vec::new();
    let mut i: usize = 0;
    assert(orig.take(0).filter(pred) =~= seq![]) by {
        reveal(Seq::filter);
    }
    assert(kept.deep_view() =~= seq![]);
    while i < list.len()
        invariant
            i <= list@.len(),
            orig == list.deep_view(),
            pred == (|p: ListedView| p.id != id@),
            kept.deep_view() == orig.take(i as int).filter(pred),
        decreases list@.len() - i,
    {
        let ghost before = kept.deep_view();
        proof {
            lemma_filter_step(orig, i as int, pred);
        }
        assert(list@[i as int]@ == orig[i as int]);
        if !list[i].id.same_key(id) {
            let player = list[i].clone();
            let ghost copied = player@;
            kept.push(player);
            assert(kept.deep_view() =~= before.push(copied));
        }
        i += 1;
    }
    assert(orig.take(orig.len() as int) =~= orig);
    *list = kept;
}

/// A list without a player does not have it, keeps every other player in its order, and is
/// as long as before exactly when the player was not there.
pub proof fn lemma_without_player(list: Seq<ListedView>, id: Seq<char>)
    ensures
        !lists(without_player(list, id), id),
        forall|other: Seq<char>|
            other != id ==> lists(without_player(list, id), other) == lists(list, other),
        forall|i: int|
            0 <= i < without_player(list, id).len() ==> list.contains(
                #[trigger] without_player(list, id)[i],
            ),
        lists(list, id) == (without_player(list, id).len() != list.len()),
        !lists(list, id) ==> without_player(list, id) == list,
{
    let pred = |p: ListedView| p.id != id;
    let rest = list.filter(pred);
    lemma_filter_members(list, pred);
    crate::lists::lemma_filter_shorter(list, pred);
    assert forall|other: Seq<char>| other != id implies lists(rest, other) == lists(list, other) by {
        if lists(rest, other) {
            let i = choose|i: int| 0 <= i < rest.len() && (#[trigger] rest[i]).id == other;
            assert(list.contains(rest[i]));
            let j = choose|j: int| 0 <= j < list.len() && list[j] == rest[i];
            assert(list[j].id == other);
        }
        if lists(list, other) {
            let i = choose|i: int| 0 <= i < list.len() && (#[trigger] list[i]).id == other;
            assert(pred(list[i]));
            assert(rest.contains(list[i]));
            let j = choose|j: int| 0 <= j < rest.len() && rest[j] == list[i];
            assert(rest[j].id == other);
        }
    }
    if lists(list, id) {
        let i = choose|i: int| 0 <= i < list.len() && (#[trigger] list[i]).id == id;
        assert(!pred(list[i]));
    } else {
        assert forall|i: int| 0 <= i < list.len() implies pred(#[trigger] list[i]) by {}
        crate::lists::lemma_filter_all(list, pred);
    }
}

proof fn lemma_without_player_once(list: Seq<ListedView>, id: Seq<char>)
    requires
        lists_once(list),
    ensures
        lists_once(without_player(list, id)),
    decreases list.len(),
{
    reveal(Seq::filter);
    let pred = |p: ListedView| p.id != id;
    if list.len() > 0 {
        let front = list.drop_last();
        assert(lists_once(front)) by {
            assert forall|i: int, j: int| 0 <= i < j < front.len() implies (#[trigger] front[i]).id
                != (#[trigger] front[j]).id by {
                assert(list[i].id != list[j].id);
            }
        }
        lemma_without_player_once(front, id);
        lemma_without_player(front, id);
        let part = front.filter(pred);
        if pred(list.last()) {
            let whole = part.push(list.last());
            assert forall|i: int, j: int| 0 <= i < j < whole.len() implies (#[trigger] whole[i]).id
                != (#[trigger] whole[j]).id by {
                if j < part.len() {
                    assert(part[i].id != part[j].id);
                } else {
                    assert(front.contains(part[i]));
                    let k = choose|k: int| 0 <= k < front.len() && front[k] == part[i];
                    assert(list[k].id != list[list.len() - 1].id);
                }
            }
        }
    }
}

proof fn lemma_removal_is_consistent<F: Fn(&Vec<ListedPlayer>) -> Option<ListedPlayer>>(
    select: F,
    before: MediaView,
    id: Seq<char>,
    after: MediaView,
)
    requires
        consistent(before),
        removes(select, before, id, after),
    ensures
        consistent(after),
        !after.players.contains_key(id),
        !lists(after.player_list, id),
{
    lemma_without_player(before.player_list, id);
    lemma_without_player_once(before.player_list, id);
    if before.players.contains_key(id) {
        let slot = before.players[id];
        assert(is_live(before, id, slot.generation@));
        if !slot.published {
            if lists(before.player_list, id) {
                let i = choose|i: int|
                    0 <= i < before.player_list.len() && (#[trigger] before.player_list[i]).id
                        == id;
                assert(before.players[before.player_list[i].id].published);
            }
        }
        assert(after.player_list == without_player(before.player_list, id));
        assert forall|g: u64| #[trigger] after.tokens.contains_key(g) implies g
            < after.next_generation && after.players.contains_key(after.tokens[g])
            && after.players[after.tokens[g]].generation@ == g by {
            assert(before.tokens.contains_key(g));
        }
        assert forall|other: Seq<char>| #[trigger]
            after.players.contains_key(other) implies is_live(
            after,
            other,
            after.players[other].generation@,
        ) by {
            assert(before.players.contains_key(other));
            assert(is_live(before, other, before.players[other].generation@));
        }
        assert forall|i: int| 0 <= i < after.player_list.len() implies {
            let p = #[trigger] after.player_list[i];
            &&& after.players.contains_key(p.id)
            &&& after.players[p.id].published
            &&& after.players[p.id].generation@ == p.generation
        } by {
            let p = after.player_list[i];
            assert(before.player_list.contains(p));
            let j = choose|j: int|
                0 <= j < before.player_list.len() && before.player_list[j] == p;
            assert(before.players.contains_key(before.player_list[j].id));
            assert(p.id != id);
        }
        assert forall|other: Seq<char>| #[trigger]
            after.players.contains_key(other) && after.players[other].published implies lists(
            after.player_list,
            other,
        ) by {
            assert(before.players.contains_key(other));
        }
    } else {
        if lists(before.player_list, id) {
            let i = choose|i: int|
                0 <= i < before.player_list.len() && (#[trigger] before.player_list[i]).id == id;
            assert(before.players.contains_key(before.player_list[i].id));
        }
    }
}

proof fn lemma_claim_is_consistent(state: MediaView, id: Seq<char>)
    requires
        consistent(state),
        !state.players.contains_key(id),
        state.next_generation < u64::MAX,
    ensures
        consistent(claimed(state, id)),
{
    let after = claimed(state, id);
    let fresh = state.next_generation;
    assert(!state.tokens.contains_key(fresh));
    assert forall|g: u64| #[trigger] after.tokens.contains_key(g) implies g < after.next_generation
        && after.players.contains_key(after.tokens[g]) && after.players[after.tokens[g]].generation@
        == g by {
        if g != fresh {
            assert(state.tokens.contains_key(g));
        }
    }
    assert forall|other: Seq<char>| #[trigger] after.players.contains_key(other) implies is_live(
        after,
        other,
        after.players[other].generation@,
    ) by {
        if other != id {
            assert(state.players.contains_key(other));
            assert(is_live(state, other, state.players[other].generation@));
        }
    }
    assert forall|i: int| 0 <= i < after.player_list.len() implies {
        let p = #[trigger] after.player_list[i];
        &&& after.players.contains_key(p.id)
        &&& after.players[p.id].published
        &&& after.players[p.id].generation@ == p.generation
    } by {
        assert(state.players.contains_key(state.player_list[i].id));
    }
    assert forall|other: Seq<char>| #[trigger]
        after.players.contains_key(other) && after.players[other].published implies lists(
        after.player_list,
        other,
    ) by {
        assert(state.players.contains_key(other));
    }
}

proof fn lemma_publication_is_consistent<F: Fn(&Vec<ListedPlayer>) -> Option<ListedPlayer>>(
    select: F,
    before: MediaView,
    id: Seq<char>,
    generation: u64,
    after: MediaView,
)
    requires
        consistent(before),
        is_live(before, id, generation),
        publishes(select, before, id, generation, after),
    ensures
        consistent(after),
{
    let rest = without_player(before.player_list, id);
    lemma_without_player(before.player_list, id);
    lemma_without_player_once(before.player_list, id);
    assert(before.tokens.contains_key(generation));
    assert(before.players.contains_key(id));
    assert forall|g: u64| #[trigger] after.tokens.contains_key(g) implies g < after.next_generation
        && after.players.contains_key(after.tokens[g]) && after.players[after.tokens[g]].generation@
        == g by {
        assert(before.tokens.contains_key(g));
    }
    assert forall|other: Seq<char>| #[trigger] after.players.contains_key(other) implies is_live(
        after,
        other,
        after.players[other].generation@,
    ) by {
        assert(before.players.contains_key(other));
        assert(is_live(before, other, before.players[other].generation@));
    }
    assert(lists_once(after.player_list)) by {
        assert forall|i: int, j: int| 0 <= i < j < after.player_list.len() implies (
        #[trigger] after.player_list[i]).id != (#[trigger] after.player_list[j]).id by {
            assert(after.player_list[i] == rest[i]);
            if j < rest.len() {
                assert(after.player_list[j] == rest[j]);
            } else {
                assert(rest[i].id != id);
            }
        }
    }
    assert forall|i: int| 0 <= i < after.player_list.len() implies {
        let p = #[trigger] after.player_list[i];
        &&& after.players.contains_key(p.id)
        &&& after.players[p.id].published
        &&& after.players[p.id].generation@ == p.generation
    } by {
        if i < rest.len() {
            let p = rest[i];
            assert(after.player_list[i] == p);
            assert(before.player_list.contains(p));
            let j = choose|j: int|
                0 <= j < before.player_list.len() && before.player_list[j] == p;
            assert(before.players.contains_key(before.player_list[j].id));
            assert(p.id != id);
        }
    }
    assert forall|other: Seq<char>| #[trigger]
        after.players.contains_key(other) && after.players[other].published implies lists(
        after.player_list,
        other,
    ) by {
        if other == id {
            assert(after.player_list[rest.len() as int].id == id);
        } else {
            assert(before.players.contains_key(other));
            assert(lists(rest, other));
            let i = choose|i: int| 0 <= i < rest.len() && (#[trigger] rest[i]).id == other;
            assert(after.player_list[i].id == other);
        }
    }
}

proof fn lemma_failure_is_consistent(before: MediaView, id: Seq<char>, generation: u64)
    requires
        consistent(before),
        is_live(before, id, generation),
        !is_published(before, id, generation),
    ensures
        consistent(
            (MediaView {
                players: before.players.remove(id),
                tokens: before.tokens.remove(generation),
                ..before
            }),
        ),
{
    let after = MediaView {
        players: before.players.remove(id),
        tokens: before.tokens.remove(generation),
        ..before
    };
    assert(before.tokens.contains_key(generation));
    assert forall|g: u64| #[trigger] after.tokens.contains_key(g) implies g < after.next_generation
        && after.players.contains_key(after.tokens[g]) && after.players[after.tokens[g]].generation@
        == g by {
        assert(before.tokens.contains_key(g));
    }
    assert forall|other: Seq<char>| #[trigger] after.players.contains_key(other) implies is_live(
        after,
        other,
        after.players[other].generation@,
    ) by {
        assert(before.players.contains_key(other));
        assert(is_live(before, other, before.players[other].generation@));
    }
    assert forall|i: int| 0 <= i < after.player_list.len() implies {
        let p = #[trigger] after.player_list[i];
        &&& after.players.contains_key(p.id)
        &&& after.players[p.id].published
        &&& after.players[p.id].generation@ == p.generation
    } by {
        assert(before.players.contains_key(before.player_list[i].id));
    }
    assert forall|other: Seq<char>| #[trigger]
        after.players.contains_key(other) && after.players[other].published implies lists(
        after.player_list,
        other,
    ) by {
        assert(before.players.contains_key(other));
    }
}

/// A generation that is not cancelled proves that the slot of its player is still its own,
/// and it is the only one of its player that is not cancelled.
pub proof fn law_uncancelled_owns_its_slot(
    state: MediaView,
    id: Seq<char>,
    generation: u64,
    other: u64,
)
    requires
        consistent(state),
        is_live(state, id, generation),
    ensures
        owner_of(state, id) == Some(Generation { number: generation }),
        is_live(state, id, other) ==> other == generation,
{
    assert(state.tokens.contains_key(generation));
    if is_live(state, id, other) {
        assert(state.tokens.contains_key(other));
    }
}

/// A removed player has no slot, is not listed, and none of its generations is left
/// uncancelled; every other player keeps its slot and its place among the others.
pub proof fn law_removed_player_is_gone<F: Fn(&Vec<ListedPlayer>) -> Option<ListedPlayer>>(
    select: F,
    before: MediaView,
    id: Seq<char>,
    after: MediaView,
    generation: u64,
    other: Seq<char>,
)
    requires
        consistent(before),
        removes(select, before, id, after),
    ensures
        !after.players.contains_key(id),
        !lists(after.player_list, id),
        !is_live(after, id, generation),
        other != id ==> owner_of(after, other) == owner_of(before, other) && lists(
            after.player_list,
            other,
        ) == lists(before.player_list, other),
        after.player_list == without_player(before.player_list, id),
{
    lemma_removal_is_consistent(select, before, id, after);
    lemma_without_player(before.player_list, id);
    if is_live(after, id, generation) {
        assert(after.tokens.contains_key(generation));
    }
    if before.players.contains_key(id) && !before.players[id].published && lists(
        before.player_list,
        id,
    ) {
        let i = choose|i: int|
            0 <= i < before.player_list.len() && (#[trigger] before.player_list[i]).id == id;
        assert(before.players[before.player_list[i].id].published);
    }
}

/// A player that is dispatched again supersedes its previous generation: that one is
/// cancelled, so it can never be published, and the player is not listed until the new
/// generation answers.
pub proof fn law_dispatch_supersedes<F: Fn(&Vec<ListedPlayer>) -> Option<ListedPlayer>>(
    select: F,
    before: MediaView,
    id: Seq<char>,
    after: MediaView,
    generation: u64,
)
    requires
        consistent(before),
        before.next_generation < u64::MAX,
        dispatches(select, before, id, after),
        generation < before.next_generation,
    ensures
        consistent(after),
        !is_live(after, id, generation),
        is_live(after, id, before.next_generation),
        !lists(after.player_list, id),
{
    let mid = choose|mid: MediaView| #[trigger]
        removes(select, before, id, mid) && after == claimed(mid, id);
    lemma_removal_is_consistent(select, before, id, mid);
    lemma_claim_is_consistent(mid, id);
    if is_live(after, id, generation) {
        assert(mid.tokens.contains_key(generation));
    }
}

/// Dispatching a player keeps the state consistent.
pub proof fn lemma_dispatch_is_consistent<F: Fn(&Vec<ListedPlayer>) -> Option<ListedPlayer>>(
    select: F,
    before: MediaView,
    id: Seq<char>,
    after: MediaView,
)
    requires
        consistent(before),
        before.next_generation < u64::MAX,
        dispatches(select, before, id, after),
    ensures
        consistent(after),
{
    let mid = choose|mid: MediaView| #[trigger]
        removes(select, before, id, mid) && after == claimed(mid, id);
    lemma_removal_is_consistent(select, before, id, mid);
    lemma_claim_is_consistent(mid, id);
}

/// A cancelled generation stays cancelled, whatever is dispatched, removed, published or
/// given up.
pub proof fn law_cancelled_stays_cancelled<F: Fn(&Vec<ListedPlayer>) -> Option<ListedPlayer>>(
    select: F,
    before: MediaView,
    id: Seq<char>,
    after: MediaView,
    generation: u64,
)
    requires
        consistent(before),
        generation < before.next_generation,
        !before.tokens.contains_key(generation),
        removes(select, before, id, after) || dispatches(select, before, id, after) || (exists|
            g: u64,
        | #[trigger]
            publishes(select, before, id, g, after)) || (exists|g: u64|
            after == (MediaView {
                players: before.players.remove(id),
                tokens: #[trigger] before.tokens.remove(g),
                ..before
            })),
    ensures
        !after.tokens.contains_key(generation),
{
    if dispatches(select, before, id, after) {
        let mid = choose|mid: MediaView| #[trigger]
            removes(select, before, id, mid) && after == claimed(mid, id);
        assert(mid.next_generation == before.next_generation);
        assert(!mid.tokens.contains_key(generation));
    }
}

/// A published player is listed exactly once, as the last, and the players before it keep
/// their order.
pub proof fn law_published_is_listed_last<F: Fn(&Vec<ListedPlayer>) -> Option<ListedPlayer>>(
    select: F,
    before: MediaView,
    id: Seq<char>,
    generation: u64,
    after: MediaView,
)
    requires
        consistent(before),
        is_live(before, id, generation),
        publishes(select, before, id, generation, after),
    ensures
        lists_once(after.player_list),
        after.player_list.len() > 0,
        after.player_list.last() == (ListedView { id, generation }),
        after.player_list.drop_last() == without_player(before.player_list, id),
{
    lemma_publication_is_consistent(select, before, id, generation, after);
    assert(after.player_list.drop_last() =~= without_player(before.player_list, id));
}

/// Whether the active player, if any, is listed.
pub open spec fn active_is_listed(state: MediaView) -> bool {
    state.active_player matches Some(active) ==> state.player_list.contains(active)
}

/// Whether a choice only ever picks a listed player, or none.
pub open spec fn picks_listed<F: Fn(&Vec<ListedPlayer>) -> Option<ListedPlayer>>(select: F) -> bool {
    forall|l: Vec<ListedPlayer>, best: Option<ListedPlayer>| #[trigger]
        call_ensures(select, (&l,), best) ==> (best matches Some(b) ==> l.deep_view().contains(b@))
}

/// As long as the choice picks a listed player, the active player is always listed: it
/// never outlives its place in the list.
pub proof fn law_active_player_is_listed<F: Fn(&Vec<ListedPlayer>) -> Option<ListedPlayer>>(
    select: F,
    before: MediaView,
    id: Seq<char>,
    after: MediaView,
    generation: u64,
)
    requires
        consistent(before),
        active_is_listed(before),
        picks_listed(select),
        removes(select, before, id, after) || dispatches(select, before, id, after) || (is_live(
            before,
            id,
            generation,
        ) && publishes(select, before, id, generation, after)),
    ensures
        active_is_listed(after),
{
    if removes(select, before, id, after) {
        lemma_removal_keeps_active_listed(select, before, id, after);
    } else if dispatches(select, before, id, after) {
        let mid = choose|mid: MediaView| #[trigger]
            removes(select, before, id, mid) && after == claimed(mid, id);
        lemma_removal_keeps_active_listed(select, before, id, mid);
    } else {
        lemma_choice_is_listed(
            select,
            listed(before, id, generation).player_list,
            after.active_player,
        );
    }
}

proof fn lemma_choice_is_listed<F: Fn(&Vec<ListedPlayer>) -> Option<ListedPlayer>>(
    select: F,
    list: Seq<ListedView>,
    best: Option<ListedView>,
)
    requires
        picks_listed(select),
        chosen(select, list, best),
    ensures
        best matches Some(b) ==> list.contains(b),
{
    let (l, b) = choose|l: Vec<ListedPlayer>, b: Option<ListedPlayer>|
        l.deep_view() == list && b.deep_view() == best && #[trigger] call_ensures(select, (&l,), b);
    assert(call_ensures(select, (&l,), b));
}

proof fn lemma_removal_keeps_active_listed<F: Fn(&Vec<ListedPlayer>) -> Option<ListedPlayer>>(
    select: F,
    before: MediaView,
    id: Seq<char>,
    after: MediaView,
)
    requires
        consistent(before),
        active_is_listed(before),
        picks_listed(select),
        removes(select, before, id, after),
    ensures
        active_is_listed(after),
{
    let list = before.player_list;
    if before.players.contains_key(id) && before.players[id].published {
        assert(lists(list, id));
        if before.active_player is Some {
            let active = before.active_player->0;
            if active.id == id {
                lemma_choice_is_listed(select, after.player_list, after.active_player);
            } else {
                let pred = |p: ListedView| p.id != id;
                lemma_filter_members(list, pred);
                let i = choose|i: int| 0 <= i < list.len() && list[i] == active;
                assert(pred(list[i]));
                assert(list.filter(pred).contains(active));
            }
        }
    }
}

} // verus!
