use vstd::prelude::*;
use crate::game::action::Action;
use crate::history::{GameHistoryTrait, GameMetadata, GameSummary, TurnRecord};
use crate::state::PlayerId;

verus! {

/// A game history that keeps, for each move, the index of the action in the
/// table of all actions and the player who made it, along with the moves that
/// bought a development card, moved the thief or played a monopoly.
pub struct DetailedIdGameHistory {
    metadata: GameMetadata,
    actions: Vec<(usize, PlayerId)>,
    dev_turns: Vec<usize>,
    mthief_turns: Vec<usize>,
    monopoly_turns: Vec<usize>,
    winner: Option<PlayerId>,
    num_dice_rolls: usize,
}

/// The content of a [`DetailedIdGameHistory`].
pub ghost struct HistoryView {
    pub metadata: GameMetadata,
    /// For each move: the index of its action and its player.
    pub actions: Seq<(usize, PlayerId)>,
    /// The moves that bought a development card.
    pub dev_turns: Seq<usize>,
    /// The moves that moved the thief.
    pub mthief_turns: Seq<usize>,
    /// The moves that played a monopoly.
    pub monopoly_turns: Seq<usize>,
    pub winner: Option<PlayerId>,
    pub num_dice_rolls: nat,
}

/// The first index at which `a` stands in `s`.
pub open spec fn is_first_index(s: Seq<Action>, a: Action, i: int) -> bool {
    &&& 0 <= i < s.len()
    &&& s[i] == a
    &&& forall|j: int| 0 <= j < i ==> s[j] != a
}

/// The moves made by `player`, in order.
pub open spec fn turns_of(actions: Seq<(usize, PlayerId)>, player: PlayerId) -> Seq<usize>
    decreases actions.len(),
{
    if actions.len() == 0 {
        Seq::empty()
    } else {
        let prev = turns_of(actions.drop_last(), player);
        if actions.last().1 == player {
            prev.push((actions.len() - 1) as usize)
        } else {
            prev
        }
    }
}

impl HistoryView {
    /// The history of a game with no move yet.
    pub open spec fn empty() -> HistoryView {
        HistoryView {
            metadata: GameMetadata { player_count: 0, seed: 0 },
            actions: Seq::empty(),
            dev_turns: Seq::empty(),
            mthief_turns: Seq::empty(),
            monopoly_turns: Seq::empty(),
            winner: None,
            num_dice_rolls: 0,
        }
    }

    /// The history after one more move, made by `player` with the action at
    /// index `index` of the table, which is `action`.
    pub open spec fn record(self, index: usize, player: PlayerId, action: Action) -> HistoryView {
        let n = self.actions.len() as usize;
        HistoryView {
            actions: self.actions.push((index, player)),
            dev_turns: if action is BuyDevelopment { self.dev_turns.push(n) } else { self.dev_turns },
            mthief_turns: if action is MoveThief { self.mthief_turns.push(n) } else { self.mthief_turns },
            monopoly_turns: if action is DevelopmentMonopole { self.monopoly_turns.push(n) } else { self.monopoly_turns },
            num_dice_rolls: if action is RollDice { self.num_dice_rolls + 1 } else { self.num_dice_rolls },
            ..self
        }
    }

    /// Every move listed as a purchase, a thief move or a monopoly is a
    /// recorded move, listed in the order in which they were made, and there
    /// are no more dice rolls than moves.
    pub open spec fn well_indexed(self) -> bool {
        &&& forall|i: int, j: int| 0 <= i < j < self.dev_turns.len() ==> self.dev_turns[i] < self.dev_turns[j]
        &&& forall|i: int| 0 <= i < self.dev_turns.len() ==> self.dev_turns[i] < self.actions.len()
        &&& forall|i: int, j: int| 0 <= i < j < self.mthief_turns.len() ==> self.mthief_turns[i] < self.mthief_turns[j]
        &&& forall|i: int| 0 <= i < self.mthief_turns.len() ==> self.mthief_turns[i] < self.actions.len()
        &&& forall|i: int, j: int| 0 <= i < j < self.monopoly_turns.len() ==> self.monopoly_turns[i] < self.monopoly_turns[j]
        &&& forall|i: int| 0 <= i < self.monopoly_turns.len() ==> self.monopoly_turns[i] < self.actions.len()
        &&& self.num_dice_rolls <= self.actions.len()
    }

    pub open spec fn summary(self) -> GameSummary {
        GameSummary {
            total_turns: self.actions.len() as usize,
            total_dice_rolls: self.num_dice_rolls as usize,
            dev_turns: self.dev_turns.len() as usize,
            mthief_turns: self.mthief_turns.len() as usize,
            monopoly_turns: self.monopoly_turns.len() as usize,
            winner: match self.winner {
                Some(p) => p.0 as usize,
                None => usize::MAX,
            },
        }
    }
}

/// The entry at `i` of `turns`, if there is one.
pub open spec fn nth_turn(turns: Seq<usize>, i: int) -> Option<usize> {
    if 0 <= i < turns.len() {
        Some(turns[i])
    } else {
        None
    }
}

impl View for DetailedIdGameHistory {
    type V = HistoryView;

    closed spec fn view(&self) -> HistoryView {
        HistoryView {
            metadata: self.metadata,
            actions: self.actions@,
            dev_turns: self.dev_turns@,
            mthief_turns: self.mthief_turns@,
            monopoly_turns: self.monopoly_turns@,
            winner: self.winner,
            num_dice_rolls: self.num_dice_rolls as nat,
        }
    }
}

impl DetailedIdGameHistory {
    pub fn new() -> (r: Self)
        ensures
            r@ == HistoryView::empty(),
    {
        DetailedIdGameHistory {
            metadata: GameMetadata::default(),
            actions: Vec::new(),
            dev_turns: Vec::new(),
            mthief_turns: Vec::new(),
            monopoly_turns: Vec::new(),
            winner: None,
            num_dice_rolls: 0,
        }
    }
}

impl Default for DetailedIdGameHistory {
    fn default() -> (r: Self)
        ensures
            r@ == HistoryView::empty(),
    {
        Self::new()
    }
}

/// The first index of `action` in `possible_actions`.
fn position(possible_actions: &Vec<Action>, action: Action) -> (r: usize)
    requires
        possible_actions@.contains(action),
    ensures
        is_first_index(possible_actions@, action, r as int),
{
    let mut i: usize = 0;
    while i < possible_actions.len()
        invariant
            i <= possible_actions.len(),
            possible_actions@.contains(action),
            forall|j: int| 0 <= j < i ==> possible_actions@[j] != action,
        decreases possible_actions.len() - i,
    {
        if possible_actions[i] == action {
            return i;
        }
        i = i + 1;
    }
    proof {
        let k = choose|k: int| 0 <= k < possible_actions@.len() && possible_actions@[k] == action;
        assert(possible_actions@[k] == action);
    }
    i
}

impl GameHistoryTrait for DetailedIdGameHistory {
    open spec fn can_record(&self) -> bool {
        &&& self@.num_dice_rolls < usize::MAX
        &&& self@.actions.len() < usize::MAX
    }

    open spec fn metadata_of(&self) -> GameMetadata {
        self@.metadata
    }

    open spec fn winner_of(&self) -> Option<PlayerId> {
        self@.winner
    }

    fn set_metadata(&mut self, metadata: GameMetadata)
        ensures
            final(self)@ == (HistoryView { metadata, ..old(self)@ }),
    {
        self.metadata = metadata;
    }

    fn push_turn_record(&mut self, record: TurnRecord, possible_actions: &Vec<Action>)
        ensures
            exists|index: usize|
                is_first_index(possible_actions@, record.action->Some_0, index as int)
                && final(self)@ == old(self)@.record(index, record.player_id, record.action->Some_0),
    {
        let action = match record.action {
            Some(a) => a,
            None => Action::EndTurn,
        };
        let action_index = position(possible_actions, action);
        self.actions.push((action_index, record.player_id));
        match action {
            Action::BuyDevelopment => {
                self.dev_turns.push(self.actions.len() - 1);
            },
            Action::MoveThief { .. } => {
                self.mthief_turns.push(self.actions.len() - 1);
            },
            Action::DevelopmentMonopole { .. } => {
                self.monopoly_turns.push(self.actions.len() - 1);
            },
            Action::RollDice => {
                self.num_dice_rolls = self.num_dice_rolls + 1;
            },
            _ => {},
        }
        proof {
            assert(self@ == old(self)@.record(action_index, record.player_id, action));
        }
    }

    fn player_count(&self) -> (r: u8)
        ensures
            r == self@.metadata.player_count,
    {
        self.metadata.player_count
    }

    fn set_winner(&mut self, winner: PlayerId)
        ensures
            final(self)@ == (HistoryView { winner: Some(winner), ..old(self)@ }),
    {
        self.winner = Some(winner);
    }

    fn get_winner(&self) -> (r: Option<PlayerId>)
        ensures
            r == self@.winner,
    {
        self.winner
    }

    fn history_len(&self) -> (r: usize)
        ensures
            r == self@.actions.len(),
    {
        self.actions.len()
    }

    fn get_turns_of_player(&self, player: PlayerId) -> (r: Vec<usize>)
        ensures
            r@ == turns_of(self@.actions, player),
    {
        let mut turns: Vec<usize> = Vec::new();
        let mut i: usize = 0;
        while i < self.actions.len()
            invariant
                i <= self.actions.len(),
                turns@ == turns_of(self.actions@.take(i as int), player),
            decreases self.actions.len() - i,
        {
            proof {
                assert(self.actions@.take(i + 1).drop_last() =~= self.actions@.take(i as int));
            }
            let (_, p) = self.actions[i];
            if p == player {
                turns.push(i);
            }
            i = i + 1;
        }
        proof {
            assert(self.actions@.take(i as int) =~= self.actions@);
        }
        turns
    }

    fn get_summary(&self) -> (r: GameSummary)
        ensures
            r == self@.summary(),
            r.total_turns == self@.actions.len(),
            r.total_dice_rolls == self@.num_dice_rolls,
            r.dev_turns == self@.dev_turns.len(),
            r.mthief_turns == self@.mthief_turns.len(),
            r.monopoly_turns == self@.monopoly_turns.len(),
    {
        GameSummary {
            total_turns: self.history_len(),
            total_dice_rolls: self.num_dice_rolls,
            dev_turns: self.dev_turns.len(),
            mthief_turns: self.mthief_turns.len(),
            monopoly_turns: self.monopoly_turns.len(),
            winner: match self.get_winner() {
                Some(p) => p.to_usize(),
                None => usize::MAX,
            },
        }
    }

    fn get_development_turn(&self, development_index: usize) -> (r: Option<usize>)
        ensures
            r == nth_turn(self@.dev_turns, development_index as int),
    {
        if development_index < self.dev_turns.len() {
            Some(self.dev_turns[development_index])
        } else {
            None
        }
    }

    fn get_thief_turn(&self, thief_index: usize) -> (r: Option<usize>)
        ensures
            r == nth_turn(self@.mthief_turns, thief_index as int),
    {
        if thief_index < self.mthief_turns.len() {
            Some(self.mthief_turns[thief_index])
        } else {
            None
        }
    }

    fn get_monopole_turn(&self, monopole_index: usize) -> (r: Option<usize>)
        ensures
            r == nth_turn(self@.monopoly_turns, monopole_index as int),
    {
        if monopole_index < self.monopoly_turns.len() {
            Some(self.monopoly_turns[monopole_index])
        } else {
            None
        }
    }
}

/// A history without moves is well indexed, and recording a move keeps it so.
pub proof fn lemma_history_stays_well_indexed(h: HistoryView, index: usize, player: PlayerId, action: Action)
    requires
        h.well_indexed(),
        h.actions.len() < usize::MAX,
    ensures
        HistoryView::empty().well_indexed(),
        h.record(index, player, action).well_indexed(),
{
}

} // verus!
