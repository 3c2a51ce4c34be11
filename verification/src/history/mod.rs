use vstd::prelude::*;
use crate::board::coord::Coord;
use crate::game::action::Action;
use crate::game::phase::Phase;
use crate::state::PlayerId;
use crate::utils::development_card::DevelopmentCard;
use crate::utils::resource::Resources;

pub mod detailed_id_game_history;
pub mod viewer;

pub use detailed_id_game_history::DetailedIdGameHistory;

verus! {

/// What is needed to set a game up again: its number of players and its seed.
#[derive(Clone, Copy, PartialEq, Eq, Structural, Debug)]
pub struct GameMetadata {
    pub player_count: u8,
    pub seed: u64,
}

impl Default for GameMetadata {
    fn default() -> (r: GameMetadata)
        ensures
            r == (GameMetadata { player_count: 0, seed: 0 }),
    {
        GameMetadata { player_count: 0, seed: 0 }
    }
}

/// Counts that sum a finished game up.
#[derive(Clone, Copy, PartialEq, Eq, Structural, Debug)]
pub struct GameSummary {
    pub total_turns: usize,
    pub total_dice_rolls: usize,
    pub dev_turns: usize,
    pub mthief_turns: usize,
    pub monopoly_turns: usize,
    /// The winner's seat, or `usize::MAX` when there is none.
    pub winner: usize,
}

/// What happened in one move of a game.
#[derive(Clone, Debug)]
pub struct TurnRecord {
    pub player_id: PlayerId,
    pub action: Option<Action>,
    pub phase: Phase,
    pub dice_roll: Option<u8>,
    pub knight_pos: Option<Coord>,
    pub build_pos: Option<Coord>,
    /// How the resources of each player changed.
    pub resource_changes: Vec<Resources>,
    pub development_card: Option<DevelopmentCard>,
    pub new_longest_road: Option<PlayerId>,
    pub new_largest_army: Option<PlayerId>,
}

/// The resource changes after the discards: each player who discarded a
/// bundle loses it, later entries overriding earlier ones.
pub open spec fn apply_discards(changes: Seq<Resources>, discards: Seq<(PlayerId, Option<Resources>)>) -> Seq<Resources>
    decreases discards.len(),
{
    if discards.len() == 0 {
        changes
    } else {
        let prev = apply_discards(changes, discards.drop_last());
        match discards.last().1 {
            Some(res) => prev.update(discards.last().0.0 as int, res.negated()),
            None => prev,
        }
    }
}

/// Every discard can be recorded: its player has a slot and its bundle can be negated.
pub open spec fn discards_recordable(len: int, discards: Seq<(PlayerId, Option<Resources>)>) -> bool {
    forall|i: int| 0 <= i < discards.len() ==> match #[trigger] discards[i].1 {
        Some(res) => discards[i].0.0 < len && res.neg_fits(),
        None => true,
    }
}

impl TurnRecord {
    /// The record of a move not yet described, for `player_count` players.
    pub fn new(player_count: usize) -> (r: TurnRecord)
        ensures
            r.player_id == PlayerId::spec_none(),
            r.action == None::<Action>,
            r.phase == (Phase::InitialPlacement { player: PlayerId(0), placing_second: false, placing_road: false }),
            r.dice_roll == None::<u8>,
            r.knight_pos == None::<Coord>,
            r.build_pos == None::<Coord>,
            r.resource_changes@ == Seq::new(player_count as nat, |i: int| Resources::spec_new(0, 0, 0, 0, 0)),
            r.development_card == None::<DevelopmentCard>,
            r.new_longest_road == None::<PlayerId>,
            r.new_largest_army == None::<PlayerId>,
    {
        let mut resource_changes: Vec<Resources> = Vec::new();
        let mut i: usize = 0;
        while i < player_count
            invariant
                i <= player_count,
                resource_changes@ == Seq::new(i as nat, |i: int| Resources::spec_new(0, 0, 0, 0, 0)),
            decreases player_count - i,
        {
            resource_changes.push(Resources::zero());
            proof {
                assert(resource_changes@ =~= Seq::new((i + 1) as nat, |i: int| Resources::spec_new(0, 0, 0, 0, 0)));
            }
            i = i + 1;
        }
        TurnRecord {
            player_id: PlayerId::none(),
            action: None,
            phase: Phase::start_game(),
            dice_roll: None,
            knight_pos: None,
            build_pos: None,
            resource_changes,
            development_card: None,
            new_longest_road: None,
            new_largest_army: None,
        }
    }

    pub fn set_player_id(&mut self, player_id: PlayerId)
        ensures
            *final(self) == (TurnRecord { player_id, ..*old(self) }),
    {
        self.player_id = player_id;
    }

    pub fn set_action(&mut self, action: Action)
        ensures
            *final(self) == (TurnRecord { action: Some(action), ..*old(self) }),
    {
        self.action = Some(action);
    }

    pub fn set_phase(&mut self, phase: Phase)
        ensures
            *final(self) == (TurnRecord { phase, ..*old(self) }),
    {
        self.phase = phase;
    }

    pub fn set_dice_roll(&mut self, roll: u8)
        ensures
            *final(self) == (TurnRecord { dice_roll: Some(roll), ..*old(self) }),
    {
        self.dice_roll = Some(roll);
    }

    pub fn set_knight_pos(&mut self, pos: Coord)
        ensures
            *final(self) == (TurnRecord { knight_pos: Some(pos), ..*old(self) }),
    {
        self.knight_pos = Some(pos);
    }

    pub fn set_build_pos(&mut self, pos: Coord)
        ensures
            *final(self) == (TurnRecord { build_pos: Some(pos), ..*old(self) }),
    {
        self.build_pos = Some(pos);
    }

    pub fn set_resources_change(&mut self, player_id: PlayerId, change: Resources)
        requires
            player_id.0 < old(self).resource_changes.len(),
        ensures
            final(self).resource_changes@ == old(self).resource_changes@.update(player_id.0 as int, change),
            *final(self) == (TurnRecord { resource_changes: final(self).resource_changes, ..*old(self) }),
    {
        let i = player_id.to_usize();
        self.resource_changes.set(i, change);
    }

    pub fn set_resources_change_all(&mut self, change: Vec<Resources>)
        ensures
            *final(self) == (TurnRecord { resource_changes: change, ..*old(self) }),
    {
        self.resource_changes = change;
    }

    pub fn set_development_card(&mut self, card: DevelopmentCard)
        ensures
            *final(self) == (TurnRecord { development_card: Some(card), ..*old(self) }),
    {
        self.development_card = Some(card);
    }

    pub fn set_new_longest_road(&mut self, player_id: PlayerId)
        ensures
            *final(self) == (TurnRecord { new_longest_road: Some(player_id), ..*old(self) }),
    {
        self.new_longest_road = Some(player_id);
    }

    pub fn set_new_largest_army(&mut self, player_id: PlayerId)
        ensures
            *final(self) == (TurnRecord { new_largest_army: Some(player_id), ..*old(self) }),
    {
        self.new_largest_army = Some(player_id);
    }

    /// Records the discards: each player who discarded a bundle lost it.
    pub fn set_discards_change(&mut self, discards: &Vec<(PlayerId, Option<Resources>)>)
        requires
            discards_recordable(old(self).resource_changes.len() as int, discards@),
        ensures
            final(self).resource_changes@ == apply_discards(old(self).resource_changes@, discards@),
            *final(self) == (TurnRecord { resource_changes: final(self).resource_changes, ..*old(self) }),
    {
        let ghost start = self.resource_changes@;
        let mut i: usize = 0;
        while i < discards.len()
            invariant
                i <= discards.len(),
                discards_recordable(start.len() as int, discards@),
                self.resource_changes@.len() == start.len(),
                self.resource_changes@ == apply_discards(start, discards@.take(i as int)),
                *self == (TurnRecord { resource_changes: self.resource_changes, ..*old(self) }),
                old(self).resource_changes@ == start,
            decreases discards.len() - i,
        {
            let (p, r) = discards[i];
            proof {
                assert(discards@.take(i + 1).drop_last() =~= discards@.take(i as int));
                assert(discards@[i as int] == (p, r));
            }
            if let Some(res) = r {
                self.set_resources_change(p, core::ops::Neg::neg(res));
            }
            i = i + 1;
        }
        proof {
            assert(discards@.take(i as int) =~= discards@);
        }
    }
}

/// The record of a played game.
pub trait GameHistoryTrait {
    /// One more move can be recorded without a counter overflowing.
    spec fn can_record(&self) -> bool;

    /// The metadata of the recorded game.
    spec fn metadata_of(&self) -> GameMetadata;

    /// The winner recorded, if any.
    spec fn winner_of(&self) -> Option<PlayerId>;

    fn set_metadata(&mut self, metadata: GameMetadata)
        ensures
            final(self).metadata_of() == metadata,
            final(self).winner_of() == old(self).winner_of(),
    ;

    /// Records a move; `possible_actions` is the table of all the actions the
    /// move is looked up in.
    fn push_turn_record(&mut self, record: TurnRecord, possible_actions: &Vec<Action>)
        requires
            old(self).can_record(),
            record.action is Some,
            possible_actions@.contains(record.action->Some_0),
        ensures
            final(self).metadata_of() == old(self).metadata_of(),
            final(self).winner_of() == old(self).winner_of(),
    ;

    fn player_count(&self) -> (r: u8)
        ensures
            r == self.metadata_of().player_count,
    ;

    fn set_winner(&mut self, winner: PlayerId)
        ensures
            final(self).winner_of() == Some(winner),
            final(self).metadata_of() == old(self).metadata_of(),
    ;

    fn get_winner(&self) -> (r: Option<PlayerId>)
        ensures
            r == self.winner_of(),
    ;

    fn history_len(&self) -> (r: usize)
        default_ensures
            r == 0,
    {
        0
    }

    fn get_turns_of_player(&self, _player: PlayerId) -> (r: Vec<usize>)
        default_ensures
            r@ == Seq::<usize>::empty(),
    {
        Vec::new()
    }

    fn get_summary(&self) -> (r: GameSummary)
        default_ensures
            r.total_dice_rolls == 0,
            r.dev_turns == 0,
            r.mthief_turns == 0,
            r.monopoly_turns == 0,
            r.winner == (match self.winner_of() {
                Some(p) => p.0 as usize,
                None => usize::MAX,
            }),
    {
        GameSummary {
            total_turns: self.history_len(),
            total_dice_rolls: 0,
            dev_turns: 0,
            mthief_turns: 0,
            monopoly_turns: 0,
            winner: match self.get_winner() {
                Some(p) => p.to_usize(),
                None => usize::MAX,
            },
        }
    }

    fn get_development_turn(&self, _development_index: usize) -> (r: Option<usize>)
        default_ensures
            r is None,
    {
        None
    }

    fn get_thief_turn(&self, _thief_index: usize) -> (r: Option<usize>)
        default_ensures
            r is None,
    {
        None
    }

    fn get_monopole_turn(&self, _monopole_index: usize) -> (r: Option<usize>)
        default_ensures
            r is None,
    {
        None
    }
}

} // verus!
