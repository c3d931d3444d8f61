//! The game's top-level state: a player name while starting, and five dice
//! once the game is under way.

use crate::die::{settled, DieData, DieState};
use crate::score::Score;
use vstd::prelude::*;

verus! {

/// The state before the game starts: the name being typed in.
#[derive(Debug, Clone)]
pub struct StartingState {
    pub player_name: String,
}

/// The state of a game under way.
#[derive(Debug, Clone)]
pub struct InGameState {
    pub player_name: String,
    pub dice: [DieData; 5],
}

#[derive(Debug, Clone)]
pub enum YatzyState {
    Starting(StartingState),
    InGame(InGameState),
}

/// The commands the game reacts to.
#[derive(Debug, Copy, Clone, PartialEq, Eq, Structural)]
pub enum GameCommand {
    /// Set the first die rolling.
    Roll,
    /// Settle the first die on the given score.
    StopRoll(Score),
    /// Leave the starting screen for a new game.
    StartGame,
    /// Any command the game does not know; it is passed on untouched.
    Other,
}

/// The dice once the game has taken `cmd`: only the first die is driven by
/// the roll commands, and its brightness is kept.
pub open spec fn dice_after(dice: Seq<DieData>, cmd: GameCommand) -> Seq<DieData> {
    match cmd {
        GameCommand::Roll => dice.update(0, DieData { state: DieState::Rolling, bright: dice[0].bright }),
        GameCommand::StopRoll(s) => dice.update(0, DieData { state: DieState::Value(s), bright: dice[0].bright }),
        _ => dice,
    }
}

/// The dice once the game has taken each of `cmds` in turn.
pub open spec fn dice_after_all(dice: Seq<DieData>, cmds: Seq<GameCommand>) -> Seq<DieData>
    decreases cmds.len(),
{
    if cmds.len() == 0 {
        dice
    } else {
        dice_after_all(dice_after(dice, cmds[0]), cmds.drop_first())
    }
}

/// The five dice of a new game.
pub open spec fn new_game_dice() -> Seq<DieData> {
    seq![settled(6), settled(6), settled(6), settled(6), settled(6)]
}

impl YatzyState {
    pub open spec fn in_game(&self) -> bool {
        self is InGame
    }

    pub open spec fn player(&self) -> Seq<char> {
        match self {
            YatzyState::Starting(s) => s.player_name@,
            YatzyState::InGame(g) => g.player_name@,
        }
    }

    /// The dice of a game under way; none before the game starts.
    pub open spec fn dice_view(&self) -> Seq<DieData> {
        match self {
            YatzyState::Starting(_) => seq![],
            YatzyState::InGame(g) => g.dice@,
        }
    }

    /// Start a game for the player: five dice, all settled on 6. The game can
    /// be started once only.
    pub fn start_game(&mut self)
        requires
            !old(self).in_game(),
        ensures
            final(self).in_game(),
            final(self).player() == old(self).player(),
            final(self).dice_view() == new_game_dice(),
    {
        let d = DieData::new(6);
        let player_name = match self {
            YatzyState::Starting(state) => state.player_name.clone(),
            YatzyState::InGame(_) => String::new(),
        };
        *self = YatzyState::InGame(InGameState { player_name, dice: [d, d, d, d, d] });
        assert(self.dice_view() =~= new_game_dice());
    }

    /// Take a command. Returns whether the command is passed on, which is
    /// the case for the commands the game does not know. Roll commands before
    /// the game starts are ignored; starting a game already under way is a
    /// programming error, which `requires` leaves out.
    pub fn command(&mut self, cmd: GameCommand) -> (passed_on: bool)
        requires
            !(cmd is StartGame && old(self).in_game()),
        ensures
            passed_on == (cmd is Other),
            cmd is StartGame ==> {
                &&& final(self).in_game()
                &&& final(self).player() == old(self).player()
                &&& final(self).dice_view() == new_game_dice()
            },
            !(cmd is StartGame) && !old(self).in_game() ==> *final(self) == *old(self),
            !(cmd is StartGame) && old(self).in_game() ==> {
                &&& final(self).in_game()
                &&& final(self).player() == old(self).player()
                &&& final(self).dice_view() == dice_after(old(self).dice_view(), cmd)
            },
    {
        match cmd {
            GameCommand::Roll => {
                if let YatzyState::InGame(data) = self {
                    data.dice[0].set_rolling();
                }
                false
            },
            GameCommand::StartGame => {
                self.start_game();
                false
            },
            GameCommand::StopRoll(score) => {
                if let YatzyState::InGame(data) = self {
                    data.dice[0].set_value(score);
                }
                false
            },
            GameCommand::Other => true,
        }
    }
}

/// Whatever commands the game takes, the dice other than the first keep
/// their data, and there stay as many dice.
pub proof fn lemma_other_dice_kept(dice: Seq<DieData>, cmds: Seq<GameCommand>)
    requires
        dice.len() == 5,
    ensures
        dice_after_all(dice, cmds).len() == 5,
        forall|i: int| 1 <= i < 5 ==> #[trigger] dice_after_all(dice, cmds)[i] == dice[i],
    decreases cmds.len(),
{
    if cmds.len() > 0 {
        let next = dice_after(dice, cmds[0]);
        lemma_other_dice_kept(next, cmds.drop_first());
        assert forall|i: int| 1 <= i < 5 implies #[trigger] dice_after_all(dice, cmds)[i] == dice[i] by {
            assert(next[i] == dice[i]);
        }
    }
}

/// Rolling the first die and then stopping it on `score` leaves it settled
/// on `score`, with its brightness kept; the rolling value shown meanwhile
/// is not part of the game's data and leaves no trace.
pub proof fn lemma_roll_then_stop(dice: Seq<DieData>, score: Score)
    requires
        dice.len() == 5,
    ensures
        dice_after_all(dice, seq![GameCommand::Roll, GameCommand::StopRoll(score)])[0]
            == (DieData { state: DieState::Value(score), bright: dice[0].bright }),
{
    let cmds = seq![GameCommand::Roll, GameCommand::StopRoll(score)];
    assert(cmds.drop_first() =~= seq![GameCommand::StopRoll(score)]);
    assert(cmds.drop_first().drop_first() =~= Seq::<GameCommand>::empty());
    let rolled = dice_after(dice, GameCommand::Roll);
    let stopped = dice_after(rolled, GameCommand::StopRoll(score));
    assert(dice_after_all(stopped, cmds.drop_first().drop_first()) == stopped);
    assert(dice_after_all(rolled, cmds.drop_first()) == stopped);
}


} // verus!
