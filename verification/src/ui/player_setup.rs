use crate::error::Result;
use crate::models::game_mode::GameMode;
use crate::models::game_settings::GameSettings;
use crate::models::game_settings::PlayerSettingsEntry;
use crate::models::player_color::PlayerColor;
use crate::models::player_color::default_colors;
use crate::models::player_name::PlayerName;
use crate::models::player_type::PlayerType;
use crate::ui::models::decimal::decimal;
use crate::ui::models::decimal::push_decimal;
use vstd::prelude::*;

verus! {

/// The most players a game can have.
pub const MAX_PLAYERS: usize = 6;

/// One row of the player setup form: the name as typed, the color and the
/// player type.
#[derive(Debug)]
pub struct PlayerRow {
    name: String,
    color: PlayerColor,
    player_type: PlayerType,
}

/// A row as values: name, color and type.
pub type RowView = (Seq<char>, PlayerColor, PlayerType);

impl View for PlayerRow {
    type V = RowView;

    closed spec fn view(&self) -> RowView {
        (self.name@, self.color, self.player_type)
    }
}

/// The default row at `index`: named "Spieler <index + 1>", in the default
/// colors in turn, human.
pub open spec fn is_default_row(row: RowView, index: nat) -> bool {
    &&& row.0 == "Spieler "@ + decimal(index + 1)
    &&& row.1@ == default_colors()[(index % 6) as int]
    &&& row.2 == PlayerType::Human
}

impl PlayerRow {
    /// A row with default values for position `index`.
    pub fn default_at(index: usize) -> (row: PlayerRow)
        requires
            index < u64::MAX,
        ensures
            is_default_row(row@, index as nat),
    {
        let mut name = String::from_str("Spieler ");
        push_decimal(&mut name, index as u64 + 1);
        let colors = PlayerColor::defaults();
        PlayerRow { name, color: colors[index % 6], player_type: PlayerType::Human }
    }

    /// The name as typed.
    pub fn name(&self) -> (s: &str)
        ensures
            s@ == self@.0,
    {
        self.name.as_str()
    }

    /// The chosen color.
    pub fn color(&self) -> (c: PlayerColor)
        ensures
            c == self@.1,
    {
        self.color
    }

    /// The chosen player type.
    pub fn player_type(&self) -> (t: PlayerType)
        ensures
            t == self@.2,
    {
        self.player_type
    }
}

/// The player rows of the setup screen, before a game starts.
///
/// There is always at least one row; rows can be added up to six players.
#[derive(Debug)]
pub struct PlayerSetupForm {
    rows: Vec<PlayerRow>,
}

impl View for PlayerSetupForm {
    type V = Seq<RowView>;

    closed spec fn view(&self) -> Seq<RowView> {
        self.rows@.map_values(|r: PlayerRow| r@)
    }
}

/// The game mode for a number of players: multi-player from two on.
pub open spec fn mode_for(count: nat) -> GameMode {
    if count > 1 {
        GameMode::MultiPlayer
    } else {
        GameMode::SinglePlayer
    }
}

impl PlayerSetupForm {
    /// There is at least one row.
    #[verifier::type_invariant]
    spec fn has_rows(&self) -> bool {
        self.rows@.len() >= 1
    }

    /// Take the rows out, leaving a placeholder row until they are put back.
    fn take_rows(&mut self) -> (rows: Vec<PlayerRow>)
        ensures
            rows@ == old(self).rows@,
            rows@.len() >= 1,
    {
        proof {
            use_type_invariant(&*self);
        }
        let mut rows = Vec::new();
        rows.push(PlayerRow::default_at(0));
        std::mem::swap(&mut rows, &mut self.rows);
        rows
    }

    /// A form with one default row.
    pub fn new() -> (f: PlayerSetupForm)
        ensures
            f@.len() == 1,
            is_default_row(f@[0], 0),
    {
        let mut rows = Vec::new();
        rows.push(PlayerRow::default_at(0));
        PlayerSetupForm { rows }
    }

    /// The number of rows (never zero).
    pub fn player_count(&self) -> (n: usize)
        ensures
            n == self@.len(),
            n >= 1,
    {
        proof {
            use_type_invariant(self);
        }
        self.rows.len()
    }

    /// The row at `index`.
    pub fn row(&self, index: usize) -> (r: Option<&PlayerRow>)
        ensures
            index < self@.len() ==> (r matches Some(row) && row@ == self@[index as int]),
            index >= self@.len() ==> r is None,
    {
        if index < self.rows.len() {
            Some(&self.rows[index])
        } else {
            None
        }
    }

    /// Add a default row. Returns its index, or `None` (changing nothing)
    /// when six players are already set up.
    pub fn add_player(&mut self) -> (r: Option<usize>)
        ensures
            old(self)@.len() >= MAX_PLAYERS ==> r is None && final(self)@ == old(self)@,
            old(self)@.len() < MAX_PLAYERS ==> r == Some(old(self)@.len() as usize) && final(self)@ == old(
                self,
            )@.push(final(self)@.last()) && is_default_row(final(self)@.last(), old(self)@.len()),
    {
        let index = self.rows.len();
        if index >= MAX_PLAYERS {
            return None;
        }
        let row = PlayerRow::default_at(index);
        let mut rows = self.take_rows();
        rows.push(row);
        self.rows = rows;
        assert(self@ =~= old(self)@.push(self@.last()));
        Some(index)
    }

    /// Remove the row at `index`. Returns false, changing nothing, when the
    /// index is out of bounds or only one player remains.
    pub fn remove_player(&mut self, index: usize) -> (removed: bool)
        ensures
            removed == (old(self)@.len() > 1 && index < old(self)@.len()),
            removed ==> final(self)@ == old(self)@.remove(index as int),
            !removed ==> final(self)@ == old(self)@,
    {
        proof {
            use_type_invariant(&*self);
        }
        if self.rows.len() <= 1 || index >= self.rows.len() {
            return false;
        }
        let mut rows = self.take_rows();
        let _ = rows.remove(index);
        self.rows = rows;
        assert(self@ =~= old(self)@.remove(index as int));
        true
    }

    /// Change the name typed in the row at `index` (out of bounds: nothing).
    pub fn set_name(&mut self, index: usize, name: &str)
        ensures
            index < old(self)@.len() ==> final(self)@ == old(self)@.update(
                index as int,
                (name@, old(self)@[index as int].1, old(self)@[index as int].2),
            ),
            index >= old(self)@.len() ==> final(self)@ == old(self)@,
    {
        if index < self.rows.len() {
            let color = self.rows[index].color;
            let player_type = self.rows[index].player_type;
            let mut rows = self.take_rows();
            rows.set(index, PlayerRow { name: String::from_str(name), color, player_type });
            self.rows = rows;
            assert(self@ =~= old(self)@.update(
                index as int,
                (name@, old(self)@[index as int].1, old(self)@[index as int].2),
            ));
        }
    }

    /// Change the color and type chosen in the row at `index` (out of
    /// bounds: nothing).
    pub fn set_choice(&mut self, index: usize, color: PlayerColor, player_type: PlayerType)
        ensures
            index < old(self)@.len() ==> final(self)@ == old(self)@.update(
                index as int,
                (old(self)@[index as int].0, color, player_type),
            ),
            index >= old(self)@.len() ==> final(self)@ == old(self)@,
    {
        if index < self.rows.len() {
            let name = String::from_str(self.rows[index].name.as_str());
            let mut rows = self.take_rows();
            rows.set(index, PlayerRow { name, color, player_type });
            self.rows = rows;
            assert(self@ =~= old(self)@.update(index as int, (old(self)@[index as int].0, color, player_type)));
        }
    }

    /// Replace all rows by the players of `settings`; with no players, a
    /// single default row is kept.
    pub fn load_settings(&mut self, settings: &GameSettings)
        ensures
            settings.players_of().len() == 0 ==> final(self)@.len() == 1 && is_default_row(final(self)@[0], 0),
            settings.players_of().len() > 0 ==> final(self)@ == settings.players_of().map_values(
                |e: PlayerSettingsEntry| (e.name_of(), e.color_of(), e.type_of()),
            ),
    {
        let players = settings.players();
        let mut rows: Vec<PlayerRow> = Vec::new();
        let mut i: usize = 0;
        while i < players.len()
            invariant
                players@ == settings.players_of(),
                i <= players@.len(),
                rows@.len() == i,
                forall|j: int|
                    0 <= j < i ==> (#[trigger] rows@[j])@ == (
                        players@[j].name_of(),
                        players@[j].color_of(),
                        players@[j].type_of(),
                    ),
            decreases players.len() - i,
        {
            let e = &players[i];
            rows.push(
                PlayerRow {
                    name: String::from_str(e.name().as_str()),
                    color: e.color(),
                    player_type: e.player_type(),
                },
            );
            i += 1;
        }
        if rows.len() == 0 {
            rows.push(PlayerRow::default_at(0));
        }
        self.rows = rows;
        proof {
            if settings.players_of().len() > 0 {
                assert(self@ =~= settings.players_of().map_values(
                    |e: PlayerSettingsEntry| (e.name_of(), e.color_of(), e.type_of()),
                ));
            }
        }
    }

    /// The current rows as game settings: multi-player from two players
    /// on. Fails with `EmptyPlayerName` when a row has no name.
    pub fn collect_settings(&self) -> (r: Result<GameSettings>)
        ensures
            r is Ok <==> (forall|i: int| 0 <= i < self@.len() ==> (#[trigger] self@[i]).0.len() > 0),
            r matches Err(e) ==> e == crate::error::YatzyError::EmptyPlayerName,
            r matches Ok(s) ==> s.mode_of() == mode_for(self@.len()) && s.players_of().map_values(
                |e: PlayerSettingsEntry| (e.name_of(), e.color_of(), e.type_of()),
            ) == self@,
    {
        let mut entries: Vec<PlayerSettingsEntry> = Vec::new();
        let mut i: usize = 0;
        while i < self.rows.len()
            invariant
                i <= self.rows@.len(),
                entries@.len() == i,
                forall|j: int| 0 <= j < i ==> (#[trigger] self@[j]).0.len() > 0,
                forall|j: int|
                    0 <= j < i ==> ((#[trigger] entries@[j]).name_of(), entries@[j].color_of(), entries@[j].type_of())
                        == self@[j],
            decreases self.rows.len() - i,
        {
            let row = &self.rows[i];
            assert(self@[i as int] == row@);
            let name = match PlayerName::new(row.name.as_str()) {
                Ok(n) => n,
                Err(e) => {
                    return Err(e);
                },
            };
            entries.push(PlayerSettingsEntry::new(name, row.color, row.player_type));
            i += 1;
        }
        let mode = if entries.len() > 1 {
            GameMode::MultiPlayer
        } else {
            GameMode::SinglePlayer
        };
        let s = GameSettings::new(mode, entries);
        assert(s.players_of().map_values(|e: PlayerSettingsEntry| (e.name_of(), e.color_of(), e.type_of()))
            =~= self@);
        Ok(s)
    }
}

} // verus!

verus! {

/// Removing the row that `add_player` just added gives back the rows as
/// they were.
pub proof fn lemma_add_then_remove_restores(before: Seq<RowView>, added: Seq<RowView>, row: RowView)
    requires
        added == before.push(row),
    ensures
        added.remove(before.len() as int) == before,
{
    assert(added.remove(before.len() as int) =~= before);
}

} // verus!
