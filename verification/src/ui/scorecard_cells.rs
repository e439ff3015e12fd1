use crate::models::category::ScoreCategory;
use crate::models::dice_color::DiceColor;
use crate::models::dice_slot::DiceSlot;
use crate::models::score_entry::ScoreEntry;
use crate::ui::models::decimal::decimal;
use crate::ui::models::decimal::push_decimal;
use vstd::prelude::*;

verus! {

/// The text shown for a scorecard entry: nothing when empty, the score
/// when filled, a dash when crossed out.
pub open spec fn entry_text(entry: ScoreEntry) -> Seq<char> {
    match entry {
        ScoreEntry::Empty => Seq::empty(),
        ScoreEntry::Filled(s) => decimal(s@ as nat),
        ScoreEntry::CrossedOut => "—"@,
    }
}

/// How one player's cell of one category is shown.
#[derive(Debug)]
pub struct ScoreCell {
    /// The text of the cell.
    pub text: String,
    /// The category is filled or crossed out.
    pub filled: bool,
    /// The cell belongs to the active player.
    pub active: bool,
    /// The active player can still choose this category.
    pub clickable: bool,
    /// This is the entry made last.
    pub recent: bool,
    /// The category was crossed out.
    pub crossed_out: bool,
}

/// The cell of `player` for `category`, whose entry is `entry`, while
/// `active_player` is playing and `last_entered` was the last entry made.
pub fn score_cell(
    entry: ScoreEntry,
    player: usize,
    active_player: usize,
    category: ScoreCategory,
    last_entered: Option<(usize, ScoreCategory)>,
) -> (cell: ScoreCell)
    ensures
        cell.text@ == entry_text(entry),
        cell.filled == !(entry is Empty),
        cell.active == (player == active_player),
        cell.clickable == (player == active_player && entry is Empty),
        cell.recent == (last_entered == Some((player, category))),
        cell.crossed_out == (entry is CrossedOut),
{
    let text = match entry {
        ScoreEntry::Empty => String::new(),
        ScoreEntry::Filled(score) => {
            let mut t = String::new();
            push_decimal(&mut t, score.get() as u64);
            proof {
                assert(Seq::<char>::empty() + decimal(score@ as nat) =~= decimal(score@ as nat));
            }
            t
        },
        ScoreEntry::CrossedOut => String::from_str("—"),
    };
    let filled = entry.is_used();
    let active = player == active_player;
    let recent = match last_entered {
        Some((p, c)) => p == player && c == category,
        None => false,
    };
    ScoreCell {
        text,
        filled,
        active,
        clickable: active && !filled,
        recent,
        crossed_out: match entry {
            ScoreEntry::CrossedOut => true,
            _ => false,
        },
    }
}

/// The first slot of the setup screen without a die color (neither
/// discovered nor connected), if any.
pub fn next_empty_slot(colors: &[Option<DiceColor>; 5]) -> (slot: Option<DiceSlot>)
    ensures
        slot matches Some(s) ==> s@ < 5 && colors@[s@ as int] is None && forall|j: int|
            0 <= j < s@ ==> (#[trigger] colors@[j]) is Some,
        slot is None ==> forall|j: int| 0 <= j < 5 ==> (#[trigger] colors@[j]) is Some,
{
    let slots = DiceSlot::all();
    let mut i: usize = 0;
    while i < 5
        invariant
            i <= 5,
            slots@.len() == 5,
            forall|j: int| 0 <= j < 5 ==> (#[trigger] slots@[j])@ == j,
            forall|j: int| 0 <= j < i ==> (#[trigger] colors@[j]) is Some,
        decreases 5 - i,
    {
        if colors[i].is_none() {
            return Some(slots[i]);
        }
        i += 1;
    }
    None
}

} // verus!
