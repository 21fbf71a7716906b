//! Where things are drawn: the places on the screen that depend on its size
//! and on the state of the panels, and the lines of the lists.

use vstd::prelude::*;
use vstd::string::*;
use crate::resolve::{artwork_page_address, artwork_url};
use crate::sweep::Mark;
use crate::text::{decimal, decimal_string};

verus! {

/// A rectangle of the screen, in cells.
#[derive(Clone, Copy, Debug, PartialEq, Eq, Structural)]
pub struct Area {
    pub x: u16,
    pub y: u16,
    pub width: u16,
    pub height: u16,
}

/// The width of a progress gauge, its height, and the room it is given.
pub const GAUGE_WIDTH: u16 = 20;

pub const GAUGE_HEIGHT: u16 = 3;

pub const GAUGE_ROOM_X: u16 = 25;

pub const GAUGE_ROOM_Y: u16 = 4;

/// The height of an item of the settings panel.
pub const ITEM_HEIGHT: u16 = 3;

/// How a border, or the line of a list, is shown.
#[derive(Clone, Copy, Debug, PartialEq, Eq, Structural)]
pub enum Tone {
    /// Something has failed.
    Alert,
    /// A download runs.
    Busy,
    /// The part has the user's attention.
    Bright,
    /// The part is at rest.
    Dim,
    /// Nothing special.
    Plain,
}

/// The rectangle of half the width and half the height of the screen, in
/// its middle.
pub open spec fn centered_half(width: u16, height: u16) -> Area {
    Area {
        x: ((width - width / 2) / 2) as u16,
        y: ((height - height / 2) / 2) as u16,
        width: width / 2,
        height: height / 2,
    }
}

/// The place of gauge number `index`, counted from the lower right corner
/// of the screen upwards; none where the screen has no room for it.
pub open spec fn gauge_spec(width: u16, height: u16, index: nat) -> Option<Area> {
    if width < GAUGE_ROOM_X || height < (index + 1) * GAUGE_ROOM_Y {
        None
    } else {
        Some(
            Area {
                x: (width - GAUGE_ROOM_X) as u16,
                y: (height - (index + 1) * GAUGE_ROOM_Y) as u16,
                width: GAUGE_WIDTH,
                height: GAUGE_HEIGHT,
            },
        )
    }
}

/// The place of item number `index` of the settings panel within `inside`:
/// the items stand below each other; none where the place would leave the
/// range of screen coordinates.
pub open spec fn item_spec(inside: Area, index: nat) -> Option<Area> {
    if inside.y + index * ITEM_HEIGHT > u16::MAX {
        None
    } else {
        Some(
            Area {
                x: inside.x,
                y: (inside.y + index * ITEM_HEIGHT) as u16,
                width: inside.width,
                height: ITEM_HEIGHT,
            },
        )
    }
}

/// The column of the cursor in a field that begins at column `x` and
/// holds `typed` characters: behind the last of them, within the border;
/// held at the largest column.
pub open spec fn cursor_spec(x: u16, typed: nat) -> u16 {
    if x + typed + 1 > u16::MAX {
        u16::MAX
    } else {
        (x + typed + 1) as u16
    }
}

/// The tone of the border of a panel: alert after a failure; else dim
/// while the menu has the focus, bright while the panel has it.
pub open spec fn border_tone(error: bool, menu_has_focus: bool) -> Tone {
    if error {
        Tone::Alert
    } else if !menu_has_focus {
        Tone::Bright
    } else {
        Tone::Dim
    }
}

/// The tone of the line of a listed artwork.
pub open spec fn mark_tone(mark: Mark) -> Tone {
    match mark {
        Mark::Failed => Tone::Alert,
        Mark::Downloading => Tone::Busy,
        _ => Tone::Plain,
    }
}

/// `s` followed by blanks up to the length `width`.
pub open spec fn padded(s: Seq<char>, width: nat) -> Seq<char>
    decreases width - s.len(),
{
    if s.len() >= width {
        s
    } else {
        padded(s.push(' '), width)
    }
}

/// The line of the entry of rank `rank` of a ranking: its rank in a column
/// of three, its title and the address of its page.
pub open spec fn rank_line_spec(rank: nat, title: Seq<char>, id: nat) -> Seq<char> {
    padded(decimal(rank), 3) + " |"@ + title + " "@ + artwork_url(id)
}

/// The rectangle of half the width and half the height of the screen, in
/// its middle.
pub fn popup_area(width: u16, height: u16) -> (a: Area)
    ensures
        a == centered_half(width, height),
{
    let w: u16 = width / 2;
    let h: u16 = height / 2;
    Area { x: (width - w) / 2, y: (height - h) / 2, width: w, height: h }
}

/// The place of gauge number `index`.
pub fn gauge_area(width: u16, height: u16, index: usize) -> (a: Option<Area>)
    ensures
        a == gauge_spec(width, height, index as nat),
{
    if width < GAUGE_ROOM_X || index >= 16384 {
        return None;
    }
    let offset: usize = (index + 1) * 4;
    if offset > height as usize {
        return None;
    }
    Some(
        Area {
            x: width - GAUGE_ROOM_X,
            y: height - offset as u16,
            width: GAUGE_WIDTH,
            height: GAUGE_HEIGHT,
        },
    )
}

/// The place of item number `index` of the settings panel within `inside`.
pub fn item_area(inside: Area, index: usize) -> (a: Option<Area>)
    ensures
        a == item_spec(inside, index as nat),
{
    if index > 21845 {
        return None;
    }
    let offset: usize = index * 3;
    if inside.y as usize + offset > 65535 {
        return None;
    }
    Some(
        Area {
            x: inside.x,
            y: (inside.y as usize + offset) as u16,
            width: inside.width,
            height: ITEM_HEIGHT,
        },
    )
}

/// The column of the cursor in a field that begins at column `x` and
/// holds `typed` characters.
pub fn cursor_column(x: u16, typed: usize) -> (column: u16)
    ensures
        column == cursor_spec(x, typed as nat),
{
    if typed >= 65535 {
        65535
    } else {
        x.saturating_add(typed as u16 + 1)
    }
}

/// The tone of the border of a panel.
pub fn tone_of_border(error: bool, menu_has_focus: bool) -> (t: Tone)
    ensures
        t == border_tone(error, menu_has_focus),
{
    if error {
        Tone::Alert
    } else if !menu_has_focus {
        Tone::Bright
    } else {
        Tone::Dim
    }
}

/// The tone of the line of a listed artwork.
pub fn tone_of_mark(mark: Mark) -> (t: Tone)
    ensures
        t == mark_tone(mark),
{
    match mark {
        Mark::Failed => Tone::Alert,
        Mark::Downloading => Tone::Busy,
        _ => Tone::Plain,
    }
}

/// `s` followed by blanks up to the length `width`.
pub fn pad(s: String, width: usize) -> (r: String)
    ensures
        r@ == padded(s@, width as nat),
{
    let mut r: String = s;
    let mut n: usize = r.as_str().unicode_len();
    while n < width
        invariant
            n == r@.len(),
            padded(r@, width as nat) == padded(s@, width as nat),
        decreases width - n,
    {
        let ghost before = r@;
        proof {
            reveal_strlit(" ");
        }
        r.append(" ");
        assert(r@ =~= before.push(' '));
        n += 1;
    }
    r
}

/// The line of the entry of rank `rank` of a ranking.
pub fn rank_line(rank: usize, title: &str, id: u64) -> (line: String)
    ensures
        line@ == rank_line_spec(rank as nat, title@, id as nat),
{
    let mut line: String = pad(decimal_string(rank as u64), 3);
    line.append(" |");
    line.append(title);
    line.append(" ");
    let address: String = artwork_page_address(id);
    line.append(address.as_str());
    line
}

} // verus!
