//! The tab bar: the labels of the tabs and the cells they take.

use crate::app::TabHitbox;
use crate::tabs::TabId;
use crate::text::{decimal, decimal_text};
use vstd::prelude::*;
use vstd::string::StringExecFns;

verus! {

/// The label of a tab in the tab bar: its number and its title.
pub open spec fn label_text(tab: TabId) -> Seq<char> {
    decimal_text(tab.position()) + " "@ + match tab {
        TabId::Network => "Network"@,
        TabId::Browse => "Browse"@,
        TabId::Downloads => "Downloads"@,
        TabId::Files => "Files"@,
        TabId::Logs => "Logs"@,
    }
}

/// The label of a tab in the tab bar.
pub fn tab_label(tab: TabId) -> (r: String)
    ensures
        r@ == label_text(tab),
{
    decimal(tab.number() as u64).concat(" ").concat(tab.title())
}

/// The number of cells that the label of a tab takes.
pub open spec fn label_width(tab: TabId) -> u16 {
    match tab {
        TabId::Network => 9,
        TabId::Browse => 8,
        TabId::Downloads => 11,
        TabId::Files => 7,
        TabId::Logs => 6,
    }
}

/// The label of a tab takes one cell for each of its characters.
pub proof fn lemma_label_width(tab: TabId)
    ensures
        label_text(tab).len() == label_width(tab),
{
    reveal_strlit(" ");
    reveal_strlit("Network");
    reveal_strlit("Browse");
    reveal_strlit("Downloads");
    reveal_strlit("Files");
    reveal_strlit("Logs");
    reveal_with_fuel(decimal_text, 2);
}

/// The column at which the label of the tab at `position` begins, in a tab
/// bar that begins at column `x`: the labels stand in the order of the tabs,
/// with three cells between one and the next.
pub open spec fn label_start(x: u16, position: nat) -> int
    decreases position,
{
    if position <= 1 {
        x as int
    } else {
        label_start(x, (position - 1) as nat) + label_width(
            crate::tabs::tab_at((position - 1) as usize)->0,
        ) + 3
    }
}

/// The number of cells of the whole tab bar.
pub const TAB_BAR_WIDTH: u16 = 53;

/// The cells of the labels of a tab bar drawn from column `x` in row `y`:
/// one box per tab, in the order of the tabs, each one row high and as wide
/// as its label.
pub fn tab_hitboxes(x: u16, y: u16) -> (r: Vec<TabHitbox>)
    requires
        x + TAB_BAR_WIDTH <= u16::MAX,
        y < u16::MAX,
    ensures
        r@.len() == 5,
        forall|i: int|
            0 <= i < 5 ==> {
                &&& (#[trigger] r@[i]).tab.position() == i + 1
                &&& r@[i].x0 == label_start(x, (i + 1) as nat)
                &&& r@[i].x1 == r@[i].x0 + label_width(r@[i].tab)
                &&& r@[i].y0 == y
                &&& r@[i].y1 == y + 1
            },
{
    proof {
        reveal_with_fuel(label_start, 6);
    }
    let mut boxes: Vec<TabHitbox> = Vec::new();
    boxes.push(TabHitbox { tab: TabId::Network, x0: x, x1: x + 9, y0: y, y1: y + 1 });
    boxes.push(TabHitbox { tab: TabId::Browse, x0: x + 12, x1: x + 20, y0: y, y1: y + 1 });
    boxes.push(TabHitbox { tab: TabId::Downloads, x0: x + 23, x1: x + 34, y0: y, y1: y + 1 });
    boxes.push(TabHitbox { tab: TabId::Files, x0: x + 37, x1: x + 44, y0: y, y1: y + 1 });
    boxes.push(TabHitbox { tab: TabId::Logs, x0: x + 47, x1: x + 53, y0: y, y1: y + 1 });
    boxes
}

/// The tab whose label holds the cell at `col`, `row`: the first box that
/// holds the cell, if any.
pub fn tab_at_cell(boxes: &Vec<TabHitbox>, col: u16, row: u16) -> (r: Option<TabId>)
    ensures
        match r {
            Some(tab) => exists|i: int|
                0 <= i < boxes@.len() && box_holds(#[trigger] boxes@[i], col, row) && boxes@[i].tab
                    == tab && forall|k: int| 0 <= k < i ==> !box_holds(#[trigger] boxes@[k], col, row),
            None => forall|i: int| 0 <= i < boxes@.len() ==> !box_holds(#[trigger] boxes@[i], col, row),
        },
{
    let mut i: usize = 0;
    while i < boxes.len()
        invariant
            i <= boxes.len(),
            forall|k: int| 0 <= k < i ==> !box_holds(#[trigger] boxes@[k], col, row),
        decreases boxes.len() - i,
    {
        let hitbox = &boxes[i];
        if col >= hitbox.x0 && col < hitbox.x1 && row >= hitbox.y0 && row < hitbox.y1 {
            return Some(hitbox.tab);
        }
        i += 1;
    }
    None
}

/// Whether the cell at `col`, `row` lies in the box.
pub open spec fn box_holds(hitbox: TabHitbox, col: u16, row: u16) -> bool {
    hitbox.x0 <= col < hitbox.x1 && hitbox.y0 <= row < hitbox.y1
}

} // verus!
