//! The tabs of the client and the commands that input produces.

use vstd::prelude::*;

pub mod logs;
pub mod network;
pub mod stubs;

pub use logs::LogsTab;
pub use network::NetworkTab;
pub use stubs::{BrowseTab, DownloadsTab, FilesTab};

verus! {

/// The tabs, in the order of the tab bar.
#[derive(Debug, Clone, Copy, PartialEq, Eq, Structural)]
pub enum TabId {
    Network,
    Browse,
    Downloads,
    Files,
    Logs,
}

/// What an input asks the client to do.
#[derive(Debug, Clone, Copy, PartialEq, Eq, Structural)]
pub enum UiCommand {
    /// Nothing to do.
    Nothing,
    Quit,
    SwitchTab(TabId),
    Refresh,
    JoinSelected,
    LeaveSelected,
    TopicNewOpen,
    TopicNewSave,
    TopicNewCancel,
    TopicRemoveSelected,
    FilesVerifySelected,
    FilesRemoveSelected,
    FilesAddOpen,
    FilesAddConfirm,
    FilesAddCancel,
}

impl TabId {
    /// The position of a tab in the tab bar, from 1.
    pub open spec fn position(self) -> nat {
        match self {
            TabId::Network => 1,
            TabId::Browse => 2,
            TabId::Downloads => 3,
            TabId::Files => 4,
            TabId::Logs => 5,
        }
    }

    /// The tabs in the order of the tab bar.
    pub fn all() -> (r: [TabId; 5])
        ensures
            forall|i: int| 0 <= i < 5 ==> (#[trigger] r@[i]).position() == i + 1,
    {
        [TabId::Network, TabId::Browse, TabId::Downloads, TabId::Files, TabId::Logs]
    }

    /// The title shown in the tab bar.
    pub fn title(self) -> (r: &'static str)
        ensures
            r@ == match self {
                TabId::Network => "Network"@,
                TabId::Browse => "Browse"@,
                TabId::Downloads => "Downloads"@,
                TabId::Files => "Files"@,
                TabId::Logs => "Logs"@,
            },
    {
        match self {
            TabId::Network => "Network",
            TabId::Browse => "Browse",
            TabId::Downloads => "Downloads",
            TabId::Files => "Files",
            TabId::Logs => "Logs",
        }
    }

    /// The number of the tab: its position in the tab bar, from 1.
    pub fn number(self) -> (r: usize)
        ensures
            r == self.position(),
    {
        match self {
            TabId::Network => 1,
            TabId::Browse => 2,
            TabId::Downloads => 3,
            TabId::Files => 4,
            TabId::Logs => 5,
        }
    }

    /// The tab with the given number, if there is one.
    pub fn from_number(n: usize) -> (r: Option<Self>)
        ensures
            r == tab_at(n),
    {
        match n {
            1 => Some(TabId::Network),
            2 => Some(TabId::Browse),
            3 => Some(TabId::Downloads),
            4 => Some(TabId::Files),
            5 => Some(TabId::Logs),
            _ => None,
        }
    }
}

/// The tab with the given number, if there is one.
pub open spec fn tab_at(n: usize) -> Option<TabId> {
    if n == 1 {
        Some(TabId::Network)
    } else if n == 2 {
        Some(TabId::Browse)
    } else if n == 3 {
        Some(TabId::Downloads)
    } else if n == 4 {
        Some(TabId::Files)
    } else if n == 5 {
        Some(TabId::Logs)
    } else {
        None
    }
}

/// The command of a key that no view has taken.
pub open spec fn global_command(key: Option<char>) -> UiCommand {
    match key {
        Some(c) => if c == 'q' {
            UiCommand::Quit
        } else {
            match top_row_number(c) {
                Some(n) => match tab_at(n) {
                    Some(tab) => UiCommand::SwitchTab(tab),
                    None => UiCommand::Nothing,
                },
                None => UiCommand::Nothing,
            }
        },
        None => UiCommand::Nothing,
    }
}

/// The number that a character of the top row of the keyboard stands for:
/// the digit itself, or the digit key's character on a shifted QWERTY or an
/// AZERTY layout. The key `0` counts as 10.
pub open spec fn top_row_number(c: char) -> Option<usize> {
    if c == '1' || c == '&' || c == '!' {
        Some(1)
    } else if c == '2' || c == '\u{e9}' || c == '@' {
        Some(2)
    } else if c == '3' || c == '"' || c == '#' {
        Some(3)
    } else if c == '4' || c == '\'' || c == '$' {
        Some(4)
    } else if c == '5' || c == '(' || c == '%' {
        Some(5)
    } else if c == '6' || c == '-' || c == '^' {
        Some(6)
    } else if c == '7' || c == '\u{e8}' {
        Some(7)
    } else if c == '8' || c == '_' || c == '*' {
        Some(8)
    } else if c == '9' || c == '\u{e7}' {
        Some(9)
    } else if c == '0' || c == '\u{e0}' || c == ')' {
        Some(10)
    } else {
        None
    }
}

/// Maps a character of the top row of the keyboard to its number.
pub fn top_row_char_to_number(c: char) -> (r: Option<usize>)
    ensures
        r == top_row_number(c),
{
    match c {
        '1' | '&' | '!' => Some(1),
        '2' | '\u{e9}' | '@' => Some(2),
        '3' | '"' | '#' => Some(3),
        '4' | '\'' | '$' => Some(4),
        '5' | '(' | '%' => Some(5),
        '6' | '-' | '^' => Some(6),
        '7' | '\u{e8}' => Some(7),
        '8' | '_' | '*' => Some(8),
        '9' | '\u{e7}' => Some(9),
        '0' | '\u{e0}' | ')' => Some(10),
        _ => None,
    }
}

/// The command of a key that no view has taken: `q` quits, a character of the
/// top row switches to the tab of that number if there is one. `key` is the
/// character of the key, or nothing for a key that has none.
pub fn global_keybind(key: Option<char>) -> (r: UiCommand)
    ensures
        r == global_command(key),
{
    match key {
        Some(c) => {
            if c == 'q' {
                return UiCommand::Quit;
            }
            match top_row_char_to_number(c) {
                Some(n) => match TabId::from_number(n) {
                    Some(tab) => UiCommand::SwitchTab(tab),
                    None => UiCommand::Nothing,
                },
                None => UiCommand::Nothing,
            }
        },
        None => UiCommand::Nothing,
    }
}

} // verus!
