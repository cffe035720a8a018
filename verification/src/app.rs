//! The state that the views read: log lines, network statistics, the active
//! tab.

use crate::ipc::types::{DaemonEvent, NetworkEvent, NetworkEventModel};
use crate::ipc::{plain_call, Call, RpcError};
use crate::json::{
    get_i64, get_str, json_of, member_signed, member_text, null_value, JsonModel,
};
use crate::tabs::TabId;
use std::collections::VecDeque;
use vstd::prelude::*;

verus! {

/// One line of the daemon's log.
#[derive(Debug, Clone)]
pub struct LogEntry {
    pub ts: i64,
    pub level: String,
    pub message: String,
}

/// What a `LogEntry` holds.
pub struct LogEntryModel {
    pub ts: i64,
    pub level: Seq<char>,
    pub message: Seq<char>,
}

impl View for LogEntry {
    type V = LogEntryModel;

    open spec fn view(&self) -> LogEntryModel {
        LogEntryModel { ts: self.ts, level: self.level@, message: self.message@ }
    }
}

/// The log entry that a payload describes: a missing or ill-typed member
/// takes its default (time 0, level `info`, empty message).
pub open spec fn log_entry(data: JsonModel) -> LogEntryModel {
    LogEntryModel {
        ts: match member_signed(data, "ts"@) {
            Some(ts) => ts,
            None => 0,
        },
        level: match member_text(data, "level"@) {
            Some(level) => level,
            None => "info"@,
        },
        message: match member_text(data, "message"@) {
            Some(message) => message,
            None => Seq::empty(),
        },
    }
}

impl LogEntry {
    /// Reads a log entry from the payload of a `log` event.
    pub fn try_from(v: serde_json::Value) -> (r: Self)
        ensures
            r@ == log_entry(json_of(v)),
    {
        LogEntry {
            ts: match get_i64(&v, "ts") {
                Some(ts) => ts,
                None => 0,
            },
            level: match get_str(&v, "level") {
                Some(level) => level.to_owned(),
                None => "info".to_owned(),
            },
            message: match get_str(&v, "message") {
                Some(message) => message.to_owned(),
                None => String::new(),
            },
        }
    }
}

/// The latest network statistics.
pub struct NetworkState {
    pub stats_json: Option<serde_json::Value>,
}

impl NetworkState {
    /// Keeps the payload of a statistics event; any other event changes
    /// nothing.
    pub fn on_event(&mut self, evt: &NetworkEvent)
        ensures
            match evt@ {
                NetworkEventModel::Stats(data) => final(self).stats_json matches Some(stats)
                    && json_of(stats) == data,
                NetworkEventModel::Other { .. } => final(self).stats_json == old(self).stats_json,
            },
    {
        match evt {
            NetworkEvent::Stats(v) => {
                self.stats_json = Some(v.clone());
            },
            NetworkEvent::Other { .. } => {},
        }
    }
}

/// The screen area of one tab's label, as the last draw left it.
#[derive(Debug, Clone)]
pub struct TabHitbox {
    pub tab: TabId,
    pub x0: u16,
    pub x1: u16,
    pub y0: u16,
    pub y1: u16,
}

/// What the draw pass leaves for input handling.
pub struct UiState {
    pub tab_hitboxes: Vec<TabHitbox>,
}

/// The last `max` elements of `s`; all of `s` where it has no more.
pub open spec fn newest<A>(s: Seq<A>, max: nat) -> Seq<A> {
    if s.len() > max {
        s.skip(s.len() - max)
    } else {
        s
    }
}

/// The call that fetches the status of the daemon.
pub fn status_call() -> (r: Call)
    ensures
        r.method@ == "node.status"@,
        json_of(r.params) == JsonModel::Object(Map::empty()),
{
    plain_call("node.status")
}

/// The state shared by the views.
pub struct App {
    pub should_quit: bool,
    pub active_tab: TabId,
    pub status_json: serde_json::Value,
    pub logs: VecDeque<LogEntry>,
    pub logs_max: usize,
    pub network: NetworkState,
    pub ui: UiState,
}

impl App {
    /// The state at start: the network tab, no logs, room for 5000 of them.
    pub fn new() -> (r: Self)
        ensures
            !r.should_quit,
            r.active_tab == TabId::Network,
            json_of(r.status_json) == JsonModel::Null,
            r.logs@ == Seq::<LogEntry>::empty(),
            r.logs_max == 5000,
            r.network.stats_json is None,
            r.ui.tab_hitboxes@ == Seq::<TabHitbox>::empty(),
    {
        App {
            should_quit: false,
            active_tab: TabId::Network,
            status_json: null_value(),
            logs: VecDeque::new(),
            logs_max: 5000,
            network: NetworkState { stats_json: None },
            ui: UiState { tab_hitboxes: Vec::new() },
        }
    }

    /// Switches to `tab`.
    pub fn set_active_tab(&mut self, tab: TabId)
        ensures
            final(self).active_tab == tab,
            final(self).should_quit == old(self).should_quit,
            final(self).logs == old(self).logs,
            final(self).logs_max == old(self).logs_max,
            final(self).status_json == old(self).status_json,
            final(self).network == old(self).network,
            final(self).ui == old(self).ui,
    {
        self.active_tab = tab;
    }

    /// Appends a log entry and drops the oldest entries beyond `logs_max`.
    pub fn push_log(&mut self, entry: LogEntry)
        ensures
            final(self).logs@ == newest(old(self).logs@.push(entry), old(self).logs_max as nat),
            final(self).logs_max == old(self).logs_max,
            final(self).should_quit == old(self).should_quit,
            final(self).active_tab == old(self).active_tab,
            final(self).status_json == old(self).status_json,
            final(self).network == old(self).network,
            final(self).ui == old(self).ui,
    {
        let ghost all = self.logs@.push(entry);
        self.logs.push_back(entry);
        while self.logs.len() > self.logs_max
            invariant
                self.logs@.len() <= all.len(),
                self.logs@ == all.skip(all.len() - self.logs@.len()),
                self.logs@.len() >= self.logs_max || self.logs@.len() == all.len(),
                self.logs_max == old(self).logs_max,
                self.should_quit == old(self).should_quit,
                self.active_tab == old(self).active_tab,
                self.status_json == old(self).status_json,
                self.network == old(self).network,
                self.ui == old(self).ui,
            decreases self.logs@.len(),
        {
            self.logs.pop_front();
            assert(self.logs@ =~= all.skip(all.len() - self.logs@.len()));
        }
        assert(self.logs@ =~= newest(all, self.logs_max as nat));
    }

    /// Takes in an event: a log line joins the log, network statistics
    /// replace the previous ones, anything else changes nothing here.
    pub fn on_daemon_event(&mut self, evt: DaemonEvent)
        ensures
            final(self).logs_max == old(self).logs_max,
            final(self).should_quit == old(self).should_quit,
            final(self).active_tab == old(self).active_tab,
            final(self).status_json == old(self).status_json,
            final(self).ui == old(self).ui,
            match evt {
                DaemonEvent::Log(entry) => {
                    &&& final(self).logs@ == newest(
                        old(self).logs@.push(entry),
                        old(self).logs_max as nat,
                    )
                    &&& final(self).network == old(self).network
                },
                DaemonEvent::Network(event) => {
                    &&& final(self).logs == old(self).logs
                    &&& match event@ {
                        NetworkEventModel::Stats(data) => final(self).network.stats_json matches Some(
                            stats,
                        ) && json_of(stats) == data,
                        NetworkEventModel::Other { .. } => final(self).network == old(
                            self,
                        ).network,
                    }
                },
                DaemonEvent::State(_) => {
                    &&& final(self).logs == old(self).logs
                    &&& final(self).network == old(self).network
                },
                DaemonEvent::Other { .. } => {
                    &&& final(self).logs == old(self).logs
                    &&& final(self).network == old(self).network
                },
            },
    {
        match evt {
            DaemonEvent::Log(entry) => {
                self.push_log(entry);
            },
            DaemonEvent::Network(event) => {
                self.network.on_event(&event);
            },
            DaemonEvent::State(_) => {},
            DaemonEvent::Other { .. } => {},
        }
    }

    /// Takes in the reply to a status request: a result replaces the status,
    /// a failure leaves it.
    pub fn refresh_basics(&mut self, reply: Result<serde_json::Value, RpcError>)
        ensures
            match reply {
                Ok(status) => final(self).status_json == status,
                Err(_) => final(self).status_json == old(self).status_json,
            },
            final(self).logs == old(self).logs,
            final(self).logs_max == old(self).logs_max,
            final(self).should_quit == old(self).should_quit,
            final(self).active_tab == old(self).active_tab,
            final(self).network == old(self).network,
            final(self).ui == old(self).ui,
    {
        match reply {
            Ok(status) => {
                self.status_json = status;
            },
            Err(_) => {},
        }
    }
}

} // verus!
