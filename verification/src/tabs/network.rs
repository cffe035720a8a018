//! The network tab: the topics that the daemon knows, and the jobs that join
//! and leave them.

use crate::ipc::{object1, text_call, Call, RpcError};
use crate::jobs::{
    current_messages, lemma_no_current_messages, next_generation, Dispatcher, JoinLeaveMsg,
    TopicOp,
};
use crate::json::{
    bool_value, empty_object, get_array, get_bool, get_i64, get_str, get_u64, insert_member,
    json_of, member_bool, member_items, member_signed, member_text, member_unsigned, models_of,
    null_value, text_value, JsonModel,
};
use crate::text::{trimmed, trimmed_text};
use vstd::prelude::*;
use vstd::string::StringExecFns;

verus! {

/// One topic of the daemon's overview.
#[derive(Debug, Clone)]
pub struct TopicRow {
    pub name: String,
    pub key: Option<String>,
    pub auto_join: Option<bool>,
    pub last_joined_at: Option<i64>,
    pub joined: bool,
    pub peers: u64,
}

/// What a `TopicRow` holds.
pub struct TopicRowModel {
    pub name: Seq<char>,
    pub key: Option<Seq<char>>,
    pub auto_join: Option<bool>,
    pub last_joined_at: Option<i64>,
    pub joined: bool,
    pub peers: u64,
}

/// The text of an optional string.
pub open spec fn optional_text(text: Option<String>) -> Option<Seq<char>> {
    match text {
        Some(text) => Some(text@),
        None => None,
    }
}

impl View for TopicRow {
    type V = TopicRowModel;

    open spec fn view(&self) -> TopicRowModel {
        TopicRowModel {
            name: self.name@,
            key: optional_text(self.key),
            auto_join: self.auto_join,
            last_joined_at: self.last_joined_at,
            joined: self.joined,
            peers: self.peers,
        }
    }
}

/// What a list of topic rows holds.
pub open spec fn rows_model(rows: Seq<TopicRow>) -> Seq<TopicRowModel> {
    Seq::new(rows.len(), |i: int| rows[i]@)
}

/// The row that an element of the overview describes: it must name the
/// topic; what else is missing or ill-typed is absent, or `false`, or zero.
pub open spec fn topic_row(topic: JsonModel) -> Option<TopicRowModel> {
    match member_text(topic, "name"@) {
        Some(name) => Some(
            TopicRowModel {
                name,
                key: member_text(topic, "topicKey"@),
                auto_join: member_bool(topic, "autoJoin"@),
                last_joined_at: member_signed(topic, "lastJoinedAt"@),
                joined: match member_bool(topic, "joined"@) {
                    Some(joined) => joined,
                    None => false,
                },
                peers: match member_unsigned(topic, "peers"@) {
                    Some(peers) => peers,
                    None => 0,
                },
            },
        ),
        None => None,
    }
}

/// The rows of the elements that describe a topic, in their order.
pub open spec fn topic_rows(topics: Seq<JsonModel>) -> Seq<TopicRowModel>
    decreases topics.len(),
{
    if topics.len() == 0 {
        Seq::empty()
    } else {
        match topic_row(topics.last()) {
            Some(row) => topic_rows(topics.drop_last()).push(row),
            None => topic_rows(topics.drop_last()),
        }
    }
}

/// The rows of an overview: those of its array `topics`, none where it has
/// no such array.
pub open spec fn overview_rows(overview: JsonModel) -> Seq<TopicRowModel> {
    match member_items(overview, "topics"@) {
        Some(topics) => topic_rows(topics),
        None => Seq::empty(),
    }
}

/// Reads the topics of a `network.overview` result.
pub fn parse_overview_topics(v: &serde_json::Value) -> (r: Vec<TopicRow>)
    ensures
        rows_model(r@) == overview_rows(json_of(*v)),
{
    let mut rows: Vec<TopicRow> = Vec::new();
    let topics = match get_array(v, "topics") {
        Some(topics) => topics,
        None => {
            assert(rows_model(rows@) =~= Seq::<TopicRowModel>::empty());
            return rows;
        },
    };
    let mut i: usize = 0;
    assert(models_of(topics@).take(0) =~= Seq::<JsonModel>::empty());
    assert(rows_model(rows@) =~= Seq::<TopicRowModel>::empty());
    while i < topics.len()
        invariant
            i <= topics.len(),
            rows_model(rows@) == topic_rows(models_of(topics@).take(i as int)),
        decreases topics.len() - i,
    {
        let topic = &topics[i];
        let ghost seen = models_of(topics@).take(i + 1);
        assert(seen.drop_last() =~= models_of(topics@).take(i as int));
        assert(seen.last() == json_of(*topic));
        let ghost before = rows_model(rows@);
        match get_str(topic, "name") {
            Some(name) => {
                let row = TopicRow {
                    name: name.to_owned(),
                    key: match get_str(topic, "topicKey") {
                        Some(key) => Some(key.to_owned()),
                        None => None,
                    },
                    auto_join: get_bool(topic, "autoJoin"),
                    last_joined_at: get_i64(topic, "lastJoinedAt"),
                    joined: match get_bool(topic, "joined") {
                        Some(joined) => joined,
                        None => false,
                    },
                    peers: match get_u64(topic, "peers") {
                        Some(peers) => peers,
                        None => 0,
                    },
                };
                rows.push(row);
                assert(rows_model(rows@) =~= before.push(row@));
            },
            None => {},
        }
        i += 1;
    }
    assert(models_of(topics@).take(topics.len() as int) =~= models_of(topics@));
    rows
}

/// The field of the new-topic form that has the focus.
#[derive(Debug, Clone, Copy, PartialEq, Eq, Structural)]
pub enum TopicNewFocus {
    Name,
    AutoJoin,
    PasswordToggle,
    Password,
    Save,
    Abort,
}

/// The new-topic form.
#[derive(Debug, Clone)]
pub struct TopicNewState {
    pub open: bool,
    pub focus: TopicNewFocus,
    pub name: String,
    pub auto_join: bool,
    pub password_enabled: bool,
    pub password: String,
}

/// The parameters of `topic.create`: the name, whether to join on start, and
/// the password or `null`.
pub open spec fn create_params(name: Seq<char>, auto_join: bool, password: Option<Seq<char>>) -> JsonModel {
    JsonModel::Object(
        Map::empty().insert("name"@, JsonModel::Str(name)).insert(
            "autoJoin"@,
            JsonModel::Bool(auto_join),
        ).insert(
            "password"@,
            match password {
                Some(password) => JsonModel::Str(password),
                None => JsonModel::Null,
            },
        ),
    )
}

/// The text of an optional string slice.
pub open spec fn optional_str(text: Option<&str>) -> Option<Seq<char>> {
    match text {
        Some(text) => Some(text@),
        None => None,
    }
}

/// The call that creates the topic `name`, if `name` is not empty. The name
/// is taken as it is.
pub fn topic_create_call(name: &str, auto_join: bool, password: Option<&str>) -> (r: Option<Call>)
    ensures
        match r {
            Some(call) => {
                &&& name@.len() > 0
                &&& call.method@ == "topic.create"@
                &&& json_of(call.params) == create_params(name@, auto_join, optional_str(password))
            },
            None => name@.len() == 0,
        },
{
    if name.is_empty() {
        return None;
    }
    let mut params = empty_object();
    insert_member(&mut params, "name", text_value(name));
    insert_member(&mut params, "autoJoin", bool_value(auto_join));
    let secret = match password {
        Some(password) => text_value(password),
        None => null_value(),
    };
    insert_member(&mut params, "password", secret);
    Some(Call { method: "topic.create".to_owned(), params })
}

/// What the join and leave jobs show of the tab.
pub struct TopicsModel {
    pub topics: Seq<TopicRowModel>,
    pub selected: Option<usize>,
    pub busy: Option<Seq<char>>,
    pub last_error: Option<Seq<char>>,
}

/// What a `JoinLeaveMsg` holds.
pub enum JoinLeaveModel {
    Done { overview: JsonModel },
    Error { message: Seq<char> },
}

/// What a `JoinLeaveMsg` holds.
pub open spec fn join_leave_model(msg: JoinLeaveMsg) -> JoinLeaveModel {
    match msg {
        JoinLeaveMsg::Done { overview } => JoinLeaveModel::Done { overview: json_of(overview) },
        JoinLeaveMsg::Error { message } => JoinLeaveModel::Error { message: message@ },
    }
}

/// What a sequence of messages holds.
pub open spec fn join_leave_models(msgs: Seq<JoinLeaveMsg>) -> Seq<JoinLeaveModel> {
    Seq::new(msgs.len(), |i: int| join_leave_model(msgs[i]))
}

/// The selection after the topics were replaced: none if there are no
/// topics, the first if none was selected, else as before.
pub open spec fn selection_after(selected: Option<usize>, rows: nat) -> Option<usize> {
    if rows == 0 {
        None
    } else if selected is None {
        Some(0)
    } else {
        selected
    }
}

/// The tab after an overview came in.
pub open spec fn with_overview(tab: TopicsModel, overview: JsonModel) -> TopicsModel {
    TopicsModel {
        topics: overview_rows(overview),
        selected: selection_after(tab.selected, overview_rows(overview).len()),
        busy: tab.busy,
        last_error: None,
    }
}

/// The tab after a message of the current job.
pub open spec fn after_join_leave(tab: TopicsModel, msg: JoinLeaveModel) -> TopicsModel {
    match msg {
        JoinLeaveModel::Done { overview } => TopicsModel {
            busy: None,
            ..with_overview(tab, overview)
        },
        JoinLeaveModel::Error { message } => TopicsModel {
            busy: None,
            last_error: Some(message),
            ..tab
        },
    }
}

/// The tab after a sequence of messages of the current job.
pub open spec fn after_all_join_leave(tab: TopicsModel, msgs: Seq<JoinLeaveModel>) -> TopicsModel
    decreases msgs.len(),
{
    if msgs.len() == 0 {
        tab
    } else {
        after_join_leave(after_all_join_leave(tab, msgs.drop_last()), msgs.last())
    }
}

/// A join or leave job to run in the background.
pub struct TopicJob {
    /// The generation that the job's message must carry.
    pub generation: u64,
    pub op: TopicOp,
    /// The topic to join or leave.
    pub name: String,
}

/// The state of the network tab.
pub struct NetworkTab {
    pub topics: Vec<TopicRow>,
    /// The index of the highlighted row.
    pub selected: Option<usize>,
    pub last_error: Option<String>,
    pub join_leave: Dispatcher,
    /// What the running job is doing, while one runs.
    pub join_leave_busy: Option<String>,
    pub topic_new: TopicNewState,
}

impl NetworkTab {
    /// What the join and leave jobs show of the tab.
    pub open spec fn model(&self) -> TopicsModel {
        TopicsModel {
            topics: rows_model(self.topics@),
            selected: self.selected,
            busy: optional_text(self.join_leave_busy),
            last_error: optional_text(self.last_error),
        }
    }

    /// The tab at start: no topics yet, the first row highlighted, no job.
    pub fn new() -> (r: Self)
        ensures
            r.topics@.len() == 0,
            r.selected == Some(0usize),
            r.last_error is None,
            r.join_leave.generation() == 0,
            r.join_leave_busy is None,
            !r.topic_new.open,
            r.topic_new.focus == TopicNewFocus::Name,
            r.topic_new.name@.len() == 0,
            r.topic_new.auto_join,
            !r.topic_new.password_enabled,
            r.topic_new.password@.len() == 0,
    {
        NetworkTab {
            topics: Vec::new(),
            selected: Some(0),
            last_error: None,
            join_leave: Dispatcher::new(),
            join_leave_busy: None,
            topic_new: TopicNewState {
                open: false,
                focus: TopicNewFocus::Name,
                name: String::new(),
                auto_join: true,
                password_enabled: false,
                password: String::new(),
            },
        }
    }

    /// Replaces the topics by those of `overview` and clears the error.
    fn take_overview(&mut self, overview: &serde_json::Value)
        ensures
            final(self).model() == with_overview(old(self).model(), json_of(*overview)),
            final(self).join_leave == old(self).join_leave,
            final(self).topic_new == old(self).topic_new,
    {
        self.topics = parse_overview_topics(overview);
        if self.topics.len() == 0 {
            self.selected = None;
        } else if self.selected.is_none() {
            self.selected = Some(0);
        }
        self.last_error = None;
    }

    /// Takes in the messages that the join and leave jobs have sent, in the
    /// order received. Only the messages of the latest job count: a finished
    /// job replaces the topics by the state it fetched, a failed one leaves
    /// its message; either way no job is running any more. Messages of older
    /// jobs change nothing.
    pub fn poll_async(&mut self, queue: Vec<(u64, JoinLeaveMsg)>)
        ensures
            final(self).model() == after_all_join_leave(
                old(self).model(),
                join_leave_models(current_messages(queue@, old(self).join_leave.generation())),
            ),
            final(self).join_leave == old(self).join_leave,
            final(self).topic_new == old(self).topic_new,
    {
        let messages = self.join_leave.drain(queue);
        let ghost all = messages@;
        let ghost start = self.model();
        assert(join_leave_models(all.take(0)) =~= Seq::<JoinLeaveModel>::empty());
        for msg in it: messages.into_iter()
            invariant
                it.seq() == all,
                self.join_leave == old(self).join_leave,
                self.topic_new == old(self).topic_new,
                self.model() == after_all_join_leave(
                    start,
                    join_leave_models(all.take(it.index() as int)),
                ),
        {
            assert(join_leave_models(all.take(it.index() + 1)).drop_last() =~= join_leave_models(
                all.take(it.index() as int),
            ));
            match msg {
                JoinLeaveMsg::Done { overview } => {
                    self.take_overview(&overview);
                    self.join_leave_busy = None;
                },
                JoinLeaveMsg::Error { message } => {
                    self.join_leave_busy = None;
                    self.last_error = Some(message);
                },
            }
        }
        assert(all.take(all.len() as int) =~= all);
    }

    /// Whether the new-topic form is open.
    pub fn is_modal_open(&self) -> (r: bool)
        ensures
            r == self.topic_new.open,
    {
        self.topic_new.open
    }

    /// Takes in the reply to `network.overview`: a result replaces the
    /// topics and clears the error, a failure leaves its message.
    pub fn refresh(&mut self, reply: Result<serde_json::Value, RpcError>)
        ensures
            final(self).join_leave == old(self).join_leave,
            final(self).topic_new == old(self).topic_new,
            match reply {
                Ok(overview) => final(self).model() == with_overview(
                    old(self).model(),
                    json_of(overview),
                ),
                Err(e) => final(self).model() == (TopicsModel {
                    last_error: Some(e.message_text()),
                    ..old(self).model()
                }),
            },
    {
        match reply {
            Ok(overview) => {
                self.take_overview(&overview);
            },
            Err(e) => {
                self.last_error = Some(e.message());
            },
        }
    }

    /// The highlighted topic, if the highlight is on one.
    pub fn selected_topic(&self) -> (r: Option<&TopicRow>)
        ensures
            match self.selected {
                Some(i) => if i < self.topics@.len() {
                    r == Some(&self.topics@[i as int])
                } else {
                    r is None
                },
                None => r is None,
            },
    {
        match self.selected {
            Some(i) => if i < self.topics.len() {
                Some(&self.topics[i])
            } else {
                None
            },
            None => None,
        }
    }

    /// The name of the highlighted topic.
    pub fn selected_topic_name(&self) -> (r: Option<String>)
        ensures
            match self.selected {
                Some(i) => if i < self.topics@.len() {
                    r matches Some(name) && name@ == self.topics@[i as int].name@
                } else {
                    r is None
                },
                None => r is None,
            },
    {
        match self.selected_topic() {
            Some(topic) => Some(topic.name.clone()),
            None => None,
        }
    }

    /// Opens the new-topic form, empty, and clears the error.
    pub fn topic_new_open(&mut self)
        ensures
            final(self).topic_new.open,
            final(self).topic_new.focus == TopicNewFocus::Name,
            final(self).topic_new.name@.len() == 0,
            final(self).topic_new.auto_join,
            !final(self).topic_new.password_enabled,
            final(self).topic_new.password@.len() == 0,
            final(self).last_error is None,
            final(self).topics == old(self).topics,
            final(self).selected == old(self).selected,
            final(self).join_leave == old(self).join_leave,
            final(self).join_leave_busy == old(self).join_leave_busy,
    {
        self.topic_new.open = true;
        self.topic_new.focus = TopicNewFocus::Name;
        self.topic_new.name = String::new();
        self.topic_new.auto_join = true;
        self.topic_new.password_enabled = false;
        self.topic_new.password = String::new();
        self.last_error = None;
    }

    /// Closes the new-topic form.
    pub fn topic_new_cancel(&mut self)
        ensures
            !final(self).topic_new.open,
            final(self).topic_new.focus == old(self).topic_new.focus,
            final(self).topic_new.name == old(self).topic_new.name,
            final(self).topic_new.auto_join == old(self).topic_new.auto_join,
            final(self).topic_new.password_enabled == old(self).topic_new.password_enabled,
            final(self).topic_new.password == old(self).topic_new.password,
            final(self).model() == old(self).model(),
            final(self).join_leave == old(self).join_leave,
    {
        self.topic_new.open = false;
    }

    /// The call that saves the new-topic form, if the form is open and names
    /// a topic. A form without a name leaves the error `topic name required`
    /// and makes no call; a closed form does nothing.
    pub fn topic_new_save(&mut self) -> (r: Option<Call>)
        ensures
            final(self).topics == old(self).topics,
            final(self).selected == old(self).selected,
            final(self).join_leave == old(self).join_leave,
            final(self).join_leave_busy == old(self).join_leave_busy,
            final(self).topic_new == old(self).topic_new,
            if !old(self).topic_new.open {
                r is None && final(self).last_error == old(self).last_error
            } else if trimmed_text(old(self).topic_new.name@).len() == 0 {
                r is None && optional_text(final(self).last_error) == Some(
                    "topic name required"@,
                )
            } else {
                &&& final(self).last_error == old(self).last_error
                &&& r matches Some(call)
                &&& call.method@ == "topic.create"@
                &&& json_of(call.params) == create_params(
                    trimmed_text(old(self).topic_new.name@),
                    old(self).topic_new.auto_join,
                    if old(self).topic_new.password_enabled {
                        Some(old(self).topic_new.password@)
                    } else {
                        None
                    },
                )
            },
    {
        if !self.topic_new.open {
            return None;
        }
        let password = if self.topic_new.password_enabled {
            Some(self.topic_new.password.as_str())
        } else {
            None
        };
        let name = trimmed(self.topic_new.name.as_str());
        let call = topic_create_call(name.as_str(), self.topic_new.auto_join, password);
        if call.is_none() {
            self.last_error = Some("topic name required".to_owned());
        }
        call
    }

    /// Takes in the reply to `topic.rm`. On success the error is cleared and
    /// the caller refreshes the topics; a failure leaves its message. The
    /// new-topic form stays as it is. Returns whether to refresh.
    pub fn remove_done(&mut self, reply: Result<serde_json::Value, RpcError>) -> (r: bool)
        ensures
            final(self).topics == old(self).topics,
            final(self).selected == old(self).selected,
            final(self).join_leave == old(self).join_leave,
            final(self).join_leave_busy == old(self).join_leave_busy,
            final(self).topic_new == old(self).topic_new,
            match reply {
                Ok(_) => r && final(self).last_error is None,
                Err(e) => !r && optional_text(final(self).last_error) == Some(e.message_text()),
            },
    {
        match reply {
            Ok(_) => {
                self.last_error = None;
                true
            },
            Err(e) => {
                self.last_error = Some(e.message());
                false
            },
        }
    }

    /// Takes in the reply to `topic.create`. On success the error is
    /// cleared, the form closes, and the caller refreshes the topics; a
    /// failure leaves its message and the form as it is. Returns whether to
    /// refresh.
    pub fn create_done(&mut self, reply: Result<serde_json::Value, RpcError>) -> (r: bool)
        ensures
            final(self).topics == old(self).topics,
            final(self).selected == old(self).selected,
            final(self).join_leave == old(self).join_leave,
            final(self).join_leave_busy == old(self).join_leave_busy,
            final(self).topic_new.focus == old(self).topic_new.focus,
            final(self).topic_new.name == old(self).topic_new.name,
            final(self).topic_new.auto_join == old(self).topic_new.auto_join,
            final(self).topic_new.password_enabled == old(self).topic_new.password_enabled,
            final(self).topic_new.password == old(self).topic_new.password,
            match reply {
                Ok(_) => r && final(self).last_error is None && !final(self).topic_new.open,
                Err(e) => !r && optional_text(final(self).last_error) == Some(e.message_text())
                    && final(self).topic_new.open == old(self).topic_new.open,
            },
    {
        match reply {
            Ok(_) => {
                self.topic_new.open = false;
                self.last_error = None;
                true
            },
            Err(e) => {
                self.last_error = Some(e.message());
                false
            },
        }
    }

    /// Starts a job on the highlighted topic: takes the next generation,
    /// notes what the job is doing, and clears the error. Without a
    /// highlighted topic nothing happens.
    fn start_job(&mut self, op: TopicOp) -> (r: Option<TopicJob>)
        ensures
            final(self).topics == old(self).topics,
            final(self).selected == old(self).selected,
            final(self).topic_new == old(self).topic_new,
            match r {
                Some(job) => {
                    &&& old(self).selected matches Some(i)
                    &&& i < old(self).topics@.len()
                    &&& job.name@ == old(self).topics@[i as int].name@
                    &&& job.op == op
                    &&& job.generation == next_generation(old(self).join_leave.generation())
                    &&& final(self).join_leave.generation() == job.generation
                    &&& optional_text(final(self).join_leave_busy) == Some(
                        busy_text(op) + job.name@,
                    )
                    &&& final(self).last_error is None
                },
                None => {
                    &&& !(old(self).selected matches Some(i) && i < old(self).topics@.len())
                    &&& final(self).join_leave == old(self).join_leave
                    &&& final(self).join_leave_busy == old(self).join_leave_busy
                    &&& final(self).last_error == old(self).last_error
                },
            },
    {
        let name = match self.selected_topic_name() {
            Some(name) => name,
            None => { return None; },
        };
        let generation = self.join_leave.dispatch();
        let doing = match op {
            TopicOp::Join => "joining ".to_owned(),
            TopicOp::Leave => "leaving ".to_owned(),
        };
        self.join_leave_busy = Some(doing.concat(name.as_str()));
        self.last_error = None;
        Some(TopicJob { generation, op, name })
    }

    /// Starts a job that joins the highlighted topic.
    pub fn join_selected(&mut self) -> (r: Option<TopicJob>)
        ensures
            final(self).topics == old(self).topics,
            final(self).selected == old(self).selected,
            final(self).topic_new == old(self).topic_new,
            match r {
                Some(job) => {
                    &&& old(self).selected matches Some(i)
                    &&& i < old(self).topics@.len()
                    &&& job.name@ == old(self).topics@[i as int].name@
                    &&& job.op == TopicOp::Join
                    &&& job.generation == next_generation(old(self).join_leave.generation())
                    &&& final(self).join_leave.generation() == job.generation
                    &&& optional_text(final(self).join_leave_busy) == Some(
                        "joining "@ + job.name@,
                    )
                    &&& final(self).last_error is None
                },
                None => {
                    &&& !(old(self).selected matches Some(i) && i < old(self).topics@.len())
                    &&& final(self).join_leave == old(self).join_leave
                    &&& final(self).join_leave_busy == old(self).join_leave_busy
                    &&& final(self).last_error == old(self).last_error
                },
            },
    {
        self.start_job(TopicOp::Join)
    }

    /// Starts a job that leaves the highlighted topic.
    pub fn leave_selected(&mut self) -> (r: Option<TopicJob>)
        ensures
            final(self).topics == old(self).topics,
            final(self).selected == old(self).selected,
            final(self).topic_new == old(self).topic_new,
            match r {
                Some(job) => {
                    &&& old(self).selected matches Some(i)
                    &&& i < old(self).topics@.len()
                    &&& job.name@ == old(self).topics@[i as int].name@
                    &&& job.op == TopicOp::Leave
                    &&& job.generation == next_generation(old(self).join_leave.generation())
                    &&& final(self).join_leave.generation() == job.generation
                    &&& optional_text(final(self).join_leave_busy) == Some(
                        "leaving "@ + job.name@,
                    )
                    &&& final(self).last_error is None
                },
                None => {
                    &&& !(old(self).selected matches Some(i) && i < old(self).topics@.len())
                    &&& final(self).join_leave == old(self).join_leave
                    &&& final(self).join_leave_busy == old(self).join_leave_busy
                    &&& final(self).last_error == old(self).last_error
                },
            },
    {
        self.start_job(TopicOp::Leave)
    }

    /// The call that removes the highlighted topic, if the highlight is on
    /// one.
    pub fn remove_selected(&self) -> (r: Option<Call>)
        ensures
            match r {
                Some(call) => {
                    &&& self.selected matches Some(i)
                    &&& i < self.topics@.len()
                    &&& call.method@ == "topic.rm"@
                    &&& json_of(call.params) == object1(
                        "name"@,
                        JsonModel::Str(self.topics@[i as int].name@),
                    )
                },
                None => !(self.selected matches Some(i) && i < self.topics@.len()),
            },
    {
        match self.selected_topic_name() {
            Some(name) => Some(text_call("topic.rm", "name", name.as_str())),
            None => None,
        }
    }

    /// Network events change nothing in this tab: it goes by the overview.
    pub fn on_network_event(&mut self, _evt: crate::ipc::types::NetworkEvent)
        ensures
            *final(self) == *old(self),
    {
    }
}

/// What a running job shows: the beginning of the text.
pub open spec fn busy_text(op: TopicOp) -> Seq<char> {
    match op {
        TopicOp::Join => "joining "@,
        TopicOp::Leave => "leaving "@,
    }
}

/// A message of a job that is not the latest leaves the tab as it was.
pub proof fn lemma_stale_join_leave_ignored(
    tab: TopicsModel,
    queue: Seq<(u64, JoinLeaveMsg)>,
    current: u64,
)
    requires
        forall|i: int| 0 <= i < queue.len() ==> (#[trigger] queue[i]).0 != current,
    ensures
        after_all_join_leave(tab, join_leave_models(current_messages(queue, current))) == tab,
{
    lemma_no_current_messages(queue, current);
    assert(join_leave_models(Seq::<JoinLeaveMsg>::empty()) =~= Seq::<JoinLeaveModel>::empty());
}

} // verus!
