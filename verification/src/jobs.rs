//! Background jobs: generation-tagged dispatch and the call sequences that a
//! job runs on its own connection.
//!
//! A job is started by `Dispatcher::dispatch`, which hands out the generation
//! that every message of the job is tagged with. The consumer keeps only the
//! messages of the current generation; whatever an older job still sends is
//! dropped. The job itself is a sequence of calls decided here, one step at a
//! time, from the replies received so far.

use crate::ipc::{object1, plain_call, text_call, Call};
use crate::json::{
    array_value, empty_object, get_bool, insert_member, json_of, member_bool, models_of,
    text_value, unsigned_value, JsonModel, JsonNumber,
};
use crate::text::texts_of;
use vstd::prelude::*;

verus! {

/// The generation that follows `g`: the counter wraps after `u64::MAX`.
pub open spec fn next_generation(g: u64) -> u64 {
    if g == u64::MAX {
        0
    } else {
        (g + 1) as u64
    }
}

/// The generation reached from `g` by `n` dispatches.
pub open spec fn generation_after(g: u64, n: nat) -> u64
    decreases n,
{
    if n == 0 {
        g
    } else {
        next_generation(generation_after(g, (n - 1) as nat))
    }
}

/// The payloads of the messages of `queue` that carry `generation`, in order.
pub open spec fn current_messages<M>(queue: Seq<(u64, M)>, generation: u64) -> Seq<M>
    decreases queue.len(),
{
    if queue.len() == 0 {
        Seq::empty()
    } else if queue.last().0 == generation {
        current_messages(queue.drop_last(), generation).push(queue.last().1)
    } else {
        current_messages(queue.drop_last(), generation)
    }
}

/// The generation counter of one operation class.
pub struct Dispatcher {
    generation: u64,
}

impl Dispatcher {
    /// The generation of the latest dispatch; zero before the first.
    pub closed spec fn generation(&self) -> u64 {
        self.generation
    }

    /// A dispatcher that has started no job.
    pub fn new() -> (r: Self)
        ensures
            r.generation() == 0,
    {
        Dispatcher { generation: 0 }
    }

    /// The generation of the latest dispatch.
    pub fn current(&self) -> (r: u64)
        ensures
            r == self.generation(),
    {
        self.generation
    }

    /// Starts a job: moves to the next generation and returns it.
    pub fn dispatch(&mut self) -> (r: u64)
        ensures
            r == next_generation(old(self).generation()),
            final(self).generation() == r,
    {
        self.generation = self.generation.wrapping_add(1);
        self.generation
    }

    /// Whether a message tagged `generation` belongs to the latest job.
    pub fn accepts(&self, generation: u64) -> (r: bool)
        ensures
            r == (generation == self.generation()),
    {
        generation == self.generation
    }

    /// Drains a result queue: the payloads of the latest job's messages, in
    /// the order received; every other message is dropped.
    pub fn drain<M>(&self, queue: Vec<(u64, M)>) -> (r: Vec<M>)
        ensures
            r@ == current_messages(queue@, self.generation()),
    {
        let ghost all = queue@;
        let mut kept: Vec<M> = Vec::new();
        for item in it: queue.into_iter()
            invariant
                it.seq() == all,
                kept@ == current_messages(all.take(it.index() as int), self.generation()),
        {
            assert(all.take(it.index() + 1).drop_last() =~= all.take(it.index() as int));
            let (generation, message) = item;
            if generation == self.generation {
                kept.push(message);
            }
        }
        assert(all.take(all.len() as int) =~= all);
        kept
    }
}

/// A queue without a message of the current generation holds no current
/// message.
pub proof fn lemma_no_current_messages<M>(queue: Seq<(u64, M)>, current: u64)
    requires
        forall|i: int| 0 <= i < queue.len() ==> (#[trigger] queue[i]).0 != current,
    ensures
        current_messages(queue, current) == Seq::<M>::empty(),
    decreases queue.len(),
{
    if queue.len() > 0 {
        lemma_no_current_messages(queue.drop_last(), current);
    }
}

/// A dispatch supersedes the job before it: whatever that job still sends
/// carries a generation that is no longer the current one.
pub proof fn lemma_dispatch_supersedes(before: u64)
    ensures
        next_generation(before) != before,
{
}

/// Dispatching `n` times from generation `g` yields `g + 1`, ..., `g + n` as
/// long as the counter does not pass `u64::MAX`.
pub proof fn lemma_generations_count_up(g: u64, n: nat)
    requires
        g + n <= u64::MAX,
    ensures
        generation_after(g, n) == g + n,
    decreases n,
{
    if n > 0 {
        lemma_generations_count_up(g, (n - 1) as nat);
    }
}

/// Generations handed out by different dispatches differ, so a message of an
/// earlier job is never taken for one of a later job, as long as the counter
/// does not pass `u64::MAX`.
pub proof fn lemma_generations_differ(g: u64, earlier: nat, later: nat)
    requires
        earlier < later,
        g + later <= u64::MAX,
    ensures
        generation_after(g, earlier) != generation_after(g, later),
{
    lemma_generations_count_up(g, earlier);
    lemma_generations_count_up(g, later);
}

/// What one call of a job came back with.
pub enum Reply {
    /// The daemon's result.
    Answer(JsonModel),
    /// The message of the error that ended the call.
    Failure(Seq<char>),
}

/// The reply that a call's outcome stands for.
pub open spec fn reply_of(outcome: Result<serde_json::Value, String>) -> Reply {
    match outcome {
        Ok(value) => Reply::Answer(json_of(value)),
        Err(message) => Reply::Failure(message@),
    }
}

/// Whether a reply reports a file as valid.
pub open spec fn counts_as_ok(reply: Reply) -> bool {
    reply matches Reply::Answer(result) && member_bool(result, "valid"@) == Some(true)
}

/// Whether a reply counts as a failure: every reply that does not report
/// the file as valid does. That is a result that reports it invalid, a
/// result that does not say, and a call that failed.
pub open spec fn counts_as_failed(reply: Reply) -> bool {
    !counts_as_ok(reply)
}

/// How many of `replies` count as ok.
pub open spec fn ok_count(replies: Seq<Reply>) -> nat
    decreases replies.len(),
{
    if replies.len() == 0 {
        0
    } else {
        ok_count(replies.drop_last()) + if counts_as_ok(replies.last()) {
            1nat
        } else {
            0nat
        }
    }
}

/// How many of `replies` count as failed.
pub open spec fn failed_count(replies: Seq<Reply>) -> nat
    decreases replies.len(),
{
    if replies.len() == 0 {
        0
    } else {
        failed_count(replies.drop_last()) + if counts_as_failed(replies.last()) {
            1nat
        } else {
            0nat
        }
    }
}

/// The report entry of one item: its path, and the result or the error.
pub open spec fn entry_model(path: Seq<char>, reply: Reply) -> JsonModel {
    match reply {
        Reply::Answer(result) => JsonModel::Object(
            Map::empty().insert("path"@, JsonModel::Str(path)).insert("result"@, result),
        ),
        Reply::Failure(message) => JsonModel::Object(
            Map::empty().insert("path"@, JsonModel::Str(path)).insert(
                "error"@,
                JsonModel::Str(message),
            ),
        ),
    }
}

/// The report entries of the items answered so far, in the order of the items.
pub open spec fn entries_model(paths: Seq<Seq<char>>, replies: Seq<Reply>) -> Seq<JsonModel> {
    Seq::new(replies.len(), |i: int| entry_model(paths[i], replies[i]))
}

/// The counts of a report: each item answered is ok or failed, and `total`
/// is their number.
pub open spec fn summary_model(replies: Seq<Reply>) -> JsonModel {
    JsonModel::Object(
        Map::empty().insert(
            "ok"@,
            JsonModel::Number(JsonNumber::Int(ok_count(replies) as int)),
        ).insert(
            "failed"@,
            JsonModel::Number(JsonNumber::Int(failed_count(replies) as int)),
        ).insert(
            "total"@,
            JsonModel::Number(JsonNumber::Int(replies.len() as int)),
        ),
    )
}

/// The report of a batch: the counts, and one entry per item.
pub open spec fn report_model(paths: Seq<Seq<char>>, replies: Seq<Reply>) -> JsonModel {
    JsonModel::Object(
        Map::empty().insert("summary"@, summary_model(replies)).insert(
            "results"@,
            JsonModel::Array(entries_model(paths, replies)),
        ),
    )
}

/// A message of a verify job to its consumer.
pub enum VerifyMsg {
    /// `done` of `total` items have been answered.
    Progress { done: usize, total: usize },
    /// The job ended with this report.
    Done { value: serde_json::Value },
    /// The job could not run.
    Error { message: String },
}

/// What a verify job does next.
pub enum VerifyStep {
    /// Publish the progress, make the call, and record its outcome.
    Call { done: usize, total: usize, call: Call },
    /// Publish the progress and the report: every item has been answered.
    Finish { done: usize, total: usize },
}

/// A verify job: the items to verify, in order, and what has come back.
pub struct VerifyBatch {
    paths: Vec<String>,
    ok: u64,
    failed: u64,
    results: Vec<serde_json::Value>,
    replies: Ghost<Seq<Reply>>,
}

impl VerifyBatch {
    /// The paths of the items, in the order in which they are verified.
    pub closed spec fn paths(&self) -> Seq<Seq<char>> {
        texts_of(self.paths@)
    }

    /// The replies recorded so far, the first item's first.
    pub closed spec fn replies(&self) -> Seq<Reply> {
        self.replies@
    }

    /// The batch holds one entry and the right counts for each reply.
    #[verifier::type_invariant]
    spec fn well_formed(self) -> bool {
        &&& self.replies@.len() <= self.paths@.len()
        &&& self.results@.len() == self.replies@.len()
        &&& models_of(self.results@) == entries_model(self.paths(), self.replies@)
        &&& self.ok == ok_count(self.replies@)
        &&& self.failed == failed_count(self.replies@)
        &&& self.ok + self.failed == self.replies@.len()
    }

    /// A batch over `paths`, with nothing answered yet.
    pub fn new(paths: Vec<String>) -> (r: Self)
        ensures
            r.paths() == texts_of(paths@),
            r.replies() == Seq::<Reply>::empty(),
    {
        let results: Vec<serde_json::Value> = Vec::new();
        assert(models_of(results@) =~= entries_model(texts_of(paths@), Seq::empty()));
        VerifyBatch { paths, ok: 0, failed: 0, results, replies: Ghost(Seq::empty()) }
    }

    /// The number of items.
    pub fn total(&self) -> (r: usize)
        ensures
            r == self.paths().len(),
    {
        self.paths.len()
    }

    /// The number of items answered.
    pub fn done(&self) -> (r: usize)
        ensures
            r == self.replies().len(),
    {
        proof {
            use_type_invariant(self);
        }
        self.results.len()
    }

    /// The next step: the call for the first item not yet answered, with the
    /// progress to publish before it, or the end of the job.
    pub fn next_step(&self) -> (r: VerifyStep)
        ensures
            match r {
                VerifyStep::Call { done, total, call } => {
                    &&& done == self.replies().len()
                    &&& total == self.paths().len()
                    &&& done < total
                    &&& call.method@ == "files.verify"@
                    &&& json_of(call.params) == object1(
                        "path"@,
                        JsonModel::Str(self.paths()[done as int]),
                    )
                },
                VerifyStep::Finish { done, total } => {
                    &&& done == total
                    &&& total == self.paths().len()
                    &&& self.replies().len() == total
                },
            },
    {
        proof {
            use_type_invariant(self);
        }
        let done = self.results.len();
        let total = self.paths.len();
        if done < total {
            let call = text_call("files.verify", "path", self.paths[done].as_str());
            VerifyStep::Call { done, total, call }
        } else {
            VerifyStep::Finish { done, total }
        }
    }

    /// Records the outcome of the call for the first item not yet answered.
    /// A failed call is recorded like any other outcome: the batch goes on.
    pub fn record(&mut self, outcome: Result<serde_json::Value, String>)
        requires
            old(self).replies().len() < old(self).paths().len(),
        ensures
            final(self).paths() == old(self).paths(),
            final(self).replies() == old(self).replies().push(reply_of(outcome)),
    {
        proof {
            use_type_invariant(&*self);
        }
        let mut taken = VerifyBatch::new(Vec::new());
        std::mem::swap(self, &mut taken);
        let VerifyBatch { paths, ok, failed, results, replies } = taken;
        let mut ok = ok;
        let mut failed = failed;
        let mut results = results;
        let ghost reply = reply_of(outcome);
        let ghost before = replies@;
        let ghost entries_before = results@;
        let ghost path_texts = texts_of(paths@);
        let index = results.len();
        assert(ok + failed == index < paths.len() <= usize::MAX);
        let mut entry = empty_object();
        insert_member(&mut entry, "path", text_value(paths[index].as_str()));
        match outcome {
            Ok(value) => {
                match get_bool(&value, "valid") {
                    Some(true) => {
                        ok = ok + 1;
                    },
                    _ => {
                        failed = failed + 1;
                    },
                }
                insert_member(&mut entry, "result", value);
            },
            Err(message) => {
                failed = failed + 1;
                insert_member(&mut entry, "error", text_value(message.as_str()));
            },
        }
        results.push(entry);
        proof {
            assert(before.push(reply).drop_last() =~= before);
            assert(json_of(entry) == entry_model(path_texts[index as int], reply));
            assert(models_of(results@) =~= entries_model(path_texts, before.push(reply))) by {
                assert forall|i: int| 0 <= i < results@.len() implies json_of(results@[i])
                    == entry_model(path_texts[i], before.push(reply)[i]) by {
                    if i < index {
                        assert(results@[i] == entries_before[i]);
                        assert(models_of(entries_before)[i] == json_of(entries_before[i]));
                    }
                }
            }
        }
        *self = VerifyBatch { paths, ok, failed, results, replies: Ghost(before.push(reply)) };
    }

    /// The report: the counts of ok and failed items, their total, which is
    /// the number of items answered, and one entry for each of them, in the
    /// order of the items.
    pub fn finish(self) -> (r: serde_json::Value)
        ensures
            json_of(r) == report_model(self.paths(), self.replies()),
    {
        proof {
            use_type_invariant(&self);
        }
        assert(self.ok + self.failed == self.results.len() <= usize::MAX);
        let mut summary = empty_object();
        insert_member(&mut summary, "ok", unsigned_value(self.ok));
        insert_member(&mut summary, "failed", unsigned_value(self.failed));
        insert_member(&mut summary, "total", unsigned_value(self.ok + self.failed));
        let mut report = empty_object();
        insert_member(&mut report, "summary", summary);
        insert_member(&mut report, "results", array_value(self.results));
        report
    }
}

/// Every reply counts once, as ok or as failed: the two counts add up to
/// the number of replies.
pub proof fn lemma_counts_add_up(replies: Seq<Reply>)
    ensures
        ok_count(replies) + failed_count(replies) == replies.len(),
    decreases replies.len(),
{
    if replies.len() > 0 {
        lemma_counts_add_up(replies.drop_last());
    }
}

/// The two topic operations that run as background jobs.
#[derive(Clone, Copy, Debug, PartialEq, Eq)]
pub enum TopicOp {
    Join,
    Leave,
}

/// The message of a join or leave job to its consumer.
pub enum JoinLeaveMsg {
    /// The operation succeeded; `overview` is the state fetched right after.
    Done { overview: serde_json::Value },
    /// The operation failed.
    Error { message: String },
}

/// What a join or leave job does after its first call.
pub enum JoinLeaveStep {
    /// Make this call next.
    Call(Call),
    /// The job is over, with this message.
    Finish(JoinLeaveMsg),
}

/// The daemon method of a topic operation.
pub open spec fn topic_method(op: TopicOp) -> Seq<char> {
    match op {
        TopicOp::Join => "topic.join"@,
        TopicOp::Leave => "topic.leave"@,
    }
}

/// The first call of a join or leave job: the operation itself, on `name`.
pub fn topic_call(op: TopicOp, name: &str) -> (r: Call)
    ensures
        r.method@ == topic_method(op),
        json_of(r.params) == object1("name"@, JsonModel::Str(name@)),
{
    match op {
        TopicOp::Join => text_call("topic.join", "name", name),
        TopicOp::Leave => text_call("topic.leave", "name", name),
    }
}

/// The call that fetches the state of the network.
pub fn overview_call() -> (r: Call)
    ensures
        r.method@ == "network.overview"@,
        json_of(r.params) == JsonModel::Object(Map::empty()),
{
    plain_call("network.overview")
}

/// After the operation's own call: a failure ends the job with its message;
/// on success the job goes on to fetch the state.
pub fn after_topic_call(outcome: Result<serde_json::Value, String>) -> (r: JoinLeaveStep)
    ensures
        match outcome {
            Ok(_) => r matches JoinLeaveStep::Call(call) && call.method@ == "network.overview"@
                && json_of(call.params) == JsonModel::Object(Map::empty()),
            Err(message) => r matches JoinLeaveStep::Finish(JoinLeaveMsg::Error { message: m })
                && m@ == message@,
        },
{
    match outcome {
        Ok(_) => JoinLeaveStep::Call(overview_call()),
        Err(message) => JoinLeaveStep::Finish(JoinLeaveMsg::Error { message }),
    }
}

/// After the state was fetched: the job ends with it, or with the message of
/// the failure.
pub fn after_overview(outcome: Result<serde_json::Value, String>) -> (r: JoinLeaveMsg)
    ensures
        match outcome {
            Ok(value) => r matches JoinLeaveMsg::Done { overview } && json_of(overview) == json_of(
                value,
            ),
            Err(message) => r matches JoinLeaveMsg::Error { message: m } && m@ == message@,
        },
{
    match outcome {
        Ok(overview) => JoinLeaveMsg::Done { overview },
        Err(message) => JoinLeaveMsg::Error { message },
    }
}

/// The call of a file-info job.
pub fn info_call(path: &str) -> (r: Call)
    ensures
        r.method@ == "files.info"@,
        json_of(r.params) == object1("path"@, JsonModel::Str(path@)),
{
    text_call("files.info", "path", path)
}

} // verus!
