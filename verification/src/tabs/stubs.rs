//! The files tab: the tracked files, the selection among them, and the jobs
//! that verify files and fetch details. The browse and downloads tabs hold
//! nothing yet.

use crate::ipc::{object1, plain_call, text_array, text_call, text_list, Call, RpcError};
use crate::jobs::{
    current_messages, lemma_no_current_messages, next_generation, Dispatcher, Reply, VerifyMsg,
};
use crate::json::{
    empty_object, get_array, get_str, get_u64, insert_member, json_of, member_items,
    member_text, member_unsigned, models_of, JsonModel,
};
use crate::selection::{ascending, keys_between, MultiSelectState};
use crate::tabs::network::{optional_text, selection_after};
use crate::text::texts_of;
use vstd::prelude::*;

verus! {

/// The browse tab.
pub struct BrowseTab;

/// The downloads tab.
pub struct DownloadsTab;

impl BrowseTab {
    pub fn new() -> Self {
        BrowseTab
    }
}

impl DownloadsTab {
    pub fn new() -> Self {
        DownloadsTab
    }
}

/// One tracked file or directory.
#[derive(Debug, Clone)]
pub struct FileEntryRow {
    /// `f` for a file, `d` for a directory.
    pub typ: String,
    pub path: String,
    pub size: Option<u64>,
    pub chunks: Option<u64>,
    pub merkle_root: Option<String>,
}

/// What a `FileEntryRow` holds.
pub struct FileEntryModel {
    pub is_dir: bool,
    pub path: Seq<char>,
    pub size: Option<u64>,
    pub chunks: Option<u64>,
    pub merkle_root: Option<Seq<char>>,
}

impl FileEntryRow {
    /// Whether the row holds exactly `model`.
    pub open spec fn holds(self, model: FileEntryModel) -> bool {
        &&& self.typ@ == if model.is_dir {
            "d"@
        } else {
            "f"@
        }
        &&& self.path@ == model.path
        &&& self.size == model.size
        &&& self.chunks == model.chunks
        &&& optional_text(self.merkle_root) == model.merkle_root
    }
}

/// Whether the rows hold exactly `models`, one for one.
pub open spec fn rows_hold(rows: Seq<FileEntryRow>, models: Seq<FileEntryModel>) -> bool {
    &&& rows.len() == models.len()
    &&& forall|i: int| 0 <= i < rows.len() ==> (#[trigger] rows[i]).holds(models[i])
}

/// The row that an element of a file list describes: it must carry a path.
/// A directory has neither size nor chunk count.
pub open spec fn entry_row(item: JsonModel, is_dir: bool) -> Option<FileEntryModel> {
    match member_text(item, "path"@) {
        Some(path) => Some(
            FileEntryModel {
                is_dir,
                path,
                size: if is_dir {
                    None
                } else {
                    member_unsigned(item, "size"@)
                },
                chunks: if is_dir {
                    None
                } else {
                    member_unsigned(item, "chunk_count"@)
                },
                merkle_root: member_text(item, "merkle_root"@),
            },
        ),
        None => None,
    }
}

/// The rows of the elements that carry a path, in their order.
pub open spec fn entry_rows(items: Seq<JsonModel>, is_dir: bool) -> Seq<FileEntryModel>
    decreases items.len(),
{
    if items.len() == 0 {
        Seq::empty()
    } else {
        match entry_row(items.last(), is_dir) {
            Some(row) => entry_rows(items.drop_last(), is_dir).push(row),
            None => entry_rows(items.drop_last(), is_dir),
        }
    }
}

/// The rows of the array member `key`; none where there is no such array.
pub open spec fn member_rows(list: JsonModel, key: Seq<char>, is_dir: bool) -> Seq<FileEntryModel> {
    match member_items(list, key) {
        Some(items) => entry_rows(items, is_dir),
        None => Seq::empty(),
    }
}

/// The rows of a file list: its files, then its directories.
pub open spec fn list_rows(list: JsonModel) -> Seq<FileEntryModel> {
    member_rows(list, "files"@, false) + member_rows(list, "dirs"@, true)
}

/// Appends the rows of the array member `key` of `v` to `out`.
fn push_rows(out: &mut Vec<FileEntryRow>, v: &serde_json::Value, key: &str, is_dir: bool, Ghost(
    before,
): Ghost<Seq<FileEntryModel>>)
    requires
        rows_hold(old(out)@, before),
    ensures
        rows_hold(final(out)@, before + member_rows(json_of(*v), key@, is_dir)),
{
    let items = match get_array(v, key) {
        Some(items) => items,
        None => {
            assert(before + Seq::<FileEntryModel>::empty() =~= before);
            return ;
        },
    };
    let mut i: usize = 0;
    assert(models_of(items@).take(0) =~= Seq::<JsonModel>::empty());
    assert(before + Seq::<FileEntryModel>::empty() =~= before);
    while i < items.len()
        invariant
            i <= items.len(),
            rows_hold(out@, before + entry_rows(models_of(items@).take(i as int), is_dir)),
        decreases items.len() - i,
    {
        let item = &items[i];
        let ghost seen = models_of(items@).take(i + 1);
        assert(seen.drop_last() =~= models_of(items@).take(i as int));
        assert(seen.last() == json_of(*item));
        let ghost sofar = before + entry_rows(models_of(items@).take(i as int), is_dir);
        match get_str(item, "path") {
            Some(path) => {
                let row = FileEntryRow {
                    typ: if is_dir {
                        "d".to_owned()
                    } else {
                        "f".to_owned()
                    },
                    path: path.to_owned(),
                    size: if is_dir {
                        None
                    } else {
                        get_u64(item, "size")
                    },
                    chunks: if is_dir {
                        None
                    } else {
                        get_u64(item, "chunk_count")
                    },
                    merkle_root: match get_str(item, "merkle_root") {
                        Some(root) => Some(root.to_owned()),
                        None => None,
                    },
                };
                out.push(row);
                assert(before + entry_rows(seen, is_dir) =~= sofar.push(
                    entry_row(json_of(*item), is_dir)->0,
                ));
            },
            None => {},
        }
        i += 1;
    }
    assert(models_of(items@).take(items.len() as int) =~= models_of(items@));
}

/// Reads the rows of a `files.list` result.
pub fn parse_files_list(v: &serde_json::Value) -> (r: Vec<FileEntryRow>)
    ensures
        rows_hold(r@, list_rows(json_of(*v))),
{
    let mut out: Vec<FileEntryRow> = Vec::new();
    push_rows(&mut out, v, "files", false, Ghost(Seq::empty()));
    assert(Seq::<FileEntryModel>::empty() + member_rows(json_of(*v), "files"@, false)
        =~= member_rows(json_of(*v), "files"@, false));
    push_rows(&mut out, v, "dirs", true, Ghost(member_rows(json_of(*v), "files"@, false)));
    out
}

/// The payload of an optional JSON value.
pub open spec fn optional_json(value: Option<serde_json::Value>) -> Option<JsonModel> {
    match value {
        Some(value) => Some(json_of(value)),
        None => None,
    }
}

/// The message of a file-info job: the path asked about and the outcome.
pub struct InfoMsg {
    pub path: String,
    pub result: Result<serde_json::Value, String>,
}

/// What an `InfoMsg` holds.
pub struct InfoModel {
    pub path: Seq<char>,
    pub result: Reply,
}

/// What a `VerifyMsg` holds.
pub enum VerifyModel {
    Progress { done: usize, total: usize },
    Done { value: JsonModel },
    Error { message: Seq<char> },
}

/// What an `InfoMsg` holds.
pub open spec fn info_model(msg: InfoMsg) -> InfoModel {
    InfoModel { path: msg.path@, result: crate::jobs::reply_of(msg.result) }
}

/// What a `VerifyMsg` holds.
pub open spec fn verify_model(msg: VerifyMsg) -> VerifyModel {
    match msg {
        VerifyMsg::Progress { done, total } => VerifyModel::Progress { done, total },
        VerifyMsg::Done { value } => VerifyModel::Done { value: json_of(value) },
        VerifyMsg::Error { message } => VerifyModel::Error { message: message@ },
    }
}

/// What a sequence of info messages holds.
pub open spec fn info_models(msgs: Seq<InfoMsg>) -> Seq<InfoModel> {
    Seq::new(msgs.len(), |i: int| info_model(msgs[i]))
}

/// What a sequence of verify messages holds.
pub open spec fn verify_models(msgs: Seq<VerifyMsg>) -> Seq<VerifyModel> {
    Seq::new(msgs.len(), |i: int| verify_model(msgs[i]))
}

/// What the background jobs show of the files tab.
pub struct FilesJobsModel {
    pub progress: Option<(usize, usize)>,
    pub last_error: Option<Seq<char>>,
    pub last_info: Option<JsonModel>,
    pub last_verify: Option<JsonModel>,
}

/// The tab after a message of the current info job. The message counts only
/// if it is about the focused path.
pub open spec fn after_info(tab: FilesJobsModel, focused: Option<Seq<char>>, msg: InfoModel) -> FilesJobsModel {
    if focused != Some(msg.path) {
        tab
    } else {
        match msg.result {
            Reply::Answer(info) => FilesJobsModel {
                last_info: Some(info),
                last_error: None,
                ..tab
            },
            Reply::Failure(message) => FilesJobsModel { last_error: Some(message), ..tab },
        }
    }
}

/// The tab after a message of the current verify job.
pub open spec fn after_verify(tab: FilesJobsModel, msg: VerifyModel) -> FilesJobsModel {
    match msg {
        VerifyModel::Progress { done, total } => FilesJobsModel {
            progress: Some((done, total)),
            ..tab
        },
        VerifyModel::Done { value } => FilesJobsModel {
            progress: None,
            last_verify: Some(value),
            last_error: None,
            ..tab
        },
        VerifyModel::Error { message } => FilesJobsModel {
            progress: None,
            last_error: Some(message),
            ..tab
        },
    }
}

/// The tab after a sequence of messages of the current info job.
pub open spec fn after_all_info(
    tab: FilesJobsModel,
    focused: Option<Seq<char>>,
    msgs: Seq<InfoModel>,
) -> FilesJobsModel
    decreases msgs.len(),
{
    if msgs.len() == 0 {
        tab
    } else {
        after_info(after_all_info(tab, focused, msgs.drop_last()), focused, msgs.last())
    }
}

/// The tab after a sequence of messages of the current verify job.
pub open spec fn after_all_verify(tab: FilesJobsModel, msgs: Seq<VerifyModel>) -> FilesJobsModel
    decreases msgs.len(),
{
    if msgs.len() == 0 {
        tab
    } else {
        after_verify(after_all_verify(tab, msgs.drop_last()), msgs.last())
    }
}

/// A file-info job to run in the background.
pub struct InfoJob {
    /// The generation that the job's message must carry.
    pub generation: u64,
    /// The path to ask about.
    pub path: String,
}

/// A verify job to run in the background.
pub struct VerifyJob {
    /// The generation that the job's messages must carry.
    pub generation: u64,
    /// The paths to verify, in this order.
    pub paths: Vec<String>,
}

/// The paths of the rows, in their order.
pub open spec fn row_paths(rows: Seq<FileEntryRow>) -> Seq<String> {
    Seq::new(rows.len(), |i: int| rows[i].path)
}

/// The state of the files tab.
pub struct FilesTab {
    pub entries: Vec<FileEntryRow>,
    /// The index of the highlighted row.
    pub selected: Option<usize>,
    pub selection: MultiSelectState,
    pub info_jobs: Dispatcher,
    pub verify_jobs: Dispatcher,
    pub verify_progress: Option<(usize, usize)>,
    /// The path that the details are about, or were last asked about.
    pub focused_path: Option<String>,
    pub last_error: Option<String>,
    pub last_info: Option<serde_json::Value>,
    pub last_verify: Option<serde_json::Value>,
}

impl FilesTab {
    /// What the background jobs show of the tab.
    pub open spec fn jobs_model(&self) -> FilesJobsModel {
        FilesJobsModel {
            progress: self.verify_progress,
            last_error: optional_text(self.last_error),
            last_info: optional_json(self.last_info),
            last_verify: optional_json(self.last_verify),
        }
    }

    /// The path of the highlighted row, if the highlight is on one.
    pub open spec fn highlighted(&self) -> Option<String> {
        match self.selected {
            Some(i) => if i < self.entries@.len() {
                Some(self.entries@[i as int].path)
            } else {
                None
            },
            None => None,
        }
    }

    /// Whether `self` and `other` have the same rows, highlight and
    /// selection.
    pub open spec fn same_list(&self, other: &Self) -> bool {
        &&& self.entries == other.entries
        &&& self.selected == other.selected
        &&& self.selection == other.selection
    }

    /// Whether `self` and `other` agree on everything that background jobs
    /// touch or are tagged by.
    pub open spec fn same_jobs(&self, other: &Self) -> bool {
        &&& self.info_jobs == other.info_jobs
        &&& self.verify_jobs == other.verify_jobs
        &&& self.verify_progress == other.verify_progress
        &&& self.focused_path == other.focused_path
        &&& self.last_error == other.last_error
        &&& self.last_info == other.last_info
        &&& self.last_verify == other.last_verify
    }

    /// Whether `keys` is the target list of the tab: the selected paths in
    /// ascending dictionary order, each once; or, where nothing is selected,
    /// the highlighted path alone.
    pub open spec fn is_target_list(&self, keys: Seq<String>) -> bool {
        if !self.selection@.is_empty() {
            texts_of(keys).to_set() == self.selection@ && ascending(texts_of(keys))
        } else {
            match self.highlighted() {
                Some(path) => texts_of(keys) == seq![path@],
                None => keys.len() == 0,
            }
        }
    }

    /// The tab at start: no rows yet, the first row highlighted, nothing
    /// selected, no job.
    pub fn new() -> (r: Self)
        ensures
            r.entries@.len() == 0,
            r.selected == Some(0usize),
            r.selection@ == Set::<Seq<char>>::empty(),
            r.selection.anchor() is None,
            r.info_jobs.generation() == 0,
            r.verify_jobs.generation() == 0,
            r.verify_progress is None,
            r.focused_path is None,
            r.last_error is None,
            r.last_info is None,
            r.last_verify is None,
    {
        FilesTab {
            entries: Vec::new(),
            selected: Some(0),
            selection: MultiSelectState::default(),
            info_jobs: Dispatcher::new(),
            verify_jobs: Dispatcher::new(),
            verify_progress: None,
            focused_path: None,
            last_error: None,
            last_info: None,
            last_verify: None,
        }
    }

    /// Takes in the messages that the info jobs and the verify jobs have
    /// sent, each queue in the order received, the info queue first.
    ///
    /// Only the messages of the latest job of each kind count. Info counts
    /// only for the path that has the focus: a result becomes the details and
    /// clears the error, a failure leaves its message. Progress of a verify
    /// job is shown; its report ends the progress and clears the error; its
    /// failure ends the progress and leaves its message.
    pub fn poll_async(&mut self, info: Vec<(u64, InfoMsg)>, verify: Vec<(u64, VerifyMsg)>)
        ensures
            final(self).same_list(old(self)),
            final(self).info_jobs == old(self).info_jobs,
            final(self).verify_jobs == old(self).verify_jobs,
            final(self).focused_path == old(self).focused_path,
            final(self).jobs_model() == after_all_verify(
                after_all_info(
                    old(self).jobs_model(),
                    optional_text(old(self).focused_path),
                    info_models(current_messages(info@, old(self).info_jobs.generation())),
                ),
                verify_models(current_messages(verify@, old(self).verify_jobs.generation())),
            ),
    {
        let info = self.info_jobs.drain(info);
        let verify = self.verify_jobs.drain(verify);
        let ghost start = self.jobs_model();
        let ghost focused = optional_text(self.focused_path);
        let ghost all_info = info@;
        assert(info_models(all_info.take(0)) =~= Seq::<InfoModel>::empty());
        for msg in it: info.into_iter()
            invariant
                it.seq() == all_info,
                self.same_list(old(self)),
                self.info_jobs == old(self).info_jobs,
                self.verify_jobs == old(self).verify_jobs,
                self.focused_path == old(self).focused_path,
                focused == optional_text(self.focused_path),
                self.jobs_model() == after_all_info(
                    start,
                    focused,
                    info_models(all_info.take(it.index() as int)),
                ),
        {
            assert(info_models(all_info.take(it.index() + 1)).drop_last() =~= info_models(
                all_info.take(it.index() as int),
            ));
            let about_focus = match &self.focused_path {
                Some(path) => *path == msg.path,
                None => false,
            };
            if about_focus {
                match msg.result {
                    Ok(info) => {
                        self.last_info = Some(info);
                        self.last_error = None;
                    },
                    Err(message) => {
                        self.last_error = Some(message);
                    },
                }
            }
        }
        assert(all_info.take(all_info.len() as int) =~= all_info);
        let ghost middle = self.jobs_model();
        let ghost all_verify = verify@;
        assert(verify_models(all_verify.take(0)) =~= Seq::<VerifyModel>::empty());
        for msg in it: verify.into_iter()
            invariant
                it.seq() == all_verify,
                self.same_list(old(self)),
                self.info_jobs == old(self).info_jobs,
                self.verify_jobs == old(self).verify_jobs,
                self.focused_path == old(self).focused_path,
                self.jobs_model() == after_all_verify(
                    middle,
                    verify_models(all_verify.take(it.index() as int)),
                ),
        {
            assert(verify_models(all_verify.take(it.index() + 1)).drop_last() =~= verify_models(
                all_verify.take(it.index() as int),
            ));
            match msg {
                VerifyMsg::Progress { done, total } => {
                    self.verify_progress = Some((done, total));
                },
                VerifyMsg::Done { value } => {
                    self.verify_progress = None;
                    self.last_verify = Some(value);
                    self.last_error = None;
                },
                VerifyMsg::Error { message } => {
                    self.verify_progress = None;
                    self.last_error = Some(message);
                },
            }
        }
        assert(all_verify.take(all_verify.len() as int) =~= all_verify);
    }

    /// The path of the highlighted row.
    pub fn selected_path(&self) -> (r: Option<String>)
        ensures
            r == self.highlighted(),
    {
        match self.selected {
            Some(i) => if i < self.entries.len() {
                Some(self.entries[i].path.clone())
            } else {
                None
            },
            None => None,
        }
    }

    /// The paths of the rows, in their order.
    pub fn paths(&self) -> (r: Vec<String>)
        ensures
            r@ == row_paths(self.entries@),
    {
        let mut out: Vec<String> = Vec::new();
        let mut i: usize = 0;
        while i < self.entries.len()
            invariant
                i <= self.entries.len(),
                out@ == row_paths(self.entries@).take(i as int),
            decreases self.entries.len() - i,
        {
            out.push(self.entries[i].path.clone());
            assert(out@ =~= row_paths(self.entries@).take(i + 1));
            i += 1;
        }
        assert(row_paths(self.entries@).take(self.entries.len() as int) =~= row_paths(
            self.entries@,
        ));
        out
    }

    /// Asks for the details of the highlighted path where the focus is not
    /// on it yet.
    ///
    /// Without a highlighted path the focus and the details are dropped. With
    /// the focus already on the highlighted path nothing happens. Else the
    /// focus moves there, the details are dropped, and a job of the next
    /// generation is to fetch the new ones.
    pub fn request_focused_info_if_needed(&mut self) -> (r: Option<InfoJob>)
        ensures
            final(self).same_list(old(self)),
            final(self).verify_jobs == old(self).verify_jobs,
            final(self).verify_progress == old(self).verify_progress,
            final(self).last_error == old(self).last_error,
            final(self).last_verify == old(self).last_verify,
            match old(self).highlighted() {
                None => {
                    &&& r is None
                    &&& final(self).focused_path is None
                    &&& final(self).last_info is None
                    &&& final(self).info_jobs == old(self).info_jobs
                },
                Some(path) => if optional_text(old(self).focused_path) == Some(path@) {
                    &&& r is None
                    &&& final(self).focused_path == old(self).focused_path
                    &&& final(self).last_info == old(self).last_info
                    &&& final(self).info_jobs == old(self).info_jobs
                } else {
                    &&& r matches Some(job)
                    &&& job.path@ == path@
                    &&& job.generation == next_generation(old(self).info_jobs.generation())
                    &&& final(self).info_jobs.generation() == job.generation
                    &&& optional_text(final(self).focused_path) == Some(path@)
                    &&& final(self).last_info is None
                },
            },
    {
        let path = match self.selected_path() {
            Some(path) => path,
            None => {
                self.focused_path = None;
                self.last_info = None;
                return None;
            },
        };
        let unchanged = match &self.focused_path {
            Some(focused) => *focused == path,
            None => false,
        };
        if unchanged {
            return None;
        }
        self.focused_path = Some(path.clone());
        self.last_info = None;
        let generation = self.info_jobs.dispatch();
        Some(InfoJob { generation, path })
    }

    /// Takes in the reply to `files.list`.
    ///
    /// A result replaces the rows. The selection keeps the paths that are
    /// still listed; the highlight goes to the first row if there was none,
    /// and away if there are no rows; the error is cleared; and the details
    /// follow the highlight as in `request_focused_info_if_needed`. A failure
    /// leaves its message and nothing else.
    pub fn refresh(&mut self, reply: Result<serde_json::Value, RpcError>) -> (r: Option<InfoJob>)
        ensures
            final(self).verify_jobs == old(self).verify_jobs,
            final(self).verify_progress == old(self).verify_progress,
            final(self).last_verify == old(self).last_verify,
            match reply {
                Ok(list) => {
                    &&& rows_hold(final(self).entries@, list_rows(json_of(list)))
                    &&& final(self).selected == selection_after(
                        old(self).selected,
                        final(self).entries@.len(),
                    )
                    &&& final(self).selection@ == old(self).selection@.intersect(
                        texts_of(row_paths(final(self).entries@)).to_set(),
                    )
                    &&& final(self).selection.anchor() == if final(self).entries@.len() == 0 {
                        None
                    } else {
                        old(self).selection.anchor()
                    }
                    &&& final(self).last_error is None
                    &&& match final(self).highlighted() {
                        None => {
                            &&& r is None
                            &&& final(self).focused_path is None
                            &&& final(self).last_info is None
                            &&& final(self).info_jobs == old(self).info_jobs
                        },
                        Some(path) => if optional_text(old(self).focused_path) == Some(path@) {
                            &&& r is None
                            &&& final(self).focused_path == old(self).focused_path
                            &&& final(self).last_info == old(self).last_info
                            &&& final(self).info_jobs == old(self).info_jobs
                        } else {
                            &&& r matches Some(job)
                            &&& job.path@ == path@
                            &&& job.generation == next_generation(
                                old(self).info_jobs.generation(),
                            )
                            &&& final(self).info_jobs.generation() == job.generation
                            &&& optional_text(final(self).focused_path) == Some(path@)
                            &&& final(self).last_info is None
                        },
                    }
                },
                Err(e) => {
                    &&& r is None
                    &&& final(self).same_list(old(self))
                    &&& optional_text(final(self).last_error) == Some(e.message_text())
                    &&& final(self).info_jobs == old(self).info_jobs
                    &&& final(self).focused_path == old(self).focused_path
                    &&& final(self).last_info == old(self).last_info
                },
            },
    {
        match reply {
            Ok(list) => {
                self.entries = parse_files_list(&list);
                let listed = self.paths();
                self.selection.retain_existing(listed.as_slice());
                if self.entries.len() == 0 {
                    self.selected = None;
                } else if self.selected.is_none() {
                    self.selected = Some(0);
                }
                self.last_error = None;
                self.request_focused_info_if_needed()
            },
            Err(e) => {
                self.last_error = Some(e.message());
                None
            },
        }
    }

    /// The paths that an action on the selection applies to: the selected
    /// paths, or the highlighted path where nothing is selected.
    pub fn targets(&self) -> (r: Vec<String>)
        ensures
            self.is_target_list(r@),
    {
        let chosen = self.selection.selected();
        let mut paths: Vec<String> = Vec::new();
        let mut i: usize = 0;
        while i < chosen.len()
            invariant
                i <= chosen.len(),
                paths@ == chosen@.take(i as int),
            decreases chosen.len() - i,
        {
            paths.push(chosen[i].clone());
            assert(paths@ =~= chosen@.take(i + 1));
            i += 1;
        }
        assert(chosen@.take(chosen.len() as int) =~= chosen@);
        if paths.len() == 0 {
            assert(texts_of(paths@).to_set() =~= Set::<Seq<char>>::empty());
            match self.selected_path() {
                Some(path) => {
                    paths.push(path);
                    assert(texts_of(paths@) =~= seq![path@]);
                },
                None => {},
            }
        } else {
            assert(texts_of(paths@).to_set().contains(texts_of(paths@)[0]));
        }
        paths
    }

    /// Starts a verify job on the targets: takes the next generation, shows
    /// the progress `0` of their number, and clears the error. Without a
    /// target nothing happens.
    pub fn verify_selected(&mut self) -> (r: Option<VerifyJob>)
        ensures
            final(self).same_list(old(self)),
            final(self).info_jobs == old(self).info_jobs,
            final(self).focused_path == old(self).focused_path,
            final(self).last_info == old(self).last_info,
            final(self).last_verify == old(self).last_verify,
            match r {
                Some(job) => {
                    &&& old(self).is_target_list(job.paths@)
                    &&& job.paths@.len() > 0
                    &&& job.generation == next_generation(old(self).verify_jobs.generation())
                    &&& final(self).verify_jobs.generation() == job.generation
                    &&& final(self).verify_progress == Some((0usize, job.paths@.len() as usize))
                    &&& final(self).last_error is None
                },
                None => {
                    &&& old(self).is_target_list(Seq::empty())
                    &&& final(self).same_jobs(old(self))
                },
            },
    {
        let paths = self.targets();
        if paths.len() == 0 {
            assert(paths@ =~= Seq::<String>::empty());
            return None;
        }
        let generation = self.verify_jobs.dispatch();
        self.verify_progress = Some((0, paths.len()));
        self.last_error = None;
        Some(VerifyJob { generation, paths })
    }

    /// The paths to remove: the targets.
    pub fn remove_selected(&self) -> (r: Vec<String>)
        ensures
            self.is_target_list(r@),
    {
        self.targets()
    }

    /// Takes in the outcome of a change made from this tab (`files.remove`,
    /// `files.add`): on success the error is cleared and the caller refreshes
    /// the list; a failure leaves its message. Returns whether to refresh.
    pub fn change_done(&mut self, reply: Result<serde_json::Value, RpcError>) -> (r: bool)
        ensures
            final(self).same_list(old(self)),
            final(self).info_jobs == old(self).info_jobs,
            final(self).verify_jobs == old(self).verify_jobs,
            final(self).verify_progress == old(self).verify_progress,
            final(self).focused_path == old(self).focused_path,
            final(self).last_info == old(self).last_info,
            final(self).last_verify == old(self).last_verify,
            match reply {
                Ok(_) => r && final(self).last_error is None,
                Err(e) => !r && optional_text(final(self).last_error) == Some(e.message_text()),
            },
    {
        match reply {
            Ok(_) => {
                self.last_error = None;
                true
            },
            Err(e) => {
                self.last_error = Some(e.message());
                false
            },
        }
    }

    /// Selects the highlighted path if it was not selected, deselects it if
    /// it was, and anchors at its row.
    pub fn toggle_selected_current(&mut self)
        ensures
            final(self).entries == old(self).entries,
            final(self).selected == old(self).selected,
            final(self).same_jobs(old(self)),
            match old(self).highlighted() {
                Some(path) => {
                    &&& final(self).selection@ == if old(self).selection@.contains(path@) {
                        old(self).selection@.remove(path@)
                    } else {
                        old(self).selection@.insert(path@)
                    }
                    &&& final(self).selection.anchor() == old(self).selected
                },
                None => final(self).selection == old(self).selection,
            },
    {
        match self.selected_path() {
            Some(path) => {
                let row = match self.selected {
                    Some(i) => i,
                    None => 0,
                };
                self.selection.toggle(path, row);
            },
            None => {},
        }
    }

    /// Selects the rows that were not selected, and no others.
    pub fn invert_selection(&mut self)
        ensures
            final(self).entries == old(self).entries,
            final(self).selected == old(self).selected,
            final(self).same_jobs(old(self)),
            final(self).selection@ == texts_of(row_paths(old(self).entries@)).to_set().difference(
                old(self).selection@,
            ),
            final(self).selection.anchor() == old(self).selection.anchor(),
    {
        let keys = self.paths();
        self.selection.invert(keys.as_slice());
    }

    /// Selects every row.
    pub fn select_all(&mut self)
        ensures
            final(self).entries == old(self).entries,
            final(self).selected == old(self).selected,
            final(self).same_jobs(old(self)),
            final(self).selection@ == texts_of(row_paths(old(self).entries@)).to_set(),
            final(self).selection.anchor() == old(self).selection.anchor(),
    {
        let keys = self.paths();
        self.selection.select_all(keys.as_slice());
    }

    /// Deselects every row and removes the anchor.
    pub fn clear_selection(&mut self)
        ensures
            final(self).entries == old(self).entries,
            final(self).selected == old(self).selected,
            final(self).same_jobs(old(self)),
            final(self).selection@ == Set::<Seq<char>>::empty(),
            final(self).selection.anchor() is None,
    {
        self.selection.clear();
    }

    /// Extends the selection to the row `idx`, from the anchor: see
    /// `MultiSelectState::range_select`.
    pub fn select_range_to(&mut self, idx: usize)
        ensures
            final(self).entries == old(self).entries,
            final(self).selected == old(self).selected,
            final(self).same_jobs(old(self)),
            match old(self).selection.anchor() {
                Some(a) => {
                    &&& final(self).selection@ == old(self).selection@.union(
                        keys_between(
                            row_paths(old(self).entries@),
                            if a <= idx { a as int } else { idx as int },
                            if a <= idx { idx as int } else { a as int },
                        ),
                    )
                    &&& final(self).selection.anchor() == Some(a)
                },
                None => if idx < old(self).entries@.len() {
                    &&& final(self).selection@ == Set::<Seq<char>>::empty().insert(
                        old(self).entries@[idx as int].path@,
                    )
                    &&& final(self).selection.anchor() == Some(idx)
                } else {
                    &&& final(self).selection@ == old(self).selection@
                    &&& final(self).selection.anchor() is None
                },
            },
    {
        let keys = self.paths();
        self.selection.range_select(keys.as_slice(), idx);
    }

    /// Moves the highlight and the anchor to `idx`, and lets the details
    /// follow as in `request_focused_info_if_needed`.
    pub fn set_focus(&mut self, idx: Option<usize>) -> (r: Option<InfoJob>)
        ensures
            final(self).entries == old(self).entries,
            final(self).selected == idx,
            final(self).selection@ == old(self).selection@,
            final(self).selection.anchor() == idx,
            final(self).verify_jobs == old(self).verify_jobs,
            final(self).verify_progress == old(self).verify_progress,
            final(self).last_error == old(self).last_error,
            final(self).last_verify == old(self).last_verify,
            match final(self).highlighted() {
                None => {
                    &&& r is None
                    &&& final(self).focused_path is None
                    &&& final(self).last_info is None
                    &&& final(self).info_jobs == old(self).info_jobs
                },
                Some(path) => if optional_text(old(self).focused_path) == Some(path@) {
                    &&& r is None
                    &&& final(self).focused_path == old(self).focused_path
                    &&& final(self).last_info == old(self).last_info
                    &&& final(self).info_jobs == old(self).info_jobs
                } else {
                    &&& r matches Some(job)
                    &&& job.path@ == path@
                    &&& job.generation == next_generation(old(self).info_jobs.generation())
                    &&& final(self).info_jobs.generation() == job.generation
                    &&& optional_text(final(self).focused_path) == Some(path@)
                    &&& final(self).last_info is None
                },
            },
    {
        self.selected = idx;
        self.selection.set_anchor(idx);
        self.request_focused_info_if_needed()
    }

    /// The call that adds files: the paths picked, or the path under the
    /// cursor where none was picked; no call where there is neither.
    pub fn add_confirm(picked: Vec<String>, current: Option<String>) -> (r: Option<Call>)
        ensures
            match r {
                Some(call) => {
                    &&& call.method@ == "files.add"@
                    &&& json_of(call.params) == object1(
                        "paths"@,
                        text_array(
                            texts_of(
                                if picked@.len() > 0 {
                                    picked@
                                } else {
                                    seq![current->0]
                                },
                            ),
                        ),
                    )
                    &&& picked@.len() > 0 || current is Some
                },
                None => picked@.len() == 0 && current is None,
            },
    {
        let mut paths = picked;
        if paths.len() == 0 {
            match current {
                Some(path) => {
                    paths.push(path);
                    assert(paths@ =~= seq![path]);
                },
                None => {
                    return None;
                },
            }
        }
        let mut params = empty_object();
        insert_member(&mut params, "paths", text_list(&paths));
        Some(Call { method: "files.add".to_owned(), params })
    }
}

/// The call that fetches the list of tracked files.
pub fn list_call() -> (r: Call)
    ensures
        r.method@ == "files.list"@,
        json_of(r.params) == JsonModel::Object(Map::empty()),
{
    plain_call("files.list")
}

/// The call that removes one tracked path.
pub fn remove_call(path: &str) -> (r: Call)
    ensures
        r.method@ == "files.remove"@,
        json_of(r.params) == object1("path"@, JsonModel::Str(path@)),
{
    text_call("files.remove", "path", path)
}

/// Messages of verify jobs that are not the latest leave the tab as it was.
pub proof fn lemma_stale_verify_ignored(
    tab: FilesJobsModel,
    queue: Seq<(u64, VerifyMsg)>,
    current: u64,
)
    requires
        forall|i: int| 0 <= i < queue.len() ==> (#[trigger] queue[i]).0 != current,
    ensures
        after_all_verify(tab, verify_models(current_messages(queue, current))) == tab,
{
    lemma_no_current_messages(queue, current);
    assert(verify_models(Seq::<VerifyMsg>::empty()) =~= Seq::<VerifyModel>::empty());
}

/// Messages of info jobs that are not the latest leave the tab as it was.
pub proof fn lemma_stale_info_ignored(
    tab: FilesJobsModel,
    focused: Option<Seq<char>>,
    queue: Seq<(u64, InfoMsg)>,
    current: u64,
)
    requires
        forall|i: int| 0 <= i < queue.len() ==> (#[trigger] queue[i]).0 != current,
    ensures
        after_all_info(tab, focused, info_models(current_messages(queue, current))) == tab,
{
    lemma_no_current_messages(queue, current);
    assert(info_models(Seq::<InfoMsg>::empty()) =~= Seq::<InfoModel>::empty());
}

} // verus!
