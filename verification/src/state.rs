use vstd::prelude::*;

verus! {

use vstd::string::*;
use crate::next_handle;
use crate::succ_id;
use crate::request::{
    build_request, register_mutation_spec, register_video_mutation, request_spec,
    videos_query_spec, HttpRequest, RequestM,
};
use crate::response::{
    parse_register_response_spec, parse_register_video_response, parse_videos_response,
    parse_videos_response_spec,
};
use crate::video::{base64_of, data_url_spec, encode_base64, FileData, NewVideo, NewVideoM, Video};

/// What the file input hands over on a change: either chosen files, as
/// opaque read handles, or some other payload, which is ignored.
pub enum ChangeData {
    Files(Vec<u64>),
    Value(String),
}

/// The messages the client reacts to.
pub enum Msg {
    GetVideos,
    GetVideosCompleted(Vec<Video>),
    GetVideosFailed,
    ChooseFile(ChangeData),
    FileLoaded(FileData),
    RegisterVideoRequested,
    RegisterVideoCompleted(Video),
    RegisterVideoFailed,
}

/// An action the driver performs on the state machine's behalf: send a
/// request, start an asynchronous file read, or report a diagnostic line.
/// Diagnostics come back as data, so a test can hold the machine to them
/// without a console.
pub enum Effect {
    SendRequest(HttpRequest),
    StartRead(u64),
    Log(String),
}

/// The mathematical content of an `Effect`.
pub enum EffectM {
    SendRequest(RequestM),
    StartRead(u64),
    Log(Seq<char>),
}

impl DeepView for Effect {
    type V = EffectM;

    open spec fn deep_view(&self) -> EffectM {
        match self {
            Effect::SendRequest(r) => EffectM::SendRequest(r@),
            Effect::StartRead(h) => EffectM::StartRead(*h),
            Effect::Log(line) => EffectM::Log(line@),
        }
    }
}

/// The mathematical content of the client state.
#[verifier::ext_equal]
pub struct ModelM {
    pub videos: Seq<Seq<char>>,
    pub pending_upload: Option<NewVideoM>,
    pub fetch_task: Option<u64>,
    pub reader_tasks: Seq<u64>,
    pub next_id: u64,
}

/// The client state: the listed videos, at most one upload awaiting
/// confirmation, at most one tracked fetch, and the handles of the file
/// reads still in flight.
pub struct Model {
    pub videos: Vec<Video>,
    pub pending_upload: Option<NewVideo>,
    pub fetch_task: Option<u64>,
    pub reader_tasks: Vec<u64>,
    pub next_id: u64,
}

impl View for Model {
    type V = ModelM;

    open spec fn view(&self) -> ModelM {
        ModelM {
            videos: self.videos.deep_view(),
            pending_upload: self.pending_upload.deep_view(),
            fetch_task: self.fetch_task,
            reader_tasks: self.reader_tasks@,
            next_id: self.next_id,
        }
    }
}

/// The fresh client state: no videos, nothing pending, nothing in flight.
pub open spec fn init_model() -> ModelM {
    ModelM {
        videos: Seq::<Seq<char>>::empty(),
        pending_upload: None,
        fetch_task: None,
        reader_tasks: Seq::<u64>::empty(),
        next_id: 0,
    }
}

/// The state after one message. A fetch or a registration tracks a fresh
/// handle, replacing any earlier one; a successful list fetch replaces the
/// list wholesale; a failed one empties it; a completed file read appends
/// the data URL built from the bytes and holds the upload for registration.
pub open spec fn step(pre: ModelM, msg: Msg) -> ModelM {
    match msg {
        Msg::GetVideos => ModelM {
            fetch_task: Some(pre.next_id),
            next_id: succ_id(pre.next_id),
            ..pre
        },
        Msg::GetVideosCompleted(videos) => ModelM {
            videos: videos.deep_view(),
            fetch_task: None,
            pending_upload: None,
            ..pre
        },
        Msg::GetVideosFailed => ModelM {
            videos: Seq::<Seq<char>>::empty(),
            fetch_task: None,
            ..pre
        },
        Msg::ChooseFile(change_data) => match change_data {
            ChangeData::Files(files) => ModelM {
                reader_tasks: pre.reader_tasks + files@,
                ..pre
            },
            ChangeData::Value(_) => pre,
        },
        Msg::FileLoaded(file_data) => ModelM {
            videos: pre.videos.push(data_url_spec(base64_of(file_data.content@))),
            pending_upload: Some(
                NewVideoM {
                    key: file_data.name@,
                    data: base64_of(file_data.content@),
                    src: data_url_spec(base64_of(file_data.content@)),
                },
            ),
            ..pre
        },
        Msg::RegisterVideoRequested => match pre.pending_upload {
            Some(_) => ModelM {
                fetch_task: Some(pre.next_id),
                next_id: succ_id(pre.next_id),
                ..pre
            },
            None => pre,
        },
        Msg::RegisterVideoCompleted(video) => ModelM {
            videos: pre.videos.push(video.src@),
            fetch_task: None,
            pending_upload: None,
            ..pre
        },
        Msg::RegisterVideoFailed => ModelM {
            fetch_task: None,
            pending_upload: None,
            ..pre
        },
    }
}

/// One read per chosen file, in the order the files were chosen.
pub open spec fn read_effects(files: Seq<u64>) -> Seq<EffectM> {
    files.map_values(|h: u64| EffectM::StartRead(h))
}

/// The actions one message triggers: a fetch sends the list query, a file
/// selection starts one read per chosen file, a registration request sends
/// the mutation built from the pending upload, and failures or ignored
/// payloads leave a diagnostic line.
pub open spec fn step_effects(pre: ModelM, msg: Msg) -> Seq<EffectM> {
    match msg {
        Msg::GetVideos => seq![EffectM::SendRequest(request_spec(videos_query_spec()))],
        Msg::GetVideosFailed => seq![EffectM::Log("GetVideosFailed"@)],
        Msg::ChooseFile(change_data) => match change_data {
            ChangeData::Files(files) => read_effects(files@),
            ChangeData::Value(_) => seq![EffectM::Log("ChooseFile: ignored non-file payload"@)],
        },
        Msg::RegisterVideoRequested => match pre.pending_upload {
            Some(p) => seq![
                EffectM::SendRequest(request_spec(register_mutation_spec(p.key, p.data))),
            ],
            None => Seq::<EffectM>::empty(),
        },
        Msg::RegisterVideoCompleted(_) => seq![EffectM::Log("RegisterVideoCompleted"@)],
        Msg::RegisterVideoFailed => seq![EffectM::Log("RegisterVideoFailed"@)],
        _ => Seq::<EffectM>::empty(),
    }
}

impl Model {
    /// A fresh client.
    pub fn create() -> (m: Model)
        ensures
            m@ == init_model(),
    {
        let m = Model {
            videos: Vec::new(),
            pending_upload: None,
            fetch_task: None,
            reader_tasks: Vec::new(),
            next_id: 0,
        };
        proof {
            assert(m@ =~= init_model());
        }
        m
    }

    /// Handle one message: mutate the state and hand back the actions the
    /// driver must perform, exactly as `step` and `step_effects` give them.
    pub fn update(&mut self, msg: Msg) -> (effects: Vec<Effect>)
        ensures
            final(self)@ == step(old(self)@, msg),
            effects.deep_view() == step_effects(old(self)@, msg),
    {
        let ghost pre = self@;
        match msg {
            Msg::GetVideos => {
                let request = build_request("{ videos { src } }");
                self.fetch_task = Some(self.next_id);
                self.next_id = next_handle(self.next_id);
                let mut effects: Vec<Effect> = Vec::new();
                effects.push(Effect::SendRequest(request));
                proof {
                    assert(self@ =~= step(pre, msg));
                    assert(effects.deep_view() =~= step_effects(pre, msg));
                }
                effects
            },
            Msg::GetVideosCompleted(videos) => {
                self.videos = videos;
                self.fetch_task = None;
                self.pending_upload = None;
                let effects: Vec<Effect> = Vec::new();
                proof {
                    assert(self@ =~= step(pre, msg));
                    assert(effects.deep_view() =~= step_effects(pre, msg));
                }
                effects
            },
            Msg::GetVideosFailed => {
                self.videos = Vec::new();
                self.fetch_task = None;
                let mut effects: Vec<Effect> = Vec::new();
                effects.push(Effect::Log(String::from_str("GetVideosFailed")));
                proof {
                    assert(self@ =~= step(pre, msg));
                    assert(effects.deep_view() =~= step_effects(pre, msg));
                }
                effects
            },
            Msg::ChooseFile(change_data) => match change_data {
                ChangeData::Files(files) => {
                    let ghost files0 = files@;
                    let mut effects: Vec<Effect> = Vec::new();
                    let n = files.len();
                    let mut i: usize = 0;
                    proof {
                        assert(self.reader_tasks@ =~= pre.reader_tasks + files0.take(0));
                    }
                    while i < n
                        invariant
                            i <= n,
                            n == files@.len(),
                            files@ == files0,
                            self.videos.deep_view() == pre.videos,
                            self.pending_upload.deep_view() == pre.pending_upload,
                            self.fetch_task == pre.fetch_task,
                            self.next_id == pre.next_id,
                            self.reader_tasks@ == pre.reader_tasks + files0.take(i as int),
                            effects@.len() == i,
                            forall|k: int|
                                0 <= k < i ==> (#[trigger] effects@[k]) == Effect::StartRead(
                                    files0[k],
                                ),
                        decreases n - i,
                    {
                        let h = files[i];
                        effects.push(Effect::StartRead(h));
                        self.reader_tasks.push(h);
                        proof {
                            assert(files0.take(i + 1).drop_last() =~= files0.take(i as int));
                            assert(self.reader_tasks@ =~= pre.reader_tasks + files0.take(i + 1));
                        }
                        i += 1;
                    }
                    proof {
                        assert(files0.take(n as int) =~= files0);
                        assert(self@ =~= step(pre, msg));
                        assert(effects.deep_view() =~= read_effects(files0));
                        assert(effects.deep_view() =~= step_effects(pre, msg));
                    }
                    effects
                },
                ChangeData::Value(_) => {
                    let mut effects: Vec<Effect> = Vec::new();
                    effects.push(Effect::Log(String::from_str(
                        "ChooseFile: ignored non-file payload",
                    )));
                    proof {
                        assert(self@ =~= step(pre, msg));
                        assert(effects.deep_view() =~= step_effects(pre, msg));
                    }
                    effects
                },
            },
            Msg::FileLoaded(file_data) => {
                let FileData { name, content } = file_data;
                let encoded = encode_base64(content.as_slice());
                let mut src = String::from_str("data:video/mp4;base64,");
                src.append(encoded.as_str());
                let src_copy = src.clone();
                self.videos.push(Video { src });
                self.pending_upload = Some(
                    NewVideo { key: name, data: encoded, src: src_copy },
                );
                let effects: Vec<Effect> = Vec::new();
                proof {
                    assert(self@ =~= step(pre, msg));
                    assert(effects.deep_view() =~= step_effects(pre, msg));
                }
                effects
            },
            Msg::RegisterVideoRequested => match &self.pending_upload {
                Some(p) => {
                    let query = register_video_mutation(p.key.as_str(), p.data.as_str());
                    let request = build_request(query.as_str());
                    self.fetch_task = Some(self.next_id);
                    self.next_id = next_handle(self.next_id);
                    let mut effects: Vec<Effect> = Vec::new();
                    effects.push(Effect::SendRequest(request));
                    proof {
                        assert(self@ =~= step(pre, msg));
                        assert(effects.deep_view() =~= step_effects(pre, msg));
                    }
                    effects
                },
                None => {
                    let effects: Vec<Effect> = Vec::new();
                    proof {
                        assert(self@ =~= step(pre, msg));
                        assert(effects.deep_view() =~= step_effects(pre, msg));
                    }
                    effects
                },
            },
            Msg::RegisterVideoCompleted(video) => {
                self.videos.push(video);
                self.fetch_task = None;
                self.pending_upload = None;
                let mut effects: Vec<Effect> = Vec::new();
                effects.push(Effect::Log(String::from_str("RegisterVideoCompleted")));
                proof {
                    assert(self@ =~= step(pre, msg));
                    assert(effects.deep_view() =~= step_effects(pre, msg));
                }
                effects
            },
            Msg::RegisterVideoFailed => {
                self.fetch_task = None;
                self.pending_upload = None;
                let mut effects: Vec<Effect> = Vec::new();
                effects.push(Effect::Log(String::from_str("RegisterVideoFailed")));
                proof {
                    assert(self@ =~= step(pre, msg));
                    assert(effects.deep_view() =~= step_effects(pre, msg));
                }
                effects
            },
        }
    }
}

/// Success of an HTTP status: the 2xx range.
pub open spec fn is_success_status(status: u16) -> bool {
    200 <= status < 300
}

/// Turn the completion of the list fetch into the message it delivers:
/// success exactly when the status is 2xx and the body parses as the list
/// envelope, failure on every other outcome.
pub fn fetch_videos_outcome(status: u16, body: &str) -> (msg: Msg)
    ensures
        if is_success_status(status) && parse_videos_response_spec(body@) is Some {
            (msg matches Msg::GetVideosCompleted(vs) && vs.deep_view()
                == parse_videos_response_spec(body@)->0)
        } else {
            msg == Msg::GetVideosFailed
        },
{
    if 200 <= status && status < 300 {
        match parse_videos_response(body) {
            Some(resp) => Msg::GetVideosCompleted(resp.videos),
            None => Msg::GetVideosFailed,
        }
    } else {
        Msg::GetVideosFailed
    }
}

/// Turn the completion of the registration round-trip into the message it
/// delivers: success exactly when the status is 2xx and the body parses as
/// the registration envelope, failure on every other outcome.
pub fn register_video_outcome(status: u16, body: &str) -> (msg: Msg)
    ensures
        if is_success_status(status) && parse_register_response_spec(body@) is Some {
            (msg matches Msg::RegisterVideoCompleted(v) && v.src@
                == parse_register_response_spec(body@)->0)
        } else {
            msg == Msg::RegisterVideoFailed
        },
{
    if 200 <= status && status < 300 {
        match parse_register_video_response(body) {
            Some(resp) => Msg::RegisterVideoCompleted(resp.register_video),
            None => Msg::RegisterVideoFailed,
        }
    } else {
        Msg::RegisterVideoFailed
    }
}

/// Every pending upload's source is the data URL built from its payload.
pub open spec fn wf(m: ModelM) -> bool {
    match m.pending_upload {
        Some(p) => p.src == data_url_spec(p.data),
        None => true,
    }
}

/// The fresh state is well formed, and every step keeps it so.
pub proof fn lemma_step_preserves_wf(pre: ModelM, msg: Msg)
    requires
        wf(pre),
    ensures
        wf(init_model()),
        wf(step(pre, msg)),
{
}

/// After a successful list fetch with some records, the list holds exactly
/// those records' sources, in server order, and no upload or fetch marker
/// remains; the read handles are untouched, reads being uncancellable.
pub proof fn lemma_fetch_success(pre: ModelM, videos: Vec<Video>)
    ensures
        step(pre, Msg::GetVideosCompleted(videos)).videos == videos.deep_view(),
        step(pre, Msg::GetVideosCompleted(videos)).videos.len() == videos@.len(),
        step(pre, Msg::GetVideosCompleted(videos)).fetch_task is None,
        step(pre, Msg::GetVideosCompleted(videos)).pending_upload is None,
        step(pre, Msg::GetVideosCompleted(videos)).reader_tasks == pre.reader_tasks,
        step_effects(pre, Msg::GetVideosCompleted(videos)) == Seq::<EffectM>::empty(),
{
}

/// After a failed list fetch the list is empty and the fetch marker is
/// cleared; the step is defined on every state, so no abort occurs.
pub proof fn lemma_fetch_failure(pre: ModelM)
    ensures
        step(pre, Msg::GetVideosFailed).videos == Seq::<Seq<char>>::empty(),
        step(pre, Msg::GetVideosFailed).fetch_task is None,
        step_effects(pre, Msg::GetVideosFailed) == seq![EffectM::Log("GetVideosFailed"@)],
{
}

/// Selecting zero files starts no read and leaves the state as it was.
pub proof fn lemma_select_no_files(pre: ModelM, files: Vec<u64>)
    requires
        files@.len() == 0,
    ensures
        step(pre, Msg::ChooseFile(ChangeData::Files(files))) == pre,
        step_effects(pre, Msg::ChooseFile(ChangeData::Files(files))) == Seq::<EffectM>::empty(),
{
    assert(pre.reader_tasks + files@ =~= pre.reader_tasks);
    assert(step(pre, Msg::ChooseFile(ChangeData::Files(files))) =~= pre);
    assert(read_effects(files@) =~= Seq::<EffectM>::empty());
}

/// A non-file change payload is logged and ignored: no read, no state change.
pub proof fn lemma_select_non_files(pre: ModelM, value: String)
    ensures
        step(pre, Msg::ChooseFile(ChangeData::Value(value))) == pre,
        step_effects(pre, Msg::ChooseFile(ChangeData::Value(value))) == seq![
            EffectM::Log("ChooseFile: ignored non-file payload"@),
        ],
{
}

/// A second fetch issued while one is in flight replaces the tracked handle
/// and changes nothing else; each completion is then handled as an
/// independent message by the same total step function.
pub proof fn lemma_refetch_replaces_handle(pre: ModelM)
    ensures
        step(step(pre, Msg::GetVideos), Msg::GetVideos).fetch_task == Some(
            step(pre, Msg::GetVideos).next_id,
        ),
        step(step(pre, Msg::GetVideos), Msg::GetVideos).videos == pre.videos,
        step(step(pre, Msg::GetVideos), Msg::GetVideos).pending_upload == pre.pending_upload,
        step(step(pre, Msg::GetVideos), Msg::GetVideos).reader_tasks == pre.reader_tasks,
{
}

/// A completed file read appends exactly one entry, whose source is the
/// data URL embedding the bytes that were read, and holds the upload.
pub proof fn lemma_file_loaded_appends(pre: ModelM, file_data: FileData)
    ensures
        step(pre, Msg::FileLoaded(file_data)).videos == pre.videos.push(
            data_url_spec(base64_of(file_data.content@)),
        ),
        step(pre, Msg::FileLoaded(file_data)).pending_upload == Some(
            NewVideoM {
                key: file_data.name@,
                data: base64_of(file_data.content@),
                src: data_url_spec(base64_of(file_data.content@)),
            },
        ),
{
}

} // verus!
