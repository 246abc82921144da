use vstd::prelude::*;
use crate::text::{seq_ends_with, str_ends_with};
use crate::types::{
    AudioMetadata, DownloadId, RadioManagerChannelId, RadioManagerLinkId, RadioManagerTrackId,
    TopicData, TopicId, Torrent, TorrentId, TorrentStatus,
};

verus! {

/// The next action of a request, derived from which fields of its state are set.
#[derive(Debug, Clone, Copy, PartialEq, Eq, Structural)]
pub enum TrackRequestProcessingStep {
    GetTopicsIntoQueue,
    DownloadNextTorrentFile,
    Download,
    CheckDownloadStatus,
    UploadToRadioManager,
    AddToRadioManagerChannel,
    Finish,
}

/// The coarse lifecycle of a request as users see it.
#[derive(Debug, Clone, Copy, PartialEq, Eq, Structural)]
pub enum TrackRequestProcessingStatus {
    Pending,
    Processing,
    Finished,
    Failed,
}

#[derive(Debug, Clone, Copy, PartialEq, Eq, Structural)]
pub struct CreateRequestOptions {
    pub validate_metadata: bool,
}

/// What a request is about; fixed once the request is created.
#[derive(Debug, Clone, PartialEq)]
pub struct TrackRequestProcessingContext {
    pub metadata: AudioMetadata,
    pub target_channel_id: RadioManagerChannelId,
    pub options: CreateRequestOptions,
}

/// The mutable progress of a request; every field is populated as the request advances.
#[derive(Debug, Clone, PartialEq)]
pub struct TrackRequestProcessingState {
    pub tried_topics: Vec<TopicId>,
    pub topics_queue: Option<Vec<TopicData>>,
    pub current_torrent_data: Option<Vec<u8>>,
    pub current_torrent_id: Option<TorrentId>,
    pub path_to_downloaded_file: Option<String>,
    pub radio_manager_track_id: Option<RadioManagerTrackId>,
    pub radio_manager_link_id: Option<RadioManagerLinkId>,
}

/// The step of a state: the first rule that applies, from the most advanced field down.
pub open spec fn step_of(s: TrackRequestProcessingState) -> TrackRequestProcessingStep {
    if s.radio_manager_link_id is Some {
        TrackRequestProcessingStep::Finish
    } else if s.radio_manager_track_id is Some {
        TrackRequestProcessingStep::AddToRadioManagerChannel
    } else if s.path_to_downloaded_file is Some {
        TrackRequestProcessingStep::UploadToRadioManager
    } else if s.current_torrent_id is Some {
        TrackRequestProcessingStep::CheckDownloadStatus
    } else if s.current_torrent_data is Some {
        TrackRequestProcessingStep::Download
    } else if s.topics_queue is Some && s.topics_queue->0@.len() > 0 {
        TrackRequestProcessingStep::DownloadNextTorrentFile
    } else {
        TrackRequestProcessingStep::GetTopicsIntoQueue
    }
}

impl Default for TrackRequestProcessingState {
    fn default() -> (r: Self)
        ensures
            r.tried_topics@.len() == 0,
            r.topics_queue is None,
            r.current_torrent_data is None,
            r.current_torrent_id is None,
            r.path_to_downloaded_file is None,
            r.radio_manager_track_id is None,
            r.radio_manager_link_id is None,
    {
        TrackRequestProcessingState {
            tried_topics: Vec::new(),
            topics_queue: None,
            current_torrent_data: None,
            current_torrent_id: None,
            path_to_downloaded_file: None,
            radio_manager_track_id: None,
            radio_manager_link_id: None,
        }
    }
}

impl TrackRequestProcessingState {
    /// Derives the current step from the populated fields.
    pub fn get_step(&self) -> (r: TrackRequestProcessingStep)
        ensures
            r == step_of(*self),
    {
        if self.radio_manager_link_id.is_some() {
            TrackRequestProcessingStep::Finish
        } else if self.radio_manager_track_id.is_some() {
            TrackRequestProcessingStep::AddToRadioManagerChannel
        } else if self.path_to_downloaded_file.is_some() {
            TrackRequestProcessingStep::UploadToRadioManager
        } else if self.current_torrent_id.is_some() {
            TrackRequestProcessingStep::CheckDownloadStatus
        } else if self.current_torrent_data.is_some() {
            TrackRequestProcessingStep::Download
        } else {
            match &self.topics_queue {
                Some(queue) if queue.len() > 0 => TrackRequestProcessingStep::DownloadNextTorrentFile,
                _ => TrackRequestProcessingStep::GetTopicsIntoQueue,
            }
        }
    }
}


/// Why a request stops without finishing.
#[derive(Debug, Clone, Copy, PartialEq, Eq, Structural)]
pub enum ProcessError {
    /// No usable candidate remains.
    CandidatesExhausted,
    /// The stored records of a request disagree with each other.
    StateConflict,
    /// A collaborator failed for good, or retries ran out.
    AdapterPermanent,
    /// The request's state vanished while it was being driven.
    Cancelled,
}

/// The candidates of `s`, in order, whose topic is not in `tried`.
pub open spec fn untried(s: Seq<TopicData>, tried: Seq<TopicId>) -> Seq<TopicData>
    decreases s.len(),
{
    if s.len() == 0 {
        Seq::empty()
    } else {
        let r = untried(s.drop_last(), tried);
        if tried.contains(s.last().topic_id) {
            r
        } else {
            r.push(s.last())
        }
    }
}

/// No topic of the queue has been tried already.
pub open spec fn queue_untried(s: TrackRequestProcessingState) -> bool {
    s.topics_queue is Some ==> forall|i: int|
        0 <= i < s.topics_queue->0@.len() ==> !s.tried_topics@.contains(
            #[trigger] s.topics_queue->0@[i].topic_id,
        )
}

/// Every topic tried in `a` is still tried in `b`.
pub open spec fn tried_kept(a: TrackRequestProcessingState, b: TrackRequestProcessingState) -> bool {
    forall|t: TopicId| a.tried_topics@.contains(t) ==> #[trigger] b.tried_topics@.contains(t)
}

/// The candidates of a state's queue, empty where it is unset.
pub open spec fn queue_of(s: TrackRequestProcessingState) -> Seq<TopicData> {
    if s.topics_queue is Some {
        s.topics_queue->0@
    } else {
        Seq::empty()
    }
}

/// The tried topics once the head of the queue, if any, is given up.
pub open spec fn tried_after_rejection(s: TrackRequestProcessingState) -> Seq<TopicId> {
    if queue_of(s).len() > 0 {
        s.tried_topics@.push(queue_of(s)[0].topic_id)
    } else {
        s.tried_topics@
    }
}

/// The candidates left once the head of the queue, if any, is given up.
pub open spec fn queue_after_rejection(s: TrackRequestProcessingState) -> Seq<TopicData> {
    if queue_of(s).len() > 0 {
        untried(queue_of(s).drop_first(), tried_after_rejection(s))
    } else {
        Seq::empty()
    }
}

/// `r` is `s` with its current candidate given up: the head of the queue is tried and
/// dropped, the queue is unset once empty, and the download of the candidate is forgotten.
pub open spec fn rejected(s: TrackRequestProcessingState, r: TrackRequestProcessingState) -> bool {
    &&& r.tried_topics@ == tried_after_rejection(s)
    &&& if queue_after_rejection(s).len() > 0 {
        r.topics_queue is Some && r.topics_queue->0@ == queue_after_rejection(s)
    } else {
        r.topics_queue is None
    }
    &&& r.current_torrent_data is None
    &&& r.current_torrent_id is None
    &&& r.path_to_downloaded_file is None
    &&& r.radio_manager_track_id == s.radio_manager_track_id
    &&& r.radio_manager_link_id == s.radio_manager_link_id
}

/// A kept candidate is one of the input, and was not tried.
pub proof fn lemma_untried_fresh(s: Seq<TopicData>, tried: Seq<TopicId>)
    ensures
        forall|i: int|
            0 <= i < untried(s, tried).len() ==> !tried.contains(
                #[trigger] untried(s, tried)[i].topic_id,
            ),
    decreases s.len(),
{
    if s.len() > 0 {
        lemma_untried_fresh(s.drop_last(), tried);
        let prev = untried(s.drop_last(), tried);
        assert forall|i: int| 0 <= i < untried(s, tried).len() implies !tried.contains(
            #[trigger] untried(s, tried)[i].topic_id,
        ) by {
            if i < prev.len() {
                assert(untried(s, tried)[i] == prev[i]);
            }
        }
    }
}

/// Whether `topic` occurs in `tried`.
fn is_tried(tried: &Vec<TopicId>, topic: TopicId) -> (r: bool)
    ensures
        r == tried@.contains(topic),
{
    let mut i: usize = 0;
    while i < tried.len()
        invariant
            i <= tried@.len(),
            forall|j: int| 0 <= j < i ==> tried@[j] != topic,
        decreases tried@.len() - i,
    {
        if tried[i].0 == topic.0 {
            assert(tried@[i as int] == topic);
            return true;
        }
        i = i + 1;
    }
    false
}

/// Keeps, in order, the candidates whose topic has not been tried.
fn drop_tried(items: Vec<TopicData>, tried: &Vec<TopicId>) -> (r: Vec<TopicData>)
    ensures
        r@ == untried(items@, tried@),
{
    let ghost orig = items@;
    let mut rest = items;
    let mut out: Vec<TopicData> = Vec::new();
    while rest.len() > 0
        invariant
            rest@.len() <= orig.len(),
            rest@ == orig.subrange(orig.len() - rest@.len(), orig.len() as int),
            out@ == untried(orig.subrange(0, orig.len() - rest@.len()), tried@),
        decreases rest@.len(),
    {
        let ghost k = orig.len() - rest@.len();
        let item = rest.remove(0);
        assert(item == orig[k]);
        assert(orig.subrange(0, k + 1).drop_last() =~= orig.subrange(0, k));
        let seen = is_tried(tried, item.topic_id);
        if !seen {
            out.push(item);
        }
        assert(rest@ =~= orig.subrange(orig.len() - rest@.len(), orig.len() as int));
    }
    assert(orig.subrange(0, orig.len() as int) =~= orig);
    out
}

impl TrackRequestProcessingState {
    /// Takes the ranked candidates of a search into the queue, without those already
    /// tried; fails when none is left.
    pub fn with_search_results(self, results: Vec<TopicData>) -> (r: Result<
        TrackRequestProcessingState,
        ProcessError,
    >)
        ensures
            untried(results@, self.tried_topics@).len() == 0 <==> r == Err::<
                TrackRequestProcessingState,
                ProcessError,
            >(ProcessError::CandidatesExhausted),
            r matches Ok(n) ==> {
                &&& n.topics_queue is Some
                &&& n.topics_queue->0@ == untried(results@, self.tried_topics@)
                &&& n.tried_topics == self.tried_topics
                &&& n.current_torrent_data == self.current_torrent_data
                &&& n.current_torrent_id == self.current_torrent_id
                &&& n.path_to_downloaded_file == self.path_to_downloaded_file
                &&& n.radio_manager_track_id == self.radio_manager_track_id
                &&& n.radio_manager_link_id == self.radio_manager_link_id
                &&& queue_untried(n)
                &&& tried_kept(self, n)
            },
    {
        let fresh = drop_tried(results, &self.tried_topics);
        proof {
            lemma_untried_fresh(results@, self.tried_topics@);
        }
        if fresh.len() == 0 {
            Err(ProcessError::CandidatesExhausted)
        } else {
            Ok(TrackRequestProcessingState { topics_queue: Some(fresh), ..self })
        }
    }

    /// Gives up the current candidate; returns the new state and the torrent that was
    /// held for it, which is to be removed with its data.
    pub fn reject_candidate(self) -> (r: (TrackRequestProcessingState, Option<TorrentId>))
        ensures
            rejected(self, r.0),
            r.1 == self.current_torrent_id,
            queue_untried(r.0),
            tried_kept(self, r.0),
    {
        let held = self.current_torrent_id;
        let mut tried = self.tried_topics;
        let ghost old_tried = tried@;
        let queue = match self.topics_queue {
            Some(mut queue) => {
                if queue.len() > 0 {
                    let ghost q = queue@;
                    let head = queue.remove(0);
                    assert(queue@ =~= q.drop_first());
                    tried.push(head.topic_id);
                    drop_tried(queue, &tried)
                } else {
                    queue
                }
            },
            None => Vec::new(),
        };
        proof {
            assert forall|t: TopicId| old_tried.contains(t) implies #[trigger] tried@.contains(
                t,
            ) by {
                let j = choose|j: int| 0 <= j < old_tried.len() && old_tried[j] == t;
                assert(tried@[j] == t);
            }
            if queue@.len() > 0 {
                lemma_untried_fresh(queue_of(self).drop_first(), tried@);
            }
        }
        let next = TrackRequestProcessingState {
            tried_topics: tried,
            topics_queue: if queue.len() > 0 {
                Some(queue)
            } else {
                None
            },
            current_torrent_data: None,
            current_torrent_id: None,
            path_to_downloaded_file: None,
            radio_manager_track_id: self.radio_manager_track_id,
            radio_manager_link_id: self.radio_manager_link_id,
        };
        (next, held)
    }
}


/// Why a request cannot be created.
#[derive(Debug, Clone, Copy, PartialEq, Eq, Structural)]
pub enum CreateRequestError {
    /// The target channel already holds a track with the requested metadata.
    AlreadyExists,
}

/// What the driver of a request does next, with the values handed to the collaborator.
#[derive(Debug, Clone, PartialEq)]
pub enum RequestAction {
    /// Search the tracker for the query.
    SearchTopics { query: String },
    /// Fetch the torrent file of the candidate at the head of the queue.
    FetchTorrentFile { download_id: DownloadId },
    /// Add the torrent with every file unwanted, then read its snapshot.
    AddTorrent { data: Vec<u8> },
    /// Read the snapshot of the torrent being downloaded.
    PollTorrent { torrent_id: TorrentId },
    /// Upload the downloaded file, after reading its metadata if `verify_metadata` holds.
    UploadTrack { path: String, verify_metadata: bool },
    /// Link the uploaded track into the channel.
    AddTrackToChannel { track_id: RadioManagerTrackId, channel_id: RadioManagerChannelId },
    /// Remove the torrent, if any, with its data, and end the request as finished.
    Finish { remove_torrent: Option<TorrentId> },
}

/// What to do with a torrent that was just added.
#[derive(Debug, Clone, Copy, PartialEq, Eq, Structural)]
pub enum DownloadDirective {
    /// Want the file at `file_index` and start the transfer.
    SelectFile { torrent_id: TorrentId, file_index: usize },
    /// The torrent holds no audio file: remove it with its data.
    Discard { torrent_id: TorrentId },
}

/// The outcome of checking a downloaded file's metadata.
#[derive(Debug, Clone, PartialEq)]
pub enum MetadataCheck {
    /// The file may be uploaded; the state is unchanged.
    Accepted(TrackRequestProcessingState),
    /// The candidate is given up; the torrent, if any, is to be removed with its data.
    Rejected(TrackRequestProcessingState, Option<TorrentId>),
}

/// The query for a track: `"{artist} - {album}"`.
pub open spec fn search_query(m: AudioMetadata) -> Seq<char> {
    m.artist@ + " - "@ + m.album@
}

/// A file counts as audio when its name ends with `.mp3`.
pub open spec fn is_audio_file(f: Seq<char>) -> bool {
    seq_ends_with(f, ".mp3"@)
}

/// `i` is the index of the first audio file of `files`.
pub open spec fn first_audio_file(files: Seq<String>, i: int) -> bool {
    &&& 0 <= i < files.len()
    &&& is_audio_file(files[i]@)
    &&& forall|j: int| 0 <= j < i ==> !is_audio_file(#[trigger] files[j]@)
}

/// No file of `files` is an audio file.
pub open spec fn no_audio_file(files: Seq<String>) -> bool {
    forall|j: int| 0 <= j < files.len() ==> !is_audio_file(#[trigger] files[j]@)
}

/// The path under which a downloaded file is recorded.
pub open spec fn download_path(root: Seq<char>, file: Seq<char>) -> Seq<char> {
    root + "/"@ + file
}

/// The metadata read from a file accepts it for upload.
pub open spec fn metadata_accepted(
    ctx: TrackRequestProcessingContext,
    actual: Option<AudioMetadata>,
) -> bool {
    !ctx.options.validate_metadata || (actual is Some && actual->0.same_as(&ctx.metadata))
}

/// `a` is the action for state `s` of a request with context `ctx`.
pub open spec fn action_for(
    s: TrackRequestProcessingState,
    ctx: TrackRequestProcessingContext,
    a: RequestAction,
) -> bool {
    match step_of(s) {
        TrackRequestProcessingStep::GetTopicsIntoQueue => (a matches RequestAction::SearchTopics {
            query,
        } && query@ == search_query(ctx.metadata)),
        TrackRequestProcessingStep::DownloadNextTorrentFile => a == RequestAction::FetchTorrentFile {
            download_id: s.topics_queue->0@[0].download_id,
        },
        TrackRequestProcessingStep::Download => (a matches RequestAction::AddTorrent { data }
            && data@ == s.current_torrent_data->0@),
        TrackRequestProcessingStep::CheckDownloadStatus => a == RequestAction::PollTorrent {
            torrent_id: s.current_torrent_id->0,
        },
        TrackRequestProcessingStep::UploadToRadioManager => (a matches RequestAction::UploadTrack {
            path,
            verify_metadata,
        } && path@ == s.path_to_downloaded_file->0@ && verify_metadata
            == ctx.options.validate_metadata),
        TrackRequestProcessingStep::AddToRadioManagerChannel => a
            == RequestAction::AddTrackToChannel {
            track_id: s.radio_manager_track_id->0,
            channel_id: ctx.target_channel_id,
        },
        TrackRequestProcessingStep::Finish => a == RequestAction::Finish {
            remove_torrent: s.current_torrent_id,
        },
    }
}

/// The index of the first file whose name ends with `.mp3`.
pub fn audio_file_index(files: &Vec<String>) -> (r: Option<usize>)
    ensures
        match r {
            Some(i) => first_audio_file(files@, i as int),
            None => no_audio_file(files@),
        },
{
    let mut i: usize = 0;
    while i < files.len()
        invariant
            i <= files@.len(),
            forall|j: int| 0 <= j < i ==> !is_audio_file(#[trigger] files@[j]@),
        decreases files@.len() - i,
    {
        if str_ends_with(files[i].as_str(), ".mp3") {
            return Some(i);
        }
        i = i + 1;
    }
    None
}

impl TrackRequestProcessingState {
    /// Records the torrent file fetched for the head of the queue.
    pub fn with_torrent_file(self, data: Vec<u8>) -> (r: TrackRequestProcessingState)
        ensures
            r == (TrackRequestProcessingState { current_torrent_data: Some(data), ..self }),
    {
        TrackRequestProcessingState { current_torrent_data: Some(data), ..self }
    }

    /// Decides on a torrent just added from its snapshot: keep its first audio file, or
    /// give up the candidate when it has none.
    pub fn on_torrent_added(self, torrent_id: TorrentId, snapshot: &Torrent) -> (r: (
        TrackRequestProcessingState,
        DownloadDirective,
    ))
        ensures
            no_audio_file(snapshot.files@) <==> r.1 is Discard,
            r.1 matches DownloadDirective::SelectFile { torrent_id: t, file_index: i } ==> {
                &&& t == torrent_id
                &&& first_audio_file(snapshot.files@, i as int)
                &&& r.0 == (TrackRequestProcessingState {
                    current_torrent_id: Some(torrent_id),
                    ..self
                })
            },
            r.1 matches DownloadDirective::Discard { torrent_id: t } ==> t == torrent_id
                && rejected(self, r.0),
            queue_untried(self) ==> queue_untried(r.0),
            tried_kept(self, r.0),
    {
        match audio_file_index(&snapshot.files) {
            Some(i) => (
                TrackRequestProcessingState { current_torrent_id: Some(torrent_id), ..self },
                DownloadDirective::SelectFile { torrent_id, file_index: i },
            ),
            None => {
                let (next, _) = self.reject_candidate();
                (next, DownloadDirective::Discard { torrent_id })
            },
        }
    }
}


impl TrackRequestProcessingState {
    /// Reads a snapshot of the torrent being downloaded. While it downloads nothing
    /// changes; once complete, the path of its audio file under `download_root` is
    /// recorded. A complete torrent without an audio file gives up the candidate and
    /// names the torrent to remove.
    pub fn on_torrent_polled(self, snapshot: &Torrent, download_root: &str) -> (r: (
        TrackRequestProcessingState,
        Option<TorrentId>,
    ))
        ensures
            snapshot.status == TorrentStatus::Downloading ==> r.0 == self && r.1 is None,
            snapshot.status == TorrentStatus::Complete ==> {
                &&& forall|i: int|
                    #![trigger first_audio_file(snapshot.files@, i)]
                    first_audio_file(snapshot.files@, i) ==> {
                        &&& r.0.path_to_downloaded_file is Some
                        &&& r.0.path_to_downloaded_file->0@ == download_path(
                            download_root@,
                            snapshot.files@[i]@,
                        )
                        &&& r.0 == (TrackRequestProcessingState {
                            path_to_downloaded_file: r.0.path_to_downloaded_file,
                            ..self
                        })
                        &&& r.1 is None
                    }
                &&& no_audio_file(snapshot.files@) ==> rejected(self, r.0) && r.1
                    == self.current_torrent_id
            },
            queue_untried(self) ==> queue_untried(r.0),
            tried_kept(self, r.0),
    {
        match snapshot.status {
            TorrentStatus::Downloading => (self, None),
            TorrentStatus::Complete => match audio_file_index(&snapshot.files) {
                Some(i) => {
                    let path = download_root.to_owned().concat("/").concat(
                        snapshot.files[i].as_str(),
                    );
                    proof {
                        assert forall|k: int|
                            #![trigger first_audio_file(snapshot.files@, k)]
                            first_audio_file(snapshot.files@, k) implies k == i by {
                            if k < i {
                                assert(!is_audio_file(snapshot.files@[k]@));
                            } else if k > i {
                                assert(!is_audio_file(snapshot.files@[i as int]@));
                            }
                        }
                    }
                    (TrackRequestProcessingState { path_to_downloaded_file: Some(path), ..self }, None)
                },
                None => self.reject_candidate(),
            },
        }
    }

    /// Checks the metadata read from the downloaded file against the requested one,
    /// where the request asks for it. A mismatch, or a file without metadata, gives up
    /// the candidate.
    pub fn on_metadata_read(
        self,
        ctx: &TrackRequestProcessingContext,
        actual: &Option<AudioMetadata>,
    ) -> (r: MetadataCheck)
        ensures
            metadata_accepted(*ctx, *actual) <==> r is Accepted,
            r matches MetadataCheck::Accepted(n) ==> n == self,
            r matches MetadataCheck::Rejected(n, t) ==> rejected(self, n) && t
                == self.current_torrent_id && (queue_untried(n) && tried_kept(self, n)),
    {
        let accepted = if !ctx.options.validate_metadata {
            true
        } else {
            match actual {
                Some(m) => m.matches(&ctx.metadata),
                None => false,
            }
        };
        if accepted {
            MetadataCheck::Accepted(self)
        } else {
            let (next, held) = self.reject_candidate();
            MetadataCheck::Rejected(next, held)
        }
    }

    /// Records the track that the upload created.
    pub fn with_track_id(self, track_id: RadioManagerTrackId) -> (r: TrackRequestProcessingState)
        ensures
            r == (TrackRequestProcessingState { radio_manager_track_id: Some(track_id), ..self }),
    {
        TrackRequestProcessingState { radio_manager_track_id: Some(track_id), ..self }
    }

    /// Records the link of the track into the channel; the request is then finished.
    pub fn with_link_id(self, link_id: RadioManagerLinkId) -> (r: TrackRequestProcessingState)
        ensures
            r == (TrackRequestProcessingState { radio_manager_link_id: Some(link_id), ..self }),
            step_of(r) == TrackRequestProcessingStep::Finish,
    {
        TrackRequestProcessingState { radio_manager_link_id: Some(link_id), ..self }
    }

    /// The torrent to remove with its data when the request ends.
    pub fn torrent_to_remove(&self) -> (r: Option<TorrentId>)
        ensures
            r == self.current_torrent_id,
    {
        self.current_torrent_id
    }

    /// The action for the current step, with what is handed to the collaborator.
    pub fn next_action(&self, ctx: &TrackRequestProcessingContext) -> (r: RequestAction)
        ensures
            action_for(*self, *ctx, r),
    {
        match self.get_step() {
            TrackRequestProcessingStep::GetTopicsIntoQueue => {
                let query = ctx.metadata.artist.clone().concat(" - ").concat(
                    ctx.metadata.album.as_str(),
                );
                RequestAction::SearchTopics { query }
            },
            TrackRequestProcessingStep::DownloadNextTorrentFile => {
                let queue = self.topics_queue.as_ref().unwrap();
                RequestAction::FetchTorrentFile { download_id: queue[0].download_id }
            },
            TrackRequestProcessingStep::Download => {
                let data = self.current_torrent_data.as_ref().unwrap();
                let copy = data.clone();
                assert(copy@ =~= data@);
                RequestAction::AddTorrent { data: copy }
            },
            TrackRequestProcessingStep::CheckDownloadStatus => RequestAction::PollTorrent {
                torrent_id: self.current_torrent_id.unwrap(),
            },
            TrackRequestProcessingStep::UploadToRadioManager => RequestAction::UploadTrack {
                path: self.path_to_downloaded_file.as_ref().unwrap().clone(),
                verify_metadata: ctx.options.validate_metadata,
            },
            TrackRequestProcessingStep::AddToRadioManagerChannel => {
                RequestAction::AddTrackToChannel {
                    track_id: self.radio_manager_track_id.unwrap(),
                    channel_id: ctx.target_channel_id,
                }
            },
            TrackRequestProcessingStep::Finish => RequestAction::Finish {
                remove_torrent: self.current_torrent_id,
            },
        }
    }
}

/// Checks a new request against the tracks of its channel, where the options ask for it,
/// and builds its context and empty state.
pub fn prepare_request(
    metadata: AudioMetadata,
    options: CreateRequestOptions,
    target_channel_id: RadioManagerChannelId,
    channel_tracks: &Vec<AudioMetadata>,
) -> (r: Result<(TrackRequestProcessingContext, TrackRequestProcessingState), CreateRequestError>)
    ensures
        (options.validate_metadata && (exists|i: int|
            0 <= i < channel_tracks@.len() && (#[trigger] channel_tracks@[i]).same_as(&metadata)))
            <==> r is Err,
        r matches Err(e) ==> e == CreateRequestError::AlreadyExists,
        r matches Ok((ctx, st)) ==> {
            &&& ctx == (TrackRequestProcessingContext { metadata, target_channel_id, options })
            &&& st.tried_topics@.len() == 0
            &&& st.topics_queue is None
            &&& st.current_torrent_data is None
            &&& st.current_torrent_id is None
            &&& st.path_to_downloaded_file is None
            &&& st.radio_manager_track_id is None
            &&& st.radio_manager_link_id is None
        },
{
    if options.validate_metadata {
        let mut i: usize = 0;
        while i < channel_tracks.len()
            invariant
                i <= channel_tracks@.len(),
                options.validate_metadata,
                forall|j: int| 0 <= j < i ==> !(#[trigger] channel_tracks@[j]).same_as(&metadata),
            decreases channel_tracks@.len() - i,
        {
            if channel_tracks[i].matches(&metadata) {
                assert(channel_tracks@[i as int].same_as(&metadata));
                return Err(CreateRequestError::AlreadyExists);
            }
            i = i + 1;
        }
    }
    let ctx = TrackRequestProcessingContext { metadata, target_channel_id, options };
    Ok((ctx, TrackRequestProcessingState::default()))
}


/// Attempts of one step before a transient failure becomes permanent.
pub const MAX_ATTEMPTS: u32 = 6;

/// Longest wait between two attempts, in seconds.
pub const MAX_RETRY_DELAY_SECS: u64 = 60;

/// Two to the power `n`.
pub open spec fn pow2(n: nat) -> nat
    decreases n,
{
    if n == 0 {
        1
    } else {
        2 * pow2((n - 1) as nat)
    }
}

/// The wait after `failed` failed attempts: one second, doubled after each further
/// failure, capped at a minute.
pub open spec fn backoff_secs(failed: nat) -> nat {
    if failed == 0 {
        0
    } else if pow2((failed - 1) as nat) > MAX_RETRY_DELAY_SECS {
        MAX_RETRY_DELAY_SECS as nat
    } else {
        pow2((failed - 1) as nat)
    }
}

/// Seconds to wait before the next attempt of a step whose last `failed` attempts failed
/// transiently; `None` once the attempts are spent.
pub fn retry_delay_secs(failed: u32) -> (r: Option<u64>)
    ensures
        failed >= MAX_ATTEMPTS <==> r is None,
        r matches Some(d) ==> d == backoff_secs(failed as nat),
{
    if failed >= MAX_ATTEMPTS {
        return None;
    }
    if failed == 0 {
        return Some(0);
    }
    let mut delay: u64 = 1;
    let mut i: u32 = 1;
    while i < failed
        invariant
            1 <= i <= failed,
            failed < MAX_ATTEMPTS,
            delay == backoff_secs(i as nat),
        decreases failed - i,
    {
        assert(pow2(i as nat) == 2 * pow2((i - 1) as nat));
        delay = if delay * 2 > MAX_RETRY_DELAY_SECS {
            MAX_RETRY_DELAY_SECS
        } else {
            delay * 2
        };
        i = i + 1;
    }
    Some(delay)
}

/// The two actions make the same call with the same values.
pub open spec fn same_call(a: RequestAction, b: RequestAction) -> bool {
    match (a, b) {
        (RequestAction::SearchTopics { query: x }, RequestAction::SearchTopics { query: y }) => x@
            == y@,
        (RequestAction::AddTorrent { data: x }, RequestAction::AddTorrent { data: y }) => x@ == y@,
        (
            RequestAction::UploadTrack { path: x, verify_metadata: v },
            RequestAction::UploadTrack { path: y, verify_metadata: w },
        ) => x@ == y@ && v == w,
        _ => a == b,
    }
}

/// The action of a request depends on its stored state and context alone: a driver
/// that resumes from the stored state makes the same call as one that went on.
pub proof fn lemma_resume_same_call(
    s: TrackRequestProcessingState,
    ctx: TrackRequestProcessingContext,
    resumed: TrackRequestProcessingState,
    a: RequestAction,
    b: RequestAction,
)
    requires
        resumed == s,
        action_for(s, ctx, a),
        action_for(resumed, ctx, b),
    ensures
        same_call(a, b),
{
}

/// Linking into the channel is the action of one step only, and is made with the stored
/// track and the request's channel; once its link is recorded the request is finished,
/// and a finished request links nothing more.
pub proof fn lemma_link_once(
    s: TrackRequestProcessingState,
    ctx: TrackRequestProcessingContext,
    a: RequestAction,
    link: RadioManagerLinkId,
)
    requires
        action_for(s, ctx, a),
        a is AddTrackToChannel,
    ensures
        step_of(s) == TrackRequestProcessingStep::AddToRadioManagerChannel,
        a == (RequestAction::AddTrackToChannel {
            track_id: s.radio_manager_track_id->0,
            channel_id: ctx.target_channel_id,
        }),
        step_of(TrackRequestProcessingState { radio_manager_link_id: Some(link), ..s })
            == TrackRequestProcessingStep::Finish,
        forall|b: RequestAction|
            action_for(
                TrackRequestProcessingState { radio_manager_link_id: Some(link), ..s },
                ctx,
                b,
            ) ==> b is Finish,
{
}

} // verus!
