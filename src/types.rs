use vstd::prelude::*;

verus! {

/// Identifier of a track request, a 128-bit random value.
#[derive(Debug, Clone, Copy, PartialEq, Eq, Hash, Structural)]
pub struct RequestId(pub u128);

/// Relies on uuid::Uuid::new_v4: a random identifier, of which nothing is promised.
#[verifier::external_body]
fn random_uuid() -> (r: u128) {
    uuid::Uuid::new_v4().as_u128()
}

impl RequestId {
    /// A fresh random identifier.
    pub fn generate() -> (r: RequestId) {
        RequestId(random_uuid())
    }
}

#[derive(Debug, Clone, Copy, PartialEq, Eq, Hash, Structural)]
pub struct RadioManagerTrackId(pub u64);

#[derive(Debug, Clone, Copy, PartialEq, Eq, Hash, Structural)]
pub struct RadioManagerChannelId(pub u64);

#[derive(Debug, Clone, PartialEq, Eq, Hash)]
pub struct RadioManagerLinkId(pub String);

#[derive(Debug, Clone, Copy, PartialEq, Eq, Hash, Structural)]
pub struct UserId(pub u64);

#[derive(Debug, Clone, Copy, PartialEq, Eq, Hash, Structural)]
pub struct TopicId(pub u64);

#[derive(Debug, Clone, Copy, PartialEq, Eq, Hash, Structural)]
pub struct DownloadId(pub u64);

#[derive(Debug, Clone, Copy, PartialEq, Eq, Hash, Structural)]
pub struct TorrentId(pub i64);

/// Title, artist and album of a recording.
#[derive(Debug, Clone, PartialEq)]
pub struct AudioMetadata {
    pub title: String,
    pub artist: String,
    pub album: String,
}

impl AudioMetadata {
    /// The three fields agree as character sequences.
    pub open spec fn same_as(&self, o: &AudioMetadata) -> bool {
        self.title@ == o.title@ && self.artist@ == o.artist@ && self.album@ == o.album@
    }

    /// Compares title, artist and album.
    pub fn matches(&self, o: &AudioMetadata) -> (r: bool)
        ensures
            r == self.same_as(o),
    {
        self.title == o.title && self.artist == o.artist && self.album == o.album
    }
}

#[derive(Debug, Clone, Copy, PartialEq, Eq, Structural)]
pub enum TorrentStatus {
    Downloading,
    Complete,
}

/// A point-in-time view of a torrent in the downloader.
#[derive(Debug, Clone, PartialEq)]
pub struct Torrent {
    pub status: TorrentStatus,
    pub files: Vec<String>,
}

/// One candidate of a search: a topic and the handle to fetch its torrent file.
#[derive(Debug, Clone, PartialEq)]
pub struct TopicData {
    pub topic_id: TopicId,
    pub download_id: DownloadId,
    pub title: String,
}

} // verus!
