//! The record of one playable item of the catalog.

use vstd::prelude::*;

verus! {

/// What a [`Video`] is, as plain sequences of characters.
pub struct VideoView {
    pub id: Seq<char>,
    pub title: Seq<char>,
    pub uploader: Seq<char>,
}

/// One item of the catalog: the key that the playback address is built from,
/// the title that is shown, and the uploader, empty where the catalog gave none.
#[derive(Debug, PartialEq, Eq)]
pub struct Video {
    pub id: String,
    pub title: String,
    pub uploader: String,
}

impl View for Video {
    type V = VideoView;

    open spec fn view(&self) -> VideoView {
        VideoView { id: self.id@, title: self.title@, uploader: self.uploader@ }
    }
}

impl Clone for Video {
    fn clone(&self) -> (copy: Self)
        ensures
            copy == *self,
    {
        Video { id: self.id.clone(), title: self.title.clone(), uploader: self.uploader.clone() }
    }
}

impl Video {
    /// A record from its three fields.
    pub fn new(id: String, title: String, uploader: String) -> (video: Video)
        ensures
            video.id == id,
            video.title == title,
            video.uploader == uploader,
    {
        Video { id, title, uploader }
    }

    /// The record with three empty fields, shown before anything was played.
    pub fn empty() -> (video: Video)
        ensures
            video@ == (VideoView { id: Seq::empty(), title: Seq::empty(), uploader: Seq::empty() }),
    {
        Video { id: String::new(), title: String::new(), uploader: String::new() }
    }
}

/// The views of a sequence of records, in the same order.
pub open spec fn views_of(items: Seq<Video>) -> Seq<VideoView> {
    Seq::new(items.len(), |i: int| items[i]@)
}

} // verus!
