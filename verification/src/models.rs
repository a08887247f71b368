//! The objects of the API: what is submitted to a feed and what is read
//! from it.

use vstd::prelude::*;
use vstd::string::*;

verus! {

/// A file that belongs to an item, such as the audio of an episode.
#[derive(PartialEq, Eq, Debug)]
pub struct AssociatedFile {
    pub url: String,
    pub length: u64,
    pub type_str: String,
}

/// An item as the service returns it.
#[derive(PartialEq, Eq, Clone, Debug)]
pub struct FeedItem {
    pub feed_id: String,
    pub item_id: String,
    pub input_id: String,
    pub title: String,
    pub content: Option<String>,
    pub canonical_url: String,
    pub item_time: String,
    pub item_time_ms: u64,
    pub deleted: bool,
    pub associated_files: Option<Vec<AssociatedFile>>,
}

/// An item to submit.
#[derive(PartialEq, Eq, Debug)]
pub struct InputItem {
    pub title: String,
    pub content: String,
    pub canonical_url: String,
    pub associated_files: Option<Vec<AssociatedFile>>,
}

/// The mathematical content of an [`AssociatedFile`].
pub struct AssociatedFileView {
    pub url: Seq<char>,
    pub length: u64,
    pub type_str: Seq<char>,
}

/// The mathematical content of an [`InputItem`].
pub struct InputItemView {
    pub title: Seq<char>,
    pub content: Seq<char>,
    pub canonical_url: Seq<char>,
    pub associated_files: Option<Seq<AssociatedFileView>>,
}

impl View for AssociatedFile {
    type V = AssociatedFileView;

    open spec fn view(&self) -> AssociatedFileView {
        AssociatedFileView { url: self.url@, length: self.length, type_str: self.type_str@ }
    }
}

impl DeepView for AssociatedFile {
    type V = AssociatedFileView;

    open spec fn deep_view(&self) -> AssociatedFileView {
        self@
    }
}

impl View for InputItem {
    type V = InputItemView;

    open spec fn view(&self) -> InputItemView {
        InputItemView {
            title: self.title@,
            content: self.content@,
            canonical_url: self.canonical_url@,
            associated_files: self.associated_files.deep_view(),
        }
    }
}

impl DeepView for InputItem {
    type V = InputItemView;

    open spec fn deep_view(&self) -> InputItemView {
        self@
    }
}

/// The mathematical content of a [`FeedItem`].
pub struct FeedItemView {
    pub feed_id: Seq<char>,
    pub item_id: Seq<char>,
    pub input_id: Seq<char>,
    pub title: Seq<char>,
    pub content: Option<Seq<char>>,
    pub canonical_url: Seq<char>,
    pub item_time: Seq<char>,
    pub item_time_ms: u64,
    pub deleted: bool,
    pub associated_files: Option<Seq<AssociatedFileView>>,
}

impl View for FeedItem {
    type V = FeedItemView;

    open spec fn view(&self) -> FeedItemView {
        FeedItemView {
            feed_id: self.feed_id@,
            item_id: self.item_id@,
            input_id: self.input_id@,
            title: self.title@,
            content: self.content.deep_view(),
            canonical_url: self.canonical_url@,
            item_time: self.item_time@,
            item_time_ms: self.item_time_ms,
            deleted: self.deleted,
            associated_files: self.associated_files.deep_view(),
        }
    }
}

impl DeepView for FeedItem {
    type V = FeedItemView;

    open spec fn deep_view(&self) -> FeedItemView {
        self@
    }
}

impl Clone for AssociatedFile {
    fn clone(&self) -> (copy: Self)
        ensures
            copy@ == self@,
    {
        AssociatedFile {
            url: self.url.clone(),
            length: self.length,
            type_str: self.type_str.clone(),
        }
    }
}

impl Clone for InputItem {
    fn clone(&self) -> (copy: Self)
        ensures
            copy@ == self@,
    {
        let associated_files = match &self.associated_files {
            None => None,
            Some(files) => {
                let mut copies: Vec<AssociatedFile> = Vec::new();
                let mut i: usize = 0;
                while i < files.len()
                    invariant
                        i <= files.len(),
                        copies.len() == i,
                        forall|k: int| 0 <= k < i ==> copies@[k]@ == files@[k]@,
                    decreases files.len() - i,
                {
                    copies.push(files[i].clone());
                    i += 1;
                }
                assert(copies.deep_view() =~= files.deep_view());
                Some(copies)
            },
        };
        InputItem {
            title: self.title.clone(),
            content: self.content.clone(),
            canonical_url: self.canonical_url.clone(),
            associated_files,
        }
    }
}

} // verus!
