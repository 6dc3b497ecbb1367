use vstd::prelude::*;

verus! {

/// Names one article in the store. The controller never looks inside.
#[derive(Debug, PartialEq, Eq)]
pub struct CachedArticleHandle(pub String);

impl View for CachedArticleHandle {
    type V = Seq<char>;

    open spec fn view(&self) -> Seq<char> {
        self.0@
    }
}

impl Clone for CachedArticleHandle {
    fn clone(&self) -> (copy: Self)
        ensures
            copy@ == self@,
    {
        CachedArticleHandle(self.0.clone())
    }
}

/// The view of an optional handle.
pub open spec fn handle_view(handle: Option<CachedArticleHandle>) -> Option<Seq<char>> {
    match handle {
        Some(h) => Some(h@),
        None => None,
    }
}

/// An article as the store hands it out: its title and its audio.
#[derive(Debug, PartialEq, Eq)]
pub struct CachedArticle {
    pub title: String,
    pub audio_blob: Vec<u8>,
}

/// What an article holds.
pub struct ArticleView {
    pub title: Seq<char>,
    pub audio: Seq<u8>,
}

impl View for CachedArticle {
    type V = ArticleView;

    open spec fn view(&self) -> ArticleView {
        ArticleView { title: self.title@, audio: self.audio_blob@ }
    }
}

} // verus!
