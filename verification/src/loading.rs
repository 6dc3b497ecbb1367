use crate::article::{ArticleView, CachedArticle, CachedArticleHandle};
use crate::effect::{Effect, EffectView};
use crate::error::{PlayerError, StoreError};
use vstd::prelude::*;

verus! {

/// The kind of audio that articles hold.
pub const AUDIO_MIME_FORMAT: &'static str = "audio/mp3";

/// What it takes to put an article into the device: pause what plays, show
/// the title on the media controls, hand over the audio.
pub open spec fn install_effects(article: ArticleView) -> Seq<EffectView> {
    seq![
        EffectView::Pause,
        EffectView::SetMetadata { title: article.title },
        EffectView::SetSource { audio: article.audio, mime_type: AUDIO_MIME_FORMAT@ },
    ]
}

/// What it takes to play an article: put it into the device, then start.
pub open spec fn play_effects(article: ArticleView) -> Seq<EffectView> {
    install_effects(article).push(EffectView::Play)
}

/// What follows when an article arrives from the store.
pub open spec fn loaded_effects(autoplay: bool, article: ArticleView) -> Seq<EffectView> {
    if autoplay {
        play_effects(article)
    } else {
        install_effects(article)
    }
}

fn copy_bytes(bytes: &Vec<u8>) -> (copy: Vec<u8>)
    ensures
        copy@ == bytes@,
{
    let copy = bytes.clone();
    assert(copy@ =~= bytes@);
    copy
}

/// Puts an article into the device without starting it.
pub fn set_audio_source(art: &CachedArticle) -> (effects: Vec<Effect>)
    ensures
        effects.deep_view() == install_effects(art@),
{
    let mut effects: Vec<Effect> = Vec::new();
    effects.push(Effect::Pause);
    effects.push(Effect::SetMetadata { title: art.title.clone() });
    effects.push(
        Effect::SetSource {
            audio: copy_bytes(&art.audio_blob),
            mime_type: AUDIO_MIME_FORMAT.to_owned(),
        },
    );
    assert(effects.deep_view() =~= install_effects(art@));
    effects
}

/// Puts an article into the device and starts it.
pub fn play_article(art: &CachedArticle) -> (effects: Vec<Effect>)
    ensures
        effects.deep_view() == play_effects(art@),
{
    let mut effects = set_audio_source(art);
    effects.push(Effect::Play);
    assert(effects.deep_view() =~= play_effects(art@));
    effects
}

/// Asks for the article behind a handle, to be put into the device when it
/// arrives.
pub fn set_audio_source_by_handle(handle: &CachedArticleHandle) -> (effects: Vec<Effect>)
    ensures
        effects.deep_view() == seq![EffectView::LoadArticle { handle: handle@, autoplay: false }],
{
    let mut effects: Vec<Effect> = Vec::new();
    effects.push(Effect::LoadArticle { handle: handle.clone(), autoplay: false });
    assert(effects.deep_view() =~= seq![
        EffectView::LoadArticle { handle: handle@, autoplay: false },
    ]);
    effects
}

/// Asks for the article behind a handle, to be played when it arrives. The
/// device is paused first, while the user's gesture still counts: some
/// platforms refuse a first media action that comes from a background task.
pub fn play_article_handle(handle: &CachedArticleHandle) -> (effects: Vec<Effect>)
    ensures
        effects.deep_view() == seq![
            EffectView::Pause,
            EffectView::LoadArticle { handle: handle@, autoplay: true },
        ],
{
    let mut effects: Vec<Effect> = Vec::new();
    effects.push(Effect::Pause);
    effects.push(Effect::LoadArticle { handle: handle.clone(), autoplay: true });
    assert(effects.deep_view() =~= seq![
        EffectView::Pause,
        EffectView::LoadArticle { handle: handle@, autoplay: true },
    ]);
    effects
}

/// Takes what the store answered to a request for an article. An article is
/// put into the device, and started if the request was to play it, whatever
/// has been asked for since. A failure changes nothing.
pub fn article_loaded(autoplay: bool, outcome: Result<CachedArticle, StoreError>) -> (r: Result<
    Vec<Effect>,
    PlayerError,
>)
    ensures
        match outcome {
            Ok(article) => r is Ok && r->Ok_0.deep_view() == loaded_effects(autoplay, article@),
            Err(e) => r == Err::<Vec<Effect>, PlayerError>(PlayerError::ResolutionFailure(e)),
        },
{
    match outcome {
        Ok(article) => if autoplay {
            Ok(play_article(&article))
        } else {
            Ok(set_audio_source(&article))
        },
        Err(e) => Err(PlayerError::ResolutionFailure(e)),
    }
}

} // verus!
