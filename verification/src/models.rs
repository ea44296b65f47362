//! The API's answer to a syllable-lyrics request, and the lyrics handed to
//! the host.

use vstd::prelude::*;

verus! {

/// The attributes of one song in the API's answer.
#[derive(Debug, Clone)]
pub struct SyllableAttributes {
    /// The song's TTML document with its translations, if the API has one.
    pub ttml_localizations: Option<String>,
}

/// One song in the API's answer.
#[derive(Debug, Clone)]
pub struct SyllableData {
    pub id: String,
    pub kind: String,
    pub attributes: SyllableAttributes,
}

/// The API's answer to a syllable-lyrics request.
#[derive(Debug, Clone)]
pub struct SyllableLyricsResponse {
    pub data: Vec<SyllableData>,
}

/// One lyrics document handed to the host.
#[derive(Debug, Clone)]
pub struct LyricsText {
    pub lang: String,
    pub text: String,
}

/// The language tag under which the TTML lyrics are handed on: the TTML
/// document names its languages itself.
pub open spec fn ttml_lang() -> Seq<char> {
    "xxx"@
}

/// A lyrics document as a pair of language and text.
pub open spec fn lyrics_view(l: LyricsText) -> (Seq<char>, Seq<char>) {
    (l.lang@, l.text@)
}

/// The lyrics of an answer: one document per song that has TTML, in order.
pub open spec fn lyrics_of(data: Seq<SyllableData>) -> Seq<(Seq<char>, Seq<char>)>
    decreases data.len(),
{
    if data.len() == 0 {
        Seq::empty()
    } else {
        let rest = lyrics_of(data.drop_last());
        match data.last().attributes.ttml_localizations {
            Some(t) => rest.push((ttml_lang(), t@)),
            None => rest,
        }
    }
}

/// The lyrics that an API answer holds.
pub fn lyrics_from_response(resp: &SyllableLyricsResponse) -> (r: Vec<LyricsText>)
    ensures
        r@.map_values(|l: LyricsText| lyrics_view(l)) == lyrics_of(resp.data@),
{
    let mut out: Vec<LyricsText> = Vec::new();
    let mut i: usize = 0;
    while i < resp.data.len()
        invariant
            i <= resp.data@.len(),
            out@.map_values(|l: LyricsText| lyrics_view(l)) == lyrics_of(resp.data@.take(i as int)),
        decreases resp.data@.len() - i,
    {
        let ghost before = out@.map_values(|l: LyricsText| lyrics_view(l));
        assert(resp.data@.take(i + 1).drop_last() =~= resp.data@.take(i as int));
        match &resp.data[i].attributes.ttml_localizations {
            Some(t) => {
                let l = LyricsText { lang: "xxx".to_owned(), text: t.clone() };
                out.push(l);
                assert(out@.map_values(|l: LyricsText| lyrics_view(l)) =~= before.push(
                    (ttml_lang(), t@),
                ));
            },
            None => {},
        }
        i = i + 1;
    }
    assert(resp.data@.take(i as int) =~= resp.data@);
    out
}

} // verus!
