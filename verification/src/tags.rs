//! Where a track's iTunes catalog ID is found among the tags of its file.
//!
//! Reading the file is the host application's part: it hands over, for each
//! tag that the file carries, what that tag holds under the catalog ID keys.
//! Which tags count for which file type, and in what order, is decided here.

use vstd::prelude::*;
use crate::bytes::{be_uint, be_value, lemma_be_value_bound, lemma_pow256_eight, lemma_pow256_monotone, spec_be_uint};
use crate::digits::{decimal_digits, law_parse_reads_back_decimal, spec_parse_u64, u64_to_decimal, DigitError};
use crate::errors::LyricsError;

verus! {

/// The Vorbis comment field that holds the catalog ID.
pub const VORBIS_CATALOG_ID_KEY: &'static str = "ITUNESCATALOGID";

/// The description of the ID3v2 user text frame that holds the catalog ID.
pub const ID3_CATALOG_ID_DESCRIPTION: &'static str = "iTunes Catalog ID";

/// The keys under which APE and RIFF INFO tags may hold the catalog ID, in
/// the order they are tried.
pub open spec fn catalog_keys() -> Seq<Seq<char>> {
    seq!["iTunesCatalogId"@, "ITUNESCATALOGID"@, "iTunes Catalog ID"@]
}

/// The catalog keys, in the order they are tried.
pub fn catalog_keys_exec() -> (r: Vec<&'static str>)
    ensures
        r@.map_values(|k: &'static str| k@) == catalog_keys(),
{
    let r = vec!["iTunesCatalogId", "ITUNESCATALOGID", "iTunes Catalog ID"];
    assert(r@.map_values(|k: &'static str| k@) =~= catalog_keys());
    r
}

/// The kinds of audio file whose tags are read through one tag library.
#[derive(Debug, Clone, Copy, PartialEq, Eq, Structural)]
pub enum AudioFormat {
    Aac,
    Mpeg,
    Flac,
    Ape,
    Opus,
    Vorbis,
    WavPack,
    Wav,
    Aiff,
    Speex,
    Mpc,
}

/// The kinds of tag that may hold the catalog ID.
#[derive(Debug, Clone, Copy, PartialEq, Eq, Structural)]
pub enum TagKind {
    Id3v2,
    Ape,
    Vorbis,
    Riff,
}

/// What each tag of a file holds under the catalog ID keys.
#[derive(Debug, Clone)]
pub struct TagLookups {
    /// The ID3v2 user text frame `iTunes Catalog ID`.
    pub id3v2: Option<String>,
    /// The first text value of the APE item under each catalog key, in key
    /// order; empty when the file has no APE tag.
    pub ape: Vec<Option<String>>,
    /// The Vorbis comment `ITUNESCATALOGID`.
    pub vorbis: Option<String>,
    /// The RIFF INFO value under each catalog key, in key order; empty when
    /// the file has no RIFF INFO list.
    pub riff: Vec<Option<String>>,
}

/// What the `cnID` atom of an MP4 file holds.
#[derive(Debug, Clone)]
pub enum Mp4Data {
    BeSigned(Vec<u8>),
    Reserved(Vec<u8>),
    Utf8(String),
    Utf16(String),
    /// Any other kind of data, described by its debug text.
    Other(String),
}

/// The tags of a track's file.
#[derive(Debug, Clone)]
pub enum FileTags {
    /// A file of one of the tag library's formats.
    Tagged { format: AudioFormat, lookups: TagLookups },
    /// An MP4 file, with the first data of its `cnID` atom.
    Mp4 { cnid: Option<Mp4Data> },
    /// A file of any other kind.
    Unsupported,
}

pub open spec fn opt_view(o: Option<String>) -> Option<Seq<char>> {
    match o {
        Some(s) => Some(s@),
        None => None,
    }
}

/// The first value that is present.
pub open spec fn first_some(values: Seq<Option<String>>) -> Option<Seq<char>>
    decreases values.len(),
{
    if values.len() == 0 {
        None
    } else {
        match values[0] {
            Some(v) => Some(v@),
            None => first_some(values.drop_first()),
        }
    }
}

/// The tags that count for a file type, in order of preference.
pub open spec fn tag_order(f: AudioFormat) -> Seq<TagKind> {
    match f {
        AudioFormat::Aac => seq![TagKind::Id3v2],
        AudioFormat::Mpeg => seq![TagKind::Id3v2, TagKind::Ape],
        AudioFormat::Flac => seq![TagKind::Vorbis, TagKind::Id3v2],
        AudioFormat::Ape => seq![TagKind::Ape, TagKind::Id3v2],
        AudioFormat::Opus => seq![TagKind::Vorbis],
        AudioFormat::Vorbis => seq![TagKind::Vorbis],
        AudioFormat::WavPack => seq![TagKind::Ape],
        AudioFormat::Wav => seq![TagKind::Riff, TagKind::Id3v2],
        AudioFormat::Aiff => seq![TagKind::Id3v2],
        AudioFormat::Speex => seq![TagKind::Vorbis],
        AudioFormat::Mpc => seq![TagKind::Ape, TagKind::Id3v2],
    }
}

/// What one kind of tag holds for the catalog ID.
pub open spec fn candidate(t: TagLookups, k: TagKind) -> Option<Seq<char>> {
    match k {
        TagKind::Id3v2 => opt_view(t.id3v2),
        TagKind::Ape => first_some(t.ape@),
        TagKind::Vorbis => opt_view(t.vorbis),
        TagKind::Riff => first_some(t.riff@),
    }
}

/// The value of the first tag kind in `order` that holds one.
pub open spec fn pick(order: Seq<TagKind>, t: TagLookups) -> Option<Seq<char>>
    decreases order.len(),
{
    if order.len() == 0 {
        None
    } else {
        match candidate(t, order[0]) {
            Some(v) => Some(v),
            None => pick(order.drop_first(), t),
        }
    }
}

/// The catalog ID of an MP4 file's `cnID` data: integers are written out in
/// decimal, texts taken as they are.
pub open spec fn spec_mp4_catalog_id(cnid: Option<Mp4Data>) -> Result<Option<Seq<char>>, LyricsError> {
    match cnid {
        None => Ok(None),
        Some(Mp4Data::BeSigned(b)) | Some(Mp4Data::Reserved(b)) => match spec_be_uint(b@) {
            Some(v) => Ok(Some(decimal_digits(v as nat))),
            None => Ok(None),
        },
        Some(Mp4Data::Utf8(s)) | Some(Mp4Data::Utf16(s)) => Ok(Some(s@)),
        Some(Mp4Data::Other(what)) => Err(LyricsError::UnexpectedMp4Data(what)),
    }
}

/// The catalog ID that a file's tags hold.
pub open spec fn spec_catalog_id(tags: FileTags) -> Result<Option<Seq<char>>, LyricsError> {
    match tags {
        FileTags::Tagged { format, lookups } => Ok(pick(tag_order(format), lookups)),
        FileTags::Mp4 { cnid } => spec_mp4_catalog_id(cnid),
        FileTags::Unsupported => Ok(None),
    }
}

pub open spec fn result_view(r: Result<Option<String>, LyricsError>) -> Result<Option<Seq<char>>, LyricsError> {
    match r {
        Ok(o) => Ok(opt_view(o)),
        Err(e) => Err(e),
    }
}

/// The first value present among the lookups under the catalog keys.
pub fn first_present(values: &Vec<Option<String>>) -> (r: Option<String>)
    ensures
        opt_view(r) == first_some(values@),
{
    let mut i: usize = 0;
    assert(values@.skip(0) =~= values@);
    while i < values.len()
        invariant
            i <= values@.len(),
            first_some(values@) == first_some(values@.skip(i as int)),
        decreases values@.len() - i,
    {
        assert(values@.skip(i as int).drop_first() =~= values@.skip(i + 1));
        if let Some(v) = &values[i] {
            return Some(v.clone());
        }
        i = i + 1;
    }
    None
}

fn candidate_exec(t: &TagLookups, k: TagKind) -> (r: Option<String>)
    ensures
        opt_view(r) == candidate(*t, k),
{
    match k {
        TagKind::Id3v2 => t.id3v2.clone(),
        TagKind::Ape => first_present(&t.ape),
        TagKind::Vorbis => t.vorbis.clone(),
        TagKind::Riff => first_present(&t.riff),
    }
}

/// The value of the first of two tag kinds that holds one.
fn pick_two(t: &TagLookups, first: TagKind, second: TagKind) -> (r: Option<String>)
    ensures
        opt_view(r) == pick(seq![first, second], *t),
{
    proof {
        reveal_with_fuel(pick, 3);
        assert(seq![first, second].drop_first() =~= seq![second]);
        assert(seq![second].drop_first() =~= Seq::<TagKind>::empty());
    }
    match candidate_exec(t, first) {
        Some(v) => Some(v),
        None => candidate_exec(t, second),
    }
}

fn pick_one(t: &TagLookups, kind: TagKind) -> (r: Option<String>)
    ensures
        opt_view(r) == pick(seq![kind], *t),
{
    proof {
        reveal_with_fuel(pick, 2);
        assert(seq![kind].drop_first() =~= Seq::<TagKind>::empty());
    }
    candidate_exec(t, kind)
}

/// The catalog ID held by the `cnID` data of an MP4 file.
pub fn get_mp4_catalog_id(cnid: Option<Mp4Data>) -> (r: Result<Option<String>, LyricsError>)
    ensures
        result_view(r) == spec_mp4_catalog_id(cnid),
        match cnid {
            Some(Mp4Data::BeSigned(b)) | Some(Mp4Data::Reserved(b)) => if 1 <= b@.len() <= 8 {
                (r matches Ok(Some(text)) && text@ == decimal_digits(be_value(b@)))
            } else {
                r matches Ok(None)
            },
            _ => true,
        },
{
    let ghost given = cnid;
    proof {
        match given {
            Some(Mp4Data::BeSigned(b)) | Some(Mp4Data::Reserved(b)) => law_mp4_integer_is_full_value(b),
            _ => {},
        }
    }
    match cnid {
        None => Ok(None),
        Some(Mp4Data::BeSigned(bytes)) | Some(Mp4Data::Reserved(bytes)) => match be_uint(
            bytes.as_slice(),
        ) {
            Some(v) => Ok(Some(u64_to_decimal(v))),
            None => Ok(None),
        },
        Some(Mp4Data::Utf8(s)) | Some(Mp4Data::Utf16(s)) => Ok(Some(s)),
        Some(Mp4Data::Other(what)) => Err(LyricsError::UnexpectedMp4Data(what)),
    }
}

/// The catalog ID that a track's file tags hold, if any.
pub fn catalog_id_from_tags(tags: FileTags) -> (r: Result<Option<String>, LyricsError>)
    ensures
        result_view(r) == spec_catalog_id(tags),
{
    match tags {
        FileTags::Tagged { format, lookups } => {
            let t = &lookups;
            let v = match format {
                AudioFormat::Aac => pick_one(t, TagKind::Id3v2),
                AudioFormat::Mpeg => pick_two(t, TagKind::Id3v2, TagKind::Ape),
                AudioFormat::Flac => pick_two(t, TagKind::Vorbis, TagKind::Id3v2),
                AudioFormat::Ape => pick_two(t, TagKind::Ape, TagKind::Id3v2),
                AudioFormat::Opus => pick_one(t, TagKind::Vorbis),
                AudioFormat::Vorbis => pick_one(t, TagKind::Vorbis),
                AudioFormat::WavPack => pick_one(t, TagKind::Ape),
                AudioFormat::Wav => pick_two(t, TagKind::Riff, TagKind::Id3v2),
                AudioFormat::Aiff => pick_one(t, TagKind::Id3v2),
                AudioFormat::Speex => pick_one(t, TagKind::Vorbis),
                AudioFormat::Mpc => pick_two(t, TagKind::Ape, TagKind::Id3v2),
            };
            Ok(v)
        },
        FileTags::Mp4 { cnid } => get_mp4_catalog_id(cnid),
        FileTags::Unsupported => Ok(None),
    }
}

} // verus!

verus! {

/// The first of two answers that is present.
pub open spec fn or_else(first: Option<Seq<char>>, second: Option<Seq<char>>) -> Option<Seq<char>> {
    match first {
        Some(v) => Some(v),
        None => second,
    }
}

/// Lookup law: the catalog keys are tried in order, and the value kept is
/// the one under the first key that has a value; no value is kept only when
/// no key has one.
pub proof fn law_first_present_key_wins(values: Seq<Option<String>>)
    ensures
        first_some(values) is None <==> forall|k: int| 0 <= k < values.len() ==> #[trigger] values[k] is None,
        forall|k: int|
            0 <= k < values.len() && #[trigger] values[k] is Some && (forall|j: int| 0 <= j < k ==> values[j] is None)
                ==> first_some(values) == Some(values[k]->0@),
    decreases values.len(),
{
    if values.len() > 0 {
        let rest = values.drop_first();
        law_first_present_key_wins(rest);
        assert forall|k: int| 0 < k < values.len() implies values[k] == rest[k - 1] by {}
        if values[0] is None {
            assert forall|k: int|
                0 <= k < values.len() && #[trigger] values[k] is Some && (forall|j: int| 0 <= j < k ==> values[j] is None)
                implies first_some(values) == Some(values[k]->0@) by {
                assert(k > 0);
                assert(rest[k - 1] == values[k]);
                assert forall|j: int| 0 <= j < k - 1 implies rest[j] is None by {
                    assert(rest[j] == values[j + 1]);
                }
            }
            if first_some(rest) is None {
                assert forall|k: int| 0 <= k < values.len() implies #[trigger] values[k] is None by {
                    if k > 0 {
                        assert(rest[k - 1] == values[k]);
                    }
                }
            }
        }
    }
}

/// Preference law: for every kind of file and every set of tag answers, the
/// catalog ID is taken from the tags in this order of preference (the first
/// one that holds a value wins): AAC and AIFF read ID3v2 only; MPEG reads
/// ID3v2, then APE; FLAC reads Vorbis comments, then ID3v2; Monkey's Audio and
/// Musepack read APE, then ID3v2; Opus, Ogg Vorbis and Speex read Vorbis
/// comments only; WavPack reads APE only; WAV reads RIFF INFO, then ID3v2.
pub proof fn law_tag_preference(format: AudioFormat, lookups: TagLookups)
    ensures
        spec_catalog_id(FileTags::Tagged { format, lookups }) == Ok::<Option<Seq<char>>, LyricsError>(
            match format {
                AudioFormat::Aac => opt_view(lookups.id3v2),
                AudioFormat::Mpeg => or_else(opt_view(lookups.id3v2), first_some(lookups.ape@)),
                AudioFormat::Flac => or_else(opt_view(lookups.vorbis), opt_view(lookups.id3v2)),
                AudioFormat::Ape => or_else(first_some(lookups.ape@), opt_view(lookups.id3v2)),
                AudioFormat::Opus => opt_view(lookups.vorbis),
                AudioFormat::Vorbis => opt_view(lookups.vorbis),
                AudioFormat::WavPack => first_some(lookups.ape@),
                AudioFormat::Wav => or_else(first_some(lookups.riff@), opt_view(lookups.id3v2)),
                AudioFormat::Aiff => opt_view(lookups.id3v2),
                AudioFormat::Speex => opt_view(lookups.vorbis),
                AudioFormat::Mpc => or_else(first_some(lookups.ape@), opt_view(lookups.id3v2)),
            },
        ),
{
    reveal_with_fuel(pick, 3);
    let order = tag_order(format);
    if order.len() == 2 {
        assert(order.drop_first() =~= seq![order[1]]);
        assert(order.drop_first().drop_first() =~= Seq::<TagKind>::empty());
    } else {
        assert(order.drop_first() =~= Seq::<TagKind>::empty());
    }
}

/// Integer law: an integer `cnID` of one to eight bytes gives the decimal
/// text of the bytes' full big-endian value, which parses back to that
/// value; an empty or longer integer gives no catalog ID.
pub proof fn law_mp4_integer_is_full_value(bytes: Vec<u8>)
    ensures
        1 <= bytes@.len() <= 8 ==> {
            &&& be_value(bytes@) <= u64::MAX
            &&& spec_mp4_catalog_id(Some(Mp4Data::BeSigned(bytes))) == Ok::<Option<Seq<char>>, LyricsError>(
                Some(decimal_digits(be_value(bytes@))),
            )
            &&& spec_mp4_catalog_id(Some(Mp4Data::Reserved(bytes))) == Ok::<Option<Seq<char>>, LyricsError>(
                Some(decimal_digits(be_value(bytes@))),
            )
            &&& spec_parse_u64(decimal_digits(be_value(bytes@))) == Ok::<u64, DigitError>(
                be_value(bytes@) as u64,
            )
        },
        (bytes@.len() == 0 || bytes@.len() > 8) ==> {
            &&& spec_mp4_catalog_id(Some(Mp4Data::BeSigned(bytes))) == Ok::<Option<Seq<char>>, LyricsError>(None)
            &&& spec_mp4_catalog_id(Some(Mp4Data::Reserved(bytes))) == Ok::<Option<Seq<char>>, LyricsError>(None)
        },
{
    if 1 <= bytes@.len() <= 8 {
        lemma_be_value_bound(bytes@);
        lemma_pow256_monotone(bytes@.len(), 8);
        lemma_pow256_eight();
        let v = be_value(bytes@) as u64;
        assert(v as nat == be_value(bytes@));
        law_parse_reads_back_decimal(v);
    }
}

} // verus!
