//! The parts of a Plex `/hubs/search/` answer that the bot reads, and the
//! choice of the file to play among them.

use vstd::prelude::*;
use crate::error::{AngyError, AngyResult};
use crate::text::{replace, replace_spec};

verus! {

/// The answer of a Plex search.
#[derive(Clone, Debug, Default)]
pub struct SearchResults {
    pub media_container: MediaContainer,
}

/// The container of the hubs of a Plex search answer.
#[derive(Clone, Debug, Default)]
pub struct MediaContainer {
    pub hub: Vec<Hub>,
}

/// A group of search results of one kind ("track", "album", ...).
#[derive(Clone, Debug, Default)]
pub struct Hub {
    pub identifier: String,
    pub metadata: Vec<Metadata>,
}

/// One search result.
#[derive(Clone, Debug, Default)]
pub struct Metadata {
    pub library_section_title: String,
    pub media: Vec<Media>,
}

/// One encoding of a search result.
#[derive(Clone, Debug, Default)]
pub struct Media {
    pub part: Vec<Part>,
}

/// One file of a media.
#[derive(Clone, Debug, Default)]
pub struct Part {
    pub file: String,
}

/// The first hub of `hubs` whose identifier is `track`.
pub open spec fn first_track_hub(hubs: Seq<Hub>) -> Option<Hub>
    decreases hubs.len(),
{
    if hubs.len() == 0 {
        None
    } else if hubs[0].identifier@ == "track"@ {
        Some(hubs[0])
    } else {
        first_track_hub(hubs.drop_first())
    }
}

/// The first result of `items` that belongs to the library called `library`.
pub open spec fn first_in_library(items: Seq<Metadata>, library: Seq<char>) -> Option<Metadata>
    decreases items.len(),
{
    if items.len() == 0 {
        None
    } else if items[0].library_section_title@ == library {
        Some(items[0])
    } else {
        first_in_library(items.drop_first(), library)
    }
}

/// The path of the file to play for a Plex search answer: the first part of
/// the first media of the first result of the library `library` in the
/// first `track` hub, with `from` replaced by `to`; or the error that says
/// which of these is missing.
pub open spec fn plex_track_path_spec(
    results: SearchResults,
    library: Seq<char>,
    from: Seq<char>,
    to: Seq<char>,
) -> Result<Seq<char>, AngyError> {
    match first_track_hub(results.media_container.hub@) {
        None => Err(AngyError::PlexResponse("Could not find 'track' hub")),
        Some(hub) => match first_in_library(hub.metadata@, library) {
            None => Err(AngyError::User("No results for the given query.")),
            Some(best) => if best.media@.len() == 0 {
                Err(AngyError::PlexResponse("No media files for the best match track."))
            } else if best.media@[0].part@.len() == 0 {
                Err(AngyError::PlexResponse("No parts for the best match track."))
            } else {
                Ok(replace_spec(best.media@[0].part@[0].file@, from, to))
            },
        },
    }
}

/// The view of a result that carries a string.
pub open spec fn string_result_view(r: AngyResult<String>) -> Result<Seq<char>, AngyError> {
    match r {
        Ok(s) => Ok(s@),
        Err(e) => Err(e),
    }
}

/// Finds the first hub identified `track`.
fn find_track_hub(hubs: &Vec<Hub>) -> (r: Option<&Hub>)
    ensures
        r is Some == first_track_hub(hubs@) is Some,
        r matches Some(h) ==> first_track_hub(hubs@) == Some(*h),
{
    let track = "track".to_owned();
    let n = hubs.len();
    assert(hubs@.skip(0) =~= hubs@);
    for i in 0..n
        invariant
            n == hubs@.len(),
            track@ == "track"@,
            first_track_hub(hubs@) == first_track_hub(hubs@.skip(i as int)),
    {
        assert(hubs@.skip(i as int).drop_first() =~= hubs@.skip(i + 1));
        if hubs[i].identifier == track {
            return Some(&hubs[i]);
        }
    }
    assert(hubs@.skip(n as int) =~= Seq::<Hub>::empty());
    None
}

/// Finds the first result of the library called `library`.
fn find_in_library<'a>(items: &'a Vec<Metadata>, library: &str) -> (r: Option<&'a Metadata>)
    ensures
        r is Some == first_in_library(items@, library@) is Some,
        r matches Some(m) ==> first_in_library(items@, library@) == Some(*m),
{
    let wanted = library.to_owned();
    let n = items.len();
    assert(items@.skip(0) =~= items@);
    for i in 0..n
        invariant
            n == items@.len(),
            wanted@ == library@,
            first_in_library(items@, library@) == first_in_library(items@.skip(i as int), library@),
    {
        assert(items@.skip(i as int).drop_first() =~= items@.skip(i + 1));
        if items[i].library_section_title == wanted {
            return Some(&items[i]);
        }
    }
    assert(items@.skip(n as int) =~= Seq::<Metadata>::empty());
    None
}

/// The path of the file to play for the Plex search answer `results`: the
/// first part of the first media of the first result of the library
/// `library` in the first `track` hub, with every `from` in it replaced by
/// `to`.
pub fn plex_track_path(results: &SearchResults, library: &str, from: &str, to: &str) -> (r:
    AngyResult<String>)
    ensures
        string_result_view(r) == plex_track_path_spec(*results, library@, from@, to@),
{
    let hub = match find_track_hub(&results.media_container.hub) {
        Some(h) => h,
        None => return Err(AngyError::PlexResponse("Could not find 'track' hub")),
    };
    let best = match find_in_library(&hub.metadata, library) {
        Some(m) => m,
        None => return Err(AngyError::User("No results for the given query.")),
    };
    if best.media.len() == 0 {
        return Err(AngyError::PlexResponse("No media files for the best match track."));
    }
    let media = &best.media[0];
    if media.part.len() == 0 {
        return Err(AngyError::PlexResponse("No parts for the best match track."));
    }
    Ok(replace(media.part[0].file.as_str(), from, to))
}

/// The hub `first_track_hub` picks is one of the hubs, identified `track`.
proof fn lemma_first_track_hub(hubs: Seq<Hub>)
    ensures
        first_track_hub(hubs) matches Some(h) ==> exists|i: int|
            0 <= i < hubs.len() && #[trigger] hubs[i] == h && h.identifier@ == "track"@,
    decreases hubs.len(),
{
    if hubs.len() > 0 && hubs[0].identifier@ != "track"@ {
        lemma_first_track_hub(hubs.drop_first());
        if let Some(h) = first_track_hub(hubs) {
            let i = choose|i: int|
                0 <= i < hubs.drop_first().len() && #[trigger] hubs.drop_first()[i] == h
                    && h.identifier@ == "track"@;
            assert(hubs[i + 1] == h);
        }
    }
}

/// The result `first_in_library` picks is one of the results, of the
/// library `library`.
proof fn lemma_first_in_library(items: Seq<Metadata>, library: Seq<char>)
    ensures
        first_in_library(items, library) matches Some(m) ==> exists|j: int|
            0 <= j < items.len() && #[trigger] items[j] == m && m.library_section_title@
                == library,
    decreases items.len(),
{
    if items.len() > 0 && items[0].library_section_title@ != library {
        lemma_first_in_library(items.drop_first(), library);
        if let Some(m) = first_in_library(items, library) {
            let j = choose|j: int|
                0 <= j < items.drop_first().len() && #[trigger] items.drop_first()[j] == m
                    && m.library_section_title@ == library;
            assert(items[j + 1] == m);
        }
    }
}

/// A path chosen from a Plex answer is that of a file of a result of the
/// configured library, found in a `track` hub, rewritten by the replacement.
pub proof fn law_plex_path_from_library_track(
    results: SearchResults,
    library: Seq<char>,
    from: Seq<char>,
    to: Seq<char>,
)
    ensures
        plex_track_path_spec(results, library, from, to) matches Ok(path) ==> exists|
            i: int,
            j: int,
        |
            0 <= i < results.media_container.hub@.len() && #[trigger] results.media_container.hub@[i].identifier@ == "track"@
                && 0 <= j < results.media_container.hub@[i].metadata@.len()
                && #[trigger] results.media_container.hub@[i].metadata@[j].library_section_title@ == library
                && results.media_container.hub@[i].metadata@[j].media@.len() > 0
                && results.media_container.hub@[i].metadata@[j].media@[0].part@.len() > 0
                && path == replace_spec(
                results.media_container.hub@[i].metadata@[j].media@[0].part@[0].file@,
                from,
                to,
            ),
{
    let hubs = results.media_container.hub@;
    lemma_first_track_hub(hubs);
    if let Some(hub) = first_track_hub(hubs) {
        lemma_first_in_library(hub.metadata@, library);
        if let Some(best) = first_in_library(hub.metadata@, library) {
            let i = choose|i: int|
                0 <= i < hubs.len() && #[trigger] hubs[i] == hub && hub.identifier@ == "track"@;
            let j = choose|j: int|
                0 <= j < hub.metadata@.len() && #[trigger] hub.metadata@[j] == best
                    && best.library_section_title@ == library;
            assert(hubs[i].identifier@ == "track"@);
            assert(hubs[i].metadata@[j].library_section_title@ == library);
        }
    }
}

/// The hub picked is the one at the first index identified `track`.
proof fn lemma_first_track_hub_index(hubs: Seq<Hub>, i: int)
    requires
        0 <= i < hubs.len(),
        hubs[i].identifier@ == "track"@,
        forall|k: int| 0 <= k < i ==> #[trigger] hubs[k].identifier@ != "track"@,
    ensures
        first_track_hub(hubs) == Some(hubs[i]),
    decreases i,
{
    if i > 0 {
        assert(hubs[0].identifier@ != "track"@);
        assert forall|k: int| 0 <= k < i - 1 implies #[trigger] hubs.drop_first()[k].identifier@
            != "track"@ by {
            assert(hubs.drop_first()[k] == hubs[k + 1]);
        }
        lemma_first_track_hub_index(hubs.drop_first(), i - 1);
    }
}

/// No hub is picked when none is identified `track`.
proof fn lemma_no_track_hub(hubs: Seq<Hub>)
    requires
        forall|k: int| 0 <= k < hubs.len() ==> #[trigger] hubs[k].identifier@ != "track"@,
    ensures
        first_track_hub(hubs) is None,
    decreases hubs.len(),
{
    if hubs.len() > 0 {
        assert(hubs[0].identifier@ != "track"@);
        assert forall|k: int| 0 <= k < hubs.len() - 1 implies #[trigger] hubs.drop_first()[k].identifier@
            != "track"@ by {
            assert(hubs.drop_first()[k] == hubs[k + 1]);
        }
        lemma_no_track_hub(hubs.drop_first());
    }
}

/// The result picked is the one at the first index of the library.
proof fn lemma_first_in_library_index(items: Seq<Metadata>, library: Seq<char>, j: int)
    requires
        0 <= j < items.len(),
        items[j].library_section_title@ == library,
        forall|k: int| 0 <= k < j ==> #[trigger] items[k].library_section_title@ != library,
    ensures
        first_in_library(items, library) == Some(items[j]),
    decreases j,
{
    if j > 0 {
        assert(items[0].library_section_title@ != library);
        assert forall|k: int| 0 <= k < j - 1 implies #[trigger] items.drop_first()[k].library_section_title@
            != library by {
            assert(items.drop_first()[k] == items[k + 1]);
        }
        lemma_first_in_library_index(items.drop_first(), library, j - 1);
    }
}

/// No result is picked when none is of the library.
proof fn lemma_none_in_library(items: Seq<Metadata>, library: Seq<char>)
    requires
        forall|k: int| 0 <= k < items.len() ==> #[trigger] items[k].library_section_title@ != library,
    ensures
        first_in_library(items, library) is None,
    decreases items.len(),
{
    if items.len() > 0 {
        assert(items[0].library_section_title@ != library);
        assert forall|k: int| 0 <= k < items.len() - 1 implies #[trigger] items.drop_first()[k].library_section_title@
            != library by {
            assert(items.drop_first()[k] == items[k + 1]);
        }
        lemma_none_in_library(items.drop_first(), library);
    }
}

/// The file played is picked from the first hub identified `track` (the
/// answer is refused when there is none), from its first result of the
/// library (the user is told there is none when no result is of the
/// library), from that result's first media and that media's first part;
/// its path is rewritten by replacing `from` with `to`.
pub proof fn law_plex_picks_first_track_and_first_library_result(
    results: SearchResults,
    library: Seq<char>,
    from: Seq<char>,
    to: Seq<char>,
    i: int,
    j: int,
)
    ensures
        (forall|k: int|
            0 <= k < results.media_container.hub@.len()
                ==> #[trigger] results.media_container.hub@[k].identifier@ != "track"@)
            ==> plex_track_path_spec(results, library, from, to) == Err::<Seq<char>, AngyError>(
            AngyError::PlexResponse("Could not find 'track' hub"),
        ),
        ({
            let hubs = results.media_container.hub@;
            (0 <= i < hubs.len() && hubs[i].identifier@ == "track"@ && forall|k: int|
                0 <= k < i ==> #[trigger] hubs[k].identifier@ != "track"@) ==> {
                let items = hubs[i].metadata@;
                &&& (forall|m: int|
                    0 <= m < items.len() ==> #[trigger] items[m].library_section_title@ != library)
                    ==> plex_track_path_spec(results, library, from, to) == Err::<
                    Seq<char>,
                    AngyError,
                >(AngyError::User("No results for the given query."))
                &&& (0 <= j < items.len() && items[j].library_section_title@ == library
                    && forall|m: int|
                    0 <= m < j ==> #[trigger] items[m].library_section_title@ != library) ==> {
                    let best = items[j];
                    plex_track_path_spec(results, library, from, to) == if best.media@.len()
                        == 0 {
                        Err(AngyError::PlexResponse("No media files for the best match track."))
                    } else if best.media@[0].part@.len() == 0 {
                        Err(AngyError::PlexResponse("No parts for the best match track."))
                    } else {
                        Ok(replace_spec(best.media@[0].part@[0].file@, from, to))
                    }
                }
            }
        }),
{
    let hubs = results.media_container.hub@;
    if forall|k: int| 0 <= k < hubs.len() ==> #[trigger] hubs[k].identifier@ != "track"@ {
        lemma_no_track_hub(hubs);
    }
    if 0 <= i < hubs.len() && hubs[i].identifier@ == "track"@ && forall|k: int|
        0 <= k < i ==> #[trigger] hubs[k].identifier@ != "track"@ {
        lemma_first_track_hub_index(hubs, i);
        let items = hubs[i].metadata@;
        if forall|m: int| 0 <= m < items.len() ==> #[trigger] items[m].library_section_title@ != library {
            lemma_none_in_library(items, library);
        }
        if 0 <= j < items.len() && items[j].library_section_title@ == library && forall|m: int|
            0 <= m < j ==> #[trigger] items[m].library_section_title@ != library {
            lemma_first_in_library_index(items, library, j);
        }
    }
}

} // verus!
