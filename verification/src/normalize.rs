//! Normalization of raw catalog items into fully-defined media records.
//!
//! A raw item is a loosely-typed mapping: every field may be absent, null, or
//! of the wrong type. Normalization applies a fixed fallback chain per field:
//! title and status fall back to literals, the start-date components default
//! to zero, the season year derives from the resolved start date, while id,
//! the three counters and the genre list are structurally required and fail
//! the whole pass when missing or malformed.

use vstd::prelude::*;

use crate::date::Date;
use crate::media::MediaQuery;
use crate::season::{season_of_token, Season};

verus! {

/// One item of the raw response, reduced to the plain values the
/// normalization rules read. `None` stands uniformly for a field that is
/// absent, null, or not of the expected type.
#[derive(Debug)]
pub struct RawItem {
    pub id: Option<u64>,
    pub title_english: Option<String>,
    pub title_romaji: Option<String>,
    pub average_score: Option<u64>,
    pub popularity: Option<u64>,
    pub favourites: Option<u64>,
    pub status: Option<String>,
    pub season: Option<String>,
    pub start_year: Option<u64>,
    pub start_month: Option<u64>,
    pub start_day: Option<u64>,
    pub season_year: Option<u64>,
    pub genres: Option<Vec<Option<String>>>,
}

/// Why a normalization pass failed.
#[derive(Clone, Copy, Debug, PartialEq, Eq, Structural)]
pub enum NormalizeError {
    MissingId,
    MissingScore,
    MissingPopularity,
    MissingFavourites,
    UnknownSeason,
    MissingGenres,
    BadGenre,
    BadResponse,
}

/// The resolved title: the English title when present, else the romanized
/// title, else a fixed placeholder.
pub open spec fn spec_title(raw: RawItem) -> Seq<char> {
    match raw.title_english {
        Some(t) => t@,
        None => match raw.title_romaji {
            Some(t) => t@,
            None => "TITLE MISSING"@,
        },
    }
}

/// The resolved status: the field when present, else a fixed default.
pub open spec fn spec_status(raw: RawItem) -> Seq<char> {
    match raw.status {
        Some(s) => s@,
        None => "Unknown Status"@,
    }
}

/// The resolved season: an absent field is the unknown season, a present
/// token is mapped through the fixed table, and an unrecognized token yields
/// `None` (a fatal error).
pub open spec fn spec_season(raw: RawItem) -> Option<Season> {
    match raw.season {
        Some(t) => season_of_token(t@),
        None => Some(Season::Unknown),
    }
}

/// The resolved start-date year: zero when absent.
pub open spec fn spec_start_year(raw: RawItem) -> u32 {
    match raw.start_year {
        Some(y) => y as u32,
        None => 0,
    }
}

/// The resolved start-date month: zero when absent.
pub open spec fn spec_start_month(raw: RawItem) -> u32 {
    match raw.start_month {
        Some(m) => m as u32,
        None => 0,
    }
}

/// The resolved start-date day: zero when absent.
pub open spec fn spec_start_day(raw: RawItem) -> u32 {
    match raw.start_day {
        Some(d) => d as u32,
        None => 0,
    }
}

/// The resolved season year: the field when present, else the resolved
/// start-date year.
pub open spec fn spec_season_year(raw: RawItem) -> u32 {
    match raw.season_year {
        Some(y) => y as u32,
        None => spec_start_year(raw),
    }
}

/// The genre list of an item whose genres field is present and well-formed.
pub open spec fn spec_genres(raw: RawItem) -> Seq<Seq<char>> {
    Seq::new((raw.genres->0)@.len(), |j: int| ((raw.genres->0)@[j]->0)@)
}

/// The first fatal condition of one item, in the order the fields are
/// examined: the required integers, then the season token, then the genre
/// list and its entries. `None` means the item normalizes.
pub open spec fn spec_first_error(raw: RawItem) -> Option<NormalizeError> {
    if raw.id is None {
        Some(NormalizeError::MissingId)
    } else if raw.average_score is None {
        Some(NormalizeError::MissingScore)
    } else if raw.popularity is None {
        Some(NormalizeError::MissingPopularity)
    } else if raw.favourites is None {
        Some(NormalizeError::MissingFavourites)
    } else if spec_season(raw) is None {
        Some(NormalizeError::UnknownSeason)
    } else if raw.genres is None {
        Some(NormalizeError::MissingGenres)
    } else if exists|j: int| 0 <= j < (raw.genres->0)@.len() && (raw.genres->0)@[j] is None {
        Some(NormalizeError::BadGenre)
    } else {
        None
    }
}

/// The record `m` is the normalization of the raw item `raw`.
pub open spec fn record_matches(m: MediaQuery, raw: RawItem) -> bool {
    &&& m.title@ == spec_title(raw)
    &&& m.id == raw.id->0 as u32
    &&& m.start_date.year == spec_start_year(raw)
    &&& m.start_date.month == spec_start_month(raw)
    &&& m.start_date.day == spec_start_day(raw)
    &&& m.status@ == spec_status(raw)
    &&& m.score == raw.average_score->0 as u32
    &&& m.popularity == raw.popularity->0 as u32
    &&& m.favorites == raw.favourites->0 as u32
    &&& Some(m.season) == spec_season(raw)
    &&& m.season_year == spec_season_year(raw)
    &&& m.genres.deep_view() == spec_genres(raw)
}

/// Normalizes one raw item, or reports its first fatal condition.
pub fn normalize_item(raw: &RawItem) -> (r: Result<MediaQuery, NormalizeError>)
    ensures
        match r {
            Ok(m) => spec_first_error(*raw) is None && record_matches(m, *raw),
            Err(e) => spec_first_error(*raw) == Some(e),
        },
{
    let id64 = match raw.id {
        Some(v) => v,
        None => {
            return Err(NormalizeError::MissingId);
        },
    };
    let score64 = match raw.average_score {
        Some(v) => v,
        None => {
            return Err(NormalizeError::MissingScore);
        },
    };
    let popularity64 = match raw.popularity {
        Some(v) => v,
        None => {
            return Err(NormalizeError::MissingPopularity);
        },
    };
    let favourites64 = match raw.favourites {
        Some(v) => v,
        None => {
            return Err(NormalizeError::MissingFavourites);
        },
    };
    let season = match &raw.season {
        Some(t) => match Season::from_token(t.as_str()) {
            Some(s) => s,
            None => {
                return Err(NormalizeError::UnknownSeason);
            },
        },
        None => Season::Unknown,
    };
    let title = match &raw.title_english {
        Some(t) => t.clone(),
        None => match &raw.title_romaji {
            Some(t) => t.clone(),
            None => String::from_str("TITLE MISSING"),
        },
    };
    let status = match &raw.status {
        Some(s) => s.clone(),
        None => String::from_str("Unknown Status"),
    };
    let start_year = match raw.start_year {
        Some(y) => #[verifier::truncate] (y as u32),
        None => 0,
    };
    let start_month = match raw.start_month {
        Some(m) => #[verifier::truncate] (m as u32),
        None => 0,
    };
    let start_day = match raw.start_day {
        Some(d) => #[verifier::truncate] (d as u32),
        None => 0,
    };
    let start_date = Date::new(start_year, start_month, start_day);
    let season_year = match raw.season_year {
        Some(y) => #[verifier::truncate] (y as u32),
        None => start_date.get_year(),
    };
    let genres_raw = match &raw.genres {
        Some(g) => g,
        None => {
            return Err(NormalizeError::MissingGenres);
        },
    };
    let mut genres: Vec<String> = Vec::new();
    let mut i: usize = 0;
    #[verifier::loop_isolation(false)]
    while i < genres_raw.len()
        invariant
            i <= genres_raw@.len(),
            genres@.len() == i,
            raw.genres == Some(*genres_raw),
            forall|j: int| 0 <= j < i ==> genres_raw@[j] is Some,
            forall|j: int| 0 <= j < i ==> genres@[j]@ == (genres_raw@[j]->0)@,
        decreases genres_raw@.len() - i,
    {
        match &genres_raw[i] {
            Some(g) => genres.push(g.clone()),
            None => {
                proof {
                    assert((raw.genres->0)@[i as int] is None);
                }
                return Err(NormalizeError::BadGenre);
            },
        }
        i += 1;
    }
    let m = MediaQuery::new(
        title,
        #[verifier::truncate] (id64 as u32),
        start_date,
        status,
        genres,
        #[verifier::truncate] (score64 as u32),
        #[verifier::truncate] (popularity64 as u32),
        #[verifier::truncate] (favourites64 as u32),
        season,
        season_year,
    );
    proof {
        assert(m.genres.deep_view() =~= spec_genres(*raw));
    }
    Ok(m)
}

/// The first fatal condition over a whole page, scanned in input order.
pub open spec fn page_first_error(items: Seq<RawItem>) -> Option<NormalizeError>
    decreases items.len(),
{
    if items.len() == 0 {
        None
    } else if spec_first_error(items[0]) is Some {
        spec_first_error(items[0])
    } else {
        page_first_error(items.skip(1))
    }
}

/// Scanning a page whose first `i` items normalize starts at item `i`.
proof fn lemma_page_error_skip(items: Seq<RawItem>, i: int)
    requires
        0 <= i <= items.len(),
        forall|j: int| 0 <= j < i ==> spec_first_error(items[j]) is None,
    ensures
        page_first_error(items) == page_first_error(items.skip(i)),
    decreases i,
{
    if i == 0 {
        assert(items.skip(0) =~= items);
    } else {
        let rest = items.skip(1);
        assert forall|j: int| 0 <= j < i - 1 implies spec_first_error(rest[j]) is None by {
            assert(rest[j] == items[j + 1]);
        }
        lemma_page_error_skip(rest, i - 1);
        assert(rest.skip(i - 1) =~= items.skip(i));
    }
}

/// Normalizes a page of raw items in order, all-or-nothing: the result holds
/// one record per item, or the first fatal condition and no records.
pub fn normalize_page(items: &Vec<RawItem>) -> (r: Result<Vec<MediaQuery>, NormalizeError>)
    ensures
        match r {
            Ok(ms) => {
                &&& page_first_error(items@) is None
                &&& ms@.len() == items@.len()
                &&& forall|i: int| 0 <= i < items@.len() ==> record_matches(ms@[i], items@[i])
            },
            Err(e) => page_first_error(items@) == Some(e),
        },
{
    let mut out: Vec<MediaQuery> = Vec::new();
    let mut i: usize = 0;
    while i < items.len()
        invariant
            i <= items@.len(),
            out@.len() == i,
            forall|j: int| 0 <= j < i ==> spec_first_error(items@[j]) is None,
            forall|j: int| 0 <= j < i ==> record_matches(out@[j], items@[j]),
        decreases items@.len() - i,
    {
        match normalize_item(&items[i]) {
            Ok(m) => out.push(m),
            Err(e) => {
                proof {
                    lemma_page_error_skip(items@, i as int);
                    assert(items@.skip(i as int)[0] == items@[i as int]);
                }
                return Err(e);
            },
        }
        i += 1;
    }
    proof {
        lemma_page_error_skip(items@, items@.len() as int);
        assert(items@.skip(items@.len() as int) =~= Seq::<RawItem>::empty());
    }
    Ok(out)
}

/// A missing id anywhere in a page is fatal for the whole pass: the scan
/// reports an error, so no record list is produced.
pub proof fn lemma_missing_id_fatal(items: Seq<RawItem>, i: int)
    requires
        0 <= i < items.len(),
        items[i].id is None,
    ensures
        page_first_error(items) is Some,
    decreases i,
{
    if spec_first_error(items[0]) is None {
        assert(i != 0);
        assert(items.skip(1)[i - 1] == items[i]);
        lemma_missing_id_fatal(items.skip(1), i - 1);
    }
}

} // verus!
