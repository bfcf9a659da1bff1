//! The normalized media record and its flat row form for tabular output.

use vstd::prelude::*;

use crate::date::Date;
use crate::season::{season_name_chars, Season};
use crate::text::{dec_chars, u32_string};

verus! {

/// A fully-defined media record, produced by normalization and consumed by
/// the tabular writer through [`MediaQuery::to_row`].
#[derive(Debug)]
pub struct MediaQuery {
    pub id: u32,
    pub start_date: Date,
    pub status: String,
    pub genres: Vec<String>,
    pub season: Season,
    pub score: u32,
    pub title: String,
    pub popularity: u32,
    pub favorites: u32,
    pub season_year: u32,
}

/// The display form of the first `i` genres: each genre followed by a
/// comma-space separator unless it is the last of the whole list.
pub open spec fn genres_prefix_chars(gs: Seq<Seq<char>>, i: int) -> Seq<char>
    decreases i,
{
    if i <= 0 {
        Seq::empty()
    } else {
        genres_prefix_chars(gs, i - 1) + gs[i - 1] + (if i < gs.len() {
            ", "@
        } else {
            Seq::<char>::empty()
        })
    }
}

/// The display form of a genre list: the genres joined by comma-space,
/// between `"Genres: [ "` and `" ]"`.
pub open spec fn genres_display_chars(gs: Seq<Seq<char>>) -> Seq<char> {
    "Genres: [ "@ + genres_prefix_chars(gs, gs.len() as int) + " ]"@
}

/// Renders a genre list as its single display string.
pub fn genres_display(gs: &Vec<String>) -> (r: String)
    ensures
        r@ == genres_display_chars(gs.deep_view()),
{
    let mut s = String::from_str("Genres: [ ");
    let n = gs.len();
    let mut i: usize = 0;
    while i < n
        invariant
            i <= n,
            n == gs.len(),
            s@ == "Genres: [ "@ + genres_prefix_chars(gs.deep_view(), i as int),
        decreases n - i,
    {
        s.append(gs[i].as_str());
        if i != n - 1 {
            s.append(", ");
        }
        i += 1;
        proof {
            assert(s@ =~= "Genres: [ "@ + genres_prefix_chars(gs.deep_view(), i as int));
        }
    }
    s.append(" ]");
    proof {
        assert(s@ =~= genres_display_chars(gs.deep_view()));
    }
    s
}

impl MediaQuery {
    pub fn new(
        title: String,
        id: u32,
        start_date: Date,
        status: String,
        genres: Vec<String>,
        score: u32,
        popularity: u32,
        favorites: u32,
        season: Season,
        season_year: u32,
    ) -> (r: Self)
        ensures
            r.title == title,
            r.id == id,
            r.start_date == start_date,
            r.status == status,
            r.genres == genres,
            r.score == score,
            r.popularity == popularity,
            r.favorites == favorites,
            r.season == season,
            r.season_year == season_year,
    {
        Self {
            id,
            start_date,
            status,
            genres,
            season,
            score,
            title,
            popularity,
            favorites,
            season_year,
        }
    }

    /// The flat ordered field-set of this record for tabular output: title,
    /// id, canonical start date, status, score, popularity, favorites, season
    /// name, season year, and the genre display string.
    pub fn to_row(&self) -> (r: Vec<String>)
        ensures
            r@.len() == 10,
            r@[0]@ == self.title@,
            r@[1]@ == dec_chars(self.id as nat),
            r@[2]@ == self.start_date.canonical(),
            r@[3]@ == self.status@,
            r@[4]@ == dec_chars(self.score as nat),
            r@[5]@ == dec_chars(self.popularity as nat),
            r@[6]@ == dec_chars(self.favorites as nat),
            r@[7]@ == season_name_chars(self.season),
            r@[8]@ == dec_chars(self.season_year as nat),
            r@[9]@ == genres_display_chars(self.genres.deep_view()),
    {
        let mut r: Vec<String> = Vec::new();
        r.push(self.title.clone());
        r.push(u32_string(self.id));
        r.push(self.start_date.as_fuzzy());
        r.push(self.status.clone());
        r.push(u32_string(self.score));
        r.push(u32_string(self.popularity));
        r.push(u32_string(self.favorites));
        r.push(self.season.name());
        r.push(u32_string(self.season_year));
        r.push(genres_display(&self.genres));
        r
    }

    /// The fixed header row matching the field order of [`MediaQuery::to_row`].
    pub fn header_row() -> (r: Vec<String>)
        ensures
            r@.len() == 10,
            r@[0]@ == "title"@,
            r@[1]@ == "id"@,
            r@[2]@ == "startDate"@,
            r@[3]@ == "status"@,
            r@[4]@ == "averageScore"@,
            r@[5]@ == "popularity"@,
            r@[6]@ == "favorites"@,
            r@[7]@ == "season"@,
            r@[8]@ == "seasonYear"@,
            r@[9]@ == "genres"@,
    {
        let mut r: Vec<String> = Vec::new();
        r.push(String::from_str("title"));
        r.push(String::from_str("id"));
        r.push(String::from_str("startDate"));
        r.push(String::from_str("status"));
        r.push(String::from_str("averageScore"));
        r.push(String::from_str("popularity"));
        r.push(String::from_str("favorites"));
        r.push(String::from_str("season"));
        r.push(String::from_str("seasonYear"));
        r.push(String::from_str("genres"));
        r
    }
}

} // verus!
