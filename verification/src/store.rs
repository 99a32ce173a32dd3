//! The data the relational store hands the dialogue core, as plain values,
//! and the shapes of the queries the core asks of it.
//!
//! The store itself (connection, SQL, transactions) lives outside the
//! library; the conversation handlers describe which query they need through
//! the descriptor enums here, and the caller hands the rows back as the
//! types below.

use vstd::prelude::*;
use crate::dates::{Date, Time};
use crate::numbers::{dec_int, i32_to_string};

verus! {

/// Full detail of one movie, fetched when the user selects it.
#[derive(Debug, PartialEq, Default)]
pub struct Movie {
    pub title: String,
    pub year: Option<i32>,
    pub genre: Option<String>,
    pub director: Option<String>,
    pub description: Option<String>,
    pub href_moskino: Option<String>,
    pub href_kinopoisk: Option<String>,
    pub country: Option<String>,
    pub duration: Option<i32>,
    pub age: Option<i32>,
    pub tagline: Option<String>,
}

/// One row of the paginated movie list.
#[derive(Debug, Clone)]
pub struct MovieShort {
    pub id: i32,
    pub title: String,
}

/// A cinema the user can browse by.
#[derive(Debug, Clone)]
pub struct Cinema {
    pub id: i32,
    pub name: String,
}

/// One showing of a movie.
#[derive(Debug, Clone)]
pub struct Session {
    pub cinema_name: String,
    pub showtime: Time,
    pub showdate: Date,
    pub price: i32,
}

/// A failed store query; the cause stays with the store adapter.
#[derive(Debug, Clone, Copy, PartialEq, Eq, Structural)]
pub struct DbError;

/// Which "how many movies" query a render needs.
#[derive(Debug, Clone, Copy, PartialEq, Eq, Structural)]
pub enum CountQuery {
    AllMovies { date: Date },
    ByCinema { date: Date, cinema_id: i32 },
}

/// Which "one page of movies" query a render needs.
#[derive(Debug, Clone, Copy, PartialEq, Eq, Structural)]
pub enum PageQuery {
    AllMovies { date: Date, page: i64, per_page: i64 },
    ByCinema { date: Date, cinema_id: i32, page: i64, per_page: i64 },
}

/// Which "sessions of the selected movie" query an acknowledgement needs.
#[derive(Debug, Clone, Copy, PartialEq, Eq, Structural)]
pub enum SessionsQuery {
    AllMovies { movie_id: i32, date: Date },
    ByCinema { movie_id: i32, cinema_id: i32, date: Date },
}

/// The detail text of a movie: the title, then one line per present
/// optional field, absent fields leaving no empty line behind.
pub open spec fn description_spec(m: &Movie) -> Seq<char> {
    m.title@ + (match m.year {
        Some(y) => "\n\nГод: "@ + dec_int(y as int),
        None => Seq::<char>::empty(),
    }) + (match m.genre {
        Some(g) => "\nЖанр: "@ + g@,
        None => Seq::<char>::empty(),
    }) + (match m.director {
        Some(d) => "\nРежиссер: "@ + d@,
        None => Seq::<char>::empty(),
    }) + "\n"@ + (match m.description {
        Some(t) => "\n"@ + t@,
        None => Seq::<char>::empty(),
    }) + "\n"@
}

impl Movie {
    /// Composes the display text of the pinned detail panel.
    pub fn description(&self) -> (r: String)
        ensures
            r@ == description_spec(self),
    {
        let mut s = self.title.clone();
        match self.year {
            Some(y) => {
                s.append("\n\nГод: ");
                s.append(i32_to_string(y).as_str());
            },
            None => {},
        }
        match self.genre {
            Some(ref g) => {
                s.append("\nЖанр: ");
                s.append(g.as_str());
            },
            None => {},
        }
        match self.director {
            Some(ref d) => {
                s.append("\nРежиссер: ");
                s.append(d.as_str());
            },
            None => {},
        }
        s.append("\n");
        match self.description {
            Some(ref t) => {
                s.append("\n");
                s.append(t.as_str());
            },
            None => {},
        }
        s.append("\n");
        proof {
            assert(s@ =~= description_spec(self));
        }
        s
    }
}

impl Cinema {
    pub fn new(id: i32, name: String) -> (r: Self)
        ensures
            r == (Cinema { id, name }),
    {
        Self { id, name }
    }
}

} // verus!
