//! A movie of the movie dataset.
use crate::decode::{
    decimal_field, field_count_fault, flag_value, i32_field, i64_field, optional_text,
    parse_bool_from_string, read_decimal_field, read_i32_field, read_i64_field,
    read_optional_text, DecodeError, DecodeReason, Record,
};
use vstd::prelude::*;

verus! {

/// One movie row, in the column order of its source file. Its identity is
/// `id`, which the load keeps unique (first occurrence wins).
#[derive(Clone, Debug)]
pub struct Movie {
    pub id: i32,
    pub title: String,
    /// The mean vote, as its decimal text.
    pub vote_average: String,
    pub vote_count: i32,
    pub status: String,
    pub release_date: String,
    pub revenue: i64,
    pub runtime: i32,
    /// Read leniently: see `flag_value`.
    pub adult: bool,
    pub backdrop_path: String,
    pub budget: i64,
    /// Absent when the field is empty.
    pub homepage: Option<String>,
    pub imdb_id: String,
    pub original_language: String,
    pub original_title: String,
    pub overview: String,
    /// The popularity score, as its decimal text.
    pub popularity: String,
    pub poster_path: String,
    /// Absent when the field is empty.
    pub tagline: Option<String>,
    pub genres: String,
    pub production_companies: String,
    pub production_countries: String,
    pub spoken_languages: String,
    pub keywords: String,
}

impl Movie {
    /// The multi-row insert statement for movies, with one positional
    /// placeholder per column, in column order.
    pub fn batch_insert_statement() -> (r: String)
        ensures
            r@ == "INSERT INTO TMDB_movie_dataset (id, title, vote_average, vote_count, status, release_date, revenue, runtime, adult, backdrop_path, budget, homepage, imdb_id, original_language, original_title, overview, popularity, poster_path, tagline, genres, production_companies, production_countries, spoken_languages, keywords) VALUES (:1, :2, :3, :4, :5, TO_DATE(:6, 'YYYY-MM-DD'), :7, :8, :9, :10, :11, :12, :13, :14, :15, :16, :17, :18, :19, :20, :21, :22, :23, :24)"@,
    {
        String::from_str("INSERT INTO TMDB_movie_dataset (id, title, vote_average, vote_count, status, release_date, revenue, runtime, adult, backdrop_path, budget, homepage, imdb_id, original_language, original_title, overview, popularity, poster_path, tagline, genres, production_companies, production_countries, spoken_languages, keywords) VALUES (:1, :2, :3, :4, :5, TO_DATE(:6, 'YYYY-MM-DD'), :7, :8, :9, :10, :11, :12, :13, :14, :15, :16, :17, :18, :19, :20, :21, :22, :23, :24)")
    }
}

impl Record for Movie {
    open spec fn decoded(f: Seq<String>) -> Result<Movie, (usize, DecodeReason)> {
        if f.len() != 24 {
            Err(field_count_fault(24, f.len()))
        } else if i32_field(f[0]@) is Err {
            Err((0usize, i32_field(f[0]@)->Err_0))
        } else if decimal_field(f[2]@) is Err {
            Err((2usize, decimal_field(f[2]@)->Err_0))
        } else if i32_field(f[3]@) is Err {
            Err((3usize, i32_field(f[3]@)->Err_0))
        } else if i64_field(f[6]@) is Err {
            Err((6usize, i64_field(f[6]@)->Err_0))
        } else if i32_field(f[7]@) is Err {
            Err((7usize, i32_field(f[7]@)->Err_0))
        } else if i64_field(f[10]@) is Err {
            Err((10usize, i64_field(f[10]@)->Err_0))
        } else if decimal_field(f[16]@) is Err {
            Err((16usize, decimal_field(f[16]@)->Err_0))
        } else {
            Ok(Movie {
                id: i32_field(f[0]@)->Ok_0,
                title: f[1],
                vote_average: f[2],
                vote_count: i32_field(f[3]@)->Ok_0,
                status: f[4],
                release_date: f[5],
                revenue: i64_field(f[6]@)->Ok_0,
                runtime: i32_field(f[7]@)->Ok_0,
                adult: flag_value(f[8]@),
                backdrop_path: f[9],
                budget: i64_field(f[10]@)->Ok_0,
                homepage: optional_text(f[11]),
                imdb_id: f[12],
                original_language: f[13],
                original_title: f[14],
                overview: f[15],
                popularity: f[16],
                poster_path: f[17],
                tagline: optional_text(f[18]),
                genres: f[19],
                production_companies: f[20],
                production_countries: f[21],
                spoken_languages: f[22],
                keywords: f[23],
            })
        }
    }

    fn decode(row: usize, fields: &Vec<String>) -> (r: Result<Movie, DecodeError>) {
        if fields.len() != 24 {
            return Err(
                DecodeError {
                    row,
                    column: 0,
                    reason: DecodeReason::WrongFieldCount { expected: 24, found: fields.len() },
                },
            );
        }
        let id = match read_i32_field(&fields[0]) {
            Ok(v) => v,
            Err(reason) => return Err(DecodeError { row, column: 0, reason }),
        };
        let vote_average = match read_decimal_field(&fields[2]) {
            Ok(v) => v,
            Err(reason) => return Err(DecodeError { row, column: 2, reason }),
        };
        let vote_count = match read_i32_field(&fields[3]) {
            Ok(v) => v,
            Err(reason) => return Err(DecodeError { row, column: 3, reason }),
        };
        let revenue = match read_i64_field(&fields[6]) {
            Ok(v) => v,
            Err(reason) => return Err(DecodeError { row, column: 6, reason }),
        };
        let runtime = match read_i32_field(&fields[7]) {
            Ok(v) => v,
            Err(reason) => return Err(DecodeError { row, column: 7, reason }),
        };
        let budget = match read_i64_field(&fields[10]) {
            Ok(v) => v,
            Err(reason) => return Err(DecodeError { row, column: 10, reason }),
        };
        let popularity = match read_decimal_field(&fields[16]) {
            Ok(v) => v,
            Err(reason) => return Err(DecodeError { row, column: 16, reason }),
        };
        Ok(Movie {
            id,
            title: fields[1].clone(),
            vote_average,
            vote_count,
            status: fields[4].clone(),
            release_date: fields[5].clone(),
            revenue,
            runtime,
            adult: parse_bool_from_string(fields[8].as_str()),
            backdrop_path: fields[9].clone(),
            budget,
            homepage: read_optional_text(&fields[11]),
            imdb_id: fields[12].clone(),
            original_language: fields[13].clone(),
            original_title: fields[14].clone(),
            overview: fields[15].clone(),
            popularity,
            poster_path: fields[17].clone(),
            tagline: read_optional_text(&fields[18]),
            genres: fields[19].clone(),
            production_companies: fields[20].clone(),
            production_countries: fields[21].clone(),
            spoken_languages: fields[22].clone(),
            keywords: fields[23].clone(),
        })
    }
}

} // verus!
