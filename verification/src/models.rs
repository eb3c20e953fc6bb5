//! The records of the collection and the bodies that create and change them.

use vstd::prelude::*;
use chrono::NaiveDate;
use chrono::NaiveDateTime;
use crate::number::Double;

verus! {

/// `chrono::NaiveDate`: a calendar date, carried through as it came.
#[verifier::external_type_specification]
#[verifier::external_body]
pub struct ExNaiveDate(NaiveDate);

/// `chrono::NaiveDateTime`: a date and time of day, carried through as it came.
#[verifier::external_type_specification]
#[verifier::external_body]
pub struct ExNaiveDateTime(NaiveDateTime);

/// A comic as the record store holds it.
#[derive(Debug, PartialEq)]
pub struct Comic {
    pub id: i32,
    pub username: String,
    pub title: String,
    pub issue_number: String,
    pub main_character: String,
    pub genre: String,
    pub cover_year: NaiveDate,
    pub publisher: String,
    pub grade: Double,
    pub price: Double,
    pub image_url: String,
    pub created_at: NaiveDateTime,
    pub updated_at: NaiveDateTime,
}

/// A comic about to be inserted: everything but what the store assigns.
#[derive(Debug, PartialEq)]
pub struct NewComic {
    pub username: String,
    pub title: String,
    pub issue_number: String,
    pub main_character: String,
    pub genre: String,
    pub cover_year: NaiveDate,
    pub publisher: String,
    pub grade: Double,
    pub price: Double,
    pub image_url: String,
}

/// The body of a full replacement: every field that a client may change.
#[derive(Debug, PartialEq)]
pub struct ReplaceComic {
    pub title: String,
    pub issue_number: String,
    pub main_character: String,
    pub genre: String,
    pub cover_year: NaiveDate,
    pub publisher: String,
    pub grade: Double,
    pub price: Double,
    pub image_url: String,
}

/// The body of a partial update: the fields to change, the others left out.
#[derive(Debug, PartialEq)]
pub struct UpdateComic {
    pub title: Option<String>,
    pub issue_number: Option<String>,
    pub main_character: Option<String>,
    pub genre: Option<String>,
    pub cover_year: Option<NaiveDate>,
    pub publisher: Option<String>,
    pub grade: Option<Double>,
    pub price: Option<Double>,
    pub image_url: Option<String>,
}

/// The body of a create request. It names an owner, which is not believed:
/// the owner of a new record is whoever sent the request.
#[derive(Debug, PartialEq)]
pub struct NewComicRequest {
    pub username: String,
    pub title: String,
    pub issue_number: String,
    pub main_character: String,
    pub genre: String,
    pub cover_year: NaiveDate,
    pub publisher: String,
    pub grade: Double,
    pub price: Double,
    pub image_url: String,
}

impl NewComicRequest {
    /// The record to insert when `username` sends this body.
    pub open spec fn owned_by(self, username: String) -> NewComic {
        NewComic {
            username,
            title: self.title,
            issue_number: self.issue_number,
            main_character: self.main_character,
            genre: self.genre,
            cover_year: self.cover_year,
            publisher: self.publisher,
            grade: self.grade,
            price: self.price,
            image_url: self.image_url,
        }
    }

    /// Makes the record to insert: the body's fields, owned by `username`
    /// whatever owner the body names.
    pub fn for_user(self, username: String) -> (new: NewComic)
        ensures
            new == self.owned_by(username),
            new.username == username,
    {
        NewComic {
            username,
            title: self.title,
            issue_number: self.issue_number,
            main_character: self.main_character,
            genre: self.genre,
            cover_year: self.cover_year,
            publisher: self.publisher,
            grade: self.grade,
            price: self.price,
            image_url: self.image_url,
        }
    }
}

impl NewComic {
    /// The record that the store holds once it has given this comic the
    /// identifier `id` at the time `at`.
    pub open spec fn stored(self, id: i32, at: NaiveDateTime) -> Comic {
        Comic {
            id,
            username: self.username,
            title: self.title,
            issue_number: self.issue_number,
            main_character: self.main_character,
            genre: self.genre,
            cover_year: self.cover_year,
            publisher: self.publisher,
            grade: self.grade,
            price: self.price,
            image_url: self.image_url,
            created_at: at,
            updated_at: at,
        }
    }

    /// Computes [`NewComic::stored`].
    pub fn into_record(self, id: i32, at: NaiveDateTime) -> (record: Comic)
        ensures
            record == self.stored(id, at),
    {
        Comic {
            id,
            username: self.username,
            title: self.title,
            issue_number: self.issue_number,
            main_character: self.main_character,
            genre: self.genre,
            cover_year: self.cover_year,
            publisher: self.publisher,
            grade: self.grade,
            price: self.price,
            image_url: self.image_url,
            created_at: at,
            updated_at: at,
        }
    }
}

impl UpdateComic {
    /// Whether the body changes nothing: every field is left out.
    pub open spec fn changes_nothing(self) -> bool {
        &&& self.title is None
        &&& self.issue_number is None
        &&& self.main_character is None
        &&& self.genre is None
        &&& self.cover_year is None
        &&& self.publisher is None
        &&& self.grade is None
        &&& self.price is None
        &&& self.image_url is None
    }

    /// Computes [`UpdateComic::changes_nothing`].
    pub fn is_empty(&self) -> (empty: bool)
        ensures
            empty == self.changes_nothing(),
    {
        self.title.is_none() && self.issue_number.is_none() && self.main_character.is_none()
            && self.genre.is_none() && self.cover_year.is_none() && self.publisher.is_none()
            && self.grade.is_none() && self.price.is_none() && self.image_url.is_none()
    }
}

/// The field after a partial update: the new value where one was given.
pub open spec fn changed_or_kept<T>(change: Option<T>, kept: T) -> T {
    match change {
        Some(value) => value,
        None => kept,
    }
}

/// Computes [`changed_or_kept`].
pub fn pick<T>(change: Option<T>, kept: T) -> (field: T)
    ensures
        field == changed_or_kept(change, kept),
{
    match change {
        Some(value) => value,
        None => kept,
    }
}

impl Comic {
    /// The record after a full replacement written at the time `at`: every
    /// changeable field comes from `data`; identifier, owner and time of
    /// creation stay.
    pub open spec fn replaced(self, data: ReplaceComic, at: NaiveDateTime) -> Comic {
        Comic {
            id: self.id,
            username: self.username,
            title: data.title,
            issue_number: data.issue_number,
            main_character: data.main_character,
            genre: data.genre,
            cover_year: data.cover_year,
            publisher: data.publisher,
            grade: data.grade,
            price: data.price,
            image_url: data.image_url,
            created_at: self.created_at,
            updated_at: at,
        }
    }

    /// The record after a partial update written at the time `at`: each field
    /// that `data` names comes from it, the others stay.
    pub open spec fn patched(self, data: UpdateComic, at: NaiveDateTime) -> Comic {
        Comic {
            id: self.id,
            username: self.username,
            title: changed_or_kept(data.title, self.title),
            issue_number: changed_or_kept(data.issue_number, self.issue_number),
            main_character: changed_or_kept(data.main_character, self.main_character),
            genre: changed_or_kept(data.genre, self.genre),
            cover_year: changed_or_kept(data.cover_year, self.cover_year),
            publisher: changed_or_kept(data.publisher, self.publisher),
            grade: changed_or_kept(data.grade, self.grade),
            price: changed_or_kept(data.price, self.price),
            image_url: changed_or_kept(data.image_url, self.image_url),
            created_at: self.created_at,
            updated_at: at,
        }
    }

    /// Whether two records differ in nothing but the time of the last write.
    pub open spec fn same_but_for_update_time(self, other: Comic) -> bool {
        other == (Comic { updated_at: other.updated_at, ..self })
    }

    /// Computes [`Comic::replaced`].
    pub fn replace_with(self, data: ReplaceComic, at: NaiveDateTime) -> (record: Comic)
        ensures
            record == self.replaced(data, at),
    {
        Comic {
            id: self.id,
            username: self.username,
            title: data.title,
            issue_number: data.issue_number,
            main_character: data.main_character,
            genre: data.genre,
            cover_year: data.cover_year,
            publisher: data.publisher,
            grade: data.grade,
            price: data.price,
            image_url: data.image_url,
            created_at: self.created_at,
            updated_at: at,
        }
    }

    /// Computes [`Comic::patched`].
    pub fn patch_with(self, data: UpdateComic, at: NaiveDateTime) -> (record: Comic)
        ensures
            record == self.patched(data, at),
    {
        Comic {
            id: self.id,
            username: self.username,
            title: pick(data.title, self.title),
            issue_number: pick(data.issue_number, self.issue_number),
            main_character: pick(data.main_character, self.main_character),
            genre: pick(data.genre, self.genre),
            cover_year: pick(data.cover_year, self.cover_year),
            publisher: pick(data.publisher, self.publisher),
            grade: pick(data.grade, self.grade),
            price: pick(data.price, self.price),
            image_url: pick(data.image_url, self.image_url),
            created_at: self.created_at,
            updated_at: at,
        }
    }

    /// A copy of the record.
    pub fn duplicate(&self) -> (copy: Comic)
        ensures
            copy == *self,
    {
        Comic {
            id: self.id,
            username: self.username.clone(),
            title: self.title.clone(),
            issue_number: self.issue_number.clone(),
            main_character: self.main_character.clone(),
            genre: self.genre.clone(),
            cover_year: self.cover_year,
            publisher: self.publisher.clone(),
            grade: self.grade,
            price: self.price,
            image_url: self.image_url.clone(),
            created_at: self.created_at,
            updated_at: self.updated_at,
        }
    }
}

} // verus!
