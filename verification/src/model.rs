//! The document model: a profile with nested contact and location records.
//!
//! Every field's optionality is part of its type. An optional field that is
//! absent is `None`; one that is present but empty is `Some` of the empty
//! string. The two are never merged.

use vstd::prelude::*;

verus! {

/// The mathematical value of an optional text field.
pub open spec fn optional_text(field: Option<String>) -> Option<Seq<char>> {
    match field {
        Some(text) => Some(text@),
        None => None,
    }
}

/// Where a person lives. Only the country code is required.
#[derive(Clone, Debug, PartialEq, Eq)]
pub struct Location {
    pub address: Option<String>,
    pub postal_code: Option<String>,
    pub city: Option<String>,
    pub region: Option<String>,
    pub country_code: String,
}

/// The mathematical value of a [`Location`].
pub struct LocationView {
    pub address: Option<Seq<char>>,
    pub postal_code: Option<Seq<char>>,
    pub city: Option<Seq<char>>,
    pub region: Option<Seq<char>>,
    pub country_code: Seq<char>,
}

impl View for Location {
    type V = LocationView;

    open spec fn view(&self) -> LocationView {
        LocationView {
            address: optional_text(self.address),
            postal_code: optional_text(self.postal_code),
            city: optional_text(self.city),
            region: optional_text(self.region),
            country_code: self.country_code@,
        }
    }
}

/// The basic facts about a person. Every field is required.
#[derive(Clone, Debug, PartialEq, Eq)]
pub struct Basics {
    pub name: String,
    pub label: String,
    pub image_url: String,
    pub email: String,
    pub phone: String,
    pub contact_url: String,
    pub summary: String,
    pub location: Location,
}

/// The mathematical value of a [`Basics`].
pub struct BasicsView {
    pub name: Seq<char>,
    pub label: Seq<char>,
    pub image_url: Seq<char>,
    pub email: Seq<char>,
    pub phone: Seq<char>,
    pub contact_url: Seq<char>,
    pub summary: Seq<char>,
    pub location: LocationView,
}

impl View for Basics {
    type V = BasicsView;

    open spec fn view(&self) -> BasicsView {
        BasicsView {
            name: self.name@,
            label: self.label@,
            image_url: self.image_url@,
            email: self.email@,
            phone: self.phone@,
            contact_url: self.contact_url@,
            summary: self.summary@,
            location: self.location@,
        }
    }
}

/// The root of a profile document.
#[derive(Clone, Debug, PartialEq, Eq)]
pub struct Profile {
    pub schema_id: String,
    pub basics: Basics,
}

/// The mathematical value of a [`Profile`].
pub struct ProfileView {
    pub schema_id: Seq<char>,
    pub basics: BasicsView,
}

impl View for Profile {
    type V = ProfileView;

    open spec fn view(&self) -> ProfileView {
        ProfileView { schema_id: self.schema_id@, basics: self.basics@ }
    }
}

} // verus!
