//! Shapes of request input: the pagination query, the path parameter and the
//! bodies of create and update.

use crate::error::ValidationError;
use crate::ident::{parse_uuid, parsed_uuid};
use vstd::prelude::*;

verus! {

/// Page taken when a list request names none.
pub const DEFAULT_PAGE: usize = 1;

/// Number of rows per page when a list request names none.
pub const DEFAULT_LIMIT: usize = 10;

/// Pagination query of a list request. `page` counts from 1.
#[derive(Debug, PartialEq, Eq)]
pub struct FilterOptions {
    pub page: Option<usize>,
    pub limit: Option<usize>,
}

impl FilterOptions {
    /// The page that is listed: the one asked for, 1 when none or page 0 is
    /// asked for.
    pub open spec fn page_number(self) -> int {
        match self.page {
            Some(p) => if p >= 1 { p as int } else { DEFAULT_PAGE as int },
            None => DEFAULT_PAGE as int,
        }
    }

    /// The number of rows per page: the one asked for, 10 when none is.
    pub open spec fn page_size(self) -> int {
        match self.limit {
            Some(l) => l as int,
            None => DEFAULT_LIMIT as int,
        }
    }

    /// The page to list, never below 1.
    pub fn effective_page(&self) -> (page: usize)
        ensures
            page == self.page_number(),
            page >= 1,
    {
        match self.page {
            Some(p) => if p >= 1 { p } else { DEFAULT_PAGE },
            None => DEFAULT_PAGE,
        }
    }

    /// The number of rows per page.
    pub fn effective_limit(&self) -> (limit: usize)
        ensures
            limit == self.page_size(),
    {
        match self.limit {
            Some(l) => l,
            None => DEFAULT_LIMIT,
        }
    }
}

impl Default for FilterOptions {
    fn default() -> (options: Self)
        ensures
            options.page is None,
            options.limit is None,
    {
        FilterOptions { page: None, limit: None }
    }
}

/// Path parameter of the single-game routes, as the router hands it over.
#[derive(Debug, PartialEq, Eq)]
pub struct ParamOptions {
    pub id: String,
}

/// The identifier that a path parameter stands for, given what parsing it as
/// a UUID gave: that UUID's value, or `MalformedId` where there is none.
pub open spec fn accepted_id(parsed: Option<u128>) -> Result<u128, ValidationError> {
    match parsed {
        Some(id) => Ok(id),
        None => Err(ValidationError::MalformedId),
    }
}

/// Accepts a path parameter that parsed as a UUID and rejects one that did
/// not.
pub fn accept_id(parsed: Option<u128>) -> (result: Result<u128, ValidationError>)
    ensures
        result == accepted_id(parsed),
{
    match parsed {
        Some(id) => Ok(id),
        None => Err(ValidationError::MalformedId),
    }
}

impl ParamOptions {
    /// The identifier that the path parameter names, or `MalformedId` where
    /// its text is not that of a UUID.
    pub fn game_id(&self) -> (result: Result<u128, ValidationError>)
        ensures
            result == accepted_id(parsed_uuid(self.id@)),
    {
        accept_id(parse_uuid(self.id.as_str()))
    }
}

/// Body of a create request. All three fields are required.
#[derive(Debug, PartialEq, Eq)]
pub struct CreateGameSchema {
    pub field_name: String,
    pub address: String,
    pub day: String,
}

/// What a create request carries, as sequences of characters.
pub struct CreateGameView {
    pub field_name: Seq<char>,
    pub address: Seq<char>,
    pub day: Seq<char>,
}

impl View for CreateGameSchema {
    type V = CreateGameView;

    open spec fn view(&self) -> CreateGameView {
        CreateGameView { field_name: self.field_name@, address: self.address@, day: self.day@ }
    }
}

/// A create body as it arrives, each field present or not.
#[derive(Debug, PartialEq, Eq)]
pub struct CreateGameFields {
    pub field_name: Option<String>,
    pub address: Option<String>,
    pub day: Option<String>,
}

/// The fields of an arriving create body, as sequences of characters.
pub struct CreateGameFieldsView {
    pub field_name: Option<Seq<char>>,
    pub address: Option<Seq<char>>,
    pub day: Option<Seq<char>>,
}

impl View for CreateGameFields {
    type V = CreateGameFieldsView;

    open spec fn view(&self) -> CreateGameFieldsView {
        CreateGameFieldsView {
            field_name: optional_text(self.field_name),
            address: optional_text(self.address),
            day: optional_text(self.day),
        }
    }
}

/// The create body that three optional fields make up, or the first field
/// that is missing, in the order `field_name`, `address`, `day`.
pub open spec fn required_fields(
    field_name: Option<Seq<char>>,
    address: Option<Seq<char>>,
    day: Option<Seq<char>>,
) -> Result<CreateGameView, ValidationError> {
    match (field_name, address, day) {
        (None, _, _) => Err(ValidationError::MissingFieldName),
        (Some(_), None, _) => Err(ValidationError::MissingAddress),
        (Some(_), Some(_), None) => Err(ValidationError::MissingDay),
        (Some(field_name), Some(address), Some(day)) => Ok(
            CreateGameView { field_name, address, day },
        ),
    }
}

/// What `from_parts` returned, as a mathematical value.
pub open spec fn create_result_view(result: Result<CreateGameSchema, ValidationError>) -> Result<
    CreateGameView,
    ValidationError,
> {
    match result {
        Ok(body) => Ok(body@),
        Err(reason) => Err(reason),
    }
}

impl CreateGameSchema {
    /// Builds a create body from the fields that a request carried. All three
    /// are required; the first one missing is reported.
    pub fn from_parts(
        field_name: Option<String>,
        address: Option<String>,
        day: Option<String>,
    ) -> (result: Result<CreateGameSchema, ValidationError>)
        ensures
            create_result_view(result) == required_fields(
                optional_text(field_name),
                optional_text(address),
                optional_text(day),
            ),
    {
        let field_name = match field_name {
            Some(value) => value,
            None => { return Err(ValidationError::MissingFieldName); },
        };
        let address = match address {
            Some(value) => value,
            None => { return Err(ValidationError::MissingAddress); },
        };
        let day = match day {
            Some(value) => value,
            None => { return Err(ValidationError::MissingDay); },
        };
        Ok(CreateGameSchema { field_name, address, day })
    }
}

/// Body of an update request. A field that is absent keeps its stored value.
#[derive(Debug, PartialEq, Eq)]
pub struct UpdateGameSchema {
    pub field_name: Option<String>,
    pub address: Option<String>,
    pub day: Option<String>,
}

/// What an update request carries, as sequences of characters.
pub struct UpdateGameView {
    pub field_name: Option<Seq<char>>,
    pub address: Option<Seq<char>>,
    pub day: Option<Seq<char>>,
}

/// The characters of an optional string.
pub open spec fn optional_text(value: Option<String>) -> Option<Seq<char>> {
    match value {
        Some(s) => Some(s@),
        None => None,
    }
}

impl View for UpdateGameSchema {
    type V = UpdateGameView;

    open spec fn view(&self) -> UpdateGameView {
        UpdateGameView {
            field_name: optional_text(self.field_name),
            address: optional_text(self.address),
            day: optional_text(self.day),
        }
    }
}

} // verus!
