//! Data shapes exchanged with the upstream service and with local callers.
//!
//! Each executable type has a view made of sequences and plain values, so
//! that contracts can speak of the data mathematically.

use vstd::prelude::*;

verus! {

/// Body of a successful sign-in exchange: the bearer token.
#[derive(Debug)]
pub struct SignInResponse {
    pub token: String,
}

impl View for SignInResponse {
    type V = Seq<char>;

    open spec fn view(&self) -> Seq<char> {
        self.token@
    }
}

/// Mathematical value of one activity.
pub struct ActivityModel {
    pub id: Seq<char>,
    pub name: Seq<char>,
    pub color: Seq<char>,
    pub integration: Seq<char>,
    pub device_side: Option<Seq<char>>,
}

/// One activity as the upstream service reports it. The id is assigned
/// upstream and immutable; name and color may change through edits; the
/// integration is fixed at creation. The optional device-side attribute is
/// carried as the literal text of the upstream number and never interpreted.
#[derive(Debug)]
pub struct ActivityResponse {
    pub id: String,
    pub name: String,
    pub color: String,
    pub integration: String,
    pub device_side: Option<String>,
}

impl View for ActivityResponse {
    type V = ActivityModel;

    open spec fn view(&self) -> ActivityModel {
        ActivityModel {
            id: self.id@,
            name: self.name@,
            color: self.color@,
            integration: self.integration@,
            device_side: match self.device_side {
                Some(d) => Some(d@),
                None => None,
            },
        }
    }
}

impl ActivityResponse {
    /// A field-by-field copy; the result denotes the same activity.
    pub fn duplicate(&self) -> (r: ActivityResponse)
        ensures
            r@ == self@,
    {
        ActivityResponse {
            id: self.id.clone(),
            name: self.name.clone(),
            color: self.color.clone(),
            integration: self.integration.clone(),
            device_side: match &self.device_side {
                Some(d) => Some(d.clone()),
                None => None,
            },
        }
    }
}

/// The upstream listing of all activities.
#[derive(Debug)]
pub struct ActivitiesResponse {
    pub activities: Vec<ActivityResponse>,
}

/// The model of a sequence of activities, element by element.
pub open spec fn activities_model(v: Seq<ActivityResponse>) -> Seq<ActivityModel> {
    v.map_values(|a: ActivityResponse| a@)
}

impl View for ActivitiesResponse {
    type V = Seq<ActivityModel>;

    open spec fn view(&self) -> Seq<ActivityModel> {
        activities_model(self.activities@)
    }
}

/// The upstream answer to a deletion: a list of human-readable error
/// strings, possibly empty, passed through opaquely to the caller.
#[derive(Debug)]
pub struct ErrorListResponse {
    pub errors: Vec<String>,
}

/// The model of a list of error strings, element by element.
pub open spec fn errors_model(v: Seq<String>) -> Seq<Seq<char>> {
    v.map_values(|e: String| e@)
}

impl View for ErrorListResponse {
    type V = Seq<Seq<char>>;

    open spec fn view(&self) -> Seq<Seq<char>> {
        errors_model(self.errors@)
    }
}

/// Intent to create an activity: all three fields are required.
#[derive(Debug)]
pub struct ActivityRequest {
    pub name: String,
    pub color: String,
    pub integration: String,
}

/// Mathematical value of a creation intent.
pub struct CreateIntentModel {
    pub name: Seq<char>,
    pub color: Seq<char>,
    pub integration: Seq<char>,
}

impl View for ActivityRequest {
    type V = CreateIntentModel;

    open spec fn view(&self) -> CreateIntentModel {
        CreateIntentModel { name: self.name@, color: self.color@, integration: self.integration@ }
    }
}

/// Intent to edit an activity: partial-update semantics. A field that is
/// absent must not be sent upstream at all; a present empty string is sent
/// as an empty string.
#[derive(Debug)]
pub struct EditActivityRequest {
    pub name: Option<String>,
    pub color: Option<String>,
}

/// Mathematical value of an edit intent: each field either absent or a
/// replacement text.
pub struct EditIntentModel {
    pub name: Option<Seq<char>>,
    pub color: Option<Seq<char>>,
}

impl View for EditActivityRequest {
    type V = EditIntentModel;

    open spec fn view(&self) -> EditIntentModel {
        EditIntentModel {
            name: match self.name {
                Some(n) => Some(n@),
                None => None,
            },
            color: match self.color {
                Some(c) => Some(c@),
                None => None,
            },
        }
    }
}

} // verus!
