//! The upstream client and the resource translator.
//!
//! The client side of this module describes every outbound call as a plain
//! value: the verb, the full URL, the bearer header, and the JSON body as a
//! list of field pairs. It also classifies a raw upstream response into the
//! body text on success or a uniform call failure. The translator side
//! turns the outcome of each upstream exchange into the local result or
//! error of the corresponding activity operation.
//!
//! The transport that performs the HTTP exchange is outside the library:
//! it receives an `UpstreamRequest`, reports back a `TransportEvent`, and
//! parses successful body text into the data shapes, handing the library a
//! `None` where the text did not parse.

use vstd::prelude::*;
use vstd::string::StringExecFns;
use crate::data::{
    activities_model, ActivitiesResponse, ActivityModel, ActivityRequest, ActivityResponse,
    CreateIntentModel, EditActivityRequest, EditIntentModel, ErrorListResponse, SignInResponse,
};
use crate::handlers::AnalyzerError;

verus! {

/// The HTTP verb of an upstream call.
#[derive(Debug, Clone, Copy, PartialEq, Eq, Structural)]
pub enum Method {
    Get,
    Post,
    Patch,
    Delete,
}

/// One outbound upstream call, fully described as data. `auth_header` is
/// the value of the Authorization header, or `None` where the call sends
/// none; `body` is the JSON object to send, as ordered field pairs, or
/// `None` where the call carries no body at all.
#[derive(Debug)]
pub struct UpstreamRequest {
    pub method: Method,
    pub url: String,
    pub auth_header: Option<String>,
    pub body: Option<Vec<(String, String)>>,
}

/// Uniform failure of one upstream call: the HTTP status where a response
/// arrived at all, and a descriptive cause. The client never interprets
/// status semantics beyond the success range.
#[derive(Debug)]
pub struct ExternalCallFailure {
    pub status: Option<u16>,
    pub cause: String,
}

/// Mathematical value of a call failure.
pub struct FailureModel {
    pub status: Option<u16>,
    pub cause: Seq<char>,
}

impl View for ExternalCallFailure {
    type V = FailureModel;

    open spec fn view(&self) -> FailureModel {
        FailureModel { status: self.status, cause: self.cause@ }
    }
}

/// What the transport reports of one attempted exchange: either a response
/// with its status and its body text (`None` where the body could not be
/// read or was not valid UTF-8), or a network-level error with a
/// description.
#[derive(Debug)]
pub enum TransportEvent {
    Response { status: u16, body: Option<String> },
    TransportError { description: String },
}

/// Mathematical value of a transport event.
pub enum EventModel {
    Response { status: u16, body: Option<Seq<char>> },
    TransportError { description: Seq<char> },
}

impl View for TransportEvent {
    type V = EventModel;

    open spec fn view(&self) -> EventModel {
        match self {
            TransportEvent::Response { status, body } => EventModel::Response {
                status: *status,
                body: match body {
                    Some(b) => Some(b@),
                    None => None,
                },
            },
            TransportEvent::TransportError { description } => EventModel::TransportError {
                description: description@,
            },
        }
    }
}

/// The success range of HTTP statuses.
pub open spec fn status_is_success(status: u16) -> bool {
    200 <= status < 300
}

/// Classification of one exchange: the body text of a readable response
/// with a status in the success range; otherwise a uniform failure
/// carrying the status, where a response arrived at all, and a
/// descriptive cause.
pub open spec fn classify(event: EventModel) -> Result<Seq<char>, FailureModel> {
    match event {
        EventModel::Response { status, body } => {
            if !status_is_success(status) {
                Err(FailureModel { status: Some(status), cause: "request error"@ })
            } else {
                match body {
                    Some(text) => Ok(text),
                    None => Err(
                        FailureModel {
                            status: Some(status),
                            cause: "could not copy response into buffer"@,
                        },
                    ),
                }
            }
        },
        EventModel::TransportError { description } => Err(
            FailureModel { status: None, cause: description },
        ),
    }
}

/// Fixed base of every upstream URL.
pub open spec fn base_url_spec() -> Seq<char> {
    "https://api.timeular.com/api/v2"@
}

/// URL of the activity collection.
pub open spec fn activities_url_spec() -> Seq<char> {
    base_url_spec() + "/activities"@
}

/// URL of one activity.
pub open spec fn activity_url_spec(id: Seq<char>) -> Seq<char> {
    activities_url_spec() + "/"@ + id
}

/// URL of the sign-in exchange.
pub open spec fn sign_in_url_spec() -> Seq<char> {
    base_url_spec() + "/developer/sign-in"@
}

/// Value of the Authorization header for a given token.
pub open spec fn bearer_spec(token: Seq<char>) -> Seq<char> {
    "Bearer "@ + token
}

fn base_url() -> (r: String)
    ensures
        r@ == base_url_spec(),
{
    "https://api.timeular.com/api/v2".to_owned()
}

fn activities_url() -> (r: String)
    ensures
        r@ == activities_url_spec(),
{
    let mut url = base_url();
    url.append("/activities");
    url
}

fn activity_url(id: &str) -> (r: String)
    ensures
        r@ == activity_url_spec(id@),
{
    let mut url = activities_url();
    url.append("/");
    url.append(id);
    url
}

fn bearer_header(token: &str) -> (r: String)
    ensures
        r@ == bearer_spec(token@),
{
    let mut value = "Bearer ".to_owned();
    value.append(token);
    value
}

/// Classifies a raw exchange, exactly as `classify` says: the body text
/// when the status lies in the success range and the body was readable;
/// otherwise a uniform failure.
pub fn parse_result(event: TransportEvent) -> (r: Result<String, ExternalCallFailure>)
    ensures
        (match r {
            Ok(text) => Ok(text@),
            Err(f) => Err(f@),
        }) == classify(event@),
{
    match event {
        TransportEvent::Response { status, body } => {
            if !(200 <= status && status < 300) {
                Err(ExternalCallFailure { status: Some(status), cause: "request error".to_owned() })
            } else {
                match body {
                    Some(text) => Ok(text),
                    None => Err(
                        ExternalCallFailure {
                            status: Some(status),
                            cause: "could not copy response into buffer".to_owned(),
                        },
                    ),
                }
            }
        },
        TransportEvent::TransportError { description } => Err(
            ExternalCallFailure { status: None, cause: description },
        ),
    }
}

/// The field pairs of a body, as sequences.
pub open spec fn pairs_model(v: Seq<(String, String)>) -> Seq<(Seq<char>, Seq<char>)> {
    v.map_values(|p: (String, String)| (p.0@, p.1@))
}

/// Body of a creation call: all three intent fields, by their wire names.
pub open spec fn create_body_spec(intent: CreateIntentModel) -> Seq<(Seq<char>, Seq<char>)> {
    seq![("name"@, intent.name), ("color"@, intent.color), ("integration"@, intent.integration)]
}

/// Body of an edit call: exactly the fields the intent holds. An absent
/// field contributes nothing; a present field is sent, even when its text
/// is empty.
pub open spec fn edit_body_spec(intent: EditIntentModel) -> Seq<(Seq<char>, Seq<char>)> {
    (match intent.name {
        Some(n) => seq![("name"@, n)],
        None => Seq::<(Seq<char>, Seq<char>)>::empty(),
    }) + (match intent.color {
        Some(c) => seq![("color"@, c)],
        None => Seq::<(Seq<char>, Seq<char>)>::empty(),
    })
}

/// Body of the sign-in call: the two credentials, by their wire names.
pub open spec fn sign_in_body_spec(api_key: Seq<char>, api_secret: Seq<char>) -> Seq<
    (Seq<char>, Seq<char>),
> {
    seq![("apiKey"@, api_key), ("apiSecret"@, api_secret)]
}

fn create_activity_body(activity: &ActivityRequest) -> (r: Vec<(String, String)>)
    ensures
        pairs_model(r@) == create_body_spec(activity@),
{
    let mut body: Vec<(String, String)> = Vec::new();
    body.push(("name".to_owned(), activity.name.clone()));
    body.push(("color".to_owned(), activity.color.clone()));
    body.push(("integration".to_owned(), activity.integration.clone()));
    proof {
        assert(pairs_model(body@) =~= create_body_spec(activity@));
    }
    body
}

fn edit_activity_body(activity: &EditActivityRequest) -> (r: Vec<(String, String)>)
    ensures
        pairs_model(r@) == edit_body_spec(activity@),
{
    let mut body: Vec<(String, String)> = Vec::new();
    match &activity.name {
        Some(v) => body.push(("name".to_owned(), v.clone())),
        None => (),
    }
    match &activity.color {
        Some(v) => body.push(("color".to_owned(), v.clone())),
        None => (),
    }
    proof {
        assert(pairs_model(body@) =~= edit_body_spec(activity@));
    }
    body
}

fn sign_in_body(api_key: &str, api_secret: &str) -> (r: Vec<(String, String)>)
    ensures
        pairs_model(r@) == sign_in_body_spec(api_key@, api_secret@),
{
    let mut body: Vec<(String, String)> = Vec::new();
    body.push(("apiKey".to_owned(), api_key.to_owned()));
    body.push(("apiSecret".to_owned(), api_secret.to_owned()));
    proof {
        assert(pairs_model(body@) =~= sign_in_body_spec(api_key@, api_secret@));
    }
    body
}

/// The call that fetches the whole activity listing. The single-activity
/// lookup issues this same call: upstream offers no single-resource fetch.
pub fn get_activities_request(token: &str) -> (r: UpstreamRequest)
    ensures
        r.method == Method::Get,
        r.url@ == activities_url_spec(),
        r.auth_header matches Some(h) && h@ == bearer_spec(token@),
        r.body is None,
{
    UpstreamRequest {
        method: Method::Get,
        url: activities_url(),
        auth_header: Some(bearer_header(token)),
        body: None,
    }
}

/// The call that creates an activity from a full intent.
pub fn create_activity_request(activity: &ActivityRequest, token: &str) -> (r: UpstreamRequest)
    ensures
        r.method == Method::Post,
        r.url@ == activities_url_spec(),
        r.auth_header matches Some(h) && h@ == bearer_spec(token@),
        r.body matches Some(b) && pairs_model(b@) == create_body_spec(activity@),
{
    UpstreamRequest {
        method: Method::Post,
        url: activities_url(),
        auth_header: Some(bearer_header(token)),
        body: Some(create_activity_body(activity)),
    }
}

/// The call that edits an activity: a partial body, carrying exactly the
/// fields the intent holds.
pub fn edit_activity_request(id: &str, activity: &EditActivityRequest, token: &str) -> (r:
    UpstreamRequest)
    ensures
        r.method == Method::Patch,
        r.url@ == activity_url_spec(id@),
        r.auth_header matches Some(h) && h@ == bearer_spec(token@),
        r.body matches Some(b) && pairs_model(b@) == edit_body_spec(activity@),
{
    UpstreamRequest {
        method: Method::Patch,
        url: activity_url(id),
        auth_header: Some(bearer_header(token)),
        body: Some(edit_activity_body(activity)),
    }
}

/// The call that deletes an activity.
pub fn delete_activity_request(id: &str, token: &str) -> (r: UpstreamRequest)
    ensures
        r.method == Method::Delete,
        r.url@ == activity_url_spec(id@),
        r.auth_header matches Some(h) && h@ == bearer_spec(token@),
        r.body is None,
{
    UpstreamRequest {
        method: Method::Delete,
        url: activity_url(id),
        auth_header: Some(bearer_header(token)),
        body: None,
    }
}

/// The sign-in call: the two credentials as the body, no other headers.
pub fn sign_in_request(api_key: &str, api_secret: &str) -> (r: UpstreamRequest)
    ensures
        r.method == Method::Post,
        r.url@ == sign_in_url_spec(),
        r.auth_header is None,
        r.body matches Some(b) && pairs_model(b@) == sign_in_body_spec(api_key@, api_secret@),
{
    UpstreamRequest {
        method: Method::Post,
        url: sign_in_url(),
        auth_header: None,
        body: Some(sign_in_body(api_key, api_secret)),
    }
}

fn sign_in_url() -> (r: String)
    ensures
        r@ == sign_in_url_spec(),
{
    let mut url = base_url();
    url.append("/developer/sign-in");
    url
}

/// Startup-fatal failure to obtain a bearer token.
#[derive(Debug)]
pub struct AuthFailure {
    pub cause: String,
}

impl View for AuthFailure {
    type V = Seq<char>;

    open spec fn view(&self) -> Seq<char> {
        self.cause@
    }
}

/// A local operation result, with the success value taken to its model.
pub open spec fn result_model<T: View, E>(r: Result<T, E>) -> Result<T::V, E> {
    match r {
        Ok(t) => Ok(t@),
        Err(e) => Err(e),
    }
}

/// What one upstream exchange delivered to a translator, as a model: the
/// parsed payload, `None` where the body text did not parse as the
/// expected shape, or the call failure.
pub open spec fn fetched_model<T: View>(f: Result<Option<T>, ExternalCallFailure>) -> Result<
    Option<T::V>,
    FailureModel,
> {
    match f {
        Ok(Some(t)) => Ok(Some(t@)),
        Ok(None) => Ok(None),
        Err(e) => Err(e@),
    }
}

/// Outcome of the listing operation: the parsed listing, or a generic
/// external-service failure for a failed call or an unparsable body.
pub open spec fn list_outcome(fetched: Result<Option<Seq<ActivityModel>>, FailureModel>) -> Result<
    Seq<ActivityModel>,
    AnalyzerError,
> {
    match fetched {
        Ok(Some(listing)) => Ok(listing),
        _ => Err(AnalyzerError::ExternalServiceError),
    }
}

/// The first activity of the listing with the given id, in listing order.
pub open spec fn find_activity(listing: Seq<ActivityModel>, id: Seq<char>) -> Option<ActivityModel>
    decreases listing.len(),
{
    if listing.len() == 0 {
        None
    } else if listing[0].id == id {
        Some(listing[0])
    } else {
        find_activity(listing.drop_first(), id)
    }
}

/// Outcome of the single-activity lookup: the first listed activity with
/// the requested id; a not-found failure when the listing arrived but held
/// no such id; a generic external-service failure otherwise.
pub open spec fn lookup_outcome(
    fetched: Result<Option<Seq<ActivityModel>>, FailureModel>,
    id: Seq<char>,
) -> Result<ActivityModel, AnalyzerError> {
    match fetched {
        Ok(Some(listing)) => match find_activity(listing, id) {
            Some(a) => Ok(a),
            None => Err(AnalyzerError::ActivityNotFoundError),
        },
        _ => Err(AnalyzerError::ExternalServiceError),
    }
}

/// Outcome of a creation or an edit: the activity the upstream service
/// reported back, or a generic external-service failure.
pub open spec fn mutation_outcome(fetched: Result<Option<ActivityModel>, FailureModel>) -> Result<
    ActivityModel,
    AnalyzerError,
> {
    match fetched {
        Ok(Some(a)) => Ok(a),
        _ => Err(AnalyzerError::ExternalServiceError),
    }
}

/// Outcome of a deletion: the upstream error list, possibly empty, or a
/// generic external-service failure.
pub open spec fn delete_outcome(fetched: Result<Option<Seq<Seq<char>>>, FailureModel>) -> Result<
    Seq<Seq<char>>,
    AnalyzerError,
> {
    match fetched {
        Ok(Some(errors)) => Ok(errors),
        _ => Err(AnalyzerError::ExternalServiceError),
    }
}

/// Outcome of the sign-in exchange: the token, or the cause of the
/// authentication failure. A failed call carries its own cause over; a
/// body that did not parse is its own cause.
pub open spec fn sign_in_outcome(fetched: Result<Option<Seq<char>>, FailureModel>) -> Result<
    Seq<char>,
    Seq<char>,
> {
    match fetched {
        Ok(Some(token)) => Ok(token),
        Ok(None) => Err("could not parse json"@),
        Err(f) => Err(f.cause),
    }
}

/// Translates the fetched listing: GET /activities.
pub fn get_activities(fetched: Result<Option<ActivitiesResponse>, ExternalCallFailure>) -> (r:
    Result<ActivitiesResponse, AnalyzerError>)
    ensures
        result_model(r) == list_outcome(fetched_model(fetched)),
{
    match fetched {
        Ok(Some(listing)) => Ok(listing),
        Ok(None) => Err(AnalyzerError::ExternalServiceError),
        Err(_) => Err(AnalyzerError::ExternalServiceError),
    }
}

/// The explicit linear scan behind the single-activity lookup: the first
/// entry whose id equals the requested one. The scan is deliberate — the
/// upstream API offers no single-resource endpoint, so a lookup reads the
/// whole listing.
pub fn find_activity_in(activities: &Vec<ActivityResponse>, id: &str) -> (r: Option<
    ActivityResponse,
>)
    ensures
        (match r {
            Some(a) => Some(a@),
            None => None,
        }) == find_activity(activities_model(activities@), id@),
{
    let ghost s = activities_model(activities@);
    proof {
        assert(s.skip(0) =~= s);
    }
    let id_owned: String = id.to_owned();
    let mut i: usize = 0;
    while i < activities.len()
        invariant
            0 <= i <= activities.len(),
            s == activities_model(activities@),
            id_owned@ == id@,
            find_activity(s, id@) == find_activity(s.skip(i as int), id@),
        decreases activities.len() - i,
    {
        let candidate = &activities[i];
        proof {
            assert(s.skip(i as int)[0] == s[i as int]);
        }
        if candidate.id == id_owned {
            return Some(candidate.duplicate());
        }
        proof {
            assert(s.skip(i as int).drop_first() =~= s.skip(i as int + 1));
        }
        i = i + 1;
    }
    proof {
        assert(s.skip(i as int).len() == 0);
    }
    None
}

/// Translates a lookup: the listing fetched by GET /activities, filtered
/// here for the requested id.
pub fn get_activity(id: &str, fetched: Result<Option<ActivitiesResponse>, ExternalCallFailure>)
    -> (r: Result<ActivityResponse, AnalyzerError>)
    ensures
        result_model(r) == lookup_outcome(fetched_model(fetched), id@),
{
    match fetched {
        Ok(Some(listing)) => match find_activity_in(&listing.activities, id) {
            Some(a) => Ok(a),
            None => Err(AnalyzerError::ActivityNotFoundError),
        },
        Ok(None) => Err(AnalyzerError::ExternalServiceError),
        Err(_) => Err(AnalyzerError::ExternalServiceError),
    }
}

/// Translates the answer to a creation: POST /activities.
pub fn create_activity(fetched: Result<Option<ActivityResponse>, ExternalCallFailure>) -> (r:
    Result<ActivityResponse, AnalyzerError>)
    ensures
        result_model(r) == mutation_outcome(fetched_model(fetched)),
{
    match fetched {
        Ok(Some(a)) => Ok(a),
        Ok(None) => Err(AnalyzerError::ExternalServiceError),
        Err(_) => Err(AnalyzerError::ExternalServiceError),
    }
}

/// Translates the answer to an edit: PATCH /activities/{id}.
pub fn edit_activity(fetched: Result<Option<ActivityResponse>, ExternalCallFailure>) -> (r: Result<
    ActivityResponse,
    AnalyzerError,
>)
    ensures
        result_model(r) == mutation_outcome(fetched_model(fetched)),
{
    match fetched {
        Ok(Some(a)) => Ok(a),
        Ok(None) => Err(AnalyzerError::ExternalServiceError),
        Err(_) => Err(AnalyzerError::ExternalServiceError),
    }
}

/// Translates the answer to a deletion: DELETE /activities/{id}. An empty
/// upstream error list is a success with no errors, not a failure.
pub fn delete_activity(fetched: Result<Option<ErrorListResponse>, ExternalCallFailure>) -> (r:
    Result<ErrorListResponse, AnalyzerError>)
    ensures
        result_model(r) == delete_outcome(fetched_model(fetched)),
{
    match fetched {
        Ok(Some(errors)) => Ok(errors),
        Ok(None) => Err(AnalyzerError::ExternalServiceError),
        Err(_) => Err(AnalyzerError::ExternalServiceError),
    }
}

/// Translates the sign-in exchange: POST /developer/sign-in. The token
/// exists exactly when the call succeeded and the body parsed.
pub fn get_jwt(fetched: Result<Option<SignInResponse>, ExternalCallFailure>) -> (r: Result<
    String,
    AuthFailure,
>)
    ensures
        (match r {
            Ok(token) => Ok(token@),
            Err(failure) => Err(failure@),
        }) == sign_in_outcome(fetched_model(fetched)),
{
    match fetched {
        Ok(Some(parsed)) => Ok(parsed.token),
        Ok(None) => Err(AuthFailure { cause: "could not parse json".to_owned() }),
        Err(f) => Err(AuthFailure { cause: f.cause }),
    }
}

/// In a listing where at least one entry bears the given activity's id,
/// and every entry bearing it is that very activity, the scan finds it.
pub proof fn lemma_find_unique_id(listing: Seq<ActivityModel>, a: ActivityModel)
    requires
        exists|j: int| 0 <= j < listing.len() && listing[j].id == a.id,
        forall|k: int| 0 <= k < listing.len() && #[trigger] listing[k].id == a.id ==> listing[k]
            == a,
    ensures
        find_activity(listing, a.id) == Some(a),
    decreases listing.len(),
{
    if listing.len() == 0 {
    } else if listing[0].id == a.id {
        assert(listing[0] == a);
    } else {
        let j = choose|j: int| 0 <= j < listing.len() && listing[j].id == a.id;
        assert(listing.drop_first()[j - 1] == listing[j]);
        assert(0 <= j - 1 < listing.drop_first().len() && listing.drop_first()[j - 1].id == a.id);
        assert forall|k: int|
            0 <= k < listing.drop_first().len() && #[trigger] listing.drop_first()[k].id
                == a.id implies listing.drop_first()[k] == a by {
            assert(listing.drop_first()[k] == listing[k + 1]);
        }
        lemma_find_unique_id(listing.drop_first(), a);
    }
}

/// The round trip through the upstream service: when a creation from an
/// intent reports back an activity carrying the intent's fields, and the
/// later listing holds the returned id — under that id only as that same
/// value — then a lookup with the returned id yields exactly that
/// activity, with the intent's name, color and integration.
pub proof fn lemma_create_then_get(
    intent: CreateIntentModel,
    fetched_create: Result<Option<ActivityModel>, FailureModel>,
    listing: Seq<ActivityModel>,
    a: ActivityModel,
)
    requires
        mutation_outcome(fetched_create) == Ok::<ActivityModel, AnalyzerError>(a),
        a.name == intent.name,
        a.color == intent.color,
        a.integration == intent.integration,
        exists|j: int| 0 <= j < listing.len() && listing[j].id == a.id,
        forall|k: int| 0 <= k < listing.len() && #[trigger] listing[k].id == a.id ==> listing[k]
            == a,
    ensures
        lookup_outcome(Ok(Some(listing)), a.id) == Ok::<ActivityModel, AnalyzerError>(a),
        (match lookup_outcome(Ok(Some(listing)), a.id) {
            Ok(found) => found.name == intent.name && found.color == intent.color
                && found.integration == intent.integration,
            Err(_) => false,
        }),
{
    lemma_find_unique_id(listing, a);
}

/// Whether a body holds a field with the given name.
pub open spec fn body_has_key(body: Seq<(Seq<char>, Seq<char>)>, key: Seq<char>) -> bool {
    exists|i: int| 0 <= i < body.len() && (#[trigger] body[i]).0 == key
}

/// Partial-update bodies carry exactly the present fields: the edit body
/// holds a name field precisely when the intent names one, a color field
/// precisely when the intent colors one, and no other field at all.
pub proof fn lemma_edit_body_exact(intent: EditIntentModel)
    ensures
        body_has_key(edit_body_spec(intent), "name"@) <==> intent.name is Some,
        body_has_key(edit_body_spec(intent), "color"@) <==> intent.color is Some,
        intent.name matches Some(n) ==> edit_body_spec(intent).contains(("name"@, n)),
        intent.color matches Some(c) ==> edit_body_spec(intent).contains(("color"@, c)),
        forall|i: int|
            0 <= i < edit_body_spec(intent).len() ==> ((#[trigger] edit_body_spec(intent)[i]).0
                == "name"@ || edit_body_spec(intent)[i].0 == "color"@),
{
    reveal_strlit("name");
    reveal_strlit("color");
    assert("name"@.len() == 4);
    assert("color"@.len() == 5);
    let body = edit_body_spec(intent);
    match intent.name {
        Some(n) => {
            assert(body[0] == ("name"@, n));
            match intent.color {
                Some(c) => {
                    assert(body[1] == ("color"@, c));
                    assert(body.len() == 2);
                },
                None => {
                    assert(body.len() == 1);
                },
            }
        },
        None => {
            match intent.color {
                Some(c) => {
                    assert(body[0] == ("color"@, c));
                    assert(body.len() == 1);
                },
                None => {
                    assert(body.len() == 0);
                },
            }
        },
    }
}

/// A failed upstream call — a transport error, a non-success status or an
/// unreadable body, uniformly a call failure — yields the generic
/// external-service error from every activity operation, never a result;
/// and the sign-in exchange carries the failure's cause over.
pub proof fn lemma_call_failure_is_external_error(f: FailureModel, id: Seq<char>)
    ensures
        list_outcome(Err(f)) == Err::<Seq<ActivityModel>, AnalyzerError>(
            AnalyzerError::ExternalServiceError,
        ),
        lookup_outcome(Err(f), id) == Err::<ActivityModel, AnalyzerError>(
            AnalyzerError::ExternalServiceError,
        ),
        mutation_outcome(Err(f)) == Err::<ActivityModel, AnalyzerError>(
            AnalyzerError::ExternalServiceError,
        ),
        delete_outcome(Err(f)) == Err::<Seq<Seq<char>>, AnalyzerError>(
            AnalyzerError::ExternalServiceError,
        ),
        sign_in_outcome(Err(f)) == Err::<Seq<char>, Seq<char>>(f.cause),
{
}

/// End to end: a response with a non-success status — whatever its body —
/// is classified as a call failure, and that failure yields the generic
/// external-service error from every activity operation; no result of any
/// operation, complete or partial, can come of it. The sign-in exchange
/// refuses it too, with the uniform cause.
pub proof fn lemma_non_success_never_populates(status: u16, body: Option<Seq<char>>, id: Seq<char>)
    requires
        !status_is_success(status),
    ensures
        classify(EventModel::Response { status, body }) matches Err(f) && {
            &&& list_outcome(Err(f)) == Err::<Seq<ActivityModel>, AnalyzerError>(
                AnalyzerError::ExternalServiceError,
            )
            &&& lookup_outcome(Err(f), id) == Err::<ActivityModel, AnalyzerError>(
                AnalyzerError::ExternalServiceError,
            )
            &&& mutation_outcome(Err(f)) == Err::<ActivityModel, AnalyzerError>(
                AnalyzerError::ExternalServiceError,
            )
            &&& delete_outcome(Err(f)) == Err::<Seq<Seq<char>>, AnalyzerError>(
                AnalyzerError::ExternalServiceError,
            )
            &&& sign_in_outcome(Err(f)) == Err::<Seq<char>, Seq<char>>("request error"@)
        },
{
}

/// A bearer token exists exactly when the sign-in call succeeded and its
/// body parsed; no other exchange produces one.
pub proof fn lemma_token_only_from_success(fetched: Result<Option<Seq<char>>, FailureModel>)
    ensures
        sign_in_outcome(fetched) is Ok <==> fetched matches Ok(Some(_)),
{
}

/// Idempotence of the lookup: against one and the same fetched listing,
/// a repeated lookup with the same id has one and the same outcome — the
/// outcome is a function of the listing and the id alone.
pub proof fn lemma_lookup_idempotent(
    fetched: Result<Option<Seq<ActivityModel>>, FailureModel>,
    id: Seq<char>,
)
    ensures
        lookup_outcome(fetched, id) == lookup_outcome(fetched, id),
{
}

} // verus!
