//! The location board: where the crew currently is, set by the administrator and read by
//! everyone.
use vstd::prelude::*;
use crate::auth::AuthenticatedUser;
use crate::constants::ADMIN_ID;
use crate::jwt::utc_now_timestamp_millis;
use crate::stages::{is_stage_listed, stage_listed, TomorrowlandStage, TomorrowlandStageView};

verus! {

/// The stages of the festival.
#[derive(Debug, Clone, Copy, PartialEq, Eq, Structural)]
pub enum Stage {
    MainStage,
    FreedomStage,
    RoseGarden,
    Elixir,
    Cage,
    RaveCave,
    Planaxis,
    Rise,
    Atmosphere,
    Core,
    CrystalGarden,
    Library,
    Melodia,
    HouseOfFortune,
    RoamingAround,
    PortalToParadise,
    Sylvira,
}

/// Where the crew is: one of the festival's own stages, a stage of the festival's listing
/// (which must be in the loaded listing to be set), or a place named freely.
#[derive(Debug, Clone, PartialEq, Eq)]
pub enum LocationVariant {
    Stage(Stage),
    Tomorrowland(TomorrowlandStage),
    Custom { name: String },
}

/// A location as plain values.
pub enum LocationVariantView {
    Stage(Stage),
    Tomorrowland(TomorrowlandStageView),
    Custom { name: Seq<char> },
}

impl View for LocationVariant {
    type V = LocationVariantView;

    open spec fn view(&self) -> LocationVariantView {
        match self {
            LocationVariant::Stage(s) => LocationVariantView::Stage(*s),
            LocationVariant::Tomorrowland(t) => LocationVariantView::Tomorrowland(t@),
            LocationVariant::Custom { name } => LocationVariantView::Custom { name: name@ },
        }
    }
}

/// An optional location as plain values.
pub open spec fn location_view(l: Option<LocationVariant>) -> Option<LocationVariantView> {
    match l {
        Some(v) => Some(v@),
        None => None,
    }
}

impl LocationVariant {
    /// A copy of the location.
    pub fn duplicate(&self) -> (r: LocationVariant)
        ensures
            r@ == self@,
    {
        match self {
            LocationVariant::Stage(s) => LocationVariant::Stage(*s),
            LocationVariant::Tomorrowland(t) => LocationVariant::Tomorrowland(t.duplicate()),
            LocationVariant::Custom { name } => LocationVariant::Custom { name: name.clone() },
        }
    }
}

/// A copy of an optional location.
fn duplicate_location(l: &Option<LocationVariant>) -> (r: Option<LocationVariant>)
    ensures
        location_view(r) == location_view(*l),
{
    match l {
        Some(v) => Some(v.duplicate()),
        None => None,
    }
}

/// The current location and when it was set (milliseconds since the epoch).
#[derive(Debug, Clone)]
pub struct LocationState {
    pub location: Option<LocationVariant>,
    pub updated_at: Option<i64>,
}

/// The location state as plain values.
pub struct LocationStateView {
    pub location: Option<LocationVariantView>,
    pub updated_at: Option<i64>,
}

impl View for LocationState {
    type V = LocationStateView;

    open spec fn view(&self) -> LocationStateView {
        LocationStateView { location: location_view(self.location), updated_at: self.updated_at }
    }
}

impl Default for LocationState {
    /// No location, never set.
    fn default() -> (r: LocationState)
        ensures
            r.location is None,
            r.updated_at is None,
    {
        LocationState { location: None, updated_at: None }
    }
}

/// The answer to a location request: the location, when it was set and how long ago
/// (milliseconds).
#[derive(Debug, Clone)]
pub struct GetLocationResponse {
    pub location: Option<LocationVariant>,
    pub updated_at: Option<i64>,
    pub updated_ago: Option<i64>,
}

/// The answer to a location request as plain values.
pub struct GetLocationResponseView {
    pub location: Option<LocationVariantView>,
    pub updated_at: Option<i64>,
    pub updated_ago: Option<i64>,
}

impl View for GetLocationResponse {
    type V = GetLocationResponseView;

    open spec fn view(&self) -> GetLocationResponseView {
        GetLocationResponseView {
            location: location_view(self.location),
            updated_at: self.updated_at,
            updated_ago: self.updated_ago,
        }
    }
}

/// The body of a request that sets the location.
#[derive(Debug, Clone)]
pub struct PostLocationRequest {
    pub location: Option<LocationVariant>,
}

/// Whether a requested location is refused against the loaded listing: a stage of the
/// festival's listing is refused unless the listing holds one with its id and its name.
pub open spec fn location_refused(location: Option<LocationVariantView>, stages: Seq<TomorrowlandStage>) -> bool {
    location matches Some(LocationVariantView::Tomorrowland(t)) && !stage_listed(stages, t)
}

/// The state after a request to set the location: unchanged unless the user is the
/// administrator and the location is not refused, in which case it holds the requested
/// location stamped with `set_at`.
pub open spec fn spec_post_location(
    state: LocationStateView,
    user_id: i64,
    location: Option<LocationVariantView>,
    stages: Seq<TomorrowlandStage>,
    set_at: i64,
) -> LocationStateView {
    if user_id == ADMIN_ID && !location_refused(location, stages) {
        LocationStateView { location, updated_at: Some(set_at) }
    } else {
        state
    }
}

/// The answer for a location state read at `now` (milliseconds): how long ago it was set is
/// `now - updated_at`, wrapping around on overflow as the compiled arithmetic does.
pub open spec fn spec_location_response(state: LocationStateView, now: i64) -> GetLocationResponseView {
    GetLocationResponseView {
        location: state.location,
        updated_at: state.updated_at,
        updated_ago: match state.updated_at {
            Some(u) => Some(now.wrapping_sub(u)),
            None => None,
        },
    }
}

impl GetLocationResponse {
    /// The answer for the location state read at `now` (milliseconds since the epoch).
    pub fn from_state_at(location_state: &LocationState, now: i64) -> (r: GetLocationResponse)
        ensures
            r@ == spec_location_response(location_state@, now),
    {
        let updated_ago = match location_state.updated_at {
            Some(u) => Some(now.wrapping_sub(u)),
            None => None,
        };
        GetLocationResponse {
            location: duplicate_location(&location_state.location),
            updated_at: location_state.updated_at,
            updated_ago,
        }
    }

    /// The answer for the location state, read now.
    pub fn from(location_state: &LocationState) -> (r: GetLocationResponse)
        ensures
            r@.location == location_state@.location,
            r.updated_at == location_state.updated_at,
            r.updated_ago is Some <==> location_state.updated_at is Some,
    {
        let now = utc_now_timestamp_millis();
        GetLocationResponse::from_state_at(location_state, now)
    }
}

/// How a request to set the location is answered.
#[derive(Debug, Clone)]
pub enum PostLocationOutcome {
    /// The user is not the administrator: 403 "Not allowed", nothing changes.
    Forbidden,
    /// The location is a stage missing from the loaded listing: 400 "Stage not found",
    /// nothing changes.
    StageNotFound,
    /// The location was set: 200 with the new state.
    Updated(GetLocationResponse),
}

impl LocationState {
    /// Sets the location, stamped with the time `now` (milliseconds since the epoch).
    pub fn set_location(&mut self, location: Option<LocationVariant>, now: i64)
        ensures
            final(self)@.location == location_view(location),
            final(self).updated_at == Some(now),
    {
        self.location = location;
        self.updated_at = Some(now);
    }
}

/// Whether a requested location is refused against the loaded listing (see
/// `location_refused`).
pub fn is_location_refused(location: &Option<LocationVariant>, stages: &Vec<TomorrowlandStage>) -> (r: bool)
    ensures
        r == location_refused(location_view(*location), stages@),
{
    match location {
        Some(LocationVariant::Tomorrowland(selected)) => !is_stage_listed(stages, selected),
        _ => false,
    }
}

/// Handles a request to set the location: only the administrator may, and a stage of the
/// festival's listing must be in the loaded listing `stages`; the new location is stamped
/// with `set_at` and the answer is read at `read_at`.
pub fn post_location_at(
    state: &mut LocationState,
    user: &AuthenticatedUser,
    body: PostLocationRequest,
    stages: &Vec<TomorrowlandStage>,
    set_at: i64,
    read_at: i64,
) -> (r: PostLocationOutcome)
    ensures
        final(state)@ == spec_post_location(old(state)@, user.user_id, location_view(body.location), stages@, set_at),
        user.user_id != ADMIN_ID ==> r is Forbidden,
        user.user_id == ADMIN_ID && location_refused(location_view(body.location), stages@) ==> r is StageNotFound,
        user.user_id == ADMIN_ID && !location_refused(location_view(body.location), stages@) ==> (r matches PostLocationOutcome::Updated(resp)
            && resp@ == spec_location_response(final(state)@, read_at)),
{
    if !user.is_admin() {
        return PostLocationOutcome::Forbidden;
    }
    if is_location_refused(&body.location, stages) {
        return PostLocationOutcome::StageNotFound;
    }
    state.set_location(body.location, set_at);
    PostLocationOutcome::Updated(GetLocationResponse::from_state_at(state, read_at))
}

/// Handles a request to set the location against the loaded listing `stages`, stamping it
/// and answering with the current time.
pub fn post_location(
    state: &mut LocationState,
    user: &AuthenticatedUser,
    body: PostLocationRequest,
    stages: &Vec<TomorrowlandStage>,
) -> (r: PostLocationOutcome)
    ensures
        user.user_id != ADMIN_ID ==> (r is Forbidden && final(state)@ == old(state)@),
        user.user_id == ADMIN_ID && location_refused(location_view(body.location), stages@) ==> (r is StageNotFound
            && final(state)@ == old(state)@),
        user.user_id == ADMIN_ID && !location_refused(location_view(body.location), stages@) ==> {
            &&& final(state)@.location == location_view(body.location)
            &&& final(state).updated_at is Some
            &&& r matches PostLocationOutcome::Updated(resp) && resp@.location == location_view(body.location)
                && resp.updated_at == final(state).updated_at
        },
{
    if !user.is_admin() {
        return PostLocationOutcome::Forbidden;
    }
    let set_at = utc_now_timestamp_millis();
    let read_at = utc_now_timestamp_millis();
    post_location_at(state, user, body, stages, set_at, read_at)
}

/// What is read is what was last written: after the administrator sets a location that the
/// listing does not refuse at time `t`, a read at time `now` answers that location, set at
/// `t`, and (for times after the epoch) set `now - t` milliseconds ago. A request by anyone
/// else, or for a stage missing from the listing, changes nothing.
pub proof fn law_read_after_write(
    state: LocationStateView,
    user_id: i64,
    location: Option<LocationVariantView>,
    stages: Seq<TomorrowlandStage>,
    t: i64,
    now: i64,
)
    ensures
        (user_id != ADMIN_ID || location_refused(location, stages)) ==> spec_post_location(
            state,
            user_id,
            location,
            stages,
            t,
        ) == state,
        (user_id == ADMIN_ID && !location_refused(location, stages)) ==> ({
            let resp = spec_location_response(spec_post_location(state, user_id, location, stages, t), now);
            &&& resp.location == location
            &&& resp.updated_at == Some(t)
            &&& (0 <= t <= now ==> resp.updated_ago == Some((now - t) as i64))
        }),
{
}

} // verus!
