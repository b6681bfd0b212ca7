//! Rules of the read endpoints: map coordinates and regions, map field
//! details, leaderboard and report pagination, village switching.

use vstd::prelude::*;

use crate::errors::{is_api_error, ApiError, ApiErrorKind};
use crate::model::{
    building_by_name, covers, has_building_named, has_enough_resources, is_first_named, spec_tribe_key, tribe_key,
    BuildingName, MapField, MapFieldTopology, OasisTopology, Position, ResourceGroup, Tribe, ValleyTopology,
    Village,
};

verus! {

/// Players listed on one leaderboard page.
pub const LEADERBOARD_PAGE_SIZE: i64 = 20;

/// Fields shown around the centre of a map region, in each direction.
pub const MAP_REGION_RADIUS: i32 = 7;

/// Pagination query of the leaderboard.
#[derive(Debug, Clone, Copy)]
pub struct StatsQuery {
    pub page: Option<i64>,
}

/// Pagination query of the report list.
#[derive(Debug, Clone, Copy)]
pub struct ReportsQuery {
    pub page: Option<i64>,
    pub per_page: Option<i64>,
}

/// Request to switch the current village.
#[derive(Debug, Clone, Copy)]
pub struct SwitchVillageRequest {
    pub village_id: u32,
}

/// Answer to a village switch; a new access token when a bearer was sent.
#[derive(Debug, Clone)]
pub struct SwitchVillageResponse {
    pub village_id: u32,
    pub access_token: Option<String>,
    pub expires_in: Option<i64>,
}

/// Query of a map region: a centre, or a village of the player as centre.
#[derive(Debug, Clone, Copy)]
pub struct MapRegionQuery {
    pub x: Option<i32>,
    pub y: Option<i32>,
    pub village_id: Option<u32>,
}

/// The signed-in session: the user and the current village.
#[derive(Debug, Clone)]
pub struct MeSessionResponse {
    pub authenticated: bool,
    pub user: crate::api::dto::SessionUserDto,
    pub current_village_id: u32,
}

/// Builds the session answer for the signed-in user.
pub fn me_session(user: &crate::model::CurrentUser) -> (r: MeSessionResponse)
    ensures
        r.authenticated,
        r.user.user_id == user.account.id,
        r.user.player_id == user.player.id,
        r.user.username@ == user.player.username@,
        r.user.email@ == user.account.email@,
        r.user.tribe@ == spec_tribe_key(user.player.tribe),
        r.current_village_id == user.village.id,
{
    MeSessionResponse {
        authenticated: true,
        user: crate::api::dto::session_user(user),
        current_village_id: user.village.id,
    }
}

/// A point of the world map.
#[derive(Debug, Clone, Copy, PartialEq, Eq, Structural)]
pub struct MapPoint {
    pub x: i32,
    pub y: i32,
}

/// The coordinate `value` brought into `-world_size..=world_size` on a map
/// that wraps around; unchanged when the world has no positive size.
pub open spec fn spec_wrap_coordinate(value: int, world_size: int) -> int {
    if world_size <= 0 {
        value
    } else {
        (value + world_size) % (2 * world_size + 1) - world_size
    }
}

/// Wraps a coordinate onto a world of radius `world_size`; any coordinate
/// and any world size are accepted (the arithmetic is carried out in 64 bits).
pub fn wrap_coordinate(value: i32, world_size: i32) -> (r: i32)
    ensures
        r == spec_wrap_coordinate(value as int, world_size as int),
{
    if world_size <= 0 {
        return value;
    }
    let ws: i64 = world_size as i64;
    let span: i64 = ws * 2 + 1;
    let shifted: i64 = value as i64 + ws;
    let mut normalized: i64 = shifted % span;
    if normalized < 0 {
        normalized = normalized + span;
    }
    proof {
        if shifted < 0 {
            lemma_negative_rem(shifted as int, span as int);
        }
        lemma_wrap_coordinate(value as int, world_size as int);
    }
    (normalized - ws) as i32
}

/// Wrapping lands in `-world_size..=world_size`, moves a coordinate by a
/// whole number of world widths, leaves coordinates already in range alone,
/// and so wrapping twice is wrapping once.
pub proof fn lemma_wrap_coordinate(value: int, world_size: int)
    requires
        world_size > 0,
    ensures
        -world_size <= spec_wrap_coordinate(value, world_size) <= world_size,
        (spec_wrap_coordinate(value, world_size) - value) % (2 * world_size + 1) == 0,
        -world_size <= value <= world_size ==> spec_wrap_coordinate(value, world_size) == value,
        spec_wrap_coordinate(spec_wrap_coordinate(value, world_size), world_size) == spec_wrap_coordinate(
            value,
            world_size,
        ),
{
    let span = 2 * world_size + 1;
    let w = spec_wrap_coordinate(value, world_size);
    let q = (value + world_size) / span;
    vstd::arithmetic::div_mod::lemma_fundamental_div_mod(value + world_size, span);
    assert(w - value == (-q) * span + 0) by (nonlinear_arith)
        requires
            value + world_size == span * q + (value + world_size) % span,
            w == (value + world_size) % span - world_size,
    ;
    vstd::arithmetic::div_mod::lemma_fundamental_div_mod_converse(w - value, span, -q, 0);
    vstd::arithmetic::div_mod::lemma_small_mod((w + world_size) as nat, span as nat);
    if -world_size <= value <= world_size {
        vstd::arithmetic::div_mod::lemma_small_mod((value + world_size) as nat, span as nat);
    }
}

/// Wraps both coordinates of a point.
pub fn wrap_point(point: MapPoint, world_size: i32) -> (r: MapPoint)
    ensures
        r.x == spec_wrap_coordinate(point.x as int, world_size as int),
        r.y == spec_wrap_coordinate(point.y as int, world_size as int),
{
    MapPoint { x: wrap_coordinate(point.x, world_size), y: wrap_coordinate(point.y, world_size) }
}

/// `i` is the index of the first village of `villages` with id `id`.
pub open spec fn is_first_village_with_id(villages: Seq<Village>, id: u32, i: int) -> bool {
    &&& 0 <= i < villages.len()
    &&& villages[i].id == id
    &&& forall|j: int| 0 <= j < i ==> #[trigger] villages[j].id != id
}

/// Some village of `villages` has id `id`.
pub open spec fn has_village_with_id(villages: Seq<Village>, id: u32) -> bool {
    exists|i: int| 0 <= i < villages.len() && #[trigger] villages[i].id == id
}

/// Index of the first village with id `id`, if any.
pub fn find_village(villages: &Vec<Village>, id: u32) -> (r: Option<usize>)
    ensures
        r is None <==> !has_village_with_id(villages@, id),
        r matches Some(i) ==> is_first_village_with_id(villages@, id, i as int),
{
    let mut i: usize = 0;
    while i < villages.len()
        invariant
            i <= villages.len(),
            forall|j: int| 0 <= j < i ==> #[trigger] villages@[j].id != id,
        decreases villages.len() - i,
    {
        if villages[i].id == id {
            return Some(i);
        }
        i = i + 1;
    }
    None
}

/// The centre of a map region: the player's village named by the query, the
/// coordinates of the query, or the current village when the query gives none.
pub fn determine_center(villages: &Vec<Village>, current: Position, params: &MapRegionQuery) -> (r: Result<
    MapPoint,
    ApiError,
>)
    ensures
        params.village_id matches Some(id) ==> {
            &&& has_village_with_id(villages@, id) ==> (r matches Ok(p) && exists|i: int|
                is_first_village_with_id(villages@, id, i) && p == (MapPoint {
                    x: #[trigger] villages@[i].position.x,
                    y: villages@[i].position.y,
                }))
            &&& !has_village_with_id(villages@, id) ==> (r matches Err(e) && is_api_error(
                e,
                ApiErrorKind::BadRequest,
                "Unknown village id for current player"@,
            ))
        },
        params.village_id is None ==> match (params.x, params.y) {
            (Some(x), Some(y)) => r == Ok::<MapPoint, ApiError>(MapPoint { x, y }),
            (None, None) => r == Ok::<MapPoint, ApiError>(MapPoint { x: current.x, y: current.y }),
            _ => r matches Err(e) && is_api_error(e, ApiErrorKind::BadRequest, "Both x and y coordinates are required"@),
        },
{
    if let Some(village_id) = params.village_id {
        match find_village(villages, village_id) {
            Some(i) => {
                return Ok(MapPoint { x: villages[i].position.x, y: villages[i].position.y });
            },
            None => {
                return Err(ApiError::new(ApiErrorKind::BadRequest, "Unknown village id for current player"));
            },
        }
    }
    match (params.x, params.y) {
        (Some(x), Some(y)) => Ok(MapPoint { x, y }),
        (None, None) => Ok(MapPoint { x: current.x, y: current.y }),
        _ => Err(ApiError::new(ApiErrorKind::BadRequest, "Both x and y coordinates are required")),
    }
}

/// A player may switch only to a village of their own.
pub fn ensure_village_available(villages: &Vec<Village>, village_id: u32, player_id: u128) -> (r: Result<
    (),
    ApiError,
>)
    ensures
        r is Ok <==> exists|i: int|
            0 <= i < villages@.len() && #[trigger] villages@[i].id == village_id && villages@[i].player_id
                == player_id,
        r matches Err(e) ==> is_api_error(e, ApiErrorKind::NotFound, "Village not available for the current player"@),
{
    let mut i: usize = 0;
    while i < villages.len()
        invariant
            i <= villages.len(),
            forall|j: int|
                0 <= j < i ==> !(#[trigger] villages@[j].id == village_id && villages@[j].player_id == player_id),
        decreases villages.len() - i,
    {
        if villages[i].id == village_id && villages[i].player_id == player_id {
            return Ok(());
        }
        i = i + 1;
    }
    Err(ApiError::new(ApiErrorKind::NotFound, "Village not available for the current player"))
}

/// The page asked for: the query's page, at least 1.
pub open spec fn spec_requested_page(page: Option<i64>) -> i64 {
    match page {
        Some(p) => if p < 1 {
            1
        } else {
            p
        },
        None => 1,
    }
}

/// Reads the page number of a query.
pub fn requested_page(page: Option<i64>) -> (r: i64)
    ensures
        r == spec_requested_page(page),
        r >= 1,
{
    match page {
        Some(p) => if p < 1 {
            1
        } else {
            p
        },
        None => 1,
    }
}

/// Number of leaderboard pages for `total_players` players: at least one.
pub open spec fn spec_total_pages(total_players: i64) -> int {
    if total_players <= 0 {
        1
    } else {
        (total_players + LEADERBOARD_PAGE_SIZE - 1) / (LEADERBOARD_PAGE_SIZE as int)
    }
}

/// Page and page count of the leaderboard.
#[derive(Debug, Clone, Copy, PartialEq, Eq, Structural)]
pub struct LeaderboardWindow {
    pub page: i64,
    pub total_pages: i64,
}

/// The leaderboard page shown for a requested page: past the last page, the
/// last page is shown instead.
pub fn leaderboard_window(requested: i64, total_players: i64) -> (r: LeaderboardWindow)
    requires
        requested >= 1,
        total_players <= i64::MAX - LEADERBOARD_PAGE_SIZE,
    ensures
        r.total_pages == spec_total_pages(total_players),
        r.page == if total_players > 0 && requested > spec_total_pages(total_players) {
            spec_total_pages(total_players)
        } else {
            requested as int
        },
        r.total_pages >= 1,
        r.page >= 1,
        total_players > 0 ==> r.page <= r.total_pages,
{
    let total_pages: i64 = if total_players <= 0 {
        1
    } else {
        (total_players + LEADERBOARD_PAGE_SIZE - 1) / LEADERBOARD_PAGE_SIZE
    };
    let page = if total_players > 0 && requested > total_pages {
        total_pages
    } else {
        requested
    };
    LeaderboardWindow { page, total_pages }
}

/// Rank of the `idx`-th entry (from 0) of leaderboard page `page`.
pub fn leaderboard_rank(page: i64, idx: usize) -> (r: i64)
    requires
        page >= 1,
        (page - 1) * LEADERBOARD_PAGE_SIZE + idx + 1 <= i64::MAX,
    ensures
        r == (page - 1) * LEADERBOARD_PAGE_SIZE + idx + 1,
{
    assert(0 <= (page - 1) * LEADERBOARD_PAGE_SIZE) by (nonlinear_arith)
        requires
            page >= 1,
    ;
    (page - 1) * LEADERBOARD_PAGE_SIZE + idx as i64 + 1
}

/// Page, page size and offset of a report list query, and how many reports
/// to fetch from there: one more than a page, which tells whether more follow.
#[derive(Debug, Clone, Copy, PartialEq, Eq, Structural)]
pub struct ReportsWindow {
    pub page: i64,
    pub per_page: i64,
    pub offset: i64,
    pub fetch_limit: i64,
}

/// The page size of a report query: 50 by default, kept within `1..=100`.
pub open spec fn spec_per_page(per_page: Option<i64>) -> i64 {
    match per_page {
        Some(n) => if n < 1 {
            1
        } else if n > 100 {
            100
        } else {
            n
        },
        None => 50,
    }
}

/// Reads a report list query.
pub fn reports_window(query: &ReportsQuery) -> (r: ReportsWindow)
    requires
        (spec_requested_page(query.page) - 1) * spec_per_page(query.per_page) <= i64::MAX,
    ensures
        r.page == spec_requested_page(query.page),
        r.per_page == spec_per_page(query.per_page),
        r.offset == (r.page - 1) * r.per_page,
        r.fetch_limit == r.per_page + 1,
{
    let page = requested_page(query.page);
    let per_page: i64 = match query.per_page {
        Some(n) => if n < 1 {
            1
        } else if n > 100 {
            100
        } else {
            n
        },
        None => 50,
    };
    assert(0 <= (page - 1) * per_page) by (nonlinear_arith)
        requires
            page >= 1,
            per_page >= 1,
    ;
    let offset = (page - 1) * per_page;
    ReportsWindow { page, per_page, offset, fetch_limit: per_page + 1 }
}

/// Keeps the first `per_page` reports of those fetched (one more than a page
/// is fetched) and tells whether more follow.
pub fn take_report_page<T>(reports: Vec<T>, per_page: i64) -> (r: (Vec<T>, bool))
    requires
        per_page >= 1,
    ensures
        r.1 == (reports@.len() > per_page),
        r.0@ == if reports@.len() > per_page {
            reports@.take(per_page as int)
        } else {
            reports@
        },
{
    let has_more = (reports.len() as u128) > (per_page as u128);
    let mut page = reports;
    if has_more {
        page.truncate(per_page as usize);
    }
    (page, has_more)
}

/// Category of a map tile.
#[derive(Debug, Clone, Copy, PartialEq, Eq, Structural)]
pub enum TileType {
    Village,
    Valley,
    Oasis,
}

/// Resource distribution of a valley, or bonus percentages of an oasis.
#[derive(Debug, Clone, Copy, PartialEq, Eq, Structural)]
pub struct ValleyDistribution {
    pub lumber: u8,
    pub clay: u8,
    pub iron: u8,
    pub crop: u8,
}

/// The name of an oasis kind (its variant name).
pub open spec fn spec_oasis_key(o: OasisTopology) -> Seq<char> {
    match o {
        OasisTopology::Lumber => "Lumber"@,
        OasisTopology::LumberCrop => "LumberCrop"@,
        OasisTopology::Clay => "Clay"@,
        OasisTopology::ClayCrop => "ClayCrop"@,
        OasisTopology::Iron => "Iron"@,
        OasisTopology::IronCrop => "IronCrop"@,
        OasisTopology::Crop => "Crop"@,
        OasisTopology::Crop50 => "Crop50"@,
    }
}

/// Returns the name of an oasis kind.
pub fn oasis_key(o: OasisTopology) -> (s: String)
    ensures
        s@ == spec_oasis_key(o),
{
    match o {
        OasisTopology::Lumber => String::from_str("Lumber"),
        OasisTopology::LumberCrop => String::from_str("LumberCrop"),
        OasisTopology::Clay => String::from_str("Clay"),
        OasisTopology::ClayCrop => String::from_str("ClayCrop"),
        OasisTopology::Iron => String::from_str("Iron"),
        OasisTopology::IronCrop => String::from_str("IronCrop"),
        OasisTopology::Crop => String::from_str("Crop"),
        OasisTopology::Crop50 => String::from_str("Crop50"),
    }
}

/// Bonus percentages of an oasis: 25 for each resource it names, 50 crop
/// for the large crop oasis.
pub open spec fn spec_oasis_bonus(o: OasisTopology) -> ValleyDistribution {
    match o {
        OasisTopology::Lumber => ValleyDistribution { lumber: 25, clay: 0, iron: 0, crop: 0 },
        OasisTopology::LumberCrop => ValleyDistribution { lumber: 25, clay: 0, iron: 0, crop: 25 },
        OasisTopology::Clay => ValleyDistribution { lumber: 0, clay: 25, iron: 0, crop: 0 },
        OasisTopology::ClayCrop => ValleyDistribution { lumber: 0, clay: 25, iron: 0, crop: 25 },
        OasisTopology::Iron => ValleyDistribution { lumber: 0, clay: 0, iron: 25, crop: 0 },
        OasisTopology::IronCrop => ValleyDistribution { lumber: 0, clay: 0, iron: 25, crop: 25 },
        OasisTopology::Crop => ValleyDistribution { lumber: 0, clay: 0, iron: 0, crop: 25 },
        OasisTopology::Crop50 => ValleyDistribution { lumber: 0, clay: 0, iron: 0, crop: 50 },
    }
}

/// Returns the bonus percentages of an oasis.
pub fn oasis_bonus(o: OasisTopology) -> (d: ValleyDistribution)
    ensures
        d == spec_oasis_bonus(o),
{
    match o {
        OasisTopology::Lumber => ValleyDistribution { lumber: 25, clay: 0, iron: 0, crop: 0 },
        OasisTopology::LumberCrop => ValleyDistribution { lumber: 25, clay: 0, iron: 0, crop: 25 },
        OasisTopology::Clay => ValleyDistribution { lumber: 0, clay: 25, iron: 0, crop: 0 },
        OasisTopology::ClayCrop => ValleyDistribution { lumber: 0, clay: 25, iron: 0, crop: 25 },
        OasisTopology::Iron => ValleyDistribution { lumber: 0, clay: 0, iron: 25, crop: 0 },
        OasisTopology::IronCrop => ValleyDistribution { lumber: 0, clay: 0, iron: 25, crop: 25 },
        OasisTopology::Crop => ValleyDistribution { lumber: 0, clay: 0, iron: 0, crop: 25 },
        OasisTopology::Crop50 => ValleyDistribution { lumber: 0, clay: 0, iron: 0, crop: 50 },
    }
}

pub open spec fn spec_valley_distribution(v: ValleyTopology) -> ValleyDistribution {
    ValleyDistribution { lumber: v.lumber, clay: v.clay, iron: v.iron, crop: v.crop }
}

/// The field counts of a valley.
pub fn valley_distribution(v: ValleyTopology) -> (d: ValleyDistribution)
    ensures
        d == spec_valley_distribution(v),
{
    ValleyDistribution { lumber: v.lumber, clay: v.clay, iron: v.iron, crop: v.crop }
}

/// An oasis is an oasis; a valley is a village once a village stands on it.
pub open spec fn spec_tile_type(field: MapField) -> TileType {
    match field.topology {
        MapFieldTopology::Oasis(_) => TileType::Oasis,
        MapFieldTopology::Valley(_) => if field.village_id is Some {
            TileType::Village
        } else {
            TileType::Valley
        },
    }
}

/// Returns the category of a map field.
pub fn tile_type(field: &MapField) -> (t: TileType)
    ensures
        t == spec_tile_type(*field),
{
    match field.topology {
        MapFieldTopology::Oasis(_) => TileType::Oasis,
        MapFieldTopology::Valley(_) => if field.village_id.is_some() {
            TileType::Village
        } else {
            TileType::Valley
        },
    }
}

/// A map field with what the region listing tells of its village and owner.
#[derive(Debug, Clone)]
pub struct MapRegionTile {
    pub field: MapField,
    pub village_name: Option<String>,
    pub village_population: Option<i32>,
    pub is_capital: Option<bool>,
    pub player_name: Option<String>,
    pub tribe: Option<Tribe>,
}

/// One tile of a map region answer.
#[derive(Debug, Clone)]
pub struct MapTileResponse {
    pub x: i32,
    pub y: i32,
    pub field_id: u32,
    pub village_id: Option<u32>,
    pub player_id: Option<u128>,
    pub village_name: Option<String>,
    pub village_population: Option<i32>,
    pub is_capital: Option<bool>,
    pub player_name: Option<String>,
    pub tribe: Option<String>,
    pub tile_type: TileType,
    pub valley: Option<ValleyDistribution>,
    pub oasis: Option<String>,
}

/// The valley distribution shown for a field: that of its valley, if it is one.
pub open spec fn field_valley(field: MapField) -> Option<ValleyDistribution> {
    match field.topology {
        MapFieldTopology::Valley(v) => Some(spec_valley_distribution(v)),
        MapFieldTopology::Oasis(_) => None,
    }
}

/// An optional text matches the optional name it was made from.
pub open spec fn names_opt<T>(s: Option<String>, source: Option<T>, name: spec_fn(T) -> Seq<char>) -> bool {
    match source {
        Some(t) => s matches Some(v) && v@ == name(t),
        None => s is None,
    }
}

/// `resp` is the tile answer for `tile`.
pub open spec fn is_tile_response(tile: MapRegionTile, resp: MapTileResponse) -> bool {
    let field = tile.field;
    &&& resp.x == field.position.x
    &&& resp.y == field.position.y
    &&& resp.field_id == field.id
    &&& resp.village_id == field.village_id
    &&& resp.player_id == field.player_id
    &&& resp.village_name == tile.village_name
    &&& resp.village_population == tile.village_population
    &&& resp.is_capital == tile.is_capital
    &&& resp.player_name == tile.player_name
    &&& names_opt(resp.tribe, tile.tribe, |t: Tribe| spec_tribe_key(t))
    &&& resp.tile_type == spec_tile_type(field)
    &&& resp.valley == field_valley(field)
    &&& names_opt(
        resp.oasis,
        match field.topology {
            MapFieldTopology::Oasis(o) => Some(o),
            MapFieldTopology::Valley(_) => None,
        },
        |o: OasisTopology| spec_oasis_key(o),
    )
}

/// Builds the tile answer for a map region tile.
pub fn map_tile_response(tile: MapRegionTile) -> (r: MapTileResponse)
    ensures
        is_tile_response(tile, r),
{
    let field = tile.field;
    let (valley, oasis) = match field.topology {
        MapFieldTopology::Oasis(o) => (None, Some(oasis_key(o))),
        MapFieldTopology::Valley(v) => (Some(valley_distribution(v)), None),
    };
    let tribe = match tile.tribe {
        Some(t) => Some(tribe_key(t)),
        None => None,
    };
    MapTileResponse {
        x: field.position.x,
        y: field.position.y,
        field_id: field.id,
        village_id: field.village_id,
        player_id: field.player_id,
        village_name: tile.village_name,
        village_population: tile.village_population,
        is_capital: tile.is_capital,
        player_name: tile.player_name,
        tribe,
        tile_type: tile_type(&field),
        valley,
        oasis,
    }
}

/// A map region answer.
#[derive(Debug, Clone)]
pub struct MapRegionResponse {
    pub center: MapPoint,
    pub radius: i32,
    pub tiles: Vec<MapTileResponse>,
}

/// Builds the map region answer from the tiles around `center`.
pub fn map_region_response(center: MapPoint, tiles: Vec<MapRegionTile>) -> (r: MapRegionResponse)
    ensures
        r.center == center,
        r.radius == MAP_REGION_RADIUS,
        r.tiles@.len() == tiles@.len(),
        forall|i: int| 0 <= i < tiles@.len() ==> is_tile_response(tiles@[i], #[trigger] r.tiles@[i]),
{
    let mut out: Vec<MapTileResponse> = Vec::new();
    for tile in it: tiles
        invariant
            out@.len() == it.index(),
            it.seq() == tiles@,
            forall|i: int| 0 <= i < out@.len() ==> is_tile_response(tiles@[i], #[trigger] out@[i]),
    {
        out.push(map_tile_response(tile));
    }
    MapRegionResponse { center, radius: MAP_REGION_RADIUS, tiles: out }
}

/// Settlers that must be at home before a founding can be previewed.
pub const SETTLERS_FOR_FOUNDING: u32 = 3;

/// Resources (of each kind) needed to found a village.
pub const FOUNDING_COST_EACH: u32 = 800;

/// What the founding preview depends on besides the field.
#[derive(Debug, Clone, Copy)]
pub struct FoundingContext {
    /// Settlers of the current village at home.
    pub settlers_at_home: u32,
    /// Resources stored in the current village.
    pub stocks: ResourceGroup,
    /// The player's culture points and those the next village requires, when known.
    pub culture: Option<(u32, u32)>,
    /// Villages the current village may found.
    pub max_foundation_slots: u8,
    /// Villages already founded from the current village, when known.
    pub child_villages: Option<usize>,
}

/// Villages founded from `parent` among the first `n` of `villages`.
pub open spec fn count_children(villages: Seq<Village>, parent: u32, n: nat) -> nat
    decreases n,
{
    if n == 0 {
        0
    } else {
        count_children(villages, parent, (n - 1) as nat) + if villages[n - 1].parent_village_id == Some(parent) {
            1nat
        } else {
            0nat
        }
    }
}

/// Counts the villages founded from village `parent`.
pub fn child_village_count(villages: &Vec<Village>, parent: u32) -> (r: usize)
    ensures
        r == count_children(villages@, parent, villages@.len()),
{
    let mut count: usize = 0;
    let mut i: usize = 0;
    while i < villages.len()
        invariant
            i <= villages.len(),
            count == count_children(villages@, parent, i as nat),
            count <= i,
        decreases villages.len() - i,
    {
        if villages[i].parent_village_id == Some(parent) {
            count = count + 1;
        }
        i = i + 1;
    }
    count
}

/// A village may be founded from the map field: an empty valley, three
/// settlers at home, a rally point, 800 of each resource, enough culture
/// points and a free foundation slot (the child count taken as a byte).
pub open spec fn spec_can_preview_founding(field: MapField, has_rally_point: bool, ctx: FoundingContext) -> bool {
    let children = match ctx.child_villages {
        Some(n) => n,
        None => 0,
    };
    &&& spec_tile_type(field) == TileType::Valley
    &&& field.village_id is None
    &&& ctx.settlers_at_home >= SETTLERS_FOR_FOUNDING
    &&& has_rally_point
    &&& covers(
        ctx.stocks,
        ResourceGroup {
            lumber: FOUNDING_COST_EACH,
            clay: FOUNDING_COST_EACH,
            iron: FOUNDING_COST_EACH,
            crop: FOUNDING_COST_EACH,
        },
    )
    &&& ctx.culture matches Some((points, required)) && points >= required
    &&& children % 256 < ctx.max_foundation_slots
}

/// Whether the founding preview is offered on a field.
pub fn can_preview_founding(field: &MapField, has_rally_point: bool, ctx: &FoundingContext) -> (r: bool)
    ensures
        r == spec_can_preview_founding(*field, has_rally_point, *ctx),
{
    if !(tile_type(field) == TileType::Valley && field.village_id.is_none()) {
        return false;
    }
    let cost = ResourceGroup {
        lumber: FOUNDING_COST_EACH,
        clay: FOUNDING_COST_EACH,
        iron: FOUNDING_COST_EACH,
        crop: FOUNDING_COST_EACH,
    };
    let cp_ok = match ctx.culture {
        Some((points, required)) => points >= required,
        None => false,
    };
    let children: usize = match ctx.child_villages {
        Some(n) => n,
        None => 0,
    };
    let children_byte: u8 = (children % 256) as u8;
    let free_slot = ctx.max_foundation_slots > children_byte;
    ctx.settlers_at_home >= SETTLERS_FOR_FOUNDING && has_rally_point && has_enough_resources(&ctx.stocks, &cost)
        && cp_ok && free_slot
}

/// Details of one map field.
#[derive(Debug, Clone)]
pub struct MapFieldDetailResponse {
    pub id: u32,
    pub x: i32,
    pub y: i32,
    pub tile_type: TileType,
    pub village_id: Option<u32>,
    pub player_id: Option<u128>,
    pub village_name: Option<String>,
    pub player_name: Option<String>,
    pub village_population: Option<i32>,
    pub is_capital: Option<bool>,
    pub valley: Option<ValleyDistribution>,
    pub oasis: Option<String>,
    pub oasis_bonus: Option<ValleyDistribution>,
    pub can_preview_founding: bool,
    pub has_marketplace: bool,
    pub has_rally_point: bool,
    pub marketplace_slot_id: Option<u8>,
    pub rally_point_slot_id: Option<u8>,
}

/// The slot of the first building named `name`, if any.
pub open spec fn first_slot_named(buildings: Seq<crate::model::VillageBuilding>, name: BuildingName) -> Option<u8> {
    if has_building_named(buildings, name) {
        Some(buildings[choose|i: int| is_first_named(buildings, name, i)].slot_id)
    } else {
        None
    }
}

proof fn lemma_first_named_unique(buildings: Seq<crate::model::VillageBuilding>, name: BuildingName, i: int, k: int)
    requires
        is_first_named(buildings, name, i),
        is_first_named(buildings, name, k),
    ensures
        i == k,
{
    if i < k {
        assert(buildings[i].name != name);
    } else if k < i {
        assert(buildings[k].name != name);
    }
}

fn slot_named(buildings: &Vec<crate::model::VillageBuilding>, name: BuildingName) -> (r: Option<u8>)
    ensures
        r == first_slot_named(buildings@, name),
{
    match building_by_name(buildings, name) {
        Some(b) => {
            proof {
                let i = choose|i: int| is_first_named(buildings@, name, i) && b == #[trigger] buildings@[i];
                let k = choose|k: int| is_first_named(buildings@, name, k);
                lemma_first_named_unique(buildings@, name, i, k);
            }
            Some(b.slot_id)
        },
        None => None,
    }
}

/// An optional field of the region tile, when the tile is known.
pub open spec fn tile_part<T>(tile: Option<MapRegionTile>, part: spec_fn(MapRegionTile) -> Option<T>) -> Option<T> {
    match tile {
        Some(t) => part(t),
        None => None,
    }
}

/// Builds the details of a map field for the current village: what lies on
/// it, the oasis bonus, the village's marketplace and rally point, and
/// whether founding a village there can be previewed.
pub fn map_field_detail(
    field: &MapField,
    region_tile: Option<MapRegionTile>,
    buildings: &Vec<crate::model::VillageBuilding>,
    founding: &FoundingContext,
) -> (r: MapFieldDetailResponse)
    ensures
        r.id == field.id,
        r.x == field.position.x,
        r.y == field.position.y,
        r.tile_type == spec_tile_type(*field),
        r.village_id == field.village_id,
        r.player_id == field.player_id,
        r.village_name == tile_part(region_tile, |t: MapRegionTile| t.village_name),
        r.player_name == tile_part(region_tile, |t: MapRegionTile| t.player_name),
        r.village_population == tile_part(region_tile, |t: MapRegionTile| t.village_population),
        r.is_capital == tile_part(region_tile, |t: MapRegionTile| t.is_capital),
        r.valley == field_valley(*field),
        match field.topology {
            MapFieldTopology::Oasis(o) => r.oasis matches Some(s) && s@ == spec_oasis_key(o) && r.oasis_bonus
                == Some(spec_oasis_bonus(o)),
            MapFieldTopology::Valley(_) => r.oasis is None && r.oasis_bonus is None,
        },
        r.marketplace_slot_id == first_slot_named(buildings@, BuildingName::Marketplace),
        r.rally_point_slot_id == first_slot_named(buildings@, BuildingName::RallyPoint),
        r.has_marketplace == has_building_named(buildings@, BuildingName::Marketplace),
        r.has_rally_point == has_building_named(buildings@, BuildingName::RallyPoint),
        r.can_preview_founding == spec_can_preview_founding(
            *field,
            has_building_named(buildings@, BuildingName::RallyPoint),
            *founding,
        ),
{
    let (valley, oasis, bonus) = match field.topology {
        MapFieldTopology::Oasis(o) => (None, Some(oasis_key(o)), Some(oasis_bonus(o))),
        MapFieldTopology::Valley(v) => (Some(valley_distribution(v)), None, None),
    };
    let marketplace_slot_id = slot_named(buildings, BuildingName::Marketplace);
    let rally_point_slot_id = slot_named(buildings, BuildingName::RallyPoint);
    let has_rally_point = rally_point_slot_id.is_some();
    let (village_name, player_name, village_population, is_capital) = match region_tile {
        Some(t) => (t.village_name, t.player_name, t.village_population, t.is_capital),
        None => (None, None, None, None),
    };
    MapFieldDetailResponse {
        id: field.id,
        x: field.position.x,
        y: field.position.y,
        tile_type: tile_type(field),
        village_id: field.village_id,
        player_id: field.player_id,
        village_name,
        player_name,
        village_population,
        is_capital,
        valley,
        oasis,
        oasis_bonus: bonus,
        can_preview_founding: can_preview_founding(field, has_rally_point, founding),
        has_marketplace: marketplace_slot_id.is_some(),
        has_rally_point,
        marketplace_slot_id,
        rally_point_slot_id,
    }
}

/// Euclidean remainder of a negative number from that of its opposite.
proof fn lemma_negative_rem(a: int, m: int)
    requires
        m > 0,
        a < 0,
    ensures
        (-a) % m == 0 ==> a % m == 0,
        (-a) % m != 0 ==> a % m == m - (-a) % m,
{
    let k = (-a) % m;
    let q = (-a) / m;
    vstd::arithmetic::div_mod::lemma_fundamental_div_mod(-a, m);
    if k == 0 {
        assert(a == (-q) * m) by (nonlinear_arith)
            requires
                -a == m * q + k,
                k == 0,
        ;
        vstd::arithmetic::div_mod::lemma_fundamental_div_mod_converse(a, m, -q, 0);
    } else {
        assert(a == (-q - 1) * m + (m - k)) by (nonlinear_arith)
            requires
                -a == m * q + k,
        ;
        vstd::arithmetic::div_mod::lemma_fundamental_div_mod_converse(a, m, -q - 1, m - k);
    }
}

} // verus!
