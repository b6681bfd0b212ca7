use parabellum_web::api::dto::{stats_response, LeaderboardRow};
use parabellum_web::api::game::{
    can_preview_founding, child_village_count, determine_center, ensure_village_available, leaderboard_rank,
    leaderboard_window, map_field_detail, map_region_response, map_tile_response, oasis_bonus, reports_window,
    requested_page, take_report_page, tile_type, wrap_coordinate, wrap_point, FoundingContext, MapPoint,
    MapRegionQuery, MapRegionTile, ReportsQuery, TileType, ValleyDistribution,
};
use parabellum_web::errors::ApiErrorKind;
use parabellum_web::model::{
    BuildingName, MapField, MapFieldTopology, OasisTopology, Position, ProductionRates, ResourceGroup, Tribe,
    ValleyTopology, Village, VillageBuilding,
};

fn village(id: u32, player_id: u128, x: i32, y: i32, parent: Option<u32>) -> Village {
    Village {
        id,
        player_id,
        name: format!("V{id}"),
        position: Position { x, y },
        is_capital: false,
        parent_village_id: parent,
        tribe: Tribe::Gaul,
        buildings: vec![],
        population: 10,
        loyalty: 100,
        warehouse_capacity: 800,
        granary_capacity: 800,
        stocks: ResourceGroup { lumber: 0, clay: 0, iron: 0, crop: 0 },
        production: ProductionRates { lumber: 1, clay: 1, iron: 1, crop: 1 },
    }
}

fn valley_field(village_id: Option<u32>) -> MapField {
    MapField {
        id: 42,
        position: Position { x: 3, y: -4 },
        village_id,
        player_id: None,
        topology: MapFieldTopology::Valley(ValleyTopology { lumber: 4, clay: 4, iron: 4, crop: 6 }),
    }
}

fn ready_context() -> FoundingContext {
    FoundingContext {
        settlers_at_home: 3,
        stocks: ResourceGroup { lumber: 800, clay: 800, iron: 800, crop: 800 },
        culture: Some((500, 500)),
        max_foundation_slots: 1,
        child_villages: Some(0),
    }
}

#[test]
fn wrap_coordinate_brings_values_into_the_world() {
    assert_eq!(wrap_coordinate(0, 100), 0);
    assert_eq!(wrap_coordinate(100, 100), 100);
    assert_eq!(wrap_coordinate(101, 100), -100);
    assert_eq!(wrap_coordinate(-101, 100), 100);
    assert_eq!(wrap_coordinate(-305, 100), 97);
    assert_eq!(wrap_coordinate(5, 0), 5);
    assert_eq!(wrap_coordinate(wrap_coordinate(350, 100), 100), wrap_coordinate(350, 100));
}

#[test]
fn wrap_point_wraps_both_axes() {
    let p = wrap_point(MapPoint { x: 201, y: -201 }, 100);
    assert_eq!(p, MapPoint { x: 0, y: 0 });
}

#[test]
fn center_comes_from_village_coordinates_or_current() {
    let villages = vec![village(1, 9, 5, 6, None), village(2, 9, -3, 8, None)];
    let current = Position { x: 1, y: 1 };
    let q = MapRegionQuery { x: None, y: None, village_id: Some(2) };
    assert_eq!(determine_center(&villages, current, &q).unwrap(), MapPoint { x: -3, y: 8 });
    let q = MapRegionQuery { x: None, y: None, village_id: Some(7) };
    let err = determine_center(&villages, current, &q).unwrap_err();
    assert_eq!(err.kind, ApiErrorKind::BadRequest);
    assert_eq!(err.message, "Unknown village id for current player");
    let q = MapRegionQuery { x: Some(4), y: Some(5), village_id: None };
    assert_eq!(determine_center(&villages, current, &q).unwrap(), MapPoint { x: 4, y: 5 });
    let q = MapRegionQuery { x: None, y: None, village_id: None };
    assert_eq!(determine_center(&villages, current, &q).unwrap(), MapPoint { x: 1, y: 1 });
    let q = MapRegionQuery { x: Some(4), y: None, village_id: None };
    assert_eq!(determine_center(&villages, current, &q).unwrap_err().message, "Both x and y coordinates are required");
}

#[test]
fn switching_needs_own_village() {
    let villages = vec![village(1, 9, 0, 0, None), village(2, 8, 0, 0, None)];
    assert!(ensure_village_available(&villages, 1, 9).is_ok());
    let err = ensure_village_available(&villages, 2, 9).unwrap_err();
    assert_eq!(err.kind, ApiErrorKind::NotFound);
    assert_eq!(err.message, "Village not available for the current player");
}

#[test]
fn leaderboard_pages_clamp_to_last() {
    assert_eq!(requested_page(None), 1);
    assert_eq!(requested_page(Some(-3)), 1);
    let w = leaderboard_window(9, 45);
    assert_eq!(w.total_pages, 3);
    assert_eq!(w.page, 3);
    let w = leaderboard_window(2, 0);
    assert_eq!(w.total_pages, 1);
    assert_eq!(w.page, 2);
    assert_eq!(leaderboard_rank(3, 4), 45);
}

#[test]
fn report_pages_default_and_clamp() {
    let w = reports_window(&ReportsQuery { page: None, per_page: None });
    assert_eq!((w.page, w.per_page, w.offset), (1, 50, 0));
    let w = reports_window(&ReportsQuery { page: Some(3), per_page: Some(500) });
    assert_eq!((w.page, w.per_page, w.offset), (3, 100, 200));
    assert_eq!(w.fetch_limit, 101);
    let w = reports_window(&ReportsQuery { page: Some(0), per_page: Some(0) });
    assert_eq!((w.page, w.per_page, w.offset), (1, 1, 0));
    let (page, more) = take_report_page(vec![1, 2, 3], 2);
    assert_eq!(page, vec![1, 2]);
    assert!(more);
    let (page, more) = take_report_page(vec![1, 2], 2);
    assert_eq!(page, vec![1, 2]);
    assert!(!more);
}

#[test]
fn tiles_tell_villages_valleys_and_oases() {
    assert_eq!(tile_type(&valley_field(None)), TileType::Valley);
    assert_eq!(tile_type(&valley_field(Some(1))), TileType::Village);
    let oasis = MapField { topology: MapFieldTopology::Oasis(OasisTopology::IronCrop), ..valley_field(None) };
    assert_eq!(tile_type(&oasis), TileType::Oasis);
    assert_eq!(oasis_bonus(OasisTopology::Crop50), ValleyDistribution { lumber: 0, clay: 0, iron: 0, crop: 50 });
    assert_eq!(oasis_bonus(OasisTopology::IronCrop), ValleyDistribution { lumber: 0, clay: 0, iron: 25, crop: 25 });
}

#[test]
fn region_tiles_carry_field_and_tile_data() {
    let tile = MapRegionTile {
        field: MapField { topology: MapFieldTopology::Oasis(OasisTopology::LumberCrop), ..valley_field(None) },
        village_name: None,
        village_population: None,
        is_capital: None,
        player_name: Some("Bo".to_string()),
        tribe: Some(Tribe::Teuton),
    };
    let r = map_tile_response(tile.clone());
    assert_eq!((r.x, r.y, r.field_id), (3, -4, 42));
    assert_eq!(r.tile_type, TileType::Oasis);
    assert_eq!(r.oasis.as_deref(), Some("LumberCrop"));
    assert_eq!(r.tribe.as_deref(), Some("Teuton"));
    assert_eq!(r.player_name.as_deref(), Some("Bo"));
    assert!(r.valley.is_none());
    let region = map_region_response(MapPoint { x: 0, y: 0 }, vec![tile]);
    assert_eq!(region.radius, 7);
    assert_eq!(region.tiles.len(), 1);
}

#[test]
fn founding_preview_needs_everything_ready() {
    let field = valley_field(None);
    assert!(can_preview_founding(&field, true, &ready_context()));
    assert!(!can_preview_founding(&field, false, &ready_context()));
    let poor = FoundingContext { stocks: ResourceGroup { lumber: 799, clay: 800, iron: 800, crop: 800 }, ..ready_context() };
    assert!(!can_preview_founding(&field, true, &poor));
    let full = FoundingContext { child_villages: Some(1), ..ready_context() };
    assert!(!can_preview_founding(&field, true, &full));
    let unknown_cp = FoundingContext { culture: None, ..ready_context() };
    assert!(!can_preview_founding(&field, true, &unknown_cp));
    assert!(!can_preview_founding(&valley_field(Some(3)), true, &ready_context()));
}

#[test]
fn children_are_counted_by_parent() {
    let villages = vec![village(1, 9, 0, 0, None), village(2, 9, 0, 0, Some(1)), village(3, 9, 0, 0, Some(1)), village(4, 9, 0, 0, Some(2))];
    assert_eq!(child_village_count(&villages, 1), 2);
    assert_eq!(child_village_count(&villages, 4), 0);
}

#[test]
fn field_detail_shows_marketplace_and_rally_point() {
    let buildings = vec![
        VillageBuilding { slot_id: 39, name: BuildingName::RallyPoint, level: 1 },
        VillageBuilding { slot_id: 30, name: BuildingName::Marketplace, level: 1 },
    ];
    let d = map_field_detail(&valley_field(None), None, &buildings, &ready_context());
    assert_eq!(d.tile_type, TileType::Valley);
    assert_eq!(d.marketplace_slot_id, Some(30));
    assert_eq!(d.rally_point_slot_id, Some(39));
    assert!(d.has_marketplace && d.has_rally_point);
    assert!(d.can_preview_founding);
    assert_eq!(d.valley, Some(ValleyDistribution { lumber: 4, clay: 4, iron: 4, crop: 6 }));
    let d = map_field_detail(&valley_field(None), None, &vec![], &ready_context());
    assert!(!d.can_preview_founding);
    assert_eq!(d.rally_point_slot_id, None);
}

#[test]
fn profile_villages_carry_their_distance() {
    let mut v = village(9, 3, 4, -5, None);
    v.is_capital = true;
    v.population = 321;
    let dto = parabellum_web::api::dto::player_village_dto(&v, 17);
    assert_eq!(dto.village_id, 9);
    assert_eq!(dto.name, "V9");
    assert_eq!((dto.x, dto.y), (4, -5));
    assert!(dto.is_capital);
    assert_eq!(dto.population, 321);
    assert_eq!(dto.distance_from_current, 17);
}

#[test]
fn coordinates_near_the_integer_limits_wrap() {
    assert_eq!(wrap_coordinate(i32::MAX, 10), ((i32::MAX as i64 + 10).rem_euclid(21) - 10) as i32);
    assert_eq!(wrap_coordinate(i32::MIN, 10), ((i32::MIN as i64 + 10).rem_euclid(21) - 10) as i32);
    assert_eq!(wrap_coordinate(5, i32::MAX), 5);
    assert_eq!(wrap_coordinate(-3, 0), -3);
}

#[test]
fn leaderboard_answers_any_page_without_rows() {
    let empty = stats_response(7, &vec![], i64::MAX, 0, 1);
    assert!(empty.entries.is_empty());
    assert_eq!((empty.pagination.page, empty.pagination.total_pages, empty.pagination.per_page), (i64::MAX, 1, 20));
    let rows = vec![
        LeaderboardRow { player_id: 1, username: "a".to_string(), tribe: Tribe::Roman, village_count: 2, population: 90 },
        LeaderboardRow { player_id: 2, username: "b".to_string(), tribe: Tribe::Gaul, village_count: 1, population: 40 },
    ];
    let page = stats_response(7, &rows, 3, 42, 3);
    assert_eq!((page.entries[0].rank, page.entries[1].rank), (41, 42));
    assert_eq!(page.entries[1].tribe, "Gaul");
}
