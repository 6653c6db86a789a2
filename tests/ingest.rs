use railway_instance::locate::{
    has_suffix, locate_documents, select_document, Defect, DocumentIndices, LoadError,
};
use railway_instance::problem::{
    first_inconsistent_position, first_inconsistent_resource, read, Block, BlockResource,
    BlockType, CurrentPosition, LineMovements, Slowdown, StationMovements, Status,
    TrackBlockResource, TrackCircuitPosition, TrackMovement, TrackRuntimeInfo, Train,
    TrainInfo, TrainInfos, TrainLineMovements, TrainPosition,
};
use std::collections::HashMap;

fn names(v: &[&str]) -> Vec<String> {
    v.iter().map(|s| s.to_string()).collect()
}

#[test]
fn missing_station_movements_is_missing_document() {
    let n = names(&["a_status.json", "a_TrainInfo.json", "a_LineMovements.json"]);
    let r = select_document(&n, &"StationMovements.json".to_string());
    assert_eq!(r, Err(LoadError::MissingDocument("StationMovements.json".to_string())));
}

#[test]
fn unique_match_is_selected() {
    let n = names(&["a_status.json", "a_LineMovements.json", "a_StationMovements.json"]);
    assert_eq!(select_document(&n, &"StationMovements.json".to_string()), Ok(2));
    assert!(has_suffix(&"x_status.json".to_string(), &"status.json".to_string()));
    assert!(!has_suffix(&"json".to_string(), &"status.json".to_string()));
}

#[test]
fn two_matches_are_ambiguous() {
    let n = names(&["a_status.json", "b_status.json"]);
    assert_eq!(
        select_document(&n, &"status.json".to_string()),
        Err(LoadError::AmbiguousDocument("status.json".to_string()))
    );
}

fn empty_status() -> Status {
    Status {
        now: 0,
        trains: vec![],
        lined_routes: vec![],
        blocks: vec![],
        slowdowns: vec![],
        dispatcher_solved_conflicts: vec![],
    }
}

fn no_lines() -> LineMovements {
    LineMovements { line_movements: HashMap::new() }
}

fn no_stations() -> StationMovements {
    StationMovements { train_movements: HashMap::new() }
}

fn catalog(keys: &[&str]) -> TrainInfos {
    let mut m = HashMap::new();
    for k in keys {
        m.insert(
            k.to_string(),
            TrainInfo {
                category: k.to_string(),
                priority: 1,
                default_length: 100,
                speed: 80,
                line_point_headway: 60,
                followers: None,
                crossings: None,
            },
        );
    }
    TrainInfos { train_infos: m }
}

fn track_resource(id: &str) -> BlockResource {
    BlockResource {
        station_resource: None,
        track_resource: Some(TrackBlockResource { track_id: id.to_string() }),
    }
}

fn train(id: &str, category: Option<&str>, positions: Vec<TrainPosition>) -> Train {
    Train {
        id: id.to_string(),
        train_positions: positions,
        train_mode: "NORMAL".to_string(),
        train_hold_main: false,
        current_length: 200,
        train_category: category.map(|c| c.to_string()),
    }
}

fn track_position(time_in: i64) -> TrainPosition {
    TrainPosition {
        current_position: CurrentPosition::Track,
        time_in,
        station_position: None,
        track_circuit_position: Some(TrackCircuitPosition {
            track_id: "T1".to_string(),
            track_circuit_id: "C1".to_string(),
        }),
    }
}

fn movement(runtime_infos: Vec<TrackRuntimeInfo>) -> TrackMovement {
    TrackMovement {
        station_id: "S".to_string(),
        track_circuit_infos: None,
        reachable_track_ids: None,
        track_runtime_infos: runtime_infos,
        min_cumulative_runtime: 0,
        min_cumulative_runtimes: None,
        best_out_track_id: "T2".to_string(),
        correct_path_id: None,
        min_reverse_switches: 0,
        min_reverse_switches_by_track: None,
        preferred_out_track_id: None,
        min_non_preferred: 0,
        min_non_preferred_by_track: None,
        distance_from_mandatory_non_preferred: None,
        available_mask: 5,
    }
}

#[test]
fn empty_status_is_a_valid_problem() {
    let p = read(empty_status(), catalog(&[]), no_lines(), no_stations()).unwrap();
    assert_eq!(p.status.trains.len(), 0);
    assert!(p.status.blocks.is_empty());
    assert!(p.status.slowdowns.is_empty());
}

#[test]
fn known_category_is_accepted() {
    let mut s = empty_status();
    s.now = 42;
    s.trains.push(train("A", Some("IC"), vec![track_position(1)]));
    s.trains.push(train("B", None, vec![]));
    let p = read(s, catalog(&["IC"]), no_lines(), no_stations()).unwrap();
    assert_eq!(p.status.now, 42);
    assert_eq!(p.status.trains[0].id, "A");
    assert_eq!(p.status.trains[1].id, "B");
}

#[test]
fn dangling_category_is_reference_violation() {
    let mut s = empty_status();
    s.trains.push(train("A", Some("IC"), vec![]));
    s.trains.push(train("B", Some("FR"), vec![]));
    let r = read(s, catalog(&["IC"]), no_lines(), no_stations());
    assert_eq!(r.err(), Some(LoadError::ReferenceViolation("FR".to_string())));
}

#[test]
fn bad_position_is_schema_violation() {
    let mut s = empty_status();
    let mut bad = track_position(3);
    bad.track_circuit_position = None;
    s.trains.push(train("A", None, vec![track_position(1), bad]));
    let r = read(s, catalog(&[]), no_lines(), no_stations());
    assert_eq!(
        r.err(),
        Some(LoadError::SchemaViolation(Defect::PositionPayload { train: 0, position: 1 }))
    );
}

fn block(id: &str, resources: Vec<BlockResource>) -> Block {
    Block {
        block_id: id.to_string(),
        start_time: 10,
        duration: 20,
        block_type: BlockType::Rolling,
        resources,
        long_term: None,
    }
}

#[test]
fn block_without_resources_is_schema_violation() {
    let mut s = empty_status();
    s.blocks.push(block("B0", vec![track_resource("T")]));
    s.blocks.push(block("B1", vec![]));
    let r = read(s, catalog(&[]), no_lines(), no_stations());
    assert_eq!(
        r.err(),
        Some(LoadError::SchemaViolation(Defect::EmptyBlockResources { block: 1 }))
    );
}

#[test]
fn block_resource_with_both_variants_is_schema_violation() {
    let mut s = empty_status();
    let mut both = track_resource("T");
    both.station_resource = Some(railway_instance::problem::StationBlockResource {
        station_id: "S".to_string(),
        route_id: None,
        stopping_point_id: None,
    });
    s.blocks.push(block("B0", vec![track_resource("T"), both]));
    let r = read(s, catalog(&[]), no_lines(), no_stations());
    assert_eq!(
        r.err(),
        Some(LoadError::SchemaViolation(Defect::BlockResourceVariant { block: 0, resource: 1 }))
    );
}

#[test]
fn slowdown_resource_without_variant_is_schema_violation() {
    let mut s = empty_status();
    s.slowdowns.push(Slowdown {
        slowdown_id: "D".to_string(),
        start_time: 0,
        duration: 5,
        speed: 30,
        resources: Some(vec![BlockResource { station_resource: None, track_resource: None }]),
        description: "works".to_string(),
    });
    let r = read(s, catalog(&[]), no_lines(), no_stations());
    assert_eq!(
        r.err(),
        Some(LoadError::SchemaViolation(Defect::SlowdownResourceVariant {
            slowdown: 0,
            resource: 0
        }))
    );
}

#[test]
fn movement_without_runtime_infos_is_schema_violation() {
    let mut tracks = HashMap::new();
    tracks.insert("T1".to_string(), movement(vec![]));
    let mut lines = HashMap::new();
    lines.insert("A".to_string(), TrainLineMovements { track_movements: Some(tracks) });
    let r = read(empty_status(), catalog(&[]), LineMovements { line_movements: lines }, no_stations());
    assert_eq!(
        r.err(),
        Some(LoadError::SchemaViolation(Defect::EmptyRuntimeInfos {
            train: "A".to_string(),
            track: "T1".to_string()
        }))
    );
}

#[test]
fn movement_with_runtime_infos_is_accepted() {
    let info = TrackRuntimeInfo {
        track_running_time: 30,
        line_headway: 60,
        track_circuit_running_times: vec![],
        reverse_track_running_time: None,
        reverse_track_circuit_running_times: None,
    };
    let mut tracks = HashMap::new();
    tracks.insert("T1".to_string(), movement(vec![info]));
    let mut lines = HashMap::new();
    lines.insert("A".to_string(), TrainLineMovements { track_movements: Some(tracks) });
    lines.insert("B".to_string(), TrainLineMovements { track_movements: None });
    let p = read(empty_status(), catalog(&[]), LineMovements { line_movements: lines }, no_stations())
        .unwrap();
    assert_eq!(p.line_movements.line_movements.len(), 2);
}

#[test]
fn four_documents_are_located() {
    let n = names(&[
        "x_StationMovements.json",
        "x_status.json",
        "x_LineMovements.json",
        "x_TrainInfo.json",
    ]);
    assert_eq!(
        locate_documents(&n),
        Ok(DocumentIndices { status: 1, train_info: 3, line_movements: 2, station_movements: 0 })
    );
}

#[test]
fn first_missing_document_is_reported() {
    let n = names(&["x_status.json", "x_LineMovements.json"]);
    assert_eq!(
        locate_documents(&n),
        Err(LoadError::MissingDocument("TrainInfo.json".to_string()))
    );
}

#[test]
fn track_position_needs_track_payload() {
    let good = TrainPosition {
        current_position: CurrentPosition::Track,
        time_in: 5,
        station_position: None,
        track_circuit_position: Some(TrackCircuitPosition {
            track_id: "T1".to_string(),
            track_circuit_id: "C1".to_string(),
        }),
    };
    let bad = TrainPosition {
        current_position: CurrentPosition::Track,
        time_in: 6,
        station_position: None,
        track_circuit_position: None,
    };
    assert!(good.is_consistent());
    assert!(!bad.is_consistent());
    assert_eq!(first_inconsistent_position(&vec![good, bad]), Some(1));
}

#[test]
fn block_resource_needs_one_variant() {
    let one = BlockResource {
        station_resource: None,
        track_resource: Some(TrackBlockResource { track_id: "T".to_string() }),
    };
    let none = BlockResource { station_resource: None, track_resource: None };
    assert_eq!(first_inconsistent_resource(&vec![one]), None);
    assert_eq!(first_inconsistent_resource(&vec![none]), Some(0));
}
