use std::collections::HashMap;

use vstd::prelude::*;

use crate::locate::{Defect, LoadError};

verus! {

#[derive(Debug)]
pub struct Problem {
    pub status: Status,
    pub train_info: TrainInfos,
    pub line_movements: LineMovements,
    pub station_movements: StationMovements,
}

#[derive(Debug)]
pub struct Status {
    pub now: i64,
    pub trains: Vec<Train>,
    pub lined_routes: Vec<LinedRoute>,
    pub blocks: Vec<Block>,
    pub slowdowns: Vec<Slowdown>,
    pub dispatcher_solved_conflicts: Vec<()>,
}

#[derive(Debug)]
pub struct Train {
    pub id: String,
    pub train_positions: Vec<TrainPosition>,
    pub train_mode: String,
    pub train_hold_main: bool,
    pub current_length: i64,
    pub train_category: Option<String>,
}

#[derive(Debug, Clone, Copy, PartialEq, Eq, Structural)]
pub enum CurrentPosition {
    Track,
    StationStoppingPoint,
    StationRoute,
    Predicted,
}

#[derive(Debug)]
pub struct TrainPosition {
    pub current_position: CurrentPosition,
    pub time_in: i64,
    pub station_position: Option<StationPosition>,
    pub track_circuit_position: Option<TrackCircuitPosition>,
}

#[derive(Debug)]
pub struct StationPosition {
    pub station_id: String,
    pub stopping_point_id: Option<String>,
    pub route_id: Option<String>,
}

#[derive(Debug)]
pub struct TrackCircuitPosition {
    pub track_id: String,
    pub track_circuit_id: String,
}

#[derive(Debug)]
pub struct LinedRoute {
    pub station_id: String,
    pub route_id: String,
    pub train_id: String,
    pub type_: Option<String>,
}

#[derive(Debug, Clone, Copy, PartialEq, Eq, Structural)]
pub enum BlockType {
    Rolling,
    Countdown,
}

#[derive(Debug)]
pub struct Block {
    pub block_id: String,
    pub start_time: i64,
    pub duration: i64,
    pub block_type: BlockType,
    pub resources: Vec<BlockResource>,
    pub long_term: Option<bool>,
}

#[derive(Debug)]
pub struct BlockResource {
    pub station_resource: Option<StationBlockResource>,
    pub track_resource: Option<TrackBlockResource>,
}

#[derive(Debug)]
pub struct StationBlockResource {
    pub station_id: String,
    pub route_id: Option<String>,
    pub stopping_point_id: Option<String>,
}

#[derive(Debug)]
pub struct TrackBlockResource {
    pub track_id: String,
}

#[derive(Debug)]
pub struct Slowdown {
    pub slowdown_id: String,
    pub start_time: i64,
    pub duration: i64,
    pub speed: i64,
    pub resources: Option<Vec<BlockResource>>,
    pub description: String,
}

#[derive(Debug)]
pub struct TrainInfos {
    pub train_infos: HashMap<String, TrainInfo>,
}

#[derive(Debug)]
pub struct TrainInfo {
    pub category: String,
    pub priority: i64,
    pub default_length: i64,
    pub speed: i64,
    pub line_point_headway: i64,
    pub followers: Option<Vec<String>>,
    pub crossings: Option<Vec<String>>,
}

#[derive(Debug)]
pub struct LineMovements {
    pub line_movements: HashMap<String, TrainLineMovements>,
}

#[derive(Debug)]
pub struct TrainLineMovements {
    pub track_movements: Option<HashMap<String, TrackMovement>>,
}

#[derive(Debug)]
pub struct TrackMovement {
    pub station_id: String,
    pub track_circuit_infos: Option<Vec<TrackCircuitInfo>>,
    pub reachable_track_ids: Option<Vec<String>>,
    pub track_runtime_infos: Vec<TrackRuntimeInfo>,
    pub min_cumulative_runtime: i64,
    pub min_cumulative_runtimes: Option<HashMap<String, i64>>,
    pub best_out_track_id: String,
    pub correct_path_id: Option<String>,
    pub min_reverse_switches: i64,
    pub min_reverse_switches_by_track: Option<HashMap<String, i64>>,
    pub preferred_out_track_id: Option<String>,
    pub min_non_preferred: i64,
    pub min_non_preferred_by_track: Option<HashMap<String, i64>>,
    pub distance_from_mandatory_non_preferred: Option<i64>,
    pub available_mask: i64,
}

#[derive(Debug)]
pub struct TrackRuntimeInfo {
    pub track_running_time: i64,
    pub line_headway: i64,
    pub track_circuit_running_times: Vec<TrackCircuitRunningTime>,
    pub reverse_track_running_time: Option<i64>,
    pub reverse_track_circuit_running_times: Option<Vec<TrackCircuitRunningTime>>,
}

#[derive(Debug)]
pub struct TrackCircuitRunningTime {
    pub track_circuit_id: String,
    pub running_time: i64,
}

#[derive(Debug)]
pub struct TrackCircuitInfo {
    pub track_circuit_id: String,
    pub dwell_time: Option<i64>,
    pub activities: Option<Vec<String>>,
    pub new_projected_length: Option<i64>,
    pub dwell_type: Option<DwellType>,
    pub activity_ids: Option<Vec<usize>>,
    pub penalty: Option<i64>,
    pub end_of_graph: Option<bool>,
    pub earliest_departure_time: Option<i64>,
    pub relative_edt: Option<bool>,
}

#[derive(Debug, Clone, Copy, PartialEq, Eq, Structural)]
pub enum DwellType {
    Activity,
    Pseudo,
}

#[derive(Debug)]
pub struct StationMovements {
    pub train_movements: HashMap<String, TrainStationMovements>,
}

#[derive(Debug)]
pub struct TrainStationMovements {
    pub station_movements: Option<HashMap<String, TrainStationMovement>>,
}

#[derive(Debug)]
pub struct TrainStationMovement {
    pub station_nodes: HashMap<String, StationNode>,
    pub entry_track_ids: Option<Vec<String>>,
}

#[derive(Debug)]
pub struct StationNode {
    pub id: String,
    pub node_type: NodeType,
    pub default_min_cumulative_runtime: i64,
    pub min_cumulative_runtime: Option<HashMap<String, i64>>,
    pub next_edges: Option<Vec<String>>,
    pub min_clearance: Option<i64>,
    pub available_mask: i64,
    pub correct_path: Option<bool>,
    pub dwell_time: Option<i64>,
    pub activities: Option<Vec<String>>,
    pub runtime_info_set: Option<HashMap<String, RuntimeInfoSet>>,
    pub prev_edges: Option<Vec<String>>,
    pub is_preferred: Option<bool>,
    pub activity_ids: Option<Vec<usize>>,
    pub reachable_stopping_points: Option<Vec<String>>,
    pub reachable_tracks: Option<Vec<String>>,
    pub new_projected_length: Option<i64>,
    pub dwell_type: Option<DwellType>,
    pub relative_edt: Option<bool>,
    pub earliest_departure_time: Option<i64>,
    pub end_of_graph: Option<bool>,
    pub penalty: Option<i64>,
}

#[derive(Debug)]
pub struct RuntimeInfoSet {
    pub runtime_infos: Vec<RuntimeInfo>,
}

#[derive(Debug)]
pub struct RuntimeInfo {
    pub running_time: i64,
    pub clearance: i64,
}

#[derive(Debug, Clone, Copy, PartialEq, Eq, Structural)]
pub enum NodeType {
    Track,
    StationRoute,
}

/// Relies on `HashMap::contains_key`: whether `key` is a key of the map.
#[verifier::external_body]
fn has_key<V>(m: &HashMap<String, V>, key: &String) -> (r: bool)
    ensures
        r == m@.contains_key(*key),
{
    m.contains_key(key)
}

/// Relies on `HashMap::iter`: each entry of the map once, in the map's own order.
#[verifier::external_body]
fn entries_of<V>(m: &HashMap<String, V>) -> (r: Vec<(&String, &V)>)
    ensures
        forall|i: int| 0 <= i < r@.len() ==> #[trigger] m@.contains_key(*r@[i].0)
            && m@[*r@[i].0] == *r@[i].1,
        forall|k: String| #[trigger] m@.contains_key(k)
            ==> exists|i: int| 0 <= i < r@.len() && *r@[i].0 == k,
{
    m.iter().collect()
}

/// Every position of `t` agrees with its tag.
pub open spec fn train_is_consistent(t: Train) -> bool {
    forall|j: int| 0 <= j < t.train_positions@.len()
        ==> position_is_consistent(#[trigger] t.train_positions@[j])
}

/// Every resource of `rs` has exactly one variant.
pub open spec fn resources_are_consistent(rs: Seq<BlockResource>) -> bool {
    forall|j: int| 0 <= j < rs.len() ==> resource_is_consistent(#[trigger] rs[j])
}

/// A block holds at least one resource, each with exactly one variant.
pub open spec fn block_is_valid(b: Block) -> bool {
    b.resources@.len() > 0 && resources_are_consistent(b.resources@)
}

/// Each resource of a slowdown, if it lists any, has exactly one variant.
pub open spec fn slowdown_is_valid(s: Slowdown) -> bool {
    match s.resources {
        Some(rs) => resources_are_consistent(rs@),
        None => true,
    }
}

/// Every train, block and slowdown of the status document is well formed.
pub open spec fn status_is_valid(s: Status) -> bool {
    &&& forall|i: int| 0 <= i < s.trains@.len() ==> train_is_consistent(#[trigger] s.trains@[i])
    &&& forall|i: int| 0 <= i < s.blocks@.len() ==> block_is_valid(#[trigger] s.blocks@[i])
    &&& forall|i: int| 0 <= i < s.slowdowns@.len() ==> slowdown_is_valid(#[trigger] s.slowdowns@[i])
}

/// Every track movement of one train has at least one runtime info.
pub open spec fn train_lines_are_valid(t: TrainLineMovements) -> bool {
    match t.track_movements {
        Some(h) => forall|k: String| #[trigger] h@.contains_key(k)
            ==> h@[k].track_runtime_infos@.len() > 0,
        None => true,
    }
}

/// Every track movement of every train has at least one runtime info.
pub open spec fn line_movements_are_valid(l: LineMovements) -> bool {
    forall|k: String| #[trigger] l.line_movements@.contains_key(k)
        ==> train_lines_are_valid(l.line_movements@[k])
}

/// The category of `t`, when it has one, is a key of the catalog.
pub open spec fn category_is_known(t: Train, c: TrainInfos) -> bool {
    match t.train_category {
        Some(k) => c.train_infos@.contains_key(k),
        None => true,
    }
}

/// Every category that a train names is a key of the catalog.
pub open spec fn categories_are_known(s: Status, c: TrainInfos) -> bool {
    forall|i: int| 0 <= i < s.trains@.len() ==> category_is_known(#[trigger] s.trains@[i], c)
}

/// `d` points at a place of the documents that breaks a rule of the model.
pub open spec fn defect_holds(d: Defect, s: Status, l: LineMovements) -> bool {
    match d {
        Defect::PositionPayload { train, position } => train < s.trains@.len()
            && position < s.trains@[train as int].train_positions@.len()
            && !position_is_consistent(s.trains@[train as int].train_positions@[position as int]),
        Defect::EmptyBlockResources { block } => block < s.blocks@.len()
            && s.blocks@[block as int].resources@.len() == 0,
        Defect::BlockResourceVariant { block, resource } => block < s.blocks@.len()
            && resource < s.blocks@[block as int].resources@.len()
            && !resource_is_consistent(s.blocks@[block as int].resources@[resource as int]),
        Defect::SlowdownResourceVariant { slowdown, resource } => slowdown < s.slowdowns@.len()
            && match s.slowdowns@[slowdown as int].resources {
                Some(rs) => resource < rs@.len() && !resource_is_consistent(rs@[resource as int]),
                None => false,
            },
        Defect::EmptyRuntimeInfos { train, track } => l.line_movements@.contains_key(train)
            && match l.line_movements@[train].track_movements {
                Some(h) => h@.contains_key(track) && h@[track].track_runtime_infos@.len() == 0,
                None => false,
            },
    }
}

/// Finds a train position whose payload disagrees with its tag.
fn check_trains(trains: &Vec<Train>) -> (r: Option<Defect>)
    ensures
        match r {
            Some(Defect::PositionPayload { train, position }) => train < trains@.len()
                && position < trains@[train as int].train_positions@.len()
                && !position_is_consistent(trains@[train as int].train_positions@[position as int]),
            Some(_) => false,
            None => forall|i: int| 0 <= i < trains@.len() ==> train_is_consistent(#[trigger] trains@[i]),
        },
{
    let mut i: usize = 0;
    while i < trains.len()
        invariant
            i <= trains@.len(),
            forall|k: int| 0 <= k < i ==> train_is_consistent(#[trigger] trains@[k]),
        decreases trains@.len() - i,
    {
        match first_inconsistent_position(&trains[i].train_positions) {
            Some(j) => {
                return Some(Defect::PositionPayload { train: i, position: j });
            },
            None => {},
        }
        i = i + 1;
    }
    None
}

/// Finds a block without resources or with a resource of no or two variants.
fn check_blocks(blocks: &Vec<Block>) -> (r: Option<Defect>)
    ensures
        match r {
            Some(Defect::EmptyBlockResources { block }) => block < blocks@.len()
                && blocks@[block as int].resources@.len() == 0,
            Some(Defect::BlockResourceVariant { block, resource }) => block < blocks@.len()
                && resource < blocks@[block as int].resources@.len()
                && !resource_is_consistent(blocks@[block as int].resources@[resource as int]),
            Some(_) => false,
            None => forall|i: int| 0 <= i < blocks@.len() ==> block_is_valid(#[trigger] blocks@[i]),
        },
{
    let mut i: usize = 0;
    while i < blocks.len()
        invariant
            i <= blocks@.len(),
            forall|k: int| 0 <= k < i ==> block_is_valid(#[trigger] blocks@[k]),
        decreases blocks@.len() - i,
    {
        if blocks[i].resources.len() == 0 {
            return Some(Defect::EmptyBlockResources { block: i });
        }
        match first_inconsistent_resource(&blocks[i].resources) {
            Some(j) => {
                return Some(Defect::BlockResourceVariant { block: i, resource: j });
            },
            None => {},
        }
        i = i + 1;
    }
    None
}

/// Finds a slowdown resource of no or two variants.
fn check_slowdowns(slowdowns: &Vec<Slowdown>) -> (r: Option<Defect>)
    ensures
        match r {
            Some(Defect::SlowdownResourceVariant { slowdown, resource }) => slowdown < slowdowns@.len()
                && match slowdowns@[slowdown as int].resources {
                    Some(rs) => resource < rs@.len() && !resource_is_consistent(rs@[resource as int]),
                    None => false,
                },
            Some(_) => false,
            None => forall|i: int| 0 <= i < slowdowns@.len() ==> slowdown_is_valid(#[trigger] slowdowns@[i]),
        },
{
    let mut i: usize = 0;
    while i < slowdowns.len()
        invariant
            i <= slowdowns@.len(),
            forall|k: int| 0 <= k < i ==> slowdown_is_valid(#[trigger] slowdowns@[k]),
        decreases slowdowns@.len() - i,
    {
        match &slowdowns[i].resources {
            Some(rs) => {
                match first_inconsistent_resource(rs) {
                    Some(j) => {
                        return Some(Defect::SlowdownResourceVariant { slowdown: i, resource: j });
                    },
                    None => {},
                }
            },
            None => {},
        }
        i = i + 1;
    }
    None
}

/// Finds a track movement of one train without runtime infos: the key of its track.
fn check_train_lines(h: &HashMap<String, TrackMovement>) -> (r: Option<String>)
    ensures
        match r {
            Some(k) => h@.contains_key(k) && h@[k].track_runtime_infos@.len() == 0,
            None => forall|k: String| #[trigger] h@.contains_key(k)
                ==> h@[k].track_runtime_infos@.len() > 0,
        },
{
    let es = entries_of(h);
    let mut i: usize = 0;
    while i < es.len()
        invariant
            i <= es@.len(),
            forall|j: int| 0 <= j < es@.len() ==> #[trigger] h@.contains_key(*es@[j].0)
                && h@[*es@[j].0] == *es@[j].1,
            forall|k: String| #[trigger] h@.contains_key(k)
                ==> exists|j: int| 0 <= j < es@.len() && *es@[j].0 == k,
            forall|j: int| 0 <= j < i ==> (#[trigger] es@[j]).1.track_runtime_infos@.len() > 0,
        decreases es@.len() - i,
    {
        let (k, m) = es[i];
        if m.track_runtime_infos.len() == 0 {
            assert(h@.contains_key(*es@[i as int].0));
            return Some(k.clone());
        }
        i = i + 1;
    }
    proof {
        assert forall|k: String| #[trigger] h@.contains_key(k)
            implies h@[k].track_runtime_infos@.len() > 0 by {
            let j = choose|j: int| 0 <= j < es@.len() && *es@[j].0 == k;
            assert(h@.contains_key(*es@[j].0));
            assert(es@[j].1.track_runtime_infos@.len() > 0);
        }
    }
    None
}

/// Finds a track movement of any train without runtime infos.
fn check_line_movements(l: &LineMovements) -> (r: Option<Defect>)
    ensures
        match r {
            Some(Defect::EmptyRuntimeInfos { train, track }) => l.line_movements@.contains_key(train)
                && match l.line_movements@[train].track_movements {
                    Some(h) => h@.contains_key(track) && h@[track].track_runtime_infos@.len() == 0,
                    None => false,
                },
            Some(_) => false,
            None => line_movements_are_valid(*l),
        },
{
    let es = entries_of(&l.line_movements);
    let ghost m = l.line_movements@;
    let mut i: usize = 0;
    while i < es.len()
        invariant
            i <= es@.len(),
            m == l.line_movements@,
            forall|j: int| 0 <= j < es@.len() ==> #[trigger] m.contains_key(*es@[j].0)
                && m[*es@[j].0] == *es@[j].1,
            forall|k: String| #[trigger] m.contains_key(k)
                ==> exists|j: int| 0 <= j < es@.len() && *es@[j].0 == k,
            forall|j: int| 0 <= j < i ==> train_lines_are_valid(*(#[trigger] es@[j]).1),
        decreases es@.len() - i,
    {
        let (k, t) = es[i];
        assert(m.contains_key(*es@[i as int].0));
        match &t.track_movements {
            Some(h) => {
                match check_train_lines(h) {
                    Some(track) => {
                        return Some(Defect::EmptyRuntimeInfos { train: k.clone(), track });
                    },
                    None => {},
                }
            },
            None => {},
        }
        i = i + 1;
    }
    proof {
        assert forall|k: String| #[trigger] m.contains_key(k)
            implies train_lines_are_valid(m[k]) by {
            let j = choose|j: int| 0 <= j < es@.len() && *es@[j].0 == k;
            assert(m.contains_key(*es@[j].0));
            assert(train_lines_are_valid(*es@[j].1));
        }
    }
    None
}

/// Finds a category that a train names and the catalog lacks.
fn check_categories(trains: &Vec<Train>, catalog: &TrainInfos) -> (r: Option<String>)
    ensures
        match r {
            Some(c) => exists|i: int| 0 <= i < trains@.len()
                && trains@[i].train_category == Some(c) && !catalog.train_infos@.contains_key(c),
            None => forall|i: int| 0 <= i < trains@.len() ==> category_is_known(#[trigger] trains@[i], *catalog),
        },
{
    let mut i: usize = 0;
    while i < trains.len()
        invariant
            i <= trains@.len(),
            forall|k: int| 0 <= k < i ==> category_is_known(#[trigger] trains@[k], *catalog),
        decreases trains@.len() - i,
    {
        match &trains[i].train_category {
            Some(c) => {
                if !has_key(&catalog.train_infos, c) {
                    let r = c.clone();
                    assert(trains@[i as int].train_category == Some(r));
                    return Some(r);
                }
            },
            None => {},
        }
        i = i + 1;
    }
    None
}

/// Assembles one instance from its four decoded documents once it is well
/// formed: every train position agrees with its tag, every block holds
/// resources, every block or slowdown resource has exactly one variant, every
/// track movement has runtime infos, and every category a train names is in
/// the catalog. Otherwise says where the first rule is broken.
pub fn read(
    status: Status,
    train_info: TrainInfos,
    line_movements: LineMovements,
    station_movements: StationMovements,
) -> (r: Result<Problem, LoadError>)
    ensures
        r is Ok <==> status_is_valid(status) && line_movements_are_valid(line_movements)
            && categories_are_known(status, train_info),
        match r {
            Ok(p) => p.status == status && p.train_info == train_info
                && p.line_movements == line_movements && p.station_movements == station_movements,
            Err(LoadError::SchemaViolation(d)) => defect_holds(d, status, line_movements),
            Err(LoadError::ReferenceViolation(c)) => exists|i: int| 0 <= i < status.trains@.len()
                && status.trains@[i].train_category == Some(c)
                && !train_info.train_infos@.contains_key(c),
            Err(_) => false,
        },
{
    match check_trains(&status.trains) {
        Some(d) => {
            return Err(LoadError::SchemaViolation(d));
        },
        None => {},
    }
    match check_blocks(&status.blocks) {
        Some(d) => {
            return Err(LoadError::SchemaViolation(d));
        },
        None => {},
    }
    match check_slowdowns(&status.slowdowns) {
        Some(d) => {
            return Err(LoadError::SchemaViolation(d));
        },
        None => {},
    }
    match check_line_movements(&line_movements) {
        Some(d) => {
            return Err(LoadError::SchemaViolation(d));
        },
        None => {},
    }
    match check_categories(&status.trains, &train_info) {
        Some(c) => {
            return Err(LoadError::ReferenceViolation(c));
        },
        None => {},
    }
    Ok(Problem { status, train_info, line_movements, station_movements })
}

/// The payload of a position agrees with its tag: a track circuit for
/// `Track`, a station for the two station tags, neither when predicted.
pub open spec fn position_is_consistent(p: TrainPosition) -> bool {
    match p.current_position {
        CurrentPosition::Track => p.track_circuit_position is Some && p.station_position is None,
        CurrentPosition::StationStoppingPoint | CurrentPosition::StationRoute =>
            p.station_position is Some && p.track_circuit_position is None,
        CurrentPosition::Predicted => p.station_position is None && p.track_circuit_position is None,
    }
}

/// Exactly one of the two variants of a block resource is present.
pub open spec fn resource_is_consistent(b: BlockResource) -> bool {
    b.station_resource is Some != b.track_resource is Some
}

impl TrainPosition {
    /// Tests that the payload agrees with the tag.
    pub fn is_consistent(&self) -> (r: bool)
        ensures
            r == position_is_consistent(*self),
    {
        match self.current_position {
            CurrentPosition::Track => self.track_circuit_position.is_some()
                && self.station_position.is_none(),
            CurrentPosition::StationStoppingPoint | CurrentPosition::StationRoute =>
                self.station_position.is_some() && self.track_circuit_position.is_none(),
            CurrentPosition::Predicted => self.station_position.is_none()
                && self.track_circuit_position.is_none(),
        }
    }
}

impl BlockResource {
    /// Tests that exactly one variant is present.
    pub fn is_consistent(&self) -> (r: bool)
        ensures
            r == resource_is_consistent(*self),
    {
        self.station_resource.is_some() != self.track_resource.is_some()
    }
}

/// Index of the first position of `ps` whose payload disagrees with its tag.
pub fn first_inconsistent_position(ps: &Vec<TrainPosition>) -> (r: Option<usize>)
    ensures
        match r {
            Some(i) => i < ps@.len() && !position_is_consistent(ps@[i as int])
                && forall|j: int| 0 <= j < i ==> position_is_consistent(ps@[j]),
            None => forall|j: int| 0 <= j < ps@.len() ==> position_is_consistent(ps@[j]),
        },
{
    let mut i: usize = 0;
    while i < ps.len()
        invariant
            i <= ps@.len(),
            forall|j: int| 0 <= j < i ==> position_is_consistent(ps@[j]),
        decreases ps@.len() - i,
    {
        if !ps[i].is_consistent() {
            return Some(i);
        }
        i = i + 1;
    }
    None
}

/// Index of the first resource of `rs` that has not exactly one variant.
pub fn first_inconsistent_resource(rs: &Vec<BlockResource>) -> (r: Option<usize>)
    ensures
        match r {
            Some(i) => i < rs@.len() && !resource_is_consistent(rs@[i as int])
                && forall|j: int| 0 <= j < i ==> resource_is_consistent(rs@[j]),
            None => forall|j: int| 0 <= j < rs@.len() ==> resource_is_consistent(rs@[j]),
        },
{
    let mut i: usize = 0;
    while i < rs.len()
        invariant
            i <= rs@.len(),
            forall|j: int| 0 <= j < i ==> resource_is_consistent(rs@[j]),
        decreases rs@.len() - i,
    {
        if !rs[i].is_consistent() {
            return Some(i);
        }
        i = i + 1;
    }
    None
}

} // verus!
