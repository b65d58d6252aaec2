//! The diagram data model: the typed shape of one panel definition document,
//! and its decoding from a parsed JSON document.
//!
//! Decoding follows the field names of the types below. Members that the model
//! does not name are ignored. An optional member may be absent or `null`. The
//! variants of an enumeration are written as their names. Sizes and tile
//! coordinates count from 1, and a panel's title is not empty. Tile coordinates are
//! not checked against the panel's size, the names in `cbusstates` are not
//! checked to be distinct, and the names that tracks, turnouts and controls
//! give of signal states are not checked against `cbusstates`: all three are
//! left to whoever draws the panel.
use vstd::prelude::*;
use crate::json::{lookup, Json, JsonNumber};

verus! {

/// Direction of track marking on a tile.
#[derive(PartialEq, Eq, Structural, Clone, Copy, Debug)]
pub enum Direction {
    EW,
    NE,
    NS,
    NW,
    SE,
    SW,
}

/// State of a CBUS event.
#[derive(PartialEq, Eq, Structural, Clone, Copy, Debug)]
pub enum State {
    UNKN,
    ZERO,
    ONE,
}

/// Type of control switch.
#[derive(PartialEq, Eq, Structural, Clone, Copy, Debug)]
pub enum SwitchType {
    Toggle,
    PushButton,
}

/// Direction in which a turnout is laid.
#[derive(PartialEq, Eq, Structural, Clone, Copy, Debug)]
pub enum TurnOutDirection {
    North,
    East,
    South,
    West,
}

/// Hand of a turnout.
#[derive(PartialEq, Eq, Structural, Clone, Copy, Debug)]
pub enum TurnOutHand {
    Left,
    Right,
    Wye,
}

/// The signal states that tell how a turnout is lying. Read as two bits,
/// `normal` then `reverse`: 00 in transit, 10 normal, 01 reverse, 11 error.
#[derive(Clone, Debug)]
pub struct TurnoutState {
    pub normal: String,
    pub reverse: String,
}

/// Definition of the state of a CBUS event.
#[derive(Clone, Debug)]
pub struct CbusState {
    /// Item name
    pub name: String,
    /// Event number, in long or short form
    pub event: Option<String>,
    /// Current state of the event
    pub state: State,
}

/// Dimensions and look of the panel.
#[derive(Clone, Debug)]
pub struct Panel {
    /// Width of panel in tiles
    pub width: u16,
    /// Height of panel in tiles
    pub height: u16,
    /// Size in pixels of a square tile
    pub tilesize: u16,
    /// RGB colour of the panel background as a hex string
    pub colour: String,
    /// Margin in pixels
    pub margins: u16,
    /// Border in pixels
    pub border: u16,
    /// Diagram title
    pub title: String,
}

/// Position of a tile within the panel, counted from 1.
#[derive(Clone, Copy, Debug)]
pub struct Tile {
    pub x_coord: u16,
    pub y_coord: u16,
}

/// How track is shown on a tile.
#[derive(Clone, Debug)]
pub struct Track {
    pub tile: Tile,
    pub direction: Direction,
    /// Text shown on the panel
    pub label: Option<String>,
    /// Signal state that gives the track circuit
    pub tcstate: Option<String>,
    /// Signal state that gives the train detector
    pub spot: Option<String>,
}

/// A turnout (switch, point).
#[derive(Clone, Debug)]
pub struct Turnout {
    pub tile: Tile,
    /// Text shown on the panel
    pub name: String,
    pub hand: TurnOutHand,
    pub orientation: TurnOutDirection,
    /// Signal states that give how the turnout lies
    pub tostate: TurnoutState,
}

/// A control switch.
#[derive(Clone, Debug)]
pub struct Control {
    pub tile: Tile,
    pub name: String,
    pub switch: SwitchType,
    /// Name of the signal state that throws the turnout
    pub action: String,
    /// How the turnout currently lies
    pub tostate: TurnoutState,
}

/// The layout of a signalling diagram.
#[derive(Clone, Debug)]
pub struct Layout {
    pub panel: Panel,
    pub controls: Vec<Control>,
    pub track: Vec<Track>,
    pub turnouts: Vec<Turnout>,
}

/// Definition of a signalling panel.
#[derive(Clone, Debug)]
pub struct Diagram {
    /// The state of the CBUS producers and consumers
    pub cbusstates: Vec<CbusState>,
    pub layout: Layout,
}

// ---- what a document encodes ----

/// `j` is the string `s`.
pub open spec fn json_str(j: Option<Json>, s: Seq<char>) -> bool {
    match j {
        Some(Json::Str(t)) => t@ == s,
        _ => false,
    }
}

/// `j` is absent, `null`, or the string `s`.
pub open spec fn json_opt_str(j: Option<Json>, s: Option<String>) -> bool {
    match s {
        None => match j {
            None => true,
            Some(Json::Null) => true,
            _ => false,
        },
        Some(t) => json_str(j, t@),
    }
}

/// `j` is the size or coordinate `n`, which counts from 1.
pub open spec fn json_size(j: Option<Json>, n: u16) -> bool {
    json_u16(j, n) && n >= 1
}

/// `j` is the non-negative integer `n`.
pub open spec fn json_u16(j: Option<Json>, n: u16) -> bool {
    match j {
        Some(Json::Number(JsonNumber::PosInt(m))) => m == n as u64,
        _ => false,
    }
}

pub open spec fn direction_name(d: Direction) -> Seq<char> {
    match d {
        Direction::EW => "EW"@,
        Direction::NE => "NE"@,
        Direction::NS => "NS"@,
        Direction::NW => "NW"@,
        Direction::SE => "SE"@,
        Direction::SW => "SW"@,
    }
}

pub open spec fn state_name(s: State) -> Seq<char> {
    match s {
        State::UNKN => "UNKN"@,
        State::ZERO => "ZERO"@,
        State::ONE => "ONE"@,
    }
}

pub open spec fn switch_name(s: SwitchType) -> Seq<char> {
    match s {
        SwitchType::Toggle => "Toggle"@,
        SwitchType::PushButton => "PushButton"@,
    }
}

pub open spec fn orientation_name(d: TurnOutDirection) -> Seq<char> {
    match d {
        TurnOutDirection::North => "North"@,
        TurnOutDirection::East => "East"@,
        TurnOutDirection::South => "South"@,
        TurnOutDirection::West => "West"@,
    }
}

pub open spec fn hand_name(h: TurnOutHand) -> Seq<char> {
    match h {
        TurnOutHand::Left => "Left"@,
        TurnOutHand::Right => "Right"@,
        TurnOutHand::Wye => "Wye"@,
    }
}

/// The members of `j`, where it is an object.
pub open spec fn members(j: Option<Json>) -> Option<Seq<(String, Json)>> {
    match j {
        Some(Json::Object(m)) => Some(m@),
        _ => None,
    }
}

/// The items of `j`, where it is an array.
pub open spec fn items(j: Option<Json>) -> Option<Seq<Json>> {
    match j {
        Some(Json::Array(a)) => Some(a@),
        _ => None,
    }
}

pub open spec fn json_tile(j: Option<Json>, t: Tile) -> bool {
    match members(j) {
        Some(m) => json_size(lookup(m, "x_coord"@), t.x_coord) && json_size(
            lookup(m, "y_coord"@),
            t.y_coord,
        ),
        None => false,
    }
}

pub open spec fn json_turnout_state(j: Option<Json>, s: TurnoutState) -> bool {
    match members(j) {
        Some(m) => json_str(lookup(m, "normal"@), s.normal@) && json_str(
            lookup(m, "reverse"@),
            s.reverse@,
        ),
        None => false,
    }
}

pub open spec fn json_cbus_state(j: Option<Json>, c: CbusState) -> bool {
    match members(j) {
        Some(m) => json_str(lookup(m, "name"@), c.name@) && json_opt_str(
            lookup(m, "event"@),
            c.event,
        ) && json_str(lookup(m, "state"@), state_name(c.state)),
        None => false,
    }
}

pub open spec fn json_panel(j: Option<Json>, p: Panel) -> bool {
    match members(j) {
        Some(m) => {
            &&& json_size(lookup(m, "width"@), p.width)
            &&& json_size(lookup(m, "height"@), p.height)
            &&& json_size(lookup(m, "tilesize"@), p.tilesize)
            &&& json_str(lookup(m, "colour"@), p.colour@)
            &&& json_size(lookup(m, "margins"@), p.margins)
            &&& json_size(lookup(m, "border"@), p.border)
            &&& json_str(lookup(m, "title"@), p.title@)
            &&& p.title@.len() > 0
        },
        None => false,
    }
}

pub open spec fn json_track(j: Option<Json>, t: Track) -> bool {
    match members(j) {
        Some(m) => json_tile(lookup(m, "tile"@), t.tile) && json_str(
            lookup(m, "direction"@),
            direction_name(t.direction),
        ) && json_opt_str(lookup(m, "label"@), t.label) && json_opt_str(
            lookup(m, "tcstate"@),
            t.tcstate,
        ) && json_opt_str(lookup(m, "spot"@), t.spot),
        None => false,
    }
}

pub open spec fn json_turnout(j: Option<Json>, t: Turnout) -> bool {
    match members(j) {
        Some(m) => json_tile(lookup(m, "tile"@), t.tile) && json_str(lookup(m, "name"@), t.name@)
            && json_str(lookup(m, "hand"@), hand_name(t.hand)) && json_str(
            lookup(m, "orientation"@),
            orientation_name(t.orientation),
        ) && json_turnout_state(lookup(m, "tostate"@), t.tostate),
        None => false,
    }
}

pub open spec fn json_control(j: Option<Json>, c: Control) -> bool {
    match members(j) {
        Some(m) => json_tile(lookup(m, "tile"@), c.tile) && json_str(lookup(m, "name"@), c.name@)
            && json_str(lookup(m, "switch"@), switch_name(c.switch)) && json_str(
            lookup(m, "action"@),
            c.action@,
        ) && json_turnout_state(lookup(m, "tostate"@), c.tostate),
        None => false,
    }
}

pub open spec fn json_cbus_states(j: Option<Json>, v: Seq<CbusState>) -> bool {
    match items(j) {
        Some(a) => a.len() == v.len() && forall|i: int|
            0 <= i < a.len() ==> #[trigger] json_cbus_state(Some(a[i]), v[i]),
        None => false,
    }
}

pub open spec fn json_controls(j: Option<Json>, v: Seq<Control>) -> bool {
    match items(j) {
        Some(a) => a.len() == v.len() && forall|i: int|
            0 <= i < a.len() ==> #[trigger] json_control(Some(a[i]), v[i]),
        None => false,
    }
}

pub open spec fn json_tracks(j: Option<Json>, v: Seq<Track>) -> bool {
    match items(j) {
        Some(a) => a.len() == v.len() && forall|i: int|
            0 <= i < a.len() ==> #[trigger] json_track(Some(a[i]), v[i]),
        None => false,
    }
}

pub open spec fn json_turnouts(j: Option<Json>, v: Seq<Turnout>) -> bool {
    match items(j) {
        Some(a) => a.len() == v.len() && forall|i: int|
            0 <= i < a.len() ==> #[trigger] json_turnout(Some(a[i]), v[i]),
        None => false,
    }
}

pub open spec fn json_layout(j: Option<Json>, l: Layout) -> bool {
    match members(j) {
        Some(m) => json_panel(lookup(m, "panel"@), l.panel) && json_controls(
            lookup(m, "controls"@),
            l.controls@,
        ) && json_tracks(lookup(m, "track"@), l.track@) && json_turnouts(
            lookup(m, "turnouts"@),
            l.turnouts@,
        ),
        None => false,
    }
}

/// `j` is a document that encodes the diagram `d`.
pub open spec fn json_diagram(j: Option<Json>, d: Diagram) -> bool {
    match members(j) {
        Some(m) => json_cbus_states(lookup(m, "cbusstates"@), d.cbusstates@) && json_layout(
            lookup(m, "layout"@),
            d.layout,
        ),
        None => false,
    }
}

} // verus!
