//! Decoding of a diagram from a parsed JSON document. Each decoder returns
//! exactly the value that the document encodes, and `None` where it encodes
//! none.
use vstd::prelude::*;
use crate::json::{find_member, lookup, Json, JsonNumber};
use crate::model::{
    direction_name, hand_name, json_cbus_state, json_cbus_states, json_control, json_controls,
    json_diagram, json_layout, json_opt_str, json_panel, json_str, json_tile, json_track,
    json_tracks, json_turnout, json_turnout_state, json_turnouts, json_size, json_u16, orientation_name,
    state_name, switch_name, CbusState, Control, Diagram, Direction, Layout, Panel, State,
    SwitchType, Tile, Track, TurnOutDirection, TurnOutHand, Turnout, TurnoutState,
};

verus! {

/// `s` reads `name`.
fn same_text(s: &String, name: &str) -> (r: bool)
    ensures
        r == (s@ == name@),
{
    let n = String::from_str(name);
    *s == n
}

/// The string member `key` of `m`.
fn str_member(m: &Vec<(String, Json)>, key: &str) -> (r: Option<String>)
    ensures
        match r {
            Some(s) => json_str(lookup(m@, key@), s@),
            None => forall|s: Seq<char>| !#[trigger] json_str(lookup(m@, key@), s),
        },
{
    match find_member(m, key) {
        Some(v) => match v {
            Json::Str(s) => Some(s.clone()),
            _ => None,
        },
        None => None,
    }
}

/// The optional string member `key` of `m`: `Some(None)` where it is absent or null.
fn opt_str_member(m: &Vec<(String, Json)>, key: &str) -> (r: Option<Option<String>>)
    ensures
        match r {
            Some(o) => json_opt_str(lookup(m@, key@), o),
            None => forall|o: Option<String>| !#[trigger] json_opt_str(lookup(m@, key@), o),
        },
{
    match find_member(m, key) {
        Some(v) => match v {
            Json::Str(s) => Some(Some(s.clone())),
            Json::Null => Some(None),
            _ => None,
        },
        None => Some(None),
    }
}

/// The member `key` of `m`, as an integer that fits in 16 bits.
fn u16_member(m: &Vec<(String, Json)>, key: &str) -> (r: Option<u16>)
    ensures
        match r {
            Some(n) => json_u16(lookup(m@, key@), n),
            None => forall|n: u16| !#[trigger] json_u16(lookup(m@, key@), n),
        },
{
    match find_member(m, key) {
        Some(v) => match v {
            Json::Number(JsonNumber::PosInt(n)) => {
                if *n <= 0xffff {
                    Some(*n as u16)
                } else {
                    None
                }
            },
            _ => None,
        },
        None => None,
    }
}

/// The member `key` of `m`, as a size or coordinate, which counts from 1.
fn size_member(m: &Vec<(String, Json)>, key: &str) -> (r: Option<u16>)
    ensures
        match r {
            Some(n) => json_size(lookup(m@, key@), n),
            None => forall|n: u16| !#[trigger] json_size(lookup(m@, key@), n),
        },
{
    match u16_member(m, key) {
        Some(n) => if n >= 1 {
            Some(n)
        } else {
            None
        },
        None => None,
    }
}

/// The member `key` of `m`, as a string that is not empty.
fn title_member(m: &Vec<(String, Json)>, key: &str) -> (r: Option<String>)
    ensures
        match r {
            Some(s) => json_str(lookup(m@, key@), s@) && s@.len() > 0,
            None => forall|s: Seq<char>| !(#[trigger] json_str(lookup(m@, key@), s) && s.len() > 0),
        },
{
    match str_member(m, key) {
        Some(s) => if s.as_str().unicode_len() > 0 {
            Some(s)
        } else {
            None
        },
        None => None,
    }
}

impl Direction {
    pub fn from_name(s: &String) -> (r: Option<Direction>)
        ensures
            match r {
                Some(d) => direction_name(d) == s@,
                None => forall|d: Direction| direction_name(d) != s@,
            },
    {
        if same_text(s, "EW") {
            Some(Direction::EW)
        } else if same_text(s, "NE") {
            Some(Direction::NE)
        } else if same_text(s, "NS") {
            Some(Direction::NS)
        } else if same_text(s, "NW") {
            Some(Direction::NW)
        } else if same_text(s, "SE") {
            Some(Direction::SE)
        } else if same_text(s, "SW") {
            Some(Direction::SW)
        } else {
            None
        }
    }
}

impl State {
    pub fn from_name(s: &String) -> (r: Option<State>)
        ensures
            match r {
                Some(v) => state_name(v) == s@,
                None => forall|v: State| state_name(v) != s@,
            },
    {
        if same_text(s, "UNKN") {
            Some(State::UNKN)
        } else if same_text(s, "ZERO") {
            Some(State::ZERO)
        } else if same_text(s, "ONE") {
            Some(State::ONE)
        } else {
            None
        }
    }
}

impl SwitchType {
    pub fn from_name(s: &String) -> (r: Option<SwitchType>)
        ensures
            match r {
                Some(v) => switch_name(v) == s@,
                None => forall|v: SwitchType| switch_name(v) != s@,
            },
    {
        if same_text(s, "Toggle") {
            Some(SwitchType::Toggle)
        } else if same_text(s, "PushButton") {
            Some(SwitchType::PushButton)
        } else {
            None
        }
    }
}

impl TurnOutDirection {
    pub fn from_name(s: &String) -> (r: Option<TurnOutDirection>)
        ensures
            match r {
                Some(v) => orientation_name(v) == s@,
                None => forall|v: TurnOutDirection| orientation_name(v) != s@,
            },
    {
        if same_text(s, "North") {
            Some(TurnOutDirection::North)
        } else if same_text(s, "East") {
            Some(TurnOutDirection::East)
        } else if same_text(s, "South") {
            Some(TurnOutDirection::South)
        } else if same_text(s, "West") {
            Some(TurnOutDirection::West)
        } else {
            None
        }
    }
}

impl TurnOutHand {
    pub fn from_name(s: &String) -> (r: Option<TurnOutHand>)
        ensures
            match r {
                Some(v) => hand_name(v) == s@,
                None => forall|v: TurnOutHand| hand_name(v) != s@,
            },
    {
        if same_text(s, "Left") {
            Some(TurnOutHand::Left)
        } else if same_text(s, "Right") {
            Some(TurnOutHand::Right)
        } else if same_text(s, "Wye") {
            Some(TurnOutHand::Wye)
        } else {
            None
        }
    }
}

fn direction_member(m: &Vec<(String, Json)>, key: &str) -> (r: Option<Direction>)
    ensures
        match r {
            Some(v) => json_str(lookup(m@, key@), direction_name(v)),
            None => forall|v: Direction| !#[trigger] json_str(lookup(m@, key@), direction_name(v)),
        },
{
    match str_member(m, key) {
        Some(s) => Direction::from_name(&s),
        None => None,
    }
}

fn state_member(m: &Vec<(String, Json)>, key: &str) -> (r: Option<State>)
    ensures
        match r {
            Some(v) => json_str(lookup(m@, key@), state_name(v)),
            None => forall|v: State| !#[trigger] json_str(lookup(m@, key@), state_name(v)),
        },
{
    match str_member(m, key) {
        Some(s) => State::from_name(&s),
        None => None,
    }
}

fn switch_member(m: &Vec<(String, Json)>, key: &str) -> (r: Option<SwitchType>)
    ensures
        match r {
            Some(v) => json_str(lookup(m@, key@), switch_name(v)),
            None => forall|v: SwitchType| !#[trigger] json_str(lookup(m@, key@), switch_name(v)),
        },
{
    match str_member(m, key) {
        Some(s) => SwitchType::from_name(&s),
        None => None,
    }
}

fn orientation_member(m: &Vec<(String, Json)>, key: &str) -> (r: Option<TurnOutDirection>)
    ensures
        match r {
            Some(v) => json_str(lookup(m@, key@), orientation_name(v)),
            None => forall|v: TurnOutDirection| !#[trigger] json_str(lookup(m@, key@), orientation_name(v)),
        },
{
    match str_member(m, key) {
        Some(s) => TurnOutDirection::from_name(&s),
        None => None,
    }
}

fn hand_member(m: &Vec<(String, Json)>, key: &str) -> (r: Option<TurnOutHand>)
    ensures
        match r {
            Some(v) => json_str(lookup(m@, key@), hand_name(v)),
            None => forall|v: TurnOutHand| !#[trigger] json_str(lookup(m@, key@), hand_name(v)),
        },
{
    match str_member(m, key) {
        Some(s) => TurnOutHand::from_name(&s),
        None => None,
    }
}

impl Tile {
    /// The tile that `j` encodes.
    pub fn from_json(j: &Json) -> (r: Option<Tile>)
        ensures
            match r {
                Some(v) => json_tile(Some(*j), v),
                None => forall|v: Tile| !#[trigger] json_tile(Some(*j), v),
            },
    {
        match j {
            Json::Object(m) => {
                let x_coord = match size_member(m, "x_coord") {
                    Some(v) => v,
                    None => return None,
                };
                let y_coord = match size_member(m, "y_coord") {
                    Some(v) => v,
                    None => return None,
                };
                Some(Tile { x_coord, y_coord })
            },
            _ => None,
        }
    }
}

fn tile_member(m: &Vec<(String, Json)>, key: &str) -> (r: Option<Tile>)
    ensures
        match r {
            Some(v) => json_tile(lookup(m@, key@), v),
            None => forall|v: Tile| !#[trigger] json_tile(lookup(m@, key@), v),
        },
{
    match find_member(m, key) {
        Some(v) => Tile::from_json(v),
        None => None,
    }
}

impl TurnoutState {
    /// The turnout state that `j` encodes.
    pub fn from_json(j: &Json) -> (r: Option<TurnoutState>)
        ensures
            match r {
                Some(v) => json_turnout_state(Some(*j), v),
                None => forall|v: TurnoutState| !#[trigger] json_turnout_state(Some(*j), v),
            },
    {
        match j {
            Json::Object(m) => {
                let normal = match str_member(m, "normal") {
                    Some(v) => v,
                    None => return None,
                };
                let reverse = match str_member(m, "reverse") {
                    Some(v) => v,
                    None => return None,
                };
                Some(TurnoutState { normal, reverse })
            },
            _ => None,
        }
    }
}

fn turnout_state_member(m: &Vec<(String, Json)>, key: &str) -> (r: Option<TurnoutState>)
    ensures
        match r {
            Some(v) => json_turnout_state(lookup(m@, key@), v),
            None => forall|v: TurnoutState| !#[trigger] json_turnout_state(lookup(m@, key@), v),
        },
{
    match find_member(m, key) {
        Some(v) => TurnoutState::from_json(v),
        None => None,
    }
}

impl CbusState {
    /// The signal state that `j` encodes.
    pub fn from_json(j: &Json) -> (r: Option<CbusState>)
        ensures
            match r {
                Some(v) => json_cbus_state(Some(*j), v),
                None => forall|v: CbusState| !#[trigger] json_cbus_state(Some(*j), v),
            },
    {
        match j {
            Json::Object(m) => {
                let name = match str_member(m, "name") {
                    Some(v) => v,
                    None => return None,
                };
                let event = match opt_str_member(m, "event") {
                    Some(v) => v,
                    None => return None,
                };
                let state = match state_member(m, "state") {
                    Some(v) => v,
                    None => return None,
                };
                Some(CbusState { name, event, state })
            },
            _ => None,
        }
    }
}

impl Panel {
    /// The panel that `j` encodes.
    pub fn from_json(j: &Json) -> (r: Option<Panel>)
        ensures
            match r {
                Some(v) => json_panel(Some(*j), v),
                None => forall|v: Panel| !#[trigger] json_panel(Some(*j), v),
            },
    {
        match j {
            Json::Object(m) => {
                let width = match size_member(m, "width") {
                    Some(v) => v,
                    None => return None,
                };
                let height = match size_member(m, "height") {
                    Some(v) => v,
                    None => return None,
                };
                let tilesize = match size_member(m, "tilesize") {
                    Some(v) => v,
                    None => return None,
                };
                let colour = match str_member(m, "colour") {
                    Some(v) => v,
                    None => return None,
                };
                let margins = match size_member(m, "margins") {
                    Some(v) => v,
                    None => return None,
                };
                let border = match size_member(m, "border") {
                    Some(v) => v,
                    None => return None,
                };
                let title = match title_member(m, "title") {
                    Some(v) => v,
                    None => return None,
                };
                Some(Panel { width, height, tilesize, colour, margins, border, title })
            },
            _ => None,
        }
    }
}

fn panel_member(m: &Vec<(String, Json)>, key: &str) -> (r: Option<Panel>)
    ensures
        match r {
            Some(v) => json_panel(lookup(m@, key@), v),
            None => forall|v: Panel| !#[trigger] json_panel(lookup(m@, key@), v),
        },
{
    match find_member(m, key) {
        Some(v) => Panel::from_json(v),
        None => None,
    }
}

impl Track {
    /// The track that `j` encodes.
    pub fn from_json(j: &Json) -> (r: Option<Track>)
        ensures
            match r {
                Some(v) => json_track(Some(*j), v),
                None => forall|v: Track| !#[trigger] json_track(Some(*j), v),
            },
    {
        match j {
            Json::Object(m) => {
                let tile = match tile_member(m, "tile") {
                    Some(v) => v,
                    None => return None,
                };
                let direction = match direction_member(m, "direction") {
                    Some(v) => v,
                    None => return None,
                };
                let label = match opt_str_member(m, "label") {
                    Some(v) => v,
                    None => return None,
                };
                let tcstate = match opt_str_member(m, "tcstate") {
                    Some(v) => v,
                    None => return None,
                };
                let spot = match opt_str_member(m, "spot") {
                    Some(v) => v,
                    None => return None,
                };
                Some(Track { tile, direction, label, tcstate, spot })
            },
            _ => None,
        }
    }
}

impl Turnout {
    /// The turnout that `j` encodes.
    pub fn from_json(j: &Json) -> (r: Option<Turnout>)
        ensures
            match r {
                Some(v) => json_turnout(Some(*j), v),
                None => forall|v: Turnout| !#[trigger] json_turnout(Some(*j), v),
            },
    {
        match j {
            Json::Object(m) => {
                let tile = match tile_member(m, "tile") {
                    Some(v) => v,
                    None => return None,
                };
                let name = match str_member(m, "name") {
                    Some(v) => v,
                    None => return None,
                };
                let hand = match hand_member(m, "hand") {
                    Some(v) => v,
                    None => return None,
                };
                let orientation = match orientation_member(m, "orientation") {
                    Some(v) => v,
                    None => return None,
                };
                let tostate = match turnout_state_member(m, "tostate") {
                    Some(v) => v,
                    None => return None,
                };
                Some(Turnout { tile, name, hand, orientation, tostate })
            },
            _ => None,
        }
    }
}

impl Control {
    /// The control that `j` encodes.
    pub fn from_json(j: &Json) -> (r: Option<Control>)
        ensures
            match r {
                Some(v) => json_control(Some(*j), v),
                None => forall|v: Control| !#[trigger] json_control(Some(*j), v),
            },
    {
        match j {
            Json::Object(m) => {
                let tile = match tile_member(m, "tile") {
                    Some(v) => v,
                    None => return None,
                };
                let name = match str_member(m, "name") {
                    Some(v) => v,
                    None => return None,
                };
                let switch = match switch_member(m, "switch") {
                    Some(v) => v,
                    None => return None,
                };
                let action = match str_member(m, "action") {
                    Some(v) => v,
                    None => return None,
                };
                let tostate = match turnout_state_member(m, "tostate") {
                    Some(v) => v,
                    None => return None,
                };
                Some(Control { tile, name, switch, action, tostate })
            },
            _ => None,
        }
    }
}

fn cbus_states_member(m: &Vec<(String, Json)>, key: &str) -> (r: Option<Vec<CbusState>>)
    ensures
        match r {
            Some(v) => json_cbus_states(lookup(m@, key@), v@),
            None => forall|v: Seq<CbusState>| !#[trigger] json_cbus_states(lookup(m@, key@), v),
        },
{
    let found = find_member(m, key);
    match found {
        Some(j) => match j {
            Json::Array(a) => {
                let mut out: Vec<CbusState> = Vec::new();
                let mut i: usize = 0;
                while i < a.len()
                    invariant
                        lookup(m@, key@) == Some(Json::Array(*a)),
                        i <= a@.len(),
                        out@.len() == i,
                        forall|k: int| 0 <= k < i ==> #[trigger] json_cbus_state(Some(a@[k]), out@[k]),
                    decreases a@.len() - i,
                {
                    match CbusState::from_json(&a[i]) {
                        Some(v) => out.push(v),
                        None => {
                            proof {
                                assert forall|v: Seq<CbusState>| !#[trigger] json_cbus_states(lookup(m@, key@), v) by {
                                    if json_cbus_states(lookup(m@, key@), v) {
                                        assert(json_cbus_state(Some(a@[i as int]), v[i as int]));
                                    }
                                }
                            }
                            return None;
                        },
                    }
                    i = i + 1;
                }
                Some(out)
            },
            _ => None,
        },
        None => None,
    }
}

fn controls_member(m: &Vec<(String, Json)>, key: &str) -> (r: Option<Vec<Control>>)
    ensures
        match r {
            Some(v) => json_controls(lookup(m@, key@), v@),
            None => forall|v: Seq<Control>| !#[trigger] json_controls(lookup(m@, key@), v),
        },
{
    let found = find_member(m, key);
    match found {
        Some(j) => match j {
            Json::Array(a) => {
                let mut out: Vec<Control> = Vec::new();
                let mut i: usize = 0;
                while i < a.len()
                    invariant
                        lookup(m@, key@) == Some(Json::Array(*a)),
                        i <= a@.len(),
                        out@.len() == i,
                        forall|k: int| 0 <= k < i ==> #[trigger] json_control(Some(a@[k]), out@[k]),
                    decreases a@.len() - i,
                {
                    match Control::from_json(&a[i]) {
                        Some(v) => out.push(v),
                        None => {
                            proof {
                                assert forall|v: Seq<Control>| !#[trigger] json_controls(lookup(m@, key@), v) by {
                                    if json_controls(lookup(m@, key@), v) {
                                        assert(json_control(Some(a@[i as int]), v[i as int]));
                                    }
                                }
                            }
                            return None;
                        },
                    }
                    i = i + 1;
                }
                Some(out)
            },
            _ => None,
        },
        None => None,
    }
}

fn tracks_member(m: &Vec<(String, Json)>, key: &str) -> (r: Option<Vec<Track>>)
    ensures
        match r {
            Some(v) => json_tracks(lookup(m@, key@), v@),
            None => forall|v: Seq<Track>| !#[trigger] json_tracks(lookup(m@, key@), v),
        },
{
    let found = find_member(m, key);
    match found {
        Some(j) => match j {
            Json::Array(a) => {
                let mut out: Vec<Track> = Vec::new();
                let mut i: usize = 0;
                while i < a.len()
                    invariant
                        lookup(m@, key@) == Some(Json::Array(*a)),
                        i <= a@.len(),
                        out@.len() == i,
                        forall|k: int| 0 <= k < i ==> #[trigger] json_track(Some(a@[k]), out@[k]),
                    decreases a@.len() - i,
                {
                    match Track::from_json(&a[i]) {
                        Some(v) => out.push(v),
                        None => {
                            proof {
                                assert forall|v: Seq<Track>| !#[trigger] json_tracks(lookup(m@, key@), v) by {
                                    if json_tracks(lookup(m@, key@), v) {
                                        assert(json_track(Some(a@[i as int]), v[i as int]));
                                    }
                                }
                            }
                            return None;
                        },
                    }
                    i = i + 1;
                }
                Some(out)
            },
            _ => None,
        },
        None => None,
    }
}

fn turnouts_member(m: &Vec<(String, Json)>, key: &str) -> (r: Option<Vec<Turnout>>)
    ensures
        match r {
            Some(v) => json_turnouts(lookup(m@, key@), v@),
            None => forall|v: Seq<Turnout>| !#[trigger] json_turnouts(lookup(m@, key@), v),
        },
{
    let found = find_member(m, key);
    match found {
        Some(j) => match j {
            Json::Array(a) => {
                let mut out: Vec<Turnout> = Vec::new();
                let mut i: usize = 0;
                while i < a.len()
                    invariant
                        lookup(m@, key@) == Some(Json::Array(*a)),
                        i <= a@.len(),
                        out@.len() == i,
                        forall|k: int| 0 <= k < i ==> #[trigger] json_turnout(Some(a@[k]), out@[k]),
                    decreases a@.len() - i,
                {
                    match Turnout::from_json(&a[i]) {
                        Some(v) => out.push(v),
                        None => {
                            proof {
                                assert forall|v: Seq<Turnout>| !#[trigger] json_turnouts(lookup(m@, key@), v) by {
                                    if json_turnouts(lookup(m@, key@), v) {
                                        assert(json_turnout(Some(a@[i as int]), v[i as int]));
                                    }
                                }
                            }
                            return None;
                        },
                    }
                    i = i + 1;
                }
                Some(out)
            },
            _ => None,
        },
        None => None,
    }
}

impl Layout {
    /// The layout that `j` encodes.
    pub fn from_json(j: &Json) -> (r: Option<Layout>)
        ensures
            match r {
                Some(v) => json_layout(Some(*j), v),
                None => forall|v: Layout| !#[trigger] json_layout(Some(*j), v),
            },
    {
        match j {
            Json::Object(m) => {
                let panel = match panel_member(m, "panel") {
                    Some(v) => v,
                    None => return None,
                };
                let controls = match controls_member(m, "controls") {
                    Some(v) => v,
                    None => return None,
                };
                let track = match tracks_member(m, "track") {
                    Some(v) => v,
                    None => return None,
                };
                let turnouts = match turnouts_member(m, "turnouts") {
                    Some(v) => v,
                    None => return None,
                };
                Some(Layout { panel, controls, track, turnouts })
            },
            _ => None,
        }
    }
}

fn layout_member(m: &Vec<(String, Json)>, key: &str) -> (r: Option<Layout>)
    ensures
        match r {
            Some(v) => json_layout(lookup(m@, key@), v),
            None => forall|v: Layout| !#[trigger] json_layout(lookup(m@, key@), v),
        },
{
    match find_member(m, key) {
        Some(v) => Layout::from_json(v),
        None => None,
    }
}

impl Diagram {
    /// The diagram that `j` encodes, or `None` where it encodes none.
    pub fn from_json(j: &Json) -> (r: Option<Diagram>)
        ensures
            match r {
                Some(v) => json_diagram(Some(*j), v),
                None => forall|v: Diagram| !#[trigger] json_diagram(Some(*j), v),
            },
    {
        match j {
            Json::Object(m) => {
                let cbusstates = match cbus_states_member(m, "cbusstates") {
                    Some(v) => v,
                    None => return None,
                };
                let layout = match layout_member(m, "layout") {
                    Some(v) => v,
                    None => return None,
                };
                Some(Diagram { cbusstates, layout })
            },
            _ => None,
        }
    }
}

} // verus!
