//! The polling viewer's logic: what one catalog entry looks like on
//! screen, and how the viewer reacts to each of its events. A GUI shell
//! renders the state and performs the actions.

use vstd::prelude::*;

use vstd::string::{StringExecFns, StrSliceExecFns};

use crate::value::{DataType, Unit, Value};

verus! {

/// The character of one decimal digit.
pub open spec fn dec_digit(d: int) -> char {
    if d == 0 {
        '0'
    } else if d == 1 {
        '1'
    } else if d == 2 {
        '2'
    } else if d == 3 {
        '3'
    } else if d == 4 {
        '4'
    } else if d == 5 {
        '5'
    } else if d == 6 {
        '6'
    } else if d == 7 {
        '7'
    } else if d == 8 {
        '8'
    } else {
        '9'
    }
}

/// The decimal digits of a natural number, most significant first.
pub open spec fn dec_digits(n: nat) -> Seq<char>
    decreases n,
{
    if n < 10 {
        seq![dec_digit(n as int)]
    } else {
        dec_digits(n / 10).push(dec_digit((n % 10) as int))
    }
}

/// The decimal rendering of an integer, a minus sign ahead of a negative
/// one.
pub open spec fn dec_int(v: int) -> Seq<char> {
    if v < 0 {
        seq!['-'] + dec_digits((-v) as nat)
    } else {
        dec_digits(v as nat)
    }
}

fn digit_str(d: u64) -> (r: &'static str)
    requires
        d < 10,
    ensures
        r@ =~= seq![dec_digit(d as int)],
{
    proof {
        reveal_strlit("0");
        reveal_strlit("1");
        reveal_strlit("2");
        reveal_strlit("3");
        reveal_strlit("4");
        reveal_strlit("5");
        reveal_strlit("6");
        reveal_strlit("7");
        reveal_strlit("8");
        reveal_strlit("9");
    }
    match d {
        0 => "0",
        1 => "1",
        2 => "2",
        3 => "3",
        4 => "4",
        5 => "5",
        6 => "6",
        7 => "7",
        8 => "8",
        _ => "9",
    }
}

fn nat_text(n: u64) -> (r: String)
    ensures
        r@ == dec_digits(n as nat),
    decreases n,
{
    if n < 10 {
        String::from_str(digit_str(n))
    } else {
        let mut prefix = nat_text(n / 10);
        prefix.append(digit_str(n % 10));
        proof {
            assert(prefix@ =~= dec_digits((n / 10) as nat).push(dec_digit((n % 10) as int)));
        }
        prefix
    }
}

/// The decimal text of an integer, as a viewer shows it.
pub fn int_text(v: i64) -> (r: String)
    ensures
        r@ == dec_int(v as int),
{
    if v >= 0 {
        nat_text(v as u64)
    } else {
        let magnitude: u64 = (-(v as i128)) as u64;
        let mut r = String::from_str("-");
        let digits = nat_text(magnitude);
        r.append(digits.as_str());
        proof {
            reveal_strlit("-");
            assert(r@ =~= seq!['-'] + dec_digits((-(v as int)) as nat));
        }
        r
    }
}

impl Value {
    /// The text a viewer shows for this value: an integer in decimal, a
    /// boolean as its word, a string as itself. A float is rendered by the
    /// shell, which owns the float formatting.
    pub fn display_text(&self) -> (r: Option<String>)
        ensures
            match self {
                Value::Integer(i) => r matches Some(s) && s@ == dec_int(*i as int),
                Value::Boolean(b) => r matches Some(s) && s@ == (if *b {
                    "true"@
                } else {
                    "false"@
                }),
                Value::String(text) => r matches Some(s) && s@ == text@,
                Value::Float(_) => r is None,
            },
    {
        match self {
            Value::Integer(i) => Some(int_text(*i)),
            Value::Boolean(b) => Some(
                if *b {
                    "true".to_string()
                } else {
                    "false".to_string()
                },
            ),
            Value::String(text) => Some(text.clone()),
            Value::Float(_) => None,
        }
    }
}

/// One catalog entry, rendered for display.
#[derive(Clone, Debug, Default)]
pub struct TagDisplay {
    pub name: String,
    pub value: String,
    pub unit: String,
    pub timestamp: String,
    pub data_type: String,
}

/// The suffix shown beside a value of each engineering unit.
pub open spec fn unit_suffix_spec(unit: Unit) -> Seq<char> {
    match unit {
        Unit::NoUnit => ""@,
        Unit::Percent => "%"@,
        Unit::Volt => "V"@,
        Unit::Ampere => "A"@,
        Unit::Degree => "°"@,
        Unit::Radian => "rad"@,
        Unit::Celsius => "°C"@,
        Unit::Kelvin => "K"@,
        Unit::Metre => "m"@,
        Unit::Kilogram => "kg"@,
        Unit::Second => "s"@,
    }
}

/// The suffix shown beside a value of this unit.
pub fn unit_suffix(unit: Unit) -> (r: String)
    ensures
        r@ == unit_suffix_spec(unit),
{
    match unit {
        Unit::NoUnit => "".to_string(),
        Unit::Percent => "%".to_string(),
        Unit::Volt => "V".to_string(),
        Unit::Ampere => "A".to_string(),
        Unit::Degree => "°".to_string(),
        Unit::Radian => "rad".to_string(),
        Unit::Celsius => "°C".to_string(),
        Unit::Kelvin => "K".to_string(),
        Unit::Metre => "m".to_string(),
        Unit::Kilogram => "kg".to_string(),
        Unit::Second => "s".to_string(),
    }
}

impl TagDisplay {
    /// Assemble one display row: the name and the pre-rendered value and
    /// instant texts as given, the unit as its suffix, the type as its
    /// name.
    pub fn from_parts(
        name: String,
        unit: Unit,
        data_type: DataType,
        value_text: String,
        timestamp_text: String,
    ) -> (r: TagDisplay)
        ensures
            r.name@ == name@,
            r.value@ == value_text@,
            r.unit@ == unit_suffix_spec(unit),
            r.timestamp@ == timestamp_text@,
            r.data_type@ == data_type.name_spec(),
    {
        TagDisplay {
            name,
            value: value_text,
            unit: unit_suffix(unit),
            timestamp: timestamp_text,
            data_type: data_type.name(),
        }
    }
}

/// An event the viewer reacts to.
pub enum ClientMessage {
    Refresh,
    HealthCheckServer,
    HealthCheckServerResult(bool),
    Refreshed(Vec<TagDisplay>),
}

/// What the shell must do after an event is absorbed.
#[derive(Clone, Copy, PartialEq, Eq, Structural, Debug)]
pub enum ClientAction {
    Idle,
    FetchTags,
    CheckHealth,
}

/// The viewer's whole state.
pub struct ClientState {
    pub tags: Vec<TagDisplay>,
    pub server_url: String,
    pub server_online: bool,
}

impl ClientState {
    /// A fresh viewer: no rows, the given server, presumed offline.
    pub fn new(server_url: String) -> (r: Self)
        ensures
            r.tags@.len() == 0,
            r.server_url@ == server_url@,
            !r.server_online,
    {
        ClientState { tags: Vec::new(), server_url, server_online: false }
    }

    /// Absorb one event: a refresh tick asks for the catalog only while
    /// the server is online, fetched rows replace the shown ones, a health
    /// tick asks for a probe, and a probe's verdict sets the online flag.
    pub fn update(&mut self, message: ClientMessage) -> (action: ClientAction)
        ensures
            match message {
                ClientMessage::Refresh => *final(self) == *old(self) && action == (
                if old(self).server_online {
                    ClientAction::FetchTags
                } else {
                    ClientAction::Idle
                }),
                ClientMessage::Refreshed(tags) => final(self).tags == tags
                    && final(self).server_url == old(self).server_url
                    && final(self).server_online == old(self).server_online
                    && action == ClientAction::Idle,
                ClientMessage::HealthCheckServer => *final(self) == *old(self) && action
                    == ClientAction::CheckHealth,
                ClientMessage::HealthCheckServerResult(status) => final(self).server_online
                    == status && final(self).tags == old(self).tags && final(self).server_url
                    == old(self).server_url && action == ClientAction::Idle,
            },
    {
        match message {
            ClientMessage::Refresh => {
                if self.server_online {
                    ClientAction::FetchTags
                } else {
                    ClientAction::Idle
                }
            },
            ClientMessage::Refreshed(tags) => {
                self.tags = tags;
                ClientAction::Idle
            },
            ClientMessage::HealthCheckServer => ClientAction::CheckHealth,
            ClientMessage::HealthCheckServerResult(status) => {
                self.server_online = status;
                ClientAction::Idle
            },
        }
    }
}

} // verus!
