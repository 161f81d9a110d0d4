//! Commands as they are written on the wire.
//!
//! The boundary is strict: a field that a command does not have is refused, so
//! that a misspelt one is never silently dropped.

use vstd::prelude::*;
use vstd::string::*;

use crate::command::{BackendCommand, BackendCommandEnvelope, CommandProtocol, MotorDirection};
use crate::contract::CommandId;
use crate::number::Single;
use crate::time::{rfc3339_instant, UtcInstant};

verus! {

/// A value as it was read from the wire.
#[derive(Debug, PartialEq, Eq)]
pub enum WireValue {
    Null,
    Bool(bool),
    /// A number: the natural number that it is, if it is one, and its value in
    /// single precision, where that was read.
    Number { natural: Option<u64>, single: Option<Single> },
    Text(String),
    List(Vec<WireValue>),
    Object(Vec<(String, WireValue)>),
}

/// The fields of an object, in the order in which they were read.
pub type WireFields = Vec<(String, WireValue)>;

/// Why an object is no command.
#[derive(Debug, PartialEq, Eq)]
pub enum WireError {
    /// There is no text in the field `type`.
    MissingType,
    /// There is no such command.
    UnknownType(String),
    /// A field is missing, unknown, given twice, or holds something else.
    BadFields,
}

impl WireError {
    pub open spec fn spec_text(self) -> Seq<char> {
        match self {
            WireError::MissingType => "命令缺少字符串字段 type"@,
            WireError::UnknownType(kind) => "未知命令类型："@ + kind@,
            WireError::BadFields => "命令字段不合法"@,
        }
    }

    /// The error in words.
    pub fn text(&self) -> (r: String)
        ensures
            r@ == self.spec_text(),
    {
        match self {
            WireError::MissingType => "命令缺少字符串字段 type".to_owned(),
            WireError::UnknownType(kind) => "未知命令类型：".to_owned().concat(kind.as_str()),
            WireError::BadFields => "命令字段不合法".to_owned(),
        }
    }
}

/// The value of a field, from one place on; the first one counts.
pub open spec fn field_from(
    fields: Seq<(String, WireValue)>,
    name: Seq<char>,
    from: int,
) -> Option<WireValue>
    decreases fields.len() - from,
{
    if from < 0 || from >= fields.len() {
        None
    } else if fields[from].0@ == name {
        Some(fields[from].1)
    } else {
        field_from(fields, name, from + 1)
    }
}

/// The value of a field.
pub open spec fn field(fields: Seq<(String, WireValue)>, name: Seq<char>) -> Option<WireValue> {
    field_from(fields, name, 0)
}

/// Every field, from one place on, has one of the allowed names, and no name is
/// given twice.
pub open spec fn only_from(
    fields: Seq<(String, WireValue)>,
    allowed: Seq<Seq<char>>,
    from: int,
) -> bool
    decreases fields.len() - from,
{
    from < 0 || from >= fields.len() || (allowed.contains(fields[from].0@) && field_from(
        fields,
        fields[from].0@,
        from + 1,
    ) is None && only_from(fields, allowed, from + 1))
}

/// A field under its name or under its older one, but not under both.
pub open spec fn aliased(
    fields: Seq<(String, WireValue)>,
    name: Seq<char>,
    older: Seq<char>,
) -> Option<WireValue> {
    match (field(fields, name), field(fields, older)) {
        (Some(value), None) => Some(value),
        (None, Some(value)) => Some(value),
        _ => None,
    }
}

pub open spec fn as_text(value: Option<WireValue>) -> Option<String> {
    match value {
        Some(WireValue::Text(text)) => Some(text),
        _ => None,
    }
}

pub open spec fn as_single(value: Option<WireValue>) -> Option<Single> {
    match value {
        Some(WireValue::Number { single, .. }) => single,
        _ => None,
    }
}

pub open spec fn as_natural(value: Option<WireValue>) -> Option<u64> {
    match value {
        Some(WireValue::Number { natural, .. }) => natural,
        _ => None,
    }
}

/// An optional flag: it may be missing or null.
pub open spec fn as_flag(value: Option<WireValue>) -> Option<Option<bool>> {
    match value {
        None => Some(None),
        Some(WireValue::Null) => Some(None),
        Some(WireValue::Bool(flag)) => Some(Some(flag)),
        _ => None,
    }
}

pub open spec fn direction_named(name: Seq<char>) -> Option<MotorDirection> {
    if name == "forward"@ {
        Some(MotorDirection::Forward)
    } else if name == "back"@ {
        Some(MotorDirection::Back)
    } else if name == "left"@ {
        Some(MotorDirection::Left)
    } else if name == "right"@ {
        Some(MotorDirection::Right)
    } else {
        None
    }
}

/// A direction, by its name or as the only, empty field of an object.
pub open spec fn as_direction(value: WireValue) -> Option<MotorDirection> {
    match value {
        WireValue::Text(name) => direction_named(name@),
        WireValue::Object(fields) => if fields@.len() == 1 && fields@[0].1 is Null {
            direction_named(fields@[0].0@)
        } else {
            None
        },
        _ => None,
    }
}

/// Every value of a list is a direction.
pub open spec fn all_directions(values: Seq<WireValue>) -> bool {
    forall|i: int| 0 <= i < values.len() ==> as_direction(#[trigger] values[i]) is Some
}

pub open spec fn chat_fields() -> Seq<Seq<char>> {
    seq!["type"@, "message"@]
}

pub open spec fn look_fields() -> Seq<Seq<char>> {
    seq!["type"@, "yawDegrees"@, "yaw_degrees"@, "pitchDegrees"@, "pitch_degrees"@]
}

pub open spec fn move_fields() -> Seq<Seq<char>> {
    seq!["type"@, "directions"@, "durationMs"@, "duration_ms"@, "sprint"@, "jump"@, "crouch"@]
}

pub open spec fn bare_fields() -> Seq<Seq<char>> {
    seq!["type"@]
}

/// The object holds a chat line.
pub open spec fn holds_chat(fields: Seq<(String, WireValue)>) -> bool {
    only_from(fields, chat_fields(), 0) && as_text(field(fields, "message"@)) is Some
}

/// The object holds a turn.
pub open spec fn holds_look(fields: Seq<(String, WireValue)>) -> bool {
    &&& only_from(fields, look_fields(), 0)
    &&& as_single(aliased(fields, "yawDegrees"@, "yaw_degrees"@)) is Some
    &&& as_single(aliased(fields, "pitchDegrees"@, "pitch_degrees"@)) is Some
}

/// The object holds a movement.
pub open spec fn holds_move(fields: Seq<(String, WireValue)>) -> bool {
    &&& only_from(fields, move_fields(), 0)
    &&& field(fields, "directions"@) matches Some(WireValue::List(values)) && all_directions(
        values@,
    )
    &&& as_natural(aliased(fields, "durationMs"@, "duration_ms"@)) is Some
    &&& as_flag(field(fields, "sprint"@)) is Some
    &&& as_flag(field(fields, "jump"@)) is Some
    &&& as_flag(field(fields, "crouch"@)) is Some
}

/// The object is the wire form of the command.
pub open spec fn writes(fields: Seq<(String, WireValue)>, command: BackendCommand) -> bool {
    match command {
        BackendCommand::SendChat { message } => {
            &&& holds_chat(fields)
            &&& as_text(field(fields, "message"@)) == Some(message)
        },
        BackendCommand::LookRelative { yaw_degrees, pitch_degrees } => {
            &&& holds_look(fields)
            &&& as_single(aliased(fields, "yawDegrees"@, "yaw_degrees"@)) == Some(yaw_degrees)
            &&& as_single(aliased(fields, "pitchDegrees"@, "pitch_degrees"@)) == Some(
                pitch_degrees,
            )
        },
        BackendCommand::Move { directions, duration_ms, sprint, jump, crouch } => {
            &&& holds_move(fields)
            &&& lists(field(fields, "directions"@)->0, directions@)
            &&& as_natural(aliased(fields, "durationMs"@, "duration_ms"@)) == Some(duration_ms)
            &&& as_flag(field(fields, "sprint"@)) == Some(sprint)
            &&& as_flag(field(fields, "jump"@)) == Some(jump)
            &&& as_flag(field(fields, "crouch"@)) == Some(crouch)
        },
        BackendCommand::ReleaseAll => only_from(fields, bare_fields(), 0),
        BackendCommand::Respawn => only_from(fields, bare_fields(), 0),
    }
}

/// The value lists exactly these directions.
pub open spec fn lists(value: WireValue, directions: Seq<MotorDirection>) -> bool {
    &&& value matches WireValue::List(values)
    &&& values@.len() == directions.len()
    &&& forall|i: int|
        0 <= i < directions.len() ==> as_direction(values@[i]) == Some(#[trigger] directions[i])
}

/// The name of a command on the wire.
pub open spec fn kind_of(command: BackendCommand) -> Seq<char> {
    match command {
        BackendCommand::SendChat { .. } => "send_chat"@,
        BackendCommand::LookRelative { .. } => "look_relative"@,
        BackendCommand::Move { .. } => "move"@,
        BackendCommand::ReleaseAll => "release_all"@,
        BackendCommand::Respawn => "respawn"@,
    }
}

pub open spec fn known_kind(kind: Seq<char>) -> bool {
    kind == "send_chat"@ || kind == "look_relative"@ || kind == "move"@ || kind == "release_all"@
        || kind == "respawn"@
}

/// The object is a command of this kind.
pub open spec fn holds(fields: Seq<(String, WireValue)>, kind: Seq<char>) -> bool {
    if kind == "send_chat"@ {
        holds_chat(fields)
    } else if kind == "look_relative"@ {
        holds_look(fields)
    } else if kind == "move"@ {
        holds_move(fields)
    } else {
        only_from(fields, bare_fields(), 0)
    }
}

fn same_name(name: &String, other: &str) -> (r: bool)
    ensures
        r == (name@ == other@),
{
    *name == other.to_owned()
}

fn find<'a>(fields: &'a WireFields, name: &str) -> (value: Option<&'a WireValue>)
    ensures
        match value {
            Some(found) => field(fields@, name@) == Some(*found),
            None => field(fields@, name@) is None,
        },
{
    let mut i: usize = 0;
    while i < fields.len()
        invariant
            i <= fields@.len(),
            field(fields@, name@) == field_from(fields@, name@, i as int),
        decreases fields@.len() - i,
    {
        if same_name(&fields[i].0, name) {
            return Some(&fields[i].1);
        }
        i = i + 1;
    }
    None
}

fn find_aliased<'a>(fields: &'a WireFields, name: &str, older: &str) -> (value: Option<
    &'a WireValue,
>)
    ensures
        match value {
            Some(found) => aliased(fields@, name@, older@) == Some(*found),
            None => aliased(fields@, name@, older@) is None,
        },
{
    match (find(fields, name), find(fields, older)) {
        (Some(value), None) => Some(value),
        (None, Some(value)) => Some(value),
        _ => None,
    }
}

/// The names as values.
pub open spec fn names_view(names: Seq<&str>) -> Seq<Seq<char>> {
    names.map_values(|name: &str| name@)
}

fn is_allowed(name: &String, allowed: &Vec<&str>) -> (r: bool)
    ensures
        r == names_view(allowed@).contains(name@),
{
    let mut i: usize = 0;
    while i < allowed.len()
        invariant
            i <= allowed@.len(),
            forall|k: int| 0 <= k < i ==> allowed@[k]@ != name@,
        decreases allowed@.len() - i,
    {
        if same_name(name, allowed[i]) {
            assert(names_view(allowed@)[i as int] == name@);
            return true;
        }
        i = i + 1;
    }
    assert forall|k: int| 0 <= k < names_view(allowed@).len() implies names_view(allowed@)[k]
        != name@ by {
        assert(names_view(allowed@)[k] == allowed@[k]@);
    }
    false
}

fn is_given_from(fields: &WireFields, name: &String, from: usize) -> (r: bool)
    ensures
        r == (field_from(fields@, name@, from as int) is Some),
{
    let mut i: usize = from;
    while i < fields.len()
        invariant
            from <= i,
            field_from(fields@, name@, from as int) == field_from(fields@, name@, i as int),
        decreases fields@.len() - i,
    {
        if same_name(&fields[i].0, name.as_str()) {
            return true;
        }
        i = i + 1;
    }
    false
}

fn has_only(fields: &WireFields, allowed: &Vec<&str>) -> (r: bool)
    ensures
        r == only_from(fields@, names_view(allowed@), 0),
{
    let mut i: usize = 0;
    while i < fields.len()
        invariant
            i <= fields@.len(),
            only_from(fields@, names_view(allowed@), 0) == only_from(
                fields@,
                names_view(allowed@),
                i as int,
            ),
        decreases fields@.len() - i,
    {
        if !is_allowed(&fields[i].0, allowed) || is_given_from(fields, &fields[i].0, i + 1) {
            return false;
        }
        i = i + 1;
    }
    true
}

fn read_single(value: Option<&WireValue>) -> (r: Option<Single>)
    ensures
        r == as_single(
            match value {
                Some(found) => Some(*found),
                None => None,
            },
        ),
{
    match value {
        Some(WireValue::Number { single, .. }) => *single,
        _ => None,
    }
}

fn read_natural(value: Option<&WireValue>) -> (r: Option<u64>)
    ensures
        r == as_natural(
            match value {
                Some(found) => Some(*found),
                None => None,
            },
        ),
{
    match value {
        Some(WireValue::Number { natural, .. }) => *natural,
        _ => None,
    }
}

fn read_flag(value: Option<&WireValue>) -> (r: Option<Option<bool>>)
    ensures
        r == as_flag(
            match value {
                Some(found) => Some(*found),
                None => None,
            },
        ),
{
    match value {
        None => Some(None),
        Some(WireValue::Null) => Some(None),
        Some(WireValue::Bool(flag)) => Some(Some(*flag)),
        _ => None,
    }
}

fn read_direction_name(name: &String) -> (r: Option<MotorDirection>)
    ensures
        r == direction_named(name@),
{
    if same_name(name, "forward") {
        Some(MotorDirection::Forward)
    } else if same_name(name, "back") {
        Some(MotorDirection::Back)
    } else if same_name(name, "left") {
        Some(MotorDirection::Left)
    } else if same_name(name, "right") {
        Some(MotorDirection::Right)
    } else {
        None
    }
}

fn read_direction(value: &WireValue) -> (r: Option<MotorDirection>)
    ensures
        r == as_direction(*value),
{
    match value {
        WireValue::Text(name) => read_direction_name(name),
        WireValue::Object(fields) => if fields.len() == 1 {
            match &fields[0].1 {
                WireValue::Null => read_direction_name(&fields[0].0),
                _ => None,
            }
        } else {
            None
        },
        _ => None,
    }
}

fn read_directions(values: &Vec<WireValue>) -> (r: Option<Vec<MotorDirection>>)
    ensures
        r is Some <==> all_directions(values@),
        r matches Some(directions) ==> directions@.len() == values@.len() && forall|i: int|
            0 <= i < directions@.len() ==> as_direction(values@[i]) == Some(
                #[trigger] directions@[i],
            ),
{
    let mut directions: Vec<MotorDirection> = Vec::new();
    let mut i: usize = 0;
    while i < values.len()
        invariant
            i <= values@.len(),
            directions@.len() == i,
            forall|k: int|
                0 <= k < i ==> as_direction(values@[k]) == Some(#[trigger] directions@[k]),
        decreases values@.len() - i,
    {
        match read_direction(&values[i]) {
            Some(direction) => {
                directions.push(direction);
            },
            None => {
                assert(as_direction(values@[i as int]) is None);
                return None;
            },
        }
        i = i + 1;
    }
    assert forall|k: int| 0 <= k < values@.len() implies as_direction(
        #[trigger] values@[k],
    ) is Some by {
        assert(as_direction(values@[k]) == Some(directions@[k]));
    }
    Some(directions)
}

fn read_chat(fields: &WireFields) -> (r: Option<BackendCommand>)
    ensures
        r is Some <==> holds_chat(fields@),
        r matches Some(command) ==> command is SendChat && writes(fields@, command),
{
    let allowed: Vec<&str> = vec!["type", "message"];
    assert(names_view(allowed@) =~= chat_fields());
    if !has_only(fields, &allowed) {
        return None;
    }
    match find(fields, "message") {
        Some(WireValue::Text(message)) => Some(
            BackendCommand::SendChat { message: message.clone() },
        ),
        _ => None,
    }
}

fn read_look(fields: &WireFields) -> (r: Option<BackendCommand>)
    ensures
        r is Some <==> holds_look(fields@),
        r matches Some(command) ==> command is LookRelative && writes(fields@, command),
{
    let allowed: Vec<&str> = vec![
        "type",
        "yawDegrees",
        "yaw_degrees",
        "pitchDegrees",
        "pitch_degrees",
    ];
    assert(names_view(allowed@) =~= look_fields());
    if !has_only(fields, &allowed) {
        return None;
    }
    let yaw = read_single(find_aliased(fields, "yawDegrees", "yaw_degrees"));
    let pitch = read_single(find_aliased(fields, "pitchDegrees", "pitch_degrees"));
    match (yaw, pitch) {
        (Some(yaw_degrees), Some(pitch_degrees)) => Some(
            BackendCommand::LookRelative { yaw_degrees, pitch_degrees },
        ),
        _ => None,
    }
}

fn read_move(fields: &WireFields) -> (r: Option<BackendCommand>)
    ensures
        r is Some <==> holds_move(fields@),
        r matches Some(command) ==> command is Move && writes(fields@, command),
{
    let allowed: Vec<&str> = vec![
        "type",
        "directions",
        "durationMs",
        "duration_ms",
        "sprint",
        "jump",
        "crouch",
    ];
    assert(names_view(allowed@) =~= move_fields());
    if !has_only(fields, &allowed) {
        return None;
    }
    let directions = match find(fields, "directions") {
        Some(WireValue::List(values)) => match read_directions(values) {
            Some(directions) => directions,
            None => {
                return None;
            },
        },
        _ => {
            return None;
        },
    };
    let duration = read_natural(find_aliased(fields, "durationMs", "duration_ms"));
    let sprint = read_flag(find(fields, "sprint"));
    let jump = read_flag(find(fields, "jump"));
    let crouch = read_flag(find(fields, "crouch"));
    match (duration, sprint, jump, crouch) {
        (Some(duration_ms), Some(sprint), Some(jump), Some(crouch)) => Some(
            BackendCommand::Move { directions, duration_ms, sprint, jump, crouch },
        ),
        _ => None,
    }
}

fn read_bare(fields: &WireFields) -> (r: bool)
    ensures
        r == only_from(fields@, bare_fields(), 0),
{
    let allowed: Vec<&str> = vec!["type"];
    assert(names_view(allowed@) =~= bare_fields());
    has_only(fields, &allowed)
}

/// Reads a command.
pub fn command_from_wire(fields: &WireFields) -> (r: Result<BackendCommand, WireError>)
    ensures
        match as_text(field(fields@, "type"@)) {
            None => r == Err::<BackendCommand, WireError>(WireError::MissingType),
            Some(kind) => if !known_kind(kind@) {
                r == Err::<BackendCommand, WireError>(WireError::UnknownType(kind))
            } else if !holds(fields@, kind@) {
                r == Err::<BackendCommand, WireError>(WireError::BadFields)
            } else {
                r is Ok && kind_of(r->Ok_0) == kind@ && writes(fields@, r->Ok_0)
            },
        },
{
    proof {
        reveal_strlit("send_chat");
        reveal_strlit("look_relative");
        reveal_strlit("move");
        reveal_strlit("release_all");
        reveal_strlit("respawn");
        assert("send_chat"@.len() == 9 && "look_relative"@.len() == 13 && "move"@.len() == 4
            && "release_all"@.len() == 11 && "respawn"@.len() == 7);
    }
    let kind = match find(fields, "type") {
        Some(WireValue::Text(kind)) => kind,
        _ => {
            return Err(WireError::MissingType);
        },
    };
    let read = if same_name(kind, "send_chat") {
        read_chat(fields)
    } else if same_name(kind, "look_relative") {
        read_look(fields)
    } else if same_name(kind, "move") {
        read_move(fields)
    } else if same_name(kind, "release_all") {
        if read_bare(fields) {
            Some(BackendCommand::ReleaseAll)
        } else {
            None
        }
    } else if same_name(kind, "respawn") {
        if read_bare(fields) {
            Some(BackendCommand::Respawn)
        } else {
            None
        }
    } else {
        return Err(WireError::UnknownType(kind.clone()));
    };
    match read {
        Some(command) => Ok(command),
        None => Err(WireError::BadFields),
    }
}

/// One more field is found under its name, unless there was one before; every
/// other field stays as it was.
proof fn lemma_pushed(
    fields: Seq<(String, WireValue)>,
    added: (String, WireValue),
    name: Seq<char>,
    from: int,
)
    requires
        0 <= from <= fields.len(),
    ensures
        field_from(fields.push(added), name, from) == (match field_from(fields, name, from) {
            Some(value) => Some(value),
            None => if added.0@ == name {
                Some(added.1)
            } else {
                None
            },
        }),
    decreases fields.len() - from,
{
    let longer = fields.push(added);
    if from < fields.len() {
        assert(longer[from] == fields[from]);
        if fields[from].0@ != name {
            lemma_pushed(fields, added, name, from + 1);
        }
    } else {
        assert(longer[from] == added);
        assert(field_from(longer, name, from + 1) is None);
    }
}

proof fn lemma_pushed_only(
    fields: Seq<(String, WireValue)>,
    added: (String, WireValue),
    allowed: Seq<Seq<char>>,
    from: int,
)
    requires
        0 <= from <= fields.len(),
    ensures
        only_from(fields.push(added), allowed, from) == (only_from(fields, allowed, from)
            && allowed.contains(added.0@) && field_from(fields, added.0@, from) is None),
    decreases fields.len() - from,
{
    let longer = fields.push(added);
    if from < fields.len() {
        assert(longer[from] == fields[from]);
        lemma_pushed(fields, added, fields[from].0@, from + 1);
        lemma_pushed_only(fields, added, allowed, from + 1);
    } else {
        assert(longer[from] == added);
        assert(field_from(longer, added.0@, from + 1) is None);
        assert(only_from(longer, allowed, from + 1));
    }
}

/// The fields with one more.
pub open spec fn with_field(
    before: Seq<(String, WireValue)>,
    name: Seq<char>,
    value: WireValue,
    after: Seq<(String, WireValue)>,
) -> bool {
    &&& forall|other: Seq<char>| #[trigger]
        field(after, other) == (match field(before, other) {
            Some(found) => Some(found),
            None => if other == name {
                Some(value)
            } else {
                None
            },
        })
    &&& forall|allowed: Seq<Seq<char>>| #[trigger]
        only_from(after, allowed, 0) == (only_from(before, allowed, 0) && allowed.contains(name)
            && field(before, name) is None)
}

fn put(fields: &mut WireFields, name: &str, value: WireValue)
    ensures
        with_field(old(fields)@, name@, value, final(fields)@),
{
    let ghost before = fields@;
    let key = name.to_owned();
    let ghost added = (key, value);
    fields.push((key, value));
    proof {
        assert(fields@ == before.push(added));
        assert forall|other: Seq<char>| #[trigger]
            field(fields@, other) == (match field(before, other) {
                Some(found) => Some(found),
                None => if other == name@ {
                    Some(value)
                } else {
                    None
                },
            }) by {
            lemma_pushed(before, added, other, 0);
        }
        assert forall|allowed: Seq<Seq<char>>| #[trigger]
            only_from(fields@, allowed, 0) == (only_from(before, allowed, 0) && allowed.contains(
                name@,
            ) && field(before, name@) is None) by {
            lemma_pushed_only(before, added, allowed, 0);
        }
    }
}

/// The fields with an optional flag: a flag that is not given is not written.
pub open spec fn with_flag(
    before: Seq<(String, WireValue)>,
    name: Seq<char>,
    flag: Option<bool>,
    after: Seq<(String, WireValue)>,
) -> bool {
    match flag {
        Some(flag) => with_field(before, name, WireValue::Bool(flag), after),
        None => after == before,
    }
}

fn put_flag(fields: &mut WireFields, name: &str, flag: Option<bool>)
    ensures
        with_flag(old(fields)@, name@, flag, final(fields)@),
{
    if let Some(flag) = flag {
        put(fields, name, WireValue::Bool(flag));
    }
}

fn direction_name(direction: MotorDirection) -> (name: &'static str)
    ensures
        direction_named(name@) == Some(direction),
{
    proof {
        reveal_strlit("forward");
        reveal_strlit("back");
        reveal_strlit("left");
        reveal_strlit("right");
        assert("forward"@.len() == 7 && "back"@.len() == 4 && "left"@.len() == 4
            && "right"@.len() == 5);
        assert("back"@[0] == 'b' && "left"@[0] == 'l');
    }
    match direction {
        MotorDirection::Forward => "forward",
        MotorDirection::Back => "back",
        MotorDirection::Left => "left",
        MotorDirection::Right => "right",
    }
}

fn write_directions(directions: &Vec<MotorDirection>) -> (value: WireValue)
    ensures
        lists(value, directions@),
        value matches WireValue::List(values) && all_directions(values@),
        all_texts(value),
{
    let mut values: Vec<WireValue> = Vec::new();
    let mut i: usize = 0;
    while i < directions.len()
        invariant
            i <= directions@.len(),
            values@.len() == i,
            forall|k: int| 0 <= k < i ==> #[trigger] values@[k] is Text,
            forall|k: int|
                0 <= k < i ==> as_direction(values@[k]) == Some(#[trigger] directions@[k]),
        decreases directions@.len() - i,
    {
        values.push(WireValue::Text(direction_name(directions[i]).to_owned()));
        i = i + 1;
    }
    assert forall|k: int| 0 <= k < values@.len() implies as_direction(
        #[trigger] values@[k],
    ) is Some by {
        assert(as_direction(values@[k]) == Some(directions@[k]));
    }
    WireValue::List(values)
}

/// The field names differ from one another.
proof fn lemma_field_names()
    ensures
        "type"@ != "message"@,
        "type"@ != "directions"@,
        "type"@ != "durationMs"@,
        "type"@ != "duration_ms"@,
        "type"@ != "sprint"@,
        "type"@ != "jump"@,
        "type"@ != "crouch"@,
        "type"@ != "yawDegrees"@,
        "type"@ != "yaw_degrees"@,
        "type"@ != "pitchDegrees"@,
        "type"@ != "pitch_degrees"@,
        "yawDegrees"@ != "yaw_degrees"@,
        "yawDegrees"@ != "pitchDegrees"@,
        "yawDegrees"@ != "pitch_degrees"@,
        "pitchDegrees"@ != "pitch_degrees"@,
        "pitchDegrees"@ != "yaw_degrees"@,
        "directions"@ != "durationMs"@,
        "directions"@ != "duration_ms"@,
        "directions"@ != "sprint"@,
        "directions"@ != "jump"@,
        "directions"@ != "crouch"@,
        "durationMs"@ != "duration_ms"@,
        "durationMs"@ != "sprint"@,
        "durationMs"@ != "jump"@,
        "durationMs"@ != "crouch"@,
        "sprint"@ != "duration_ms"@,
        "jump"@ != "duration_ms"@,
        "crouch"@ != "duration_ms"@,
        "sprint"@ != "jump"@,
        "sprint"@ != "crouch"@,
        "jump"@ != "crouch"@,
{
    reveal_strlit("type");
    reveal_strlit("message");
    reveal_strlit("directions");
    reveal_strlit("durationMs");
    reveal_strlit("duration_ms");
    reveal_strlit("sprint");
    reveal_strlit("jump");
    reveal_strlit("crouch");
    reveal_strlit("yawDegrees");
    reveal_strlit("yaw_degrees");
    reveal_strlit("pitchDegrees");
    reveal_strlit("pitch_degrees");
    assert("type"@.len() == 4 && "message"@.len() == 7 && "directions"@.len() == 10
        && "durationMs"@.len() == 10 && "duration_ms"@.len() == 11 && "sprint"@.len() == 6
        && "jump"@.len() == 4 && "crouch"@.len() == 6 && "yawDegrees"@.len() == 10
        && "yaw_degrees"@.len() == 11 && "pitchDegrees"@.len() == 12 && "pitch_degrees"@.len()
        == 13);
    assert("type"@[0] == 't' && "jump"@[0] == 'j');
    assert("sprint"@[0] == 's' && "crouch"@[0] == 'c');
    assert("directions"@[1] == 'i' && "durationMs"@[1] == 'u');
}

/// Every value of a list is a text.
pub open spec fn all_texts(value: WireValue) -> bool {
    &&& value matches WireValue::List(values)
    &&& forall|i: int| 0 <= i < values@.len() ==> #[trigger] values@[i] is Text
}

/// Commands are written under the newer names only, movement keys as texts, and
/// flags that are not given are left out.
pub open spec fn canonical(fields: Seq<(String, WireValue)>, command: BackendCommand) -> bool {
    &&& field(fields, "yaw_degrees"@) is None
    &&& field(fields, "pitch_degrees"@) is None
    &&& field(fields, "duration_ms"@) is None
    &&& (command matches BackendCommand::Move { sprint, jump, crouch, .. } ==> {
        &&& field(fields, "directions"@) matches Some(listed) && all_texts(listed)
        &&& sprint is None <==> field(fields, "sprint"@) is None
        &&& jump is None <==> field(fields, "jump"@) is None
        &&& crouch is None <==> field(fields, "crouch"@) is None
    })
}

fn begin_object(kind: &str) -> (fields: WireFields)
    ensures
        as_text(field(fields@, "type"@)) is Some,
        as_text(field(fields@, "type"@))->0@ == kind@,
        forall|name: Seq<char>| name != "type"@ ==> #[trigger] field(fields@, name) is None,
        forall|allowed: Seq<Seq<char>>| #[trigger]
            only_from(fields@, allowed, 0) == allowed.contains("type"@),
{
    let mut fields: WireFields = Vec::new();
    put(&mut fields, "type", WireValue::Text(kind.to_owned()));
    fields
}

fn write_look(yaw_degrees: Single, pitch_degrees: Single) -> (fields: WireFields)
    ensures
        as_text(field(fields@, "type"@)) is Some,
        as_text(field(fields@, "type"@))->0@ == "look_relative"@,
        writes(fields@, BackendCommand::LookRelative { yaw_degrees, pitch_degrees }),
        canonical(fields@, BackendCommand::LookRelative { yaw_degrees, pitch_degrees }),
{
    let mut fields = begin_object("look_relative");
    put(
        &mut fields,
        "yawDegrees",
        WireValue::Number { natural: None, single: Some(yaw_degrees) },
    );
    put(
        &mut fields,
        "pitchDegrees",
        WireValue::Number { natural: None, single: Some(pitch_degrees) },
    );
    proof {
        lemma_field_names();
        reveal_strlit("duration_ms");
        reveal_strlit("yawDegrees");
        reveal_strlit("pitchDegrees");
        assert(look_fields()[0] == "type"@);
        assert(look_fields()[1] == "yawDegrees"@);
        assert(look_fields()[3] == "pitchDegrees"@);
        assert("duration_ms"@.len() == 11 && "yawDegrees"@.len() == 10 && "pitchDegrees"@.len()
            == 12);
    }
    fields
}

fn write_move(
    directions: &Vec<MotorDirection>,
    duration_ms: u64,
    sprint: Option<bool>,
    jump: Option<bool>,
    crouch: Option<bool>,
) -> (fields: WireFields)
    ensures
        as_text(field(fields@, "type"@)) is Some,
        as_text(field(fields@, "type"@))->0@ == "move"@,
        writes(
            fields@,
            BackendCommand::Move { directions: *directions, duration_ms, sprint, jump, crouch },
        ),
        canonical(
            fields@,
            BackendCommand::Move { directions: *directions, duration_ms, sprint, jump, crouch },
        ),
{
    proof {
        lemma_field_names();
        reveal_strlit("yaw_degrees");
        reveal_strlit("pitch_degrees");
        reveal_strlit("directions");
        reveal_strlit("durationMs");
        reveal_strlit("sprint");
        reveal_strlit("jump");
        reveal_strlit("crouch");
        assert("yaw_degrees"@.len() == 11 && "pitch_degrees"@.len() == 13
            && "directions"@.len() == 10 && "durationMs"@.len() == 10 && "sprint"@.len() == 6
            && "jump"@.len() == 4 && "crouch"@.len() == 6);
        assert(move_fields()[0] == "type"@);
        assert(move_fields()[1] == "directions"@);
        assert(move_fields()[2] == "durationMs"@);
        assert(move_fields()[4] == "sprint"@);
        assert(move_fields()[5] == "jump"@);
        assert(move_fields()[6] == "crouch"@);
    }
    let mut fields = begin_object("move");
    put(&mut fields, "directions", write_directions(directions));
    put(
        &mut fields,
        "durationMs",
        WireValue::Number { natural: Some(duration_ms), single: None },
    );
    put_flag(&mut fields, "sprint", sprint);
    put_flag(&mut fields, "jump", jump);
    put_flag(&mut fields, "crouch", crouch);
    fields
}

/// Writes a command.
pub fn command_to_wire(command: &BackendCommand) -> (fields: WireFields)
    ensures
        as_text(field(fields@, "type"@)) is Some,
        as_text(field(fields@, "type"@))->0@ == kind_of(*command),
        writes(fields@, *command),
        canonical(fields@, *command),
{
    proof {
        lemma_field_names();
        reveal_strlit("yaw_degrees");
        reveal_strlit("pitch_degrees");
        reveal_strlit("duration_ms");
        reveal_strlit("message");
        assert("yaw_degrees"@.len() == 11 && "pitch_degrees"@.len() == 13
            && "duration_ms"@.len() == 11 && "message"@.len() == 7);
        assert(bare_fields()[0] == "type"@);
        assert(chat_fields()[0] == "type"@);
        assert(chat_fields()[1] == "message"@);
    }
    match command {
        BackendCommand::SendChat { message } => {
            let mut fields = begin_object("send_chat");
            put(&mut fields, "message", WireValue::Text(message.clone()));
            fields
        },
        BackendCommand::LookRelative { yaw_degrees, pitch_degrees } => write_look(
            *yaw_degrees,
            *pitch_degrees,
        ),
        BackendCommand::Move { directions, duration_ms, sprint, jump, crouch } => write_move(
            directions,
            *duration_ms,
            *sprint,
            *jump,
            *crouch,
        ),
        BackendCommand::ReleaseAll => begin_object("release_all"),
        BackendCommand::Respawn => begin_object("respawn"),
    }
}

/// Two commands ask for the same.
pub open spec fn same_command(a: BackendCommand, b: BackendCommand) -> bool {
    match (a, b) {
        (
            BackendCommand::Move { directions, duration_ms, sprint, jump, crouch },
            BackendCommand::Move {
                directions: other_directions,
                duration_ms: other_duration,
                sprint: other_sprint,
                jump: other_jump,
                crouch: other_crouch,
            },
        ) => directions@ == other_directions@ && duration_ms == other_duration && sprint
            == other_sprint && jump == other_jump && crouch == other_crouch,
        _ => a == b,
    }
}

/// What was written as a command is read as that very command.
pub proof fn law_commands_survive_the_wire(
    fields: Seq<(String, WireValue)>,
    written: BackendCommand,
    read: BackendCommand,
)
    requires
        writes(fields, written),
        writes(fields, read),
        kind_of(written) == kind_of(read),
    ensures
        same_command(written, read),
        holds(fields, kind_of(written)),
{
    reveal_strlit("send_chat");
    reveal_strlit("look_relative");
    reveal_strlit("move");
    reveal_strlit("release_all");
    reveal_strlit("respawn");
    assert("send_chat"@.len() == 9 && "look_relative"@.len() == 13 && "move"@.len() == 4
        && "release_all"@.len() == 11 && "respawn"@.len() == 7);
    if let (
        BackendCommand::Move { directions, .. },
        BackendCommand::Move { directions: others, .. },
    ) = (written, read) {
        let value = field(fields, "directions"@)->0;
        assert forall|i: int| 0 <= i < directions@.len() implies #[trigger] directions@[i]
            == others@[i] by {
            assert(as_direction(value->List_0@[i]) == Some(directions@[i]));
            assert(as_direction(value->List_0@[i]) == Some(others@[i]));
        }
        assert(directions@ =~= others@);
    }
}

/// An object with a field that no command of its kind has is never read.
pub proof fn law_unknown_fields_are_refused(
    fields: Seq<(String, WireValue)>,
    kind: Seq<char>,
    at: int,
)
    requires
        known_kind(kind),
        0 <= at < fields.len(),
        !chat_fields().contains(fields[at].0@),
        !look_fields().contains(fields[at].0@),
        !move_fields().contains(fields[at].0@),
    ensures
        !holds(fields, kind),
{
    assert(!bare_fields().contains(fields[at].0@)) by {
        if bare_fields().contains(fields[at].0@) {
            assert(chat_fields()[0] == "type"@);
        }
    }
    lemma_stranger(fields, chat_fields(), 0, at);
    lemma_stranger(fields, look_fields(), 0, at);
    lemma_stranger(fields, move_fields(), 0, at);
    lemma_stranger(fields, bare_fields(), 0, at);
}

/// An object in which a name is given twice is never read, neither as a command
/// nor as an envelope.
pub proof fn law_repeated_fields_are_refused(
    fields: Seq<(String, WireValue)>,
    kind: Seq<char>,
    first: int,
    second: int,
)
    requires
        0 <= first < second < fields.len(),
        fields[first].0@ == fields[second].0@,
    ensures
        !holds(fields, kind),
        !holds_envelope(fields),
{
    lemma_repeated(fields, chat_fields(), 0, first, second);
    lemma_repeated(fields, look_fields(), 0, first, second);
    lemma_repeated(fields, move_fields(), 0, first, second);
    lemma_repeated(fields, bare_fields(), 0, first, second);
    lemma_repeated(fields, envelope_fields(), 0, first, second);
}

proof fn lemma_given(fields: Seq<(String, WireValue)>, from: int, at: int)
    requires
        0 <= from <= at < fields.len(),
    ensures
        field_from(fields, fields[at].0@, from) is Some,
    decreases at - from,
{
    if from < at {
        lemma_given(fields, from + 1, at);
    }
}

proof fn lemma_repeated(
    fields: Seq<(String, WireValue)>,
    allowed: Seq<Seq<char>>,
    from: int,
    first: int,
    second: int,
)
    requires
        0 <= from <= first < second < fields.len(),
        fields[first].0@ == fields[second].0@,
    ensures
        !only_from(fields, allowed, from),
    decreases first - from,
{
    if from < first {
        lemma_repeated(fields, allowed, from + 1, first, second);
    } else {
        lemma_given(fields, first + 1, second);
    }
}

proof fn lemma_stranger(
    fields: Seq<(String, WireValue)>,
    allowed: Seq<Seq<char>>,
    from: int,
    at: int,
)
    requires
        0 <= from <= at < fields.len(),
        !allowed.contains(fields[at].0@),
    ensures
        !only_from(fields, allowed, from),
    decreases at - from,
{
    if from < at {
        lemma_stranger(fields, allowed, from + 1, at);
    }
}

/// Why an object is no command envelope.
#[derive(Debug, PartialEq, Eq)]
pub enum EnvelopeError {
    /// A field is missing, unknown, given twice, or holds something else.
    BadFields,
    /// The time of issue names no instant.
    BadInstant,
    /// The command is none.
    Command(WireError),
}

pub open spec fn envelope_fields() -> Seq<Seq<char>> {
    seq!["protocol"@, "id"@, "issuedAt"@, "issued_at"@, "command"@]
}

/// The object has the shape of an envelope.
pub open spec fn holds_envelope(fields: Seq<(String, WireValue)>) -> bool {
    &&& only_from(fields, envelope_fields(), 0)
    &&& as_text(field(fields, "protocol"@)) is Some
    &&& as_text(field(fields, "id"@)) is Some
    &&& as_text(aliased(fields, "issuedAt"@, "issued_at"@)) is Some
    &&& field(fields, "command"@) matches Some(WireValue::Object(_))
}

/// The fields of the command inside an envelope.
pub open spec fn inner_fields(fields: Seq<(String, WireValue)>) -> Seq<(String, WireValue)> {
    (field(fields, "command"@)->0)->Object_0@
}

/// The object is the wire form of the envelope, issued at this instant.
pub open spec fn writes_envelope(
    fields: Seq<(String, WireValue)>,
    envelope: BackendCommandEnvelope,
    issued: (i64, u32),
) -> bool {
    &&& envelope.protocol.spec_text() == as_text(field(fields, "protocol"@))->0@
    &&& envelope.id == CommandId::Named(as_text(field(fields, "id"@))->0)
    &&& envelope.issued_at == (UtcInstant { seconds: issued.0, nanos: issued.1 })
    &&& writes(inner_fields(fields), envelope.command)
    &&& as_text(field(inner_fields(fields), "type"@)) matches Some(kind) && kind@ == kind_of(
        envelope.command,
    )
}

fn read_text(value: Option<&WireValue>) -> (r: Option<String>)
    ensures
        r == as_text(
            match value {
                Some(found) => Some(*found),
                None => None,
            },
        ),
{
    match value {
        Some(WireValue::Text(text)) => Some(text.clone()),
        _ => None,
    }
}

/// The envelope of a command that was read, given the instant that its time of
/// issue names.
pub fn envelope_with_instant(fields: &WireFields, issued: Option<UtcInstant>) -> (r: Result<
    BackendCommandEnvelope,
    EnvelopeError,
>)
    ensures
        if !holds_envelope(fields@) {
            r == Err::<BackendCommandEnvelope, EnvelopeError>(EnvelopeError::BadFields)
        } else if issued is None {
            r == Err::<BackendCommandEnvelope, EnvelopeError>(EnvelopeError::BadInstant)
        } else {
            let inner = inner_fields(fields@);
            match as_text(field(inner, "type"@)) {
                None => r == Err::<BackendCommandEnvelope, EnvelopeError>(
                    EnvelopeError::Command(WireError::MissingType),
                ),
                Some(kind) => if !known_kind(kind@) {
                    r == Err::<BackendCommandEnvelope, EnvelopeError>(
                        EnvelopeError::Command(WireError::UnknownType(kind)),
                    )
                } else if !holds(inner, kind@) {
                    r == Err::<BackendCommandEnvelope, EnvelopeError>(
                        EnvelopeError::Command(WireError::BadFields),
                    )
                } else {
                    r is Ok && writes_envelope(
                        fields@,
                        r->Ok_0,
                        (issued->0.seconds, issued->0.nanos),
                    )
                },
            }
        },
{
    let allowed: Vec<&str> = vec!["protocol", "id", "issuedAt", "issued_at", "command"];
    assert(names_view(allowed@) =~= envelope_fields());
    if !has_only(fields, &allowed) {
        return Err(EnvelopeError::BadFields);
    }
    let protocol = read_text(find(fields, "protocol"));
    let id = read_text(find(fields, "id"));
    let at = read_text(find_aliased(fields, "issuedAt", "issued_at"));
    let command = match find(fields, "command") {
        Some(WireValue::Object(inner)) => inner,
        _ => {
            return Err(EnvelopeError::BadFields);
        },
    };
    match (protocol, id, at) {
        (Some(protocol), Some(id), Some(_)) => match issued {
            None => Err(EnvelopeError::BadInstant),
            Some(issued_at) => match command_from_wire(command) {
                Err(error) => Err(EnvelopeError::Command(error)),
                Ok(command) => Ok(
                    BackendCommandEnvelope {
                        protocol: CommandProtocol::parse(protocol),
                        id: CommandId::Named(id),
                        issued_at,
                        command,
                    },
                ),
            },
        },
        _ => Err(EnvelopeError::BadFields),
    }
}

/// The instant that the time of issue names.
pub open spec fn issued_instant(fields: Seq<(String, WireValue)>) -> Option<(i64, u32)> {
    match as_text(aliased(fields, "issuedAt"@, "issued_at"@)) {
        Some(text) => rfc3339_instant(text@),
        None => None,
    }
}

/// Reads the envelope of a command.
pub fn envelope_from_wire(fields: &WireFields) -> (r: Result<BackendCommandEnvelope, EnvelopeError>)
    ensures
        !holds_envelope(fields@) ==> r == Err::<BackendCommandEnvelope, EnvelopeError>(
            EnvelopeError::BadFields,
        ),
        holds_envelope(fields@) && issued_instant(fields@) is None ==> r == Err::<
            BackendCommandEnvelope,
            EnvelopeError,
        >(EnvelopeError::BadInstant),
        holds_envelope(fields@) && issued_instant(fields@) is Some ==> {
            let inner = inner_fields(fields@);
            match as_text(field(inner, "type"@)) {
                None => r == Err::<BackendCommandEnvelope, EnvelopeError>(
                    EnvelopeError::Command(WireError::MissingType),
                ),
                Some(kind) => if !known_kind(kind@) {
                    r == Err::<BackendCommandEnvelope, EnvelopeError>(
                        EnvelopeError::Command(WireError::UnknownType(kind)),
                    )
                } else if !holds(inner, kind@) {
                    r == Err::<BackendCommandEnvelope, EnvelopeError>(
                        EnvelopeError::Command(WireError::BadFields),
                    )
                } else {
                    r is Ok && writes_envelope(fields@, r->Ok_0, issued_instant(fields@)->0)
                },
            }
        },
{
    let issued = match find_aliased(fields, "issuedAt", "issued_at") {
        Some(WireValue::Text(text)) => UtcInstant::parse(text.as_str()),
        _ => None,
    };
    envelope_with_instant(fields, issued)
}

/// A field of this name holds this value.
pub open spec fn given(fields: Seq<(String, WireValue)>, name: Seq<char>, value: WireValue) -> bool {
    exists|i: int| 0 <= i < fields.len() && (#[trigger] fields[i]).0@ == name && fields[i].1 == value
}

/// No field has this name.
pub open spec fn absent(fields: Seq<(String, WireValue)>, name: Seq<char>) -> bool {
    forall|i: int| 0 <= i < fields.len() ==> (#[trigger] fields[i]).0@ != name
}

/// No two fields have the same name, and every name is one of these.
pub open spec fn plain(fields: Seq<(String, WireValue)>, names: Set<Seq<char>>) -> bool {
    &&& forall|i: int, j: int|
        0 <= i < j < fields.len() ==> (#[trigger] fields[i]).0@ != (#[trigger] fields[j]).0@
    &&& forall|i: int| 0 <= i < fields.len() ==> names.contains((#[trigger] fields[i]).0@)
}

/// A field under one of two names, while none has the other.
pub open spec fn given_once(
    fields: Seq<(String, WireValue)>,
    name: Seq<char>,
    older: Seq<char>,
    value: WireValue,
) -> bool {
    given(fields, name, value) && absent(fields, older) || given(fields, older, value) && absent(
        fields,
        name,
    )
}

/// A flag: given, null or left out.
pub open spec fn flag_is(
    fields: Seq<(String, WireValue)>,
    name: Seq<char>,
    flag: Option<bool>,
) -> bool {
    match flag {
        Some(flag) => given(fields, name, WireValue::Bool(flag)),
        None => given(fields, name, WireValue::Null) || absent(fields, name),
    }
}

/// The name of a movement key on the wire.
pub open spec fn key_name(direction: MotorDirection) -> Seq<char> {
    match direction {
        MotorDirection::Forward => "forward"@,
        MotorDirection::Back => "back"@,
        MotorDirection::Left => "left"@,
        MotorDirection::Right => "right"@,
    }
}

/// A value names a movement key: by its text, or as an object with that one
/// field and nothing in it.
pub open spec fn names_key(value: WireValue, direction: MotorDirection) -> bool {
    match value {
        WireValue::Text(name) => name@ == key_name(direction),
        WireValue::Object(fields) => fields@.len() == 1 && fields@[0].0@ == key_name(direction)
            && fields@[0].1 == WireValue::Null,
        _ => false,
    }
}

/// The value is a list that names these movement keys, one by one.
pub open spec fn names_keys(value: WireValue, directions: Seq<MotorDirection>) -> bool {
    &&& value matches WireValue::List(values)
    &&& values@.len() == directions.len()
    &&& forall|i: int|
        0 <= i < directions.len() ==> names_key(values@[i], #[trigger] directions[i])
}

proof fn lemma_found(fields: Seq<(String, WireValue)>, name: Seq<char>, from: int)
    requires
        0 <= from <= fields.len(),
    ensures
        match field_from(fields, name, from) {
            Some(value) => exists|i: int|
                from <= i < fields.len() && (#[trigger] fields[i]).0@ == name && fields[i].1
                    == value,
            None => forall|i: int| from <= i < fields.len() ==> (#[trigger] fields[i]).0@ != name,
        },
    decreases fields.len() - from,
{
    if from < fields.len() {
        if fields[from].0@ == name {
            assert(fields[from].1 == field_from(fields, name, from)->0);
        } else {
            lemma_found(fields, name, from + 1);
        }
    }
}

proof fn lemma_only(fields: Seq<(String, WireValue)>, allowed: Seq<Seq<char>>, from: int)
    requires
        0 <= from <= fields.len(),
    ensures
        only_from(fields, allowed, from) <==> {
            &&& forall|i: int, j: int|
                from <= i < j < fields.len() ==> (#[trigger] fields[i]).0@ != (
                #[trigger] fields[j]).0@
            &&& forall|i: int|
                from <= i < fields.len() ==> allowed.contains((#[trigger] fields[i]).0@)
        },
    decreases fields.len() - from,
{
    if from < fields.len() {
        lemma_only(fields, allowed, from + 1);
        lemma_found(fields, fields[from].0@, from + 1);
    }
}

proof fn lemma_plain(
    fields: Seq<(String, WireValue)>,
    allowed: Seq<Seq<char>>,
    names: Set<Seq<char>>,
)
    requires
        forall|name: Seq<char>| names.contains(name) <==> #[trigger] allowed.contains(name),
    ensures
        only_from(fields, allowed, 0) == plain(fields, names),
{
    lemma_only(fields, allowed, 0);
}

/// In an object without repeated names, looking a field up finds the one that
/// is given.
proof fn lemma_lookup(
    fields: Seq<(String, WireValue)>,
    names: Set<Seq<char>>,
    name: Seq<char>,
    value: WireValue,
)
    requires
        plain(fields, names),
    ensures
        field(fields, name) == Some(value) <==> given(fields, name, value),
        field(fields, name) is None <==> absent(fields, name),
{
    lemma_found(fields, name, 0);
    if given(fields, name, value) {
        let i = choose|i: int|
            0 <= i < fields.len() && (#[trigger] fields[i]).0@ == name && fields[i].1 == value;
        let found = field(fields, name)->0;
        let j = choose|j: int|
            0 <= j < fields.len() && (#[trigger] fields[j]).0@ == name && fields[j].1 == found;
        assert(i == j);
    }
}

proof fn lemma_key_names(name: Seq<char>, direction: MotorDirection)
    ensures
        direction_named(name) == Some(direction) <==> name == key_name(direction),
{
    reveal_strlit("forward");
    reveal_strlit("back");
    reveal_strlit("left");
    reveal_strlit("right");
    assert("forward"@.len() == 7 && "back"@.len() == 4 && "left"@.len() == 4 && "right"@.len()
        == 5);
    assert("back"@[0] == 'b' && "left"@[0] == 'l');
}

/// A movement key is read from its own name and from no other text.
pub proof fn law_movement_keys_have_their_names(value: WireValue, direction: MotorDirection)
    ensures
        as_direction(value) == Some(direction) <==> names_key(value, direction),
{
    match value {
        WireValue::Text(name) => {
            lemma_key_names(name@, direction);
        },
        WireValue::Object(fields) => {
            if fields@.len() == 1 {
                lemma_key_names(fields@[0].0@, direction);
            }
        },
        _ => {},
    }
}

proof fn lemma_lists(value: WireValue, directions: Seq<MotorDirection>)
    ensures
        lists(value, directions) == names_keys(value, directions),
{
    if let WireValue::List(values) = value {
        if values@.len() == directions.len() {
            assert forall|i: int| 0 <= i < directions.len() implies (as_direction(values@[i])
                == Some(#[trigger] directions[i])) == names_key(values@[i], directions[i]) by {
                law_movement_keys_have_their_names(values@[i], directions[i]);
            }
            if lists(value, directions) {
                assert forall|i: int| 0 <= i < directions.len() implies names_key(
                    values@[i],
                    #[trigger] directions[i],
                ) by {
                    assert(as_direction(values@[i]) == Some(directions[i]));
                }
            }
            if names_keys(value, directions) {
                assert forall|i: int| 0 <= i < directions.len() implies as_direction(values@[i])
                    == Some(#[trigger] directions[i]) by {
                    assert(names_key(values@[i], directions[i]));
                }
            }
        }
    }
}

/// A chat line is an object with the type and the message, and it says that
/// message.
pub proof fn law_chat_lines_on_the_wire(fields: Seq<(String, WireValue)>, message: String)
    ensures
        writes(fields, BackendCommand::SendChat { message }) <==> plain(
            fields,
            set!["type"@, "message"@],
        ) && given(fields, "message"@, WireValue::Text(message)),
{
    let names = set!["type"@, "message"@];
    assert(chat_fields()[0] == "type"@ && chat_fields()[1] == "message"@);
    lemma_plain(fields, chat_fields(), names);
    if plain(fields, names) {
        lemma_lookup(fields, names, "message"@, WireValue::Text(message));
    }
}

proof fn lemma_single(fields: Seq<(String, WireValue)>, names: Set<Seq<char>>, name: Seq<char>)
    requires
        plain(fields, names),
    ensures
        field(fields, name) matches Some(value) ==> given(fields, name, value),
        field(fields, name) is None <==> absent(fields, name),
{
    if let Some(value) = field(fields, name) {
        lemma_lookup(fields, names, name, value);
    } else {
        lemma_found(fields, name, 0);
    }
    lemma_found(fields, name, 0);
}

/// A number under one of two names is read as that number.
pub open spec fn turns_by(
    fields: Seq<(String, WireValue)>,
    name: Seq<char>,
    older: Seq<char>,
    degrees: Single,
) -> bool {
    exists|natural: Option<u64>| #[trigger]
        given_once(
            fields,
            name,
            older,
            WireValue::Number { natural, single: Some(degrees) },
        )
}

proof fn lemma_given_once(
    fields: Seq<(String, WireValue)>,
    names: Set<Seq<char>>,
    name: Seq<char>,
    older: Seq<char>,
    value: WireValue,
)
    requires
        plain(fields, names),
    ensures
        aliased(fields, name, older) == Some(value) <==> given_once(fields, name, older, value),
{
    lemma_lookup(fields, names, name, value);
    lemma_lookup(fields, names, older, value);
}

proof fn lemma_turns_by(
    fields: Seq<(String, WireValue)>,
    names: Set<Seq<char>>,
    name: Seq<char>,
    older: Seq<char>,
    degrees: Single,
)
    requires
        plain(fields, names),
    ensures
        as_single(aliased(fields, name, older)) == Some(degrees) <==> turns_by(
            fields,
            name,
            older,
            degrees,
        ),
{
    if let Some(value) = aliased(fields, name, older) {
        lemma_given_once(fields, names, name, older, value);
        if let WireValue::Number { natural, single } = value {
            if single == Some(degrees) {
                assert(given_once(
                    fields,
                    name,
                    older,
                    WireValue::Number { natural, single: Some(degrees) },
                ));
            }
        }
    }
    if turns_by(fields, name, older, degrees) {
        let natural = choose|natural: Option<u64>| #[trigger]
            given_once(
                fields,
                name,
                older,
                WireValue::Number { natural, single: Some(degrees) },
            );
        lemma_given_once(
            fields,
            names,
            name,
            older,
            WireValue::Number { natural, single: Some(degrees) },
        );
    }
}

/// A turn is an object with its yaw and its pitch, each under its own name or
/// under its older one, and it turns by those.
pub proof fn law_turns_on_the_wire(
    fields: Seq<(String, WireValue)>,
    yaw_degrees: Single,
    pitch_degrees: Single,
)
    ensures
        writes(fields, BackendCommand::LookRelative { yaw_degrees, pitch_degrees }) <==> {
            &&& plain(
                fields,
                set!["type"@, "yawDegrees"@, "yaw_degrees"@, "pitchDegrees"@, "pitch_degrees"@],
            )
            &&& turns_by(fields, "yawDegrees"@, "yaw_degrees"@, yaw_degrees)
            &&& turns_by(fields, "pitchDegrees"@, "pitch_degrees"@, pitch_degrees)
        },
{
    let names = set!["type"@, "yawDegrees"@, "yaw_degrees"@, "pitchDegrees"@, "pitch_degrees"@];
    let allowed = look_fields();
    assert(allowed[0] == "type"@ && allowed[1] == "yawDegrees"@ && allowed[2] == "yaw_degrees"@
        && allowed[3] == "pitchDegrees"@ && allowed[4] == "pitch_degrees"@);
    lemma_plain(fields, allowed, names);
    if plain(fields, names) {
        lemma_turns_by(fields, names, "yawDegrees"@, "yaw_degrees"@, yaw_degrees);
        lemma_turns_by(fields, names, "pitchDegrees"@, "pitch_degrees"@, pitch_degrees);
    }
}

proof fn lemma_flag_is(
    fields: Seq<(String, WireValue)>,
    names: Set<Seq<char>>,
    name: Seq<char>,
    flag: Option<bool>,
)
    requires
        plain(fields, names),
    ensures
        as_flag(field(fields, name)) == Some(flag) <==> flag_is(fields, name, flag),
{
    lemma_single(fields, names, name);
    lemma_lookup(fields, names, name, WireValue::Null);
    if let Some(on) = flag {
        lemma_lookup(fields, names, name, WireValue::Bool(on));
    }
}

/// A movement lasts for the number under one of two names.
pub open spec fn lasts(fields: Seq<(String, WireValue)>, duration_ms: u64) -> bool {
    exists|single: Option<Single>| #[trigger]
        given_once(
            fields,
            "durationMs"@,
            "duration_ms"@,
            WireValue::Number { natural: Some(duration_ms), single },
        )
}

proof fn lemma_lasts(fields: Seq<(String, WireValue)>, names: Set<Seq<char>>, duration_ms: u64)
    requires
        plain(fields, names),
    ensures
        as_natural(aliased(fields, "durationMs"@, "duration_ms"@)) == Some(duration_ms) <==> lasts(
            fields,
            duration_ms,
        ),
{
    if let Some(value) = aliased(fields, "durationMs"@, "duration_ms"@) {
        lemma_given_once(fields, names, "durationMs"@, "duration_ms"@, value);
        if let WireValue::Number { natural, single } = value {
            if natural == Some(duration_ms) {
                assert(given_once(
                    fields,
                    "durationMs"@,
                    "duration_ms"@,
                    WireValue::Number { natural: Some(duration_ms), single },
                ));
            }
        }
    }
    if lasts(fields, duration_ms) {
        let single = choose|single: Option<Single>| #[trigger]
            given_once(
                fields,
                "durationMs"@,
                "duration_ms"@,
                WireValue::Number { natural: Some(duration_ms), single },
            );
        lemma_given_once(
            fields,
            names,
            "durationMs"@,
            "duration_ms"@,
            WireValue::Number { natural: Some(duration_ms), single },
        );
    }
}

/// Some value under the name lists these movement keys.
pub open spec fn keys_given(
    fields: Seq<(String, WireValue)>,
    directions: Seq<MotorDirection>,
) -> bool {
    exists|value: WireValue| #[trigger]
        given(fields, "directions"@, value) && names_keys(value, directions)
}

/// A movement is an object with its keys, its duration and its flags, each
/// under its own name.
pub proof fn law_movements_on_the_wire(
    fields: Seq<(String, WireValue)>,
    directions: Vec<MotorDirection>,
    duration_ms: u64,
    sprint: Option<bool>,
    jump: Option<bool>,
    crouch: Option<bool>,
)
    ensures
        writes(
            fields,
            BackendCommand::Move { directions, duration_ms, sprint, jump, crouch },
        ) <==> {
            &&& plain(
                fields,
                set![
                    "type"@,
                    "directions"@,
                    "durationMs"@,
                    "duration_ms"@,
                    "sprint"@,
                    "jump"@,
                    "crouch"@,
                ],
            )
            &&& keys_given(fields, directions@)
            &&& lasts(fields, duration_ms)
            &&& flag_is(fields, "sprint"@, sprint)
            &&& flag_is(fields, "jump"@, jump)
            &&& flag_is(fields, "crouch"@, crouch)
        },
{
    let names = set![
        "type"@,
        "directions"@,
        "durationMs"@,
        "duration_ms"@,
        "sprint"@,
        "jump"@,
        "crouch"@,
    ];
    let allowed = move_fields();
    assert(allowed[0] == "type"@ && allowed[1] == "directions"@ && allowed[2] == "durationMs"@
        && allowed[3] == "duration_ms"@ && allowed[4] == "sprint"@ && allowed[5] == "jump"@
        && allowed[6] == "crouch"@);
    lemma_plain(fields, allowed, names);
    if plain(fields, names) {
        lemma_lasts(fields, names, duration_ms);
        lemma_flag_is(fields, names, "sprint"@, sprint);
        lemma_flag_is(fields, names, "jump"@, jump);
        lemma_flag_is(fields, names, "crouch"@, crouch);
        lemma_single(fields, names, "directions"@);
        if let Some(value) = field(fields, "directions"@) {
            lemma_lists(value, directions@);
            assert(given(fields, "directions"@, value));
        }
        if keys_given(fields, directions@) {
            let value = choose|value: WireValue| #[trigger]
                given(fields, "directions"@, value) && names_keys(value, directions@);
            lemma_lookup(fields, names, "directions"@, value);
            lemma_lists(value, directions@);
            let values = value->List_0@;
            assert forall|i: int| 0 <= i < values.len() implies as_direction(
                #[trigger] values[i],
            ) is Some by {
                assert(as_direction(values[i]) == Some(directions@[i]));
            }
        }
    }
}

/// Releasing all keys and respawning say nothing but their type.
pub proof fn law_bare_commands_on_the_wire(fields: Seq<(String, WireValue)>)
    ensures
        writes(fields, BackendCommand::ReleaseAll) <==> plain(fields, set!["type"@]),
        writes(fields, BackendCommand::Respawn) <==> plain(fields, set!["type"@]),
{
    assert(bare_fields()[0] == "type"@);
    lemma_plain(fields, bare_fields(), set!["type"@]);
}

/// Each command has its own type, and no other type is a command.
pub proof fn law_commands_have_their_types(command: BackendCommand, kind: Seq<char>)
    ensures
        kind_of(command) == "send_chat"@ <==> command is SendChat,
        kind_of(command) == "look_relative"@ <==> command is LookRelative,
        kind_of(command) == "move"@ <==> command is Move,
        kind_of(command) == "release_all"@ <==> command is ReleaseAll,
        kind_of(command) == "respawn"@ <==> command is Respawn,
        known_kind(kind) <==> kind == "send_chat"@ || kind == "look_relative"@ || kind == "move"@
            || kind == "release_all"@ || kind == "respawn"@,
        known_kind(kind_of(command)),
{
    reveal_strlit("send_chat");
    reveal_strlit("look_relative");
    reveal_strlit("move");
    reveal_strlit("release_all");
    reveal_strlit("respawn");
    assert("send_chat"@.len() == 9 && "look_relative"@.len() == 13 && "move"@.len() == 4
        && "release_all"@.len() == 11 && "respawn"@.len() == 7);
}

/// Whatever is written of a command can be read: no object that is the wire
/// form of a command is refused.
pub proof fn law_written_commands_are_not_refused(
    fields: Seq<(String, WireValue)>,
    command: BackendCommand,
)
    requires
        writes(fields, command),
    ensures
        holds(fields, kind_of(command)),
{
    law_commands_have_their_types(command, kind_of(command));
    reveal_strlit("send_chat");
    reveal_strlit("look_relative");
    reveal_strlit("move");
    reveal_strlit("release_all");
    reveal_strlit("respawn");
    assert("send_chat"@.len() == 9 && "look_relative"@.len() == 13 && "move"@.len() == 4
        && "release_all"@.len() == 11 && "respawn"@.len() == 7);
}

/// An envelope is an object with its protocol, its id, its time of issue, under
/// its own name or its older one, and its command; each is read from its own
/// field.
pub proof fn law_envelopes_on_the_wire(
    fields: Seq<(String, WireValue)>,
    protocol: String,
    id: String,
    issued: String,
    inner: Vec<(String, WireValue)>,
    envelope: BackendCommandEnvelope,
    instant: (i64, u32),
)
    requires
        given(fields, "protocol"@, WireValue::Text(protocol)),
        given(fields, "id"@, WireValue::Text(id)),
        given_once(fields, "issuedAt"@, "issued_at"@, WireValue::Text(issued)),
        given(fields, "command"@, WireValue::Object(inner)),
        plain(fields, set!["protocol"@, "id"@, "issuedAt"@, "issued_at"@, "command"@]),
    ensures
        holds_envelope(fields),
        inner_fields(fields) == inner@,
        issued_instant(fields) == rfc3339_instant(issued@),
        writes_envelope(fields, envelope, instant) ==> {
            &&& envelope.protocol.spec_text() == protocol@
            &&& envelope.id == CommandId::Named(id)
            &&& envelope.issued_at.seconds == instant.0
            &&& envelope.issued_at.nanos == instant.1
            &&& writes(inner@, envelope.command)
        },
{
    let names = set!["protocol"@, "id"@, "issuedAt"@, "issued_at"@, "command"@];
    let allowed = envelope_fields();
    assert(allowed[0] == "protocol"@ && allowed[1] == "id"@ && allowed[2] == "issuedAt"@
        && allowed[3] == "issued_at"@ && allowed[4] == "command"@);
    lemma_plain(fields, allowed, names);
    lemma_lookup(fields, names, "protocol"@, WireValue::Text(protocol));
    lemma_lookup(fields, names, "id"@, WireValue::Text(id));
    lemma_lookup(fields, names, "command"@, WireValue::Object(inner));
    lemma_given_once(fields, names, "issuedAt"@, "issued_at"@, WireValue::Text(issued));
}

/// An object is an envelope only if it has these fields and no others.
pub proof fn law_nothing_else_is_an_envelope(fields: Seq<(String, WireValue)>)
    requires
        holds_envelope(fields),
    ensures
        plain(fields, set!["protocol"@, "id"@, "issuedAt"@, "issued_at"@, "command"@]),
        exists|text: String| #[trigger] given(fields, "protocol"@, WireValue::Text(text)),
        exists|text: String| #[trigger] given(fields, "id"@, WireValue::Text(text)),
        exists|text: String| #[trigger]
            given_once(fields, "issuedAt"@, "issued_at"@, WireValue::Text(text)),
{
    let names = set!["protocol"@, "id"@, "issuedAt"@, "issued_at"@, "command"@];
    let allowed = envelope_fields();
    assert(allowed[0] == "protocol"@ && allowed[1] == "id"@ && allowed[2] == "issuedAt"@
        && allowed[3] == "issued_at"@ && allowed[4] == "command"@);
    lemma_plain(fields, allowed, names);
    let protocol = as_text(field(fields, "protocol"@))->0;
    let id = as_text(field(fields, "id"@))->0;
    let issued = as_text(aliased(fields, "issuedAt"@, "issued_at"@))->0;
    lemma_lookup(fields, names, "protocol"@, WireValue::Text(protocol));
    lemma_lookup(fields, names, "id"@, WireValue::Text(id));
    lemma_given_once(fields, names, "issuedAt"@, "issued_at"@, WireValue::Text(issued));
}

/// The value is a list in which this very text stands at this place.
pub open spec fn spelt(value: WireValue, i: int, name: Seq<char>) -> bool {
    &&& value matches WireValue::List(values)
    &&& values@[i] matches WireValue::Text(text)
    &&& text@ == name
}

/// A command is written under the newer names only: movement keys as their
/// names, and no flag that was not given.
pub proof fn law_commands_are_written_one_way(
    fields: Seq<(String, WireValue)>,
    command: BackendCommand,
)
    requires
        writes(fields, command),
        canonical(fields, command),
    ensures
        absent(fields, "yaw_degrees"@),
        absent(fields, "pitch_degrees"@),
        absent(fields, "duration_ms"@),
        command matches BackendCommand::Move { directions, sprint, jump, crouch, .. } ==> {
            &&& sprint is None ==> absent(fields, "sprint"@)
            &&& jump is None ==> absent(fields, "jump"@)
            &&& crouch is None ==> absent(fields, "crouch"@)
            &&& forall|at: int, i: int|
                0 <= at < fields.len() && (#[trigger] fields[at]).0@ == "directions"@ && 0 <= i
                    < directions@.len() ==> spelt(
                    fields[at].1,
                    i,
                    key_name(#[trigger] directions@[i]),
                )
        },
{
    lemma_found(fields, "yaw_degrees"@, 0);
    lemma_found(fields, "pitch_degrees"@, 0);
    lemma_found(fields, "duration_ms"@, 0);
    lemma_found(fields, "sprint"@, 0);
    lemma_found(fields, "jump"@, 0);
    lemma_found(fields, "crouch"@, 0);
    if let BackendCommand::Move { directions, duration_ms, sprint, jump, crouch } = command {
        law_movements_on_the_wire(fields, directions, duration_ms, sprint, jump, crouch);
        let names = set![
            "type"@,
            "directions"@,
            "durationMs"@,
            "duration_ms"@,
            "sprint"@,
            "jump"@,
            "crouch"@,
        ];
        let listed = field(fields, "directions"@)->0;
        lemma_lists(listed, directions@);
        assert forall|at: int, i: int|
            0 <= at < fields.len() && (#[trigger] fields[at]).0@ == "directions"@ && 0 <= i
                < directions@.len() implies spelt(
            fields[at].1,
            i,
            key_name(#[trigger] directions@[i]),
        ) by {
            lemma_lookup(fields, names, "directions"@, fields[at].1);
            assert(given(fields, "directions"@, fields[at].1));
            assert(names_key(listed->List_0@[i], directions@[i]));
            assert(listed->List_0@[i] is Text);
        }
    }
}

/// A text is a movement key exactly if it is spelled like one.
pub proof fn law_movement_keys_are_spelled(name: String)
    ensures
        as_direction(WireValue::Text(name)) == Some(MotorDirection::Forward) <==> name@
            == seq!['f', 'o', 'r', 'w', 'a', 'r', 'd'],
        as_direction(WireValue::Text(name)) == Some(MotorDirection::Back) <==> name@
            == seq!['b', 'a', 'c', 'k'],
        as_direction(WireValue::Text(name)) == Some(MotorDirection::Left) <==> name@
            == seq!['l', 'e', 'f', 't'],
        as_direction(WireValue::Text(name)) == Some(MotorDirection::Right) <==> name@
            == seq!['r', 'i', 'g', 'h', 't'],
{
    reveal_strlit("forward");
    reveal_strlit("back");
    reveal_strlit("left");
    reveal_strlit("right");
    assert("forward"@ =~= seq!['f', 'o', 'r', 'w', 'a', 'r', 'd']);
    assert("back"@ =~= seq!['b', 'a', 'c', 'k']);
    assert("left"@ =~= seq!['l', 'e', 'f', 't']);
    assert("right"@ =~= seq!['r', 'i', 'g', 'h', 't']);
    law_movement_keys_have_their_names(WireValue::Text(name), MotorDirection::Forward);
    law_movement_keys_have_their_names(WireValue::Text(name), MotorDirection::Back);
    law_movement_keys_have_their_names(WireValue::Text(name), MotorDirection::Left);
    law_movement_keys_have_their_names(WireValue::Text(name), MotorDirection::Right);
}

} // verus!
