//! Input actions: sequences of key, pointer and pause actions, and their wire form.
//!
//! Each input source is a sequence of actions, one per tick. A source is built by appending
//! actions with [`InputSource::and_then`] and [`InputSource::pause`], then turned into an
//! [`ActionSequence`], whose JSON form is what Perform Actions sends.
use crate::command::json_str;
use crate::elements::{is_element_json, ElementRef, ELEMENT_KEY};
use crate::json::{Json, JsonMap, JsonNumber};
use crate::text::string_push;
use crate::wd::{duration_millis, millis_u64};
use std::time::Duration;
use vstd::prelude::*;

verus! {

/// An action not associated with an input device (e.g. pause).
///
/// See [17.4.1 General Actions](https://www.w3.org/TR/webdriver1/#general-actions) of the
/// WebDriver standard.
#[derive(Debug, Clone)]
#[non_exhaustive]
pub enum NullAction {
    /// Pause for the specified duration.
    Pause {
        /// The pause duration.
        duration: Duration,
    },
}

/// An action performed with a keyboard.
///
/// See [17.4.2 Keyboard Actions](https://www.w3.org/TR/webdriver1/#keyboard-actions) of the
/// WebDriver standard.
#[derive(Debug, Clone)]
#[non_exhaustive]
pub enum KeyAction {
    /// Pause action.
    /// Useful for adding pauses between other key actions.
    Pause {
        /// The pause duration.
        duration: Duration,
    },
    /// Key up action.
    Up {
        /// The key code, e.g. `'a'`. See the `Keys` enum for special key codes.
        value: char,
    },
    /// Key down action.
    Down {
        /// The key code, e.g. `'a'`. See the `Keys` enum for special key codes.
        value: char,
    },
}

/// Left mouse button constant for use with `PointerAction`.
pub const MOUSE_BUTTON_LEFT: u64 = 0;

/// Middle mouse button constant for use with `PointerAction`.
pub const MOUSE_BUTTON_MIDDLE: u64 = 1;

/// Right mouse button constant for use with `PointerAction`.
pub const MOUSE_BUTTON_RIGHT: u64 = 2;

/// An action performed with a pointer device.
///
/// This can be a mouse, pen or touch device.
///
/// See [17.4.3 Pointer Actions](https://www.w3.org/TR/webdriver1/#pointer-actions) of the
/// WebDriver standard.
#[derive(Debug, Clone)]
#[non_exhaustive]
pub enum PointerAction {
    /// Pause action.
    /// Useful for adding pauses between other pointer actions.
    Pause {
        /// The pause duration.
        duration: Duration,
    },
    /// Pointer button down. Button values are: left = 0, middle = 1, right = 2.
    Down {
        /// The mouse button index.
        button: u64,
    },
    /// Pointer button up. Button values are: left = 0, middle = 1, right = 2.
    Up {
        /// The mouse button index.
        button: u64,
    },
    /// Pointer move action.
    ///
    /// The x and y offsets are relative to the origin.
    Move {
        /// The move duration.
        duration: Option<Duration>,
        /// The origin that the `x` and `y` coordinates are relative to.
        origin: PointerOrigin,
        /// `x` offset, in pixels.
        x: i64,
        /// `y` offset, in pixels.
        y: i64,
    },
    /// Pointer cancel action. Used to cancel the current pointer action.
    Cancel,
}

/// The pointer origin to use for the relative x,y offset.
#[derive(Debug, Clone)]
#[non_exhaustive]
pub enum PointerOrigin {
    /// Coordinates are relative to the top-left corner of the browser window.
    Viewport,
    /// Coordinates are relative to the pointer's current position.
    Pointer,
    /// Coordinates are relative to the specified element's center position.
    WebElement(ElementRef),
}

/// The kind of device that a pointer sequence drives.
#[derive(Debug, Clone, Copy, PartialEq, Eq, Structural)]
pub enum PointerType {
    /// A mouse.
    Mouse,
    /// A pen.
    Pen,
    /// A touch device.
    Touch,
}

/// The name of a pointer type on the wire.
pub open spec fn pointer_type_text(t: PointerType) -> Seq<char> {
    match t {
        PointerType::Mouse => "mouse"@,
        PointerType::Pen => "pen"@,
        PointerType::Touch => "touch"@,
    }
}

/// The JSON number of a signed integer.
pub open spec fn signed_json(x: i64) -> Json {
    if x >= 0 {
        Json::Number(JsonNumber::PosInt(x as u64))
    } else {
        Json::Number(JsonNumber::NegInt(x))
    }
}

/// `j` is an object whose `"type"` entry is the string `t`, and whose other keys are `rest`.
pub open spec fn typed_json(j: Json, t: Seq<char>, rest: Set<Seq<char>>) -> bool {
    &&& j matches Json::Object(m)
    &&& m.as_map().dom() == rest.insert("type"@)
    &&& json_str(m.as_map()["type"@], t)
}

/// The entry of the object `j` under `k`.
pub open spec fn entry_of(j: Json, k: Seq<char>) -> Json {
    match j {
        Json::Object(m) => m.as_map()[k],
        _ => Json::Null,
    }
}

/// `j` is the wire form of a pause of `d`: its duration in whole milliseconds.
pub open spec fn pause_json(j: Json, d: Duration) -> bool {
    &&& typed_json(j, "pause"@, set!["duration"@])
    &&& entry_of(j, "duration"@) == Json::Number(JsonNumber::PosInt(duration_millis(d) as u64))
}

/// `j` is the wire form of the null action `a`.
pub open spec fn null_action_json(j: Json, a: NullAction) -> bool {
    match a {
        NullAction::Pause { duration } => pause_json(j, duration),
    }
}

/// `j` is the wire form of a key action of type `t` on the key `c`.
pub open spec fn key_value_json(j: Json, t: Seq<char>, c: char) -> bool {
    &&& typed_json(j, t, set!["value"@])
    &&& json_str(entry_of(j, "value"@), seq![c])
}

/// `j` is the wire form of the key action `a`.
pub open spec fn key_action_json(j: Json, a: KeyAction) -> bool {
    match a {
        KeyAction::Pause { duration } => pause_json(j, duration),
        KeyAction::Up { value } => key_value_json(j, "keyUp"@, value),
        KeyAction::Down { value } => key_value_json(j, "keyDown"@, value),
    }
}

/// `j` is the wire form of the pointer origin `o`.
pub open spec fn origin_json(j: Json, o: PointerOrigin) -> bool {
    match o {
        PointerOrigin::Viewport => json_str(j, "viewport"@),
        PointerOrigin::Pointer => json_str(j, "pointer"@),
        PointerOrigin::WebElement(e) => is_element_json(j, e@, false),
    }
}

/// `j` is the wire form of the pointer action `a`. A move without a duration carries none.
pub open spec fn pointer_action_json(j: Json, a: PointerAction) -> bool {
    match a {
        PointerAction::Pause { duration } => pause_json(j, duration),
        PointerAction::Down { button } => {
            &&& typed_json(j, "pointerDown"@, set!["button"@])
            &&& entry_of(j, "button"@) == Json::Number(JsonNumber::PosInt(button))
        },
        PointerAction::Up { button } => {
            &&& typed_json(j, "pointerUp"@, set!["button"@])
            &&& entry_of(j, "button"@) == Json::Number(JsonNumber::PosInt(button))
        },
        PointerAction::Move { duration, origin, x, y } => {
            &&& typed_json(
                j,
                "pointerMove"@,
                if duration is Some {
                    set!["duration"@, "origin"@, "x"@, "y"@]
                } else {
                    set!["origin"@, "x"@, "y"@]
                },
            )
            &&& (duration matches Some(d) ==> entry_of(j, "duration"@) == Json::Number(
                JsonNumber::PosInt(duration_millis(d) as u64),
            ))
            &&& origin_json(entry_of(j, "origin"@), origin)
            &&& entry_of(j, "x"@) == signed_json(x)
            &&& entry_of(j, "y"@) == signed_json(y)
        },
        PointerAction::Cancel => typed_json(j, "pointerCancel"@, Set::empty()),
    }
}

fn signed(x: i64) -> (j: Json)
    ensures
        j == signed_json(x),
{
    if x >= 0 {
        Json::Number(JsonNumber::PosInt(x as u64))
    } else {
        Json::Number(JsonNumber::NegInt(x))
    }
}

/// An object with the single entry `"type": t`.
fn typed_object(t: &str) -> (m: JsonMap)
    ensures
        m.as_map().dom() == set!["type"@],
        json_str(m.as_map()["type"@], t@),
{
    let mut m = JsonMap::new();
    m.insert("type".to_owned(), Json::String(t.to_owned()));
    proof {
        assert(m.as_map().dom() =~= set!["type"@]);
    }
    m
}

/// The strings used as keys here are pairwise distinct.
proof fn lemma_action_keys()
    ensures
        "type"@ != "duration"@,
        "type"@ != "value"@,
        "type"@ != "button"@,
        "type"@ != "origin"@,
        "type"@ != "x"@,
        "type"@ != "y"@,
        "duration"@ != "origin"@,
        "duration"@ != "x"@,
        "duration"@ != "y"@,
        "origin"@ != "x"@,
        "origin"@ != "y"@,
        "x"@ != "y"@,
        "type"@ != "id"@,
        "type"@ != "actions"@,
        "type"@ != "parameters"@,
        "id"@ != "actions"@,
        "id"@ != "parameters"@,
        "actions"@ != "parameters"@,
{
    reveal_strlit("type");
    reveal_strlit("duration");
    reveal_strlit("value");
    reveal_strlit("button");
    reveal_strlit("origin");
    reveal_strlit("x");
    reveal_strlit("y");
    reveal_strlit("id");
    reveal_strlit("actions");
    reveal_strlit("parameters");
    assert("type"@.len() != "duration"@.len());
    assert("type"@[0] != "value"@[0]);
    assert("type"@.len() != "button"@.len());
    assert("type"@.len() != "origin"@.len());
    assert("type"@.len() != "x"@.len());
    assert("type"@.len() != "y"@.len());
    assert("duration"@.len() != "origin"@.len());
    assert("duration"@.len() != "x"@.len());
    assert("duration"@.len() != "y"@.len());
    assert("origin"@.len() != "x"@.len());
    assert("origin"@.len() != "y"@.len());
    assert("x"@[0] != "y"@[0]);
    assert("type"@.len() != "id"@.len());
    assert("type"@.len() != "actions"@.len());
    assert("type"@.len() != "parameters"@.len());
    assert("id"@.len() != "actions"@.len());
    assert("id"@.len() != "parameters"@.len());
    assert("actions"@.len() != "parameters"@.len());
}

/// The wire form of a pause.
fn pause_item(duration: Duration) -> (j: Json)
    ensures
        pause_json(j, duration),
{
    let mut m = typed_object("pause");
    m.insert("duration".to_owned(), Json::Number(JsonNumber::PosInt(millis_u64(duration))));
    proof {
        lemma_action_keys();
        assert(m.as_map().dom() =~= set!["duration"@].insert("type"@));
    }
    Json::Object(m)
}

/// The wire form of a key action of type `t` on the key `c`.
fn key_item(t: &str, c: char) -> (j: Json)
    ensures
        key_value_json(j, t@, c),
{
    let mut value = String::new();
    string_push(&mut value, c);
    let mut m = typed_object(t);
    m.insert("value".to_owned(), Json::String(value));
    proof {
        lemma_action_keys();
        assert(value@ =~= seq![c]);
        assert(m.as_map().dom() =~= set!["value"@].insert("type"@));
    }
    Json::Object(m)
}

/// The wire form of a pointer button action of type `t`.
fn button_item(t: &str, button: u64) -> (j: Json)
    ensures
        typed_json(j, t@, set!["button"@]),
        entry_of(j, "button"@) == Json::Number(JsonNumber::PosInt(button)),
{
    let mut m = typed_object(t);
    m.insert("button".to_owned(), Json::Number(JsonNumber::PosInt(button)));
    proof {
        lemma_action_keys();
        assert(m.as_map().dom() =~= set!["button"@].insert("type"@));
    }
    Json::Object(m)
}

impl NullAction {
    /// The wire form of this action.
    pub fn into_item(self) -> (j: Json)
        ensures
            null_action_json(j, self),
    {
        match self {
            NullAction::Pause { duration } => pause_item(duration),
        }
    }
}

impl KeyAction {
    /// The wire form of this action.
    pub fn into_item(self) -> (j: Json)
        ensures
            key_action_json(j, self),
    {
        match self {
            KeyAction::Pause { duration } => pause_item(duration),
            KeyAction::Up { value } => key_item("keyUp", value),
            KeyAction::Down { value } => key_item("keyDown", value),
        }
    }
}

impl PointerOrigin {
    /// The wire form of this origin.
    pub fn into_item(self) -> (j: Json)
        ensures
            origin_json(j, self),
    {
        match self {
            PointerOrigin::Viewport => Json::String("viewport".to_owned()),
            PointerOrigin::Pointer => Json::String("pointer".to_owned()),
            PointerOrigin::WebElement(e) => e.to_json(),
        }
    }
}

impl PointerAction {
    /// The wire form of this action.
    pub fn into_item(self) -> (j: Json)
        ensures
            pointer_action_json(j, self),
    {
        match self {
            PointerAction::Pause { duration } => pause_item(duration),
            PointerAction::Down { button } => button_item("pointerDown", button),
            PointerAction::Up { button } => button_item("pointerUp", button),
            PointerAction::Move { duration, origin, x, y } => {
                let mut m = typed_object("pointerMove");
                let has_duration = duration.is_some();
                match duration {
                    Some(d) => {
                        m.insert(
                            "duration".to_owned(),
                            Json::Number(JsonNumber::PosInt(millis_u64(d))),
                        );
                    },
                    None => {},
                }
                let ghost before = m.as_map();
                m.insert("origin".to_owned(), origin.into_item());
                m.insert("x".to_owned(), signed(x));
                m.insert("y".to_owned(), signed(y));
                proof {
                    lemma_action_keys();
                    if has_duration {
                        assert(m.as_map().dom() =~= set!["duration"@, "origin"@, "x"@, "y"@].insert(
                            "type"@,
                        ));
                    } else {
                        assert(m.as_map().dom() =~= set!["origin"@, "x"@, "y"@].insert("type"@));
                    }
                }
                Json::Object(m)
            },
            PointerAction::Cancel => {
                let m = typed_object("pointerCancel");
                proof {
                    assert(m.as_map().dom() =~= Set::<Seq<char>>::empty().insert("type"@));
                }
                Json::Object(m)
            },
        }
    }
}

/// Each sequence type implements `InputSource`, which provides a `pause()` and an `and_then()`
/// method. Each call to `pause()` or `and_then()` represents one tick for this sequence.
pub trait InputSource: Sized {
    /// The action type associated with this `InputSource`.
    type Action;

    /// The actions of the sequence, one per tick, in order.
    spec fn planned(&self) -> Seq<Self::Action>;

    /// The identifier of the sequence.
    spec fn source_id(&self) -> Seq<char>;

    /// The action that pauses this source for `duration`.
    spec fn pause_action(duration: Duration) -> Self::Action;

    /// Add a pause action to the sequence for this input source.
    fn pause(self, duration: Duration) -> (r: Self)
        ensures
            r.planned() == self.planned().push(Self::pause_action(duration)),
            r.source_id() == self.source_id(),
    ;

    /// Add the specified action to the sequence for this input source.
    fn and_then(self, action: Self::Action) -> (r: Self)
        ensures
            r.planned() == self.planned().push(action),
            r.source_id() == self.source_id(),
    ;
}

/// A sequence containing `Null` actions.
#[derive(Debug, Clone)]
pub struct NullActions {
    id: String,
    actions: Vec<NullAction>,
}

impl NullActions {
    /// The identifier of this sequence.
    pub closed spec fn id_string(self) -> String {
        self.id
    }

    /// The actions of this sequence.
    pub closed spec fn action_vec(self) -> Vec<NullAction> {
        self.actions
    }

    /// An identifier to distinguish this sequence from others.
    pub open spec fn name(self) -> Seq<char> {
        self.id_string()@
    }

    /// The list of actions for this sequence.
    pub open spec fn items(self) -> Seq<NullAction> {
        self.action_vec()@
    }

    /// Create a new NullActions sequence.
    pub fn new(id: &str) -> (s: Self)
        ensures
            s.name() == id@,
            s.items() == Seq::<NullAction>::empty(),
    {
        NullActions { id: id.to_owned(), actions: Vec::new() }
    }

    /// This sequence, as one input source of Perform Actions.
    pub fn into_sequence(self) -> (r: ActionSequence)
        ensures
            r matches ActionSequence::Null { id, actions } && id@ == self.name() && actions@
                == self.items(),
    {
        ActionSequence::Null { id: self.id, actions: self.actions }
    }
}

impl InputSource for NullActions {
    type Action = NullAction;

    open spec fn planned(&self) -> Seq<NullAction> {
        self.items()
    }

    open spec fn source_id(&self) -> Seq<char> {
        self.name()
    }

    open spec fn pause_action(duration: Duration) -> NullAction {
        NullAction::Pause { duration }
    }

    fn pause(self, duration: Duration) -> (r: Self) {
        self.and_then(NullAction::Pause { duration })
    }

    fn and_then(self, action: NullAction) -> (r: Self) {
        let mut s = self;
        s.actions.push(action);
        s
    }
}

/// A sequence containing `Key` actions.
#[derive(Debug, Clone)]
pub struct KeyActions {
    id: String,
    actions: Vec<KeyAction>,
}

impl KeyActions {
    /// The identifier of this sequence.
    pub closed spec fn id_string(self) -> String {
        self.id
    }

    /// The actions of this sequence.
    pub closed spec fn action_vec(self) -> Vec<KeyAction> {
        self.actions
    }

    /// An identifier to distinguish this sequence from others.
    pub open spec fn name(self) -> Seq<char> {
        self.id_string()@
    }

    /// The list of actions for this sequence.
    pub open spec fn items(self) -> Seq<KeyAction> {
        self.action_vec()@
    }

    /// Create a new KeyActions sequence.
    pub fn new(id: &str) -> (s: Self)
        ensures
            s.name() == id@,
            s.items() == Seq::<KeyAction>::empty(),
    {
        KeyActions { id: id.to_owned(), actions: Vec::new() }
    }

    /// This sequence, as one input source of Perform Actions.
    pub fn into_sequence(self) -> (r: ActionSequence)
        ensures
            r matches ActionSequence::Key { id, actions } && id@ == self.name() && actions@
                == self.items(),
    {
        ActionSequence::Key { id: self.id, actions: self.actions }
    }
}

impl InputSource for KeyActions {
    type Action = KeyAction;

    open spec fn planned(&self) -> Seq<KeyAction> {
        self.items()
    }

    open spec fn source_id(&self) -> Seq<char> {
        self.name()
    }

    open spec fn pause_action(duration: Duration) -> KeyAction {
        KeyAction::Pause { duration }
    }

    fn pause(self, duration: Duration) -> (r: Self) {
        self.and_then(KeyAction::Pause { duration })
    }

    fn and_then(self, action: KeyAction) -> (r: Self) {
        let mut s = self;
        s.actions.push(action);
        s
    }
}

/// A sequence containing `Pointer` actions for a mouse.
#[derive(Debug, Clone)]
pub struct MouseActions {
    id: String,
    actions: Vec<PointerAction>,
}

impl MouseActions {
    /// The identifier of this sequence.
    pub closed spec fn id_string(self) -> String {
        self.id
    }

    /// The actions of this sequence.
    pub closed spec fn action_vec(self) -> Vec<PointerAction> {
        self.actions
    }

    /// An identifier to distinguish this sequence from others.
    pub open spec fn name(self) -> Seq<char> {
        self.id_string()@
    }

    /// The list of actions for this sequence.
    pub open spec fn items(self) -> Seq<PointerAction> {
        self.action_vec()@
    }

    /// Create a new `MouseActions` sequence.
    pub fn new(id: &str) -> (s: Self)
        ensures
            s.name() == id@,
            s.items() == Seq::<PointerAction>::empty(),
    {
        MouseActions { id: id.to_owned(), actions: Vec::new() }
    }

    /// This sequence, as one input source of Perform Actions.
    pub fn into_sequence(self) -> (r: ActionSequence)
        ensures
            r matches ActionSequence::Pointer { id, pointer_type, actions } && id@ == self.name()
                && pointer_type == PointerType::Mouse && actions@ == self.items(),
    {
        ActionSequence::Pointer { id: self.id, pointer_type: PointerType::Mouse, actions: self.actions }
    }
}

impl InputSource for MouseActions {
    type Action = PointerAction;

    open spec fn planned(&self) -> Seq<PointerAction> {
        self.items()
    }

    open spec fn source_id(&self) -> Seq<char> {
        self.name()
    }

    open spec fn pause_action(duration: Duration) -> PointerAction {
        PointerAction::Pause { duration }
    }

    fn pause(self, duration: Duration) -> (r: Self) {
        self.and_then(PointerAction::Pause { duration })
    }

    fn and_then(self, action: PointerAction) -> (r: Self) {
        let mut s = self;
        s.actions.push(action);
        s
    }
}

/// A sequence containing `Pointer` actions for a pen device.
#[derive(Debug, Clone)]
pub struct PenActions {
    id: String,
    actions: Vec<PointerAction>,
}

impl PenActions {
    /// The identifier of this sequence.
    pub closed spec fn id_string(self) -> String {
        self.id
    }

    /// The actions of this sequence.
    pub closed spec fn action_vec(self) -> Vec<PointerAction> {
        self.actions
    }

    /// An identifier to distinguish this sequence from others.
    pub open spec fn name(self) -> Seq<char> {
        self.id_string()@
    }

    /// The list of actions for this sequence.
    pub open spec fn items(self) -> Seq<PointerAction> {
        self.action_vec()@
    }

    /// Create a new `PenActions` sequence.
    pub fn new(id: &str) -> (s: Self)
        ensures
            s.name() == id@,
            s.items() == Seq::<PointerAction>::empty(),
    {
        PenActions { id: id.to_owned(), actions: Vec::new() }
    }

    /// This sequence, as one input source of Perform Actions.
    pub fn into_sequence(self) -> (r: ActionSequence)
        ensures
            r matches ActionSequence::Pointer { id, pointer_type, actions } && id@ == self.name()
                && pointer_type == PointerType::Pen && actions@ == self.items(),
    {
        ActionSequence::Pointer { id: self.id, pointer_type: PointerType::Pen, actions: self.actions }
    }
}

impl InputSource for PenActions {
    type Action = PointerAction;

    open spec fn planned(&self) -> Seq<PointerAction> {
        self.items()
    }

    open spec fn source_id(&self) -> Seq<char> {
        self.name()
    }

    open spec fn pause_action(duration: Duration) -> PointerAction {
        PointerAction::Pause { duration }
    }

    fn pause(self, duration: Duration) -> (r: Self) {
        self.and_then(PointerAction::Pause { duration })
    }

    fn and_then(self, action: PointerAction) -> (r: Self) {
        let mut s = self;
        s.actions.push(action);
        s
    }
}

/// A sequence containing `Pointer` actions for a touch device.
#[derive(Debug, Clone)]
pub struct TouchActions {
    id: String,
    actions: Vec<PointerAction>,
}

impl TouchActions {
    /// The identifier of this sequence.
    pub closed spec fn id_string(self) -> String {
        self.id
    }

    /// The actions of this sequence.
    pub closed spec fn action_vec(self) -> Vec<PointerAction> {
        self.actions
    }

    /// An identifier to distinguish this sequence from others.
    pub open spec fn name(self) -> Seq<char> {
        self.id_string()@
    }

    /// The list of actions for this sequence.
    pub open spec fn items(self) -> Seq<PointerAction> {
        self.action_vec()@
    }

    /// Create a new `TouchActions` sequence.
    pub fn new(id: &str) -> (s: Self)
        ensures
            s.name() == id@,
            s.items() == Seq::<PointerAction>::empty(),
    {
        TouchActions { id: id.to_owned(), actions: Vec::new() }
    }

    /// This sequence, as one input source of Perform Actions.
    pub fn into_sequence(self) -> (r: ActionSequence)
        ensures
            r matches ActionSequence::Pointer { id, pointer_type, actions } && id@ == self.name()
                && pointer_type == PointerType::Touch && actions@ == self.items(),
    {
        ActionSequence::Pointer { id: self.id, pointer_type: PointerType::Touch, actions: self.actions }
    }
}

impl InputSource for TouchActions {
    type Action = PointerAction;

    open spec fn planned(&self) -> Seq<PointerAction> {
        self.items()
    }

    open spec fn source_id(&self) -> Seq<char> {
        self.name()
    }

    open spec fn pause_action(duration: Duration) -> PointerAction {
        PointerAction::Pause { duration }
    }

    fn pause(self, duration: Duration) -> (r: Self) {
        self.and_then(PointerAction::Pause { duration })
    }

    fn and_then(self, action: PointerAction) -> (r: Self) {
        let mut s = self;
        s.actions.push(action);
        s
    }
}

/// A sequence of actions to be performed, as one input source.
///
/// Multiple sequences can be represented as a table, where each row contains a sequence and
/// each column is one tick of time: the actions of one tick start together, and the next tick
/// starts when all of them are done.
#[derive(Debug)]
pub enum ActionSequence {
    /// Actions of no input device.
    Null {
        /// The sequence's identifier.
        id: String,
        /// The actions, one per tick.
        actions: Vec<NullAction>,
    },
    /// Keyboard actions.
    Key {
        /// The sequence's identifier.
        id: String,
        /// The actions, one per tick.
        actions: Vec<KeyAction>,
    },
    /// Actions of a pointer device.
    Pointer {
        /// The sequence's identifier.
        id: String,
        /// The kind of pointer device.
        pointer_type: PointerType,
        /// The actions, one per tick.
        actions: Vec<PointerAction>,
    },
}

/// `v` holds one item per action of `acts`, each item the wire form of its action by `f`.
pub open spec fn items_json<A>(v: Seq<Json>, acts: Seq<A>, f: spec_fn(Json, A) -> bool) -> bool {
    &&& v.len() == acts.len()
    &&& forall|i: int| 0 <= i < v.len() ==> #[trigger] f(v[i], acts[i])
}

/// `j` is an object that names a sequence of type `t` with identifier `id`, whose actions are
/// `acts` by `f`, and whose other keys are `rest`.
pub open spec fn sequence_head_json<A>(
    j: Json,
    t: Seq<char>,
    id: Seq<char>,
    acts: Seq<A>,
    f: spec_fn(Json, A) -> bool,
    rest: Set<Seq<char>>,
) -> bool {
    &&& typed_json(j, t, rest.insert("id"@).insert("actions"@))
    &&& json_str(entry_of(j, "id"@), id)
    &&& entry_of(j, "actions"@) matches Json::Array(v) && items_json(v@, acts, f)
}

/// `j` is the wire form of the sequence `s`.
pub open spec fn sequence_json(j: Json, s: ActionSequence) -> bool {
    match s {
        ActionSequence::Null { id, actions } => sequence_head_json(
            j,
            "none"@,
            id@,
            actions@,
            |j: Json, a: NullAction| null_action_json(j, a),
            Set::empty(),
        ),
        ActionSequence::Key { id, actions } => sequence_head_json(
            j,
            "key"@,
            id@,
            actions@,
            |j: Json, a: KeyAction| key_action_json(j, a),
            Set::empty(),
        ),
        ActionSequence::Pointer { id, pointer_type, actions } => {
            &&& sequence_head_json(
                j,
                "pointer"@,
                id@,
                actions@,
                |j: Json, a: PointerAction| pointer_action_json(j, a),
                set!["parameters"@],
            )
            &&& entry_of(j, "parameters"@) matches Json::Object(p)
            &&& p.as_map().dom() == set!["pointerType"@]
            &&& json_str(p.as_map()["pointerType"@], pointer_type_text(pointer_type))
        },
    }
}

fn null_items(actions: Vec<NullAction>) -> (v: Vec<Json>)
    ensures
        items_json(v@, actions@, |j: Json, a: NullAction| null_action_json(j, a)),
{
    let ghost acts = actions@;
    let mut rest = actions;
    let mut out: Vec<Json> = Vec::new();
    while rest.len() > 0
        invariant
            out.len() + rest.len() == acts.len(),
            rest@ == acts.subrange(out.len() as int, acts.len() as int),
            forall|i: int| 0 <= i < out.len() ==> null_action_json(#[trigger] out@[i], acts[i]),
        decreases rest.len(),
    {
        let a = rest.remove(0);
        proof {
            assert(a == acts[out.len() as int]);
        }
        out.push(a.into_item());
        proof {
            assert(rest@ =~= acts.subrange(out.len() as int, acts.len() as int));
        }
    }
    out
}

fn key_items(actions: Vec<KeyAction>) -> (v: Vec<Json>)
    ensures
        items_json(v@, actions@, |j: Json, a: KeyAction| key_action_json(j, a)),
{
    let ghost acts = actions@;
    let mut rest = actions;
    let mut out: Vec<Json> = Vec::new();
    while rest.len() > 0
        invariant
            out.len() + rest.len() == acts.len(),
            rest@ == acts.subrange(out.len() as int, acts.len() as int),
            forall|i: int| 0 <= i < out.len() ==> key_action_json(#[trigger] out@[i], acts[i]),
        decreases rest.len(),
    {
        let a = rest.remove(0);
        proof {
            assert(a == acts[out.len() as int]);
        }
        out.push(a.into_item());
        proof {
            assert(rest@ =~= acts.subrange(out.len() as int, acts.len() as int));
        }
    }
    out
}

fn pointer_items(actions: Vec<PointerAction>) -> (v: Vec<Json>)
    ensures
        items_json(v@, actions@, |j: Json, a: PointerAction| pointer_action_json(j, a)),
{
    let ghost acts = actions@;
    let mut rest = actions;
    let mut out: Vec<Json> = Vec::new();
    while rest.len() > 0
        invariant
            out.len() + rest.len() == acts.len(),
            rest@ == acts.subrange(out.len() as int, acts.len() as int),
            forall|i: int|
                0 <= i < out.len() ==> pointer_action_json(#[trigger] out@[i], acts[i]),
        decreases rest.len(),
    {
        let a = rest.remove(0);
        proof {
            assert(a == acts[out.len() as int]);
        }
        out.push(a.into_item());
        proof {
            assert(rest@ =~= acts.subrange(out.len() as int, acts.len() as int));
        }
    }
    out
}

impl ActionSequence {
    /// The wire form of this sequence, as Perform Actions carries it.
    pub fn into_json(self) -> (j: Json)
        ensures
            sequence_json(j, self),
    {
        match self {
            ActionSequence::Null { id, actions } => {
                let mut m = typed_object("none");
                m.insert("id".to_owned(), Json::String(id));
                m.insert("actions".to_owned(), Json::Array(null_items(actions)));
                proof {
                    lemma_action_keys();
                    assert(m.as_map().dom() =~= Set::<Seq<char>>::empty().insert("id"@).insert(
                        "actions"@,
                    ).insert("type"@));
                }
                Json::Object(m)
            },
            ActionSequence::Key { id, actions } => {
                let mut m = typed_object("key");
                m.insert("id".to_owned(), Json::String(id));
                m.insert("actions".to_owned(), Json::Array(key_items(actions)));
                proof {
                    lemma_action_keys();
                    assert(m.as_map().dom() =~= Set::<Seq<char>>::empty().insert("id"@).insert(
                        "actions"@,
                    ).insert("type"@));
                }
                Json::Object(m)
            },
            ActionSequence::Pointer { id, pointer_type, actions } => {
                let mut params = JsonMap::new();
                let t = match pointer_type {
                    PointerType::Mouse => "mouse",
                    PointerType::Pen => "pen",
                    PointerType::Touch => "touch",
                };
                params.insert("pointerType".to_owned(), Json::String(t.to_owned()));
                proof {
                    assert(params.as_map().dom() =~= set!["pointerType"@]);
                }
                let mut m = typed_object("pointer");
                m.insert("id".to_owned(), Json::String(id));
                m.insert("actions".to_owned(), Json::Array(pointer_items(actions)));
                m.insert("parameters".to_owned(), Json::Object(params));
                proof {
                    lemma_action_keys();
                    assert(m.as_map().dom() =~= set!["parameters"@].insert("id"@).insert(
                        "actions"@,
                    ).insert("type"@));
                }
                Json::Object(m)
            },
        }
    }
}

impl From<NullActions> for ActionSequence {
    fn from(s: NullActions) -> ActionSequence {
        ActionSequence::Null { id: s.id, actions: s.actions }
    }
}

impl vstd::std_specs::convert::FromSpecImpl<NullActions> for ActionSequence {
    open spec fn obeys_from_spec() -> bool {
        true
    }

    open spec fn from_spec(s: NullActions) -> ActionSequence {
        ActionSequence::Null { id: s.id_string(), actions: s.action_vec() }
    }
}

impl From<KeyActions> for ActionSequence {
    fn from(s: KeyActions) -> ActionSequence {
        ActionSequence::Key { id: s.id, actions: s.actions }
    }
}

impl vstd::std_specs::convert::FromSpecImpl<KeyActions> for ActionSequence {
    open spec fn obeys_from_spec() -> bool {
        true
    }

    open spec fn from_spec(s: KeyActions) -> ActionSequence {
        ActionSequence::Key { id: s.id_string(), actions: s.action_vec() }
    }
}

impl From<MouseActions> for ActionSequence {
    fn from(s: MouseActions) -> ActionSequence {
        ActionSequence::Pointer { id: s.id, pointer_type: PointerType::Mouse, actions: s.actions }
    }
}

impl vstd::std_specs::convert::FromSpecImpl<MouseActions> for ActionSequence {
    open spec fn obeys_from_spec() -> bool {
        true
    }

    open spec fn from_spec(s: MouseActions) -> ActionSequence {
        ActionSequence::Pointer { id: s.id_string(), pointer_type: PointerType::Mouse, actions: s.action_vec() }
    }
}

impl From<PenActions> for ActionSequence {
    fn from(s: PenActions) -> ActionSequence {
        ActionSequence::Pointer { id: s.id, pointer_type: PointerType::Pen, actions: s.actions }
    }
}

impl vstd::std_specs::convert::FromSpecImpl<PenActions> for ActionSequence {
    open spec fn obeys_from_spec() -> bool {
        true
    }

    open spec fn from_spec(s: PenActions) -> ActionSequence {
        ActionSequence::Pointer { id: s.id_string(), pointer_type: PointerType::Pen, actions: s.action_vec() }
    }
}

impl From<TouchActions> for ActionSequence {
    fn from(s: TouchActions) -> ActionSequence {
        ActionSequence::Pointer { id: s.id, pointer_type: PointerType::Touch, actions: s.actions }
    }
}

impl vstd::std_specs::convert::FromSpecImpl<TouchActions> for ActionSequence {
    open spec fn obeys_from_spec() -> bool {
        true
    }

    open spec fn from_spec(s: TouchActions) -> ActionSequence {
        ActionSequence::Pointer { id: s.id_string(), pointer_type: PointerType::Touch, actions: s.action_vec() }
    }
}

} // verus!
