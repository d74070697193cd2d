//! The Signal K data model: values, deltas, sources and notifications.
//!
//! Every type that holds text has a ghost view in which the text is a
//! character sequence; contracts speak of these views.
use crate::expr::Expr;
use vstd::prelude::*;
use vstd::string::*;

verus! {

// ---------------------------------------------------------------------------
// Values
// ---------------------------------------------------------------------------

/// A value that is sent under a Signal K path.
#[derive(Debug)]
pub enum Value {
    Null,
    Bool(bool),
    Int(i64),
    Number(Expr),
    Text(String),
    List(Vec<Value>),
    Object(Vec<Field>),
}

/// One member of an object value.
#[derive(Debug)]
pub struct Field {
    pub key: String,
    pub value: Value,
}

/// The view of a [`Value`].
pub enum ValueView {
    Null,
    Bool(bool),
    Int(i64),
    Number(Expr),
    Text(Seq<char>),
    List(Seq<ValueView>),
    Object(Seq<FieldView>),
}

/// The view of a [`Field`].
pub struct FieldView {
    pub key: Seq<char>,
    pub value: ValueView,
}

impl Value {
    pub open spec fn view(&self) -> ValueView
        decreases self,
    {
        match self {
            Value::Null => ValueView::Null,
            Value::Bool(b) => ValueView::Bool(*b),
            Value::Int(i) => ValueView::Int(*i),
            Value::Number(e) => ValueView::Number(*e),
            Value::Text(s) => ValueView::Text(s@),
            Value::List(items) => ValueView::List(
                Seq::new(
                    items@.len(),
                    |i: int|
                        if 0 <= i < items@.len() {
                            items@[i].view()
                        } else {
                            ValueView::Null
                        },
                ),
            ),
            Value::Object(fields) => ValueView::Object(
                Seq::new(
                    fields@.len(),
                    |i: int|
                        if 0 <= i < fields@.len() {
                            fields@[i].view()
                        } else {
                            FieldView { key: Seq::empty(), value: ValueView::Null }
                        },
                ),
            ),
        }
    }
}

impl Field {
    pub open spec fn view(&self) -> FieldView
        decreases self,
    {
        FieldView { key: self.key@, value: self.value.view() }
    }
}

/// The views of a list of fields.
pub open spec fn field_views(fields: Seq<Field>) -> Seq<FieldView> {
    fields.map_values(|f: Field| f@)
}

/// A text value.
pub open spec fn text_view(s: Seq<char>) -> ValueView {
    ValueView::Text(s)
}

/// A text value.
pub fn text(s: &str) -> (v: Value)
    ensures
        v@ == text_view(s@),
{
    Value::Text(s.to_string())
}

/// An object value with the given members.
pub fn object(fields: Vec<Field>) -> (v: Value)
    ensures
        v@ == ValueView::Object(field_views(fields@)),
{
    let v = Value::Object(fields);
    assert(v@->Object_0 =~= field_views(fields@));
    v
}

/// The views of a list of values.
pub open spec fn value_views(items: Seq<Value>) -> Seq<ValueView> {
    items.map_values(|v: Value| v@)
}

/// A list value with the given items.
pub fn list(items: Vec<Value>) -> (v: Value)
    ensures
        v@ == ValueView::List(value_views(items@)),
{
    let v = Value::List(items);
    assert(v@->List_0 =~= value_views(items@));
    v
}

/// Appends one member to a list of fields.
pub fn push_field(fields: &mut Vec<Field>, key: &str, value: Value)
    ensures
        field_views(final(fields)@) == field_views(old(fields)@).push(
            FieldView { key: key@, value: value@ },
        ),
{
    fields.push(Field { key: key.to_string(), value });
    assert(field_views(fields@) =~= field_views(old(fields)@).push(
        FieldView { key: key@, value: value@ },
    ));
}

/// The view of a geographic position without altitude.
pub open spec fn position_view(latitude: Expr, longitude: Expr) -> ValueView {
    ValueView::Object(
        seq![
            FieldView { key: "latitude"@, value: ValueView::Number(latitude) },
            FieldView { key: "longitude"@, value: ValueView::Number(longitude) },
        ],
    )
}

/// A geographic position in decimal degrees.
pub fn position(latitude: Expr, longitude: Expr) -> (v: Value)
    ensures
        v@ == position_view(latitude, longitude),
{
    let mut fields: Vec<Field> = Vec::new();
    proof {
        assert(field_views(fields@) =~= Seq::empty());
    }
    push_field(&mut fields, "latitude", Value::Number(latitude));
    push_field(&mut fields, "longitude", Value::Number(longitude));
    let v = object(fields);
    assert(v@->Object_0 =~= position_view(latitude, longitude)->Object_0);
    v
}

/// The view of a geographic position that may have an altitude.
pub open spec fn position_3d_view(
    latitude: Expr,
    longitude: Expr,
    altitude: Option<Expr>,
) -> ValueView {
    match altitude {
        None => position_view(latitude, longitude),
        Some(a) => ValueView::Object(
            position_view(latitude, longitude)->Object_0.push(
                FieldView { key: "altitude"@, value: ValueView::Number(a) },
            ),
        ),
    }
}

/// A geographic position with an altitude where one is known.
pub fn position_3d(latitude: Expr, longitude: Expr, altitude: Option<Expr>) -> (v: Value)
    ensures
        v@ == position_3d_view(latitude, longitude, altitude),
{
    match altitude {
        None => position(latitude, longitude),
        Some(a) => {
            let mut fields: Vec<Field> = Vec::new();
            proof {
                assert(field_views(fields@) =~= Seq::empty());
            }
            push_field(&mut fields, "latitude", Value::Number(latitude));
            push_field(&mut fields, "longitude", Value::Number(longitude));
            push_field(&mut fields, "altitude", Value::Number(a));
            let v = object(fields);
            assert(v@->Object_0 =~= position_3d_view(latitude, longitude, altitude)->Object_0);
            v
        },
    }
}

// ---------------------------------------------------------------------------
// Path-value pairs
// ---------------------------------------------------------------------------

/// A value together with the Signal K path it belongs to.
#[derive(Debug)]
pub struct PathValue {
    pub path: String,
    pub value: Value,
}

/// The view of a [`PathValue`].
pub struct Entry {
    pub path: Seq<char>,
    pub value: ValueView,
}

impl PathValue {
    pub open spec fn view(&self) -> Entry {
        Entry { path: self.path@, value: self.value@ }
    }

    pub fn new(path: &str, value: Value) -> (r: PathValue)
        ensures
            r@ == (Entry { path: path@, value: value@ }),
    {
        PathValue { path: path.to_string(), value }
    }
}

/// The views of a list of path-value pairs.
pub open spec fn entries(values: Seq<PathValue>) -> Seq<Entry> {
    values.map_values(|p: PathValue| p@)
}

/// No pairs at all.
pub fn no_values() -> (out: Vec<PathValue>)
    ensures
        entries(out@) == Seq::<Entry>::empty(),
{
    let out: Vec<PathValue> = Vec::new();
    assert(entries(out@) =~= Seq::<Entry>::empty());
    out
}

/// `list`, followed by one entry.
pub open spec fn with(list: Seq<Entry>, path: Seq<char>, value: ValueView) -> Seq<Entry> {
    list.push(Entry { path, value })
}

/// `list`, followed by one entry if there is a value for it.
pub open spec fn with_opt(
    list: Seq<Entry>,
    path: Seq<char>,
    value: Option<ValueView>,
) -> Seq<Entry> {
    match value {
        Some(v) => with(list, path, v),
        None => list,
    }
}

/// The view of a value that may be missing.
pub open spec fn opt_view(value: Option<Value>) -> Option<ValueView> {
    match value {
        Some(v) => Some(v@),
        None => None,
    }
}

/// Appends one pair.
pub fn push(out: &mut Vec<PathValue>, path: &str, value: Value)
    ensures
        entries(final(out)@) == with(entries(old(out)@), path@, value@),
{
    out.push(PathValue::new(path, value));
    assert(entries(out@) =~= with(entries(old(out)@), path@, value@));
}

/// Appends one pair if there is a value for it.
pub fn push_opt(out: &mut Vec<PathValue>, path: &str, value: Option<Value>)
    ensures
        entries(final(out)@) == with_opt(entries(old(out)@), path@, opt_view(value)),
{
    match value {
        Some(v) => push(out, path, v),
        None => {},
    }
}

/// The list that holds one entry.
pub open spec fn one_entry(path: Seq<char>, value: ValueView) -> Seq<Entry> {
    with(Seq::empty(), path, value)
}

// ---------------------------------------------------------------------------
// Sources, updates and deltas
// ---------------------------------------------------------------------------

/// What kind of device or program a delta comes from.
#[derive(Debug)]
pub enum SourceKind {
    Plugin,
    Nmea0183 { talker: String },
    Nmea2000 { src: u8, pgn: u32 },
    Other { type_: String },
}

/// The view of a [`SourceKind`].
pub enum SourceKindView {
    Plugin,
    Nmea0183 { talker: Seq<char> },
    Nmea2000 { src: u8, pgn: u32 },
    Other { type_: Seq<char> },
}

impl SourceKindView {
    /// The name of the source's type.
    pub open spec fn kind_name(self) -> Seq<char> {
        match self {
            SourceKindView::Plugin => "Plugin"@,
            SourceKindView::Nmea0183 { .. } => "NMEA0183"@,
            SourceKindView::Nmea2000 { .. } => "NMEA2000"@,
            SourceKindView::Other { type_ } => type_,
        }
    }
}

impl SourceKind {
    pub open spec fn view(&self) -> SourceKindView {
        match self {
            SourceKind::Plugin => SourceKindView::Plugin,
            SourceKind::Nmea0183 { talker } => SourceKindView::Nmea0183 { talker: talker@ },
            SourceKind::Nmea2000 { src, pgn } => SourceKindView::Nmea2000 { src: *src, pgn: *pgn },
            SourceKind::Other { type_ } => SourceKindView::Other { type_: type_@ },
        }
    }
}

/// The origin of an update.
#[derive(Debug)]
pub struct Source {
    pub label: String,
    pub kind: SourceKind,
}

/// The view of a [`Source`].
pub struct SourceView {
    pub label: Seq<char>,
    pub kind: SourceKindView,
}

/// The view of a plugin's source.
pub open spec fn plugin_source(label: Seq<char>) -> SourceView {
    SourceView { label, kind: SourceKindView::Plugin }
}

/// The view of an NMEA 0183 talker's source.
pub open spec fn nmea0183_source(label: Seq<char>, talker: Seq<char>) -> SourceView {
    SourceView { label, kind: SourceKindView::Nmea0183 { talker } }
}

/// The view of an NMEA 2000 device's source.
pub open spec fn nmea2000_source(label: Seq<char>, src: u8, pgn: u32) -> SourceView {
    SourceView { label, kind: SourceKindView::Nmea2000 { src, pgn } }
}

impl Source {
    pub open spec fn view(&self) -> SourceView {
        SourceView { label: self.label@, kind: self.kind@ }
    }

    pub fn plugin(label: &str) -> (r: Source)
        ensures
            r@ == plugin_source(label@),
    {
        Source { label: label.to_string(), kind: SourceKind::Plugin }
    }

    pub fn nmea0183(label: &str, talker: &str) -> (r: Source)
        ensures
            r@ == nmea0183_source(label@, talker@),
    {
        Source {
            label: label.to_string(),
            kind: SourceKind::Nmea0183 { talker: talker.to_string() },
        }
    }

    pub fn nmea2000(label: &str, src: u8, pgn: u32) -> (r: Source)
        ensures
            r@ == nmea2000_source(label@, src, pgn),
    {
        Source { label: label.to_string(), kind: SourceKind::Nmea2000 { src, pgn } }
    }

    /// The name of the source's type.
    pub fn type_(&self) -> (r: &str)
        ensures
            r@ == self@.kind.kind_name(),
    {
        match &self.kind {
            SourceKind::Plugin => "Plugin",
            SourceKind::Nmea0183 { .. } => "NMEA0183",
            SourceKind::Nmea2000 { .. } => "NMEA2000",
            SourceKind::Other { type_ } => type_.as_str(),
        }
    }
}

/// Values that arrived together from one source.
#[derive(Debug)]
pub struct Update {
    pub source: Source,
    pub values: Vec<PathValue>,
}

/// The view of an [`Update`].
pub struct UpdateView {
    pub source: SourceView,
    pub values: Seq<Entry>,
}

impl Update {
    pub open spec fn view(&self) -> UpdateView {
        UpdateView { source: self.source@, values: entries(self.values@) }
    }
}

/// A change of the Signal K data of one vessel.
#[derive(Debug)]
pub struct Delta {
    pub context: Option<String>,
    pub updates: Vec<Update>,
}

/// The view of a [`Delta`].
pub struct DeltaView {
    pub context: Option<Seq<char>>,
    pub updates: Seq<UpdateView>,
}

/// The view of a delta with one update.
pub open spec fn delta_view(
    context: Seq<char>,
    source: SourceView,
    values: Seq<Entry>,
) -> DeltaView {
    DeltaView { context: Some(context), updates: seq![UpdateView { source, values }] }
}

/// The view of a delta of the own vessel with one update.
pub open spec fn self_delta_view(source: SourceView, values: Seq<Entry>) -> DeltaView {
    delta_view("vessels.self"@, source, values)
}

impl Delta {
    pub open spec fn view(&self) -> DeltaView {
        DeltaView {
            context: match self.context {
                Some(c) => Some(c@),
                None => None,
            },
            updates: self.updates@.map_values(|u: Update| u@),
        }
    }

    /// A delta of the vessel with the given context, with one update.
    pub fn with_context(context: &str, source: Source, values: Vec<PathValue>) -> (r: Delta)
        ensures
            r@ == delta_view(context@, source@, entries(values@)),
    {
        let mut updates: Vec<Update> = Vec::new();
        updates.push(Update { source, values });
        let r = Delta { context: Some(context.to_string()), updates };
        assert(r@.updates =~= delta_view(context@, source@, entries(values@)).updates);
        r
    }

    /// A delta of the own vessel, with one update.
    pub fn self_vessel(source: Source, values: Vec<PathValue>) -> (r: Delta)
        ensures
            r@ == self_delta_view(source@, entries(values@)),
    {
        Delta::with_context("vessels.self", source, values)
    }
}

/// The view of a delta that may be missing.
pub open spec fn opt_delta(delta: Option<Delta>) -> Option<DeltaView> {
    match delta {
        Some(d) => Some(d@),
        None => None,
    }
}

// ---------------------------------------------------------------------------
// Notifications
// ---------------------------------------------------------------------------

/// How urgent a notification is.
#[derive(Debug, Clone, Copy, PartialEq, Eq, Structural)]
pub enum NotificationState {
    Normal,
    Alert,
    Warn,
    Alarm,
    Emergency,
}

/// How a notification is brought to attention.
#[derive(Debug, Clone, Copy, PartialEq, Eq, Structural)]
pub enum NotificationMethod {
    Visual,
    Sound,
}

impl NotificationState {
    pub open spec fn name(self) -> Seq<char> {
        match self {
            NotificationState::Normal => "normal"@,
            NotificationState::Alert => "alert"@,
            NotificationState::Warn => "warn"@,
            NotificationState::Alarm => "alarm"@,
            NotificationState::Emergency => "emergency"@,
        }
    }

    pub fn as_str(&self) -> (r: &'static str)
        ensures
            r@ == self.name(),
    {
        match self {
            NotificationState::Normal => "normal",
            NotificationState::Alert => "alert",
            NotificationState::Warn => "warn",
            NotificationState::Alarm => "alarm",
            NotificationState::Emergency => "emergency",
        }
    }
}

impl NotificationMethod {
    pub open spec fn name(self) -> Seq<char> {
        match self {
            NotificationMethod::Visual => "visual"@,
            NotificationMethod::Sound => "sound"@,
        }
    }

    pub fn as_str(&self) -> (r: &'static str)
        ensures
            r@ == self.name(),
    {
        match self {
            NotificationMethod::Visual => "visual",
            NotificationMethod::Sound => "sound",
        }
    }
}

/// The view of a notification value.
pub open spec fn notification_view(
    state: NotificationState,
    methods: Seq<NotificationMethod>,
    message: Seq<char>,
) -> ValueView {
    ValueView::Object(
        seq![
            FieldView { key: "state"@, value: ValueView::Text(state.name()) },
            FieldView {
                key: "method"@,
                value: ValueView::List(
                    methods.map_values(|m: NotificationMethod| ValueView::Text(m.name())),
                ),
            },
            FieldView { key: "message"@, value: ValueView::Text(message) },
        ],
    )
}

/// A notification value.
pub fn notification(
    state: NotificationState,
    methods: &Vec<NotificationMethod>,
    message: &str,
) -> (v: Value)
    ensures
        v@ == notification_view(state, methods@, message@),
{
    let mut names: Vec<Value> = Vec::new();
    let ghost named = |m: NotificationMethod| ValueView::Text(m.name());
    let mut i: usize = 0;
    while i < methods.len()
        invariant
            i <= methods@.len(),
            named == (|m: NotificationMethod| ValueView::Text(m.name())),
            names@.len() == i,
            forall|k: int| 0 <= k < i ==> (#[trigger] names@[k])@ == named(methods@[k]),
        decreases methods@.len() - i,
    {
        names.push(text(methods[i].as_str()));
        i += 1;
    }
    assert(value_views(names@) =~= methods@.map_values(named));
    let methods_value = list(names);
    let mut fields: Vec<Field> = Vec::new();
    proof {
        assert(field_views(fields@) =~= Seq::empty());
    }
    push_field(&mut fields, "state", text(state.as_str()));
    push_field(&mut fields, "method", methods_value);
    push_field(&mut fields, "message", text(message));
    let v = object(fields);
    assert(v@->Object_0 =~= notification_view(state, methods@, message@)->Object_0);
    v
}

} // verus!
