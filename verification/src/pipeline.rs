//! The per-event procedure of a worker: filter, enrich, normalise, and build
//! the point that goes to the sink, or say why the event is skipped.

use vstd::prelude::*;
use vstd::string::*;
use crate::event::{Event, State};
use crate::filter::{admitted, any_rule_matches, DefaultFilter, EntityFilter, RuleView};
use crate::metadata::{resolve, Area, Device, Entity, MetadataResult, MetadataTree, TreeView};
use crate::text::{split_entity_id, split_id};
use crate::value::{is_finite_bits, lemma_normalized_is_finite, normalized, Value};

verus! {

/// A point in time: whole seconds since the Unix epoch, and the nanoseconds
/// past that second.
#[derive(Debug, Clone, Copy, PartialEq, Eq)]
pub struct Instant {
    pub seconds: i64,
    pub nanos: u32,
}

impl Instant {
    /// The instant as nanoseconds since the Unix epoch.
    pub fn unix_nanos(&self) -> (r: i128)
        ensures
            r == self.seconds * 1_000_000_000 + self.nanos,
    {
        let seconds: i128 = self.seconds as i128;
        let nanos: i128 = self.nanos as i128;
        seconds * 1_000_000_000 + nanos
    }
}

/// The instant that an RFC 3339 timestamp names, as seconds since the Unix
/// epoch and nanoseconds within the second; `None` where the text is no such
/// timestamp.
pub uninterp spec fn rfc3339_instant(text: Seq<char>) -> Option<(i64, u32)>;

/// Trusted: `chrono::DateTime::parse_from_rfc3339`, read out with
/// `DateTime::timestamp` and `DateTime::timestamp_subsec_nanos`. The result
/// depends on the text alone.
#[verifier::external_body]
fn read_rfc3339(text: &str) -> (r: Option<(i64, u32)>)
    ensures
        r == rfc3339_instant(text@),
{
    match chrono::DateTime::parse_from_rfc3339(text) {
        Ok(at) => Some((at.timestamp(), at.timestamp_subsec_nanos())),
        Err(_) => None,
    }
}

/// The instant named by an RFC 3339 timestamp.
pub open spec fn instant_of(text: Seq<char>) -> Option<Instant> {
    match rfc3339_instant(text) {
        Some((seconds, nanos)) => Some(Instant { seconds, nanos }),
        None => None,
    }
}

/// Reads an RFC 3339 timestamp.
pub fn parse_instant(text: &str) -> (r: Option<Instant>)
    ensures
        r == instant_of(text@),
{
    match read_rfc3339(text) {
        Some((seconds, nanos)) => Some(Instant { seconds, nanos }),
        None => None,
    }
}

/// One string tag of a point.
#[derive(Debug, Clone)]
pub struct Tag {
    pub key: String,
    pub value: String,
}

impl View for Tag {
    type V = (Seq<char>, Seq<char>);

    open spec fn view(&self) -> (Seq<char>, Seq<char>) {
        (self.key@, self.value@)
    }
}

/// One time-series write: a measurement, the numeric field `value`, a
/// timestamp and string tags.
#[derive(Debug, Clone)]
pub struct Point {
    pub measurement: String,
    pub value: Value,
    pub timestamp: Instant,
    pub tags: Vec<Tag>,
}

/// A point as plain data.
pub struct PointView {
    pub measurement: Seq<char>,
    pub value: u64,
    pub timestamp: Instant,
    pub tags: Seq<(Seq<char>, Seq<char>)>,
}

/// The tags of a list, as pairs of key and value.
pub open spec fn tag_views(tags: Seq<Tag>) -> Seq<(Seq<char>, Seq<char>)> {
    tags.map_values(|tag: Tag| tag@)
}

impl View for Point {
    type V = PointView;

    open spec fn view(&self) -> PointView {
        PointView {
            measurement: self.measurement@,
            value: self.value@,
            timestamp: self.timestamp,
            tags: tag_views(self.tags@),
        }
    }
}

/// Why an event produced no point.
#[derive(Debug, Clone, Copy, PartialEq, Eq)]
pub enum Skip {
    /// The filter and the default policy dropped the event.
    Filtered,
    /// The event carries no new state.
    MissingState,
    /// The state's entity identifier holds no `.`.
    InvalidEntityId,
    /// The state's timestamp is not an RFC 3339 timestamp.
    InvalidTimestamp,
    /// The registry snapshot has no metadata for the entity.
    MetadataNotFound,
    /// The state text stands for no number.
    NotNumeric,
}

/// How loudly a skip is reported.
#[derive(Debug, Clone, Copy, PartialEq, Eq)]
pub enum Severity {
    /// Expected in normal operation; of interest only when looking closely.
    Debug,
    /// Expected now and then, and worth a note.
    Warning,
    /// Not expected at all.
    Error,
}

/// The severity of each reason: a filtered event is routine, a timestamp
/// that cannot be read is an error, everything else is a warning.
pub open spec fn severity_of(skip: Skip) -> Severity {
    match skip {
        Skip::Filtered => Severity::Debug,
        Skip::InvalidTimestamp => Severity::Error,
        Skip::MissingState | Skip::InvalidEntityId | Skip::MetadataNotFound | Skip::NotNumeric =>
            Severity::Warning,
    }
}

impl Skip {
    /// How loudly to report the skip. No reason is fatal: the worker always
    /// goes on with the next event.
    pub fn severity(&self) -> (r: Severity)
        ensures
            r == severity_of(*self),
    {
        match self {
            Skip::Filtered => Severity::Debug,
            Skip::InvalidTimestamp => Severity::Error,
            Skip::MissingState => Severity::Warning,
            Skip::InvalidEntityId => Severity::Warning,
            Skip::MetadataNotFound => Severity::Warning,
            Skip::NotNumeric => Severity::Warning,
        }
    }

    /// The text with which the skip is reported.
    pub fn message(&self) -> (r: &'static str)
        ensures
            r@ == match *self {
                Skip::Filtered => "Did not match filter"@,
                Skip::MissingState => "New state missing"@,
                Skip::InvalidEntityId => "Invalid entity ID"@,
                Skip::InvalidTimestamp => "Failed to parse timestamp"@,
                Skip::MetadataNotFound => "Metadata not found"@,
                Skip::NotNumeric => "Failed to parse numerical value from state"@,
            },
    {
        match self {
            Skip::Filtered => "Did not match filter",
            Skip::MissingState => "New state missing",
            Skip::InvalidEntityId => "Invalid entity ID",
            Skip::InvalidTimestamp => "Failed to parse timestamp",
            Skip::MetadataNotFound => "Metadata not found",
            Skip::NotNumeric => "Failed to parse numerical value from state",
        }
    }
}

/// The name under which an entity is tagged: its own name, else the name it
/// was first given.
pub open spec fn display_name(entity: Entity) -> Option<Seq<char>> {
    match entity.name {
        Some(name) => Some(name@),
        None => match entity.original_name {
            Some(name) => Some(name@),
            None => None,
        },
    }
}

/// At most one tag: the key with the value, where there is a value.
pub open spec fn optional_tag(key: Seq<char>, value: Option<Seq<char>>) -> Seq<
    (Seq<char>, Seq<char>),
> {
    match value {
        Some(text) => seq![(key, text)],
        None => Seq::empty(),
    }
}

/// The tags of a point: `entity.id` and `device.name` always; `entity.name`,
/// `device.area` and `device.class` where they are known.
pub open spec fn point_tags(
    found: (Entity, Device, Option<Area>),
    device_class: Option<Seq<char>>,
) -> Seq<(Seq<char>, Seq<char>)> {
    seq![("entity.id"@, found.0.entity_id@), ("device.name"@, found.1.name@)] + optional_tag(
        "entity.name"@,
        display_name(found.0),
    ) + optional_tag(
        "device.area"@,
        match found.2 {
            Some(area) => Some(area.name@),
            None => None,
        },
    ) + optional_tag("device.class"@, device_class)
}

/// The point built for a state of an entity of the given kind.
pub open spec fn point_of(
    kind: Seq<char>,
    at: Instant,
    found: (Entity, Device, Option<Area>),
    device_class: Option<Seq<char>>,
    bits: u64,
) -> PointView {
    PointView {
        measurement: "hass:"@ + kind,
        value: bits,
        timestamp: at,
        tags: point_tags(found, device_class),
    }
}

/// The text of an optional string.
pub open spec fn text_of(value: Option<String>) -> Option<Seq<char>> {
    match value {
        Some(text) => Some(text@),
        None => None,
    }
}

/// What becomes of a state once its timestamp has been read: the checks are
/// made in a fixed order, and the first that fails names the reason.
pub open spec fn enriched(state: State, at: Option<Instant>, tree: TreeView) -> Result<
    PointView,
    Skip,
> {
    match split_id(state.entity_id@) {
        None => Err(Skip::InvalidEntityId),
        Some((kind, _)) => match at {
            None => Err(Skip::InvalidTimestamp),
            Some(at) => match resolve(tree, state.entity_id@) {
                None => Err(Skip::MetadataNotFound),
                Some(found) => match normalized(state.state@, state.numeric) {
                    None => Err(Skip::NotNumeric),
                    Some(bits) => Ok(
                        point_of(kind, at, found, text_of(state.device_class), bits),
                    ),
                },
            },
        },
    }
}

/// What becomes of an event: dropped by the filter, skipped for want of a new
/// state, or enriched.
pub open spec fn processed(
    event: Event,
    policy: DefaultFilter,
    rules: Seq<RuleView>,
    tree: TreeView,
) -> Result<PointView, Skip> {
    if !admitted(policy, any_rule_matches(rules, event.entity_id@)) {
        Err(Skip::Filtered)
    } else {
        match event.new_state {
            None => Err(Skip::MissingState),
            Some(state) => enriched(state, instant_of(state.last_updated@), tree),
        }
    }
}

/// Appends one tag.
fn push_tag(tags: &mut Vec<Tag>, key: &str, value: &str)
    ensures
        tag_views(final(tags)@) == tag_views(old(tags)@).push((key@, value@)),
{
    tags.push(Tag { key: key.to_owned(), value: value.to_owned() });
    assert(tag_views(tags@) =~= tag_views(old(tags)@).push((key@, value@)));
}

impl Point {
    /// Builds the point for a state: the measurement is `hass:` and the kind,
    /// the field is the normalised value, and the tags follow the metadata.
    pub fn build(
        kind: &str,
        at: Instant,
        found: &MetadataResult<'_>,
        device_class: Option<&str>,
        value: Value,
    ) -> (r: Point)
        ensures
            r@ == point_of(
                kind@,
                at,
                found@,
                match device_class {
                    Some(class) => Some(class@),
                    None => None,
                },
                value@,
            ),
    {
        let mut measurement = String::from_str("hass:");
        measurement.append(kind);
        let mut tags: Vec<Tag> = Vec::new();
        assert(tag_views(tags@) =~= Seq::empty());
        push_tag(&mut tags, "entity.id", found.entity.entity_id.as_str());
        push_tag(&mut tags, "device.name", found.device.name.as_str());
        assert(tag_views(tags@) =~= seq![
            ("entity.id"@, found@.0.entity_id@),
            ("device.name"@, found@.1.name@),
        ]);
        match &found.entity.name {
            Some(name) => push_tag(&mut tags, "entity.name", name.as_str()),
            None => match &found.entity.original_name {
                Some(name) => push_tag(&mut tags, "entity.name", name.as_str()),
                None => {},
            },
        }
        let ghost with_name = tag_views(tags@);
        assert(with_name =~= seq![
            ("entity.id"@, found@.0.entity_id@),
            ("device.name"@, found@.1.name@),
        ] + optional_tag("entity.name"@, display_name(found@.0)));
        match found.area {
            Some(area) => push_tag(&mut tags, "device.area", area.name.as_str()),
            None => {},
        }
        let ghost with_area = tag_views(tags@);
        assert(with_area =~= with_name + optional_tag(
            "device.area"@,
            match found@.2 {
                Some(area) => Some(area.name@),
                None => None,
            },
        ));
        match device_class {
            Some(class) => push_tag(&mut tags, "device.class", class),
            None => {},
        }
        assert(tag_views(tags@) =~= with_area + optional_tag(
            "device.class"@,
            match device_class {
                Some(class) => Some(class@),
                None => None,
            },
        ));
        Point { measurement, value, timestamp: at, tags }
    }
}

/// Enriches a state whose timestamp has been read: recovers the kind from the
/// identifier, requires the timestamp, looks the metadata up, normalises the
/// state text and builds the point. The first step that fails names the
/// reason for the skip.
pub fn enrich(state: &State, at: Option<Instant>, metadata: &MetadataTree) -> (r: Result<
    Point,
    Skip,
>)
    ensures
        match r {
            Ok(point) => enriched(*state, at, metadata@) == Ok::<PointView, Skip>(point@),
            Err(skip) => enriched(*state, at, metadata@) == Err::<PointView, Skip>(skip),
        },
{
    let kind = match split_entity_id(state.entity_id.as_str()) {
        Some((kind, _)) => kind,
        None => return Err(Skip::InvalidEntityId),
    };
    let at = match at {
        Some(at) => at,
        None => return Err(Skip::InvalidTimestamp),
    };
    let found = match metadata.find(state.entity_id.as_str()) {
        Some(found) => found,
        None => return Err(Skip::MetadataNotFound),
    };
    let value = match Value::parse(state.state.as_str(), state.numeric) {
        Ok(value) => value,
        Err(_) => return Err(Skip::NotNumeric),
    };
    let device_class = match &state.device_class {
        Some(class) => Some(class.as_str()),
        None => None,
    };
    Ok(Point::build(kind, at, &found, device_class, value))
}

/// Runs the whole procedure on one event: the filter with the default
/// policy, the new state, then the enrichment with the state's timestamp read
/// as RFC 3339.
pub fn process(
    event: &Event,
    policy: DefaultFilter,
    filter: &EntityFilter,
    metadata: &MetadataTree,
) -> (r: Result<Point, Skip>)
    ensures
        match r {
            Ok(point) => processed(*event, policy, filter@, metadata@) == Ok::<PointView, Skip>(
                point@,
            ),
            Err(skip) => processed(*event, policy, filter@, metadata@) == Err::<PointView, Skip>(
                skip,
            ),
        },
{
    if !policy.admits(filter.matches_event(event)) {
        return Err(Skip::Filtered);
    }
    match &event.new_state {
        None => Err(Skip::MissingState),
        Some(state) => {
            let at = parse_instant(state.last_updated.as_str());
            enrich(state, at, metadata)
        },
    }
}

/// The capacity of the inbound queue for a pool of `workers` workers: twice
/// their number, so that the feed is held back once every worker is busy and
/// as many payloads again are waiting.
pub fn queue_capacity(workers: u8) -> (r: usize)
    ensures
        r == 2 * workers,
{
    let n: usize = workers as usize;
    n * 2
}

/// Every point carries a normalised value: where an event yields a point,
/// its state text stands for the finite number in the point's field, the
/// event was admitted and its entity has metadata.
pub proof fn lemma_points_hold_normalized_values(
    event: Event,
    policy: DefaultFilter,
    rules: Seq<RuleView>,
    tree: TreeView,
)
    ensures
        processed(event, policy, rules, tree) matches Ok(point) ==> {
            &&& event.new_state matches Some(state) && normalized(state.state@, state.numeric)
                == Some(point.value) && resolve(tree, state.entity_id@) is Some
            &&& is_finite_bits(point.value)
            &&& admitted(policy, any_rule_matches(rules, event.entity_id@))
        },
{
    if let Some(state) = event.new_state {
        lemma_normalized_is_finite(state.state@, state.numeric);
    }
}

/// An entity without metadata yields no point, whatever else the event holds.
pub proof fn lemma_no_metadata_no_point(
    event: Event,
    policy: DefaultFilter,
    rules: Seq<RuleView>,
    tree: TreeView,
)
    requires
        event.new_state matches Some(state) && resolve(tree, state.entity_id@) is None,
    ensures
        processed(event, policy, rules, tree) is Err,
{
}

} // verus!
