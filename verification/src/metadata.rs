//! The metadata registry: one immutable snapshot of the entity, device and
//! area records, and the lookup that enriches an event from it.

use vstd::prelude::*;
use crate::text::same_text;

verus! {

/// A record that is found by a text key.
pub trait Keyed {
    /// The key of the record.
    spec fn key(&self) -> Seq<char>;

    /// The key of the record, as text.
    fn key_text(&self) -> (r: &str)
        ensures
            r@ == self.key(),
    ;
}

/// A physical location.
#[derive(Debug, Clone)]
pub struct Area {
    pub id: String,
    pub name: String,
}

/// A physical device; it may stand in an area.
#[derive(Debug, Clone)]
pub struct Device {
    pub id: String,
    pub name: String,
    pub area_id: Option<String>,
}

/// A monitored entity; it may belong to a device.
#[derive(Debug, Clone)]
pub struct Entity {
    pub entity_id: String,
    pub device_id: Option<String>,
    pub name: Option<String>,
    pub original_name: Option<String>,
}

impl Keyed for Area {
    open spec fn key(&self) -> Seq<char> {
        self.id@
    }

    fn key_text(&self) -> (r: &str) {
        self.id.as_str()
    }
}

impl Keyed for Device {
    open spec fn key(&self) -> Seq<char> {
        self.id@
    }

    fn key_text(&self) -> (r: &str) {
        self.id.as_str()
    }
}

impl Keyed for Entity {
    open spec fn key(&self) -> Seq<char> {
        self.entity_id@
    }

    fn key_text(&self) -> (r: &str) {
        self.entity_id.as_str()
    }
}

/// `i` is the position of the last record of `items` with the key `key`.
pub open spec fn is_latest<T: Keyed>(items: Seq<T>, key: Seq<char>, i: int) -> bool {
    &&& 0 <= i < items.len()
    &&& items[i].key() == key
    &&& forall|j: int| i < j < items.len() ==> (#[trigger] items[j]).key() != key
}

/// The record that a keyed collection built from `items` holds under `key`:
/// where several records share a key, the last one has replaced the others.
pub open spec fn latest_with_key<T: Keyed>(items: Seq<T>, key: Seq<char>) -> Option<T> {
    if exists|i: int| is_latest(items, key, i) {
        Some(items[choose|i: int| is_latest(items, key, i)])
    } else {
        None
    }
}

/// The last record with a given key is unique.
pub proof fn lemma_latest_unique<T: Keyed>(items: Seq<T>, key: Seq<char>, i: int, j: int)
    requires
        is_latest(items, key, i),
        is_latest(items, key, j),
    ensures
        i == j,
{
    if i < j {
        assert(items[j].key() != key);
    } else if j < i {
        assert(items[i].key() != key);
    }
}

/// Finds the record stored under `key`.
pub fn find_latest<'a, T: Keyed>(items: &'a Vec<T>, key: &str) -> (r: Option<&'a T>)
    ensures
        match r {
            Some(item) => latest_with_key(items@, key@) == Some(*item),
            None => latest_with_key(items@, key@) is None,
        },
{
    let mut i: usize = items.len();
    while i > 0
        invariant
            i <= items.len(),
            forall|j: int| i <= j < items.len() ==> (#[trigger] items@[j]).key() != key@,
        decreases i,
    {
        i -= 1;
        if same_text(items[i].key_text(), key) {
            proof {
                assert(is_latest(items@, key@, i as int));
                let c = choose|c: int| is_latest(items@, key@, c);
                lemma_latest_unique(items@, key@, c, i as int);
            }
            return Some(&items[i]);
        }
    }
    proof {
        assert forall|c: int| !is_latest(items@, key@, c) by {
            if 0 <= c < items@.len() {
                assert(items@[c].key() != key@);
            }
        }
    }
    None
}

/// One snapshot of the registry. It is never changed once built: a refresh
/// builds a new one.
#[derive(Debug, Clone)]
pub struct MetadataTree {
    entities: Vec<Entity>,
    devices: Vec<Device>,
    areas: Vec<Area>,
}

/// A snapshot as plain data: the three record lists it was built from.
pub struct TreeView {
    pub entities: Seq<Entity>,
    pub devices: Seq<Device>,
    pub areas: Seq<Area>,
}

impl View for MetadataTree {
    type V = TreeView;

    closed spec fn view(&self) -> TreeView {
        TreeView { entities: self.entities@, devices: self.devices@, areas: self.areas@ }
    }
}

/// What a lookup found: the entity, its device, and the device's area where
/// the snapshot knows one.
#[derive(Debug, Clone, Copy)]
pub struct MetadataResult<'a> {
    pub entity: &'a Entity,
    pub device: &'a Device,
    pub area: Option<&'a Area>,
}

impl<'a> View for MetadataResult<'a> {
    type V = (Entity, Device, Option<Area>);

    open spec fn view(&self) -> (Entity, Device, Option<Area>) {
        (
            *self.entity,
            *self.device,
            match self.area {
                Some(area) => Some(*area),
                None => None,
            },
        )
    }
}

/// The metadata of an entity in a snapshot. The entity must be there, name a
/// device, and that device must be there too; the area may be missing at
/// either step.
pub open spec fn resolve(tree: TreeView, entity_id: Seq<char>) -> Option<
    (Entity, Device, Option<Area>),
> {
    match latest_with_key(tree.entities, entity_id) {
        None => None,
        Some(entity) => match entity.device_id {
            None => None,
            Some(device_id) => match latest_with_key(tree.devices, device_id@) {
                None => None,
                Some(device) => Some(
                    (
                        entity,
                        device,
                        match device.area_id {
                            None => None,
                            Some(area_id) => latest_with_key(tree.areas, area_id@),
                        },
                    ),
                ),
            },
        },
    }
}

impl MetadataTree {
    /// Builds a snapshot from the three record lists.
    pub fn new(areas: Vec<Area>, devices: Vec<Device>, entities: Vec<Entity>) -> (r: MetadataTree)
        ensures
            r@ == (TreeView { entities: entities@, devices: devices@, areas: areas@ }),
    {
        MetadataTree { entities, devices, areas }
    }

    /// Looks an entity up. Returns `None` where the entity is unknown, names no
    /// device, or names a device that the snapshot does not hold; a missing
    /// area only leaves the area out.
    pub fn find(&self, entity_id: &str) -> (r: Option<MetadataResult<'_>>)
        ensures
            match r {
                Some(found) => resolve(self@, entity_id@) == Some(found@),
                None => resolve(self@, entity_id@) is None,
            },
    {
        let entity = match find_latest(&self.entities, entity_id) {
            Some(entity) => entity,
            None => return None,
        };
        let device_id = match &entity.device_id {
            Some(device_id) => device_id,
            None => return None,
        };
        let device = match find_latest(&self.devices, device_id.as_str()) {
            Some(device) => device,
            None => return None,
        };
        let area = match &device.area_id {
            Some(area_id) => find_latest(&self.areas, area_id.as_str()),
            None => None,
        };
        Some(MetadataResult { entity, device, area })
    }
}

/// A lookup never hands out half a result: whatever it finds is the entity
/// asked for together with the very device that the entity names.
pub proof fn lemma_result_is_whole(tree: TreeView, entity_id: Seq<char>)
    ensures
        resolve(tree, entity_id) matches Some(found) ==> {
            &&& found.0.entity_id@ == entity_id
            &&& found.0.device_id matches Some(device_id) && device_id@ == found.1.id@
            &&& found.2 matches Some(area) ==> found.1.area_id matches Some(area_id) && area_id@
                == area.id@
        },
{
    lemma_latest_has_key(tree.entities, entity_id);
    if let Some(entity) = latest_with_key(tree.entities, entity_id) {
        if let Some(device_id) = entity.device_id {
            lemma_latest_has_key(tree.devices, device_id@);
            if let Some(device) = latest_with_key(tree.devices, device_id@) {
                if let Some(area_id) = device.area_id {
                    lemma_latest_has_key(tree.areas, area_id@);
                }
            }
        }
    }
}

/// What is found under a key has that key, and nothing is found exactly when
/// no record has it.
pub proof fn lemma_latest_has_key<T: Keyed>(items: Seq<T>, key: Seq<char>)
    ensures
        latest_with_key(items, key) matches Some(item) ==> item.key() == key && items.contains(
            item,
        ),
        latest_with_key(items, key) is None <==> forall|i: int|
            0 <= i < items.len() ==> (#[trigger] items[i]).key() != key,
{
    if exists|i: int| is_latest(items, key, i) {
        let c = choose|i: int| is_latest(items, key, i);
        assert(items[c].key() == key);
    } else {
        if exists|i: int| 0 <= i < items.len() && (#[trigger] items[i]).key() == key {
            let w = choose|i: int| 0 <= i < items.len() && (#[trigger] items[i]).key() == key;
            lemma_some_is_latest(items, key, w, items.len() as int);
        }
    }
}

/// Where some record before `bound` has the key, one of them is the last
/// such record before `bound`.
proof fn lemma_some_is_latest<T: Keyed>(items: Seq<T>, key: Seq<char>, w: int, bound: int)
    requires
        0 <= w < bound <= items.len(),
        items[w].key() == key,
        forall|j: int| bound <= j < items.len() ==> (#[trigger] items[j]).key() != key,
    ensures
        exists|i: int| is_latest(items, key, i),
    decreases bound,
{
    if items[bound - 1].key() == key {
        assert(is_latest(items, key, bound - 1));
    } else {
        lemma_some_is_latest(items, key, w, bound - 1);
    }
}

/// A device without a known area still resolves: the entity and the device
/// are handed out, the area is left empty.
pub proof fn lemma_missing_area_is_tolerated(tree: TreeView, entity_id: Seq<char>)
    requires
        latest_with_key(tree.entities, entity_id) matches Some(entity)
            && entity.device_id matches Some(device_id) && latest_with_key(
            tree.devices,
            device_id@,
        ) matches Some(device) && (device.area_id matches Some(area_id) ==> latest_with_key(
            tree.areas,
            area_id@,
        ) is None),
    ensures
        resolve(tree, entity_id) matches Some(found) && found.2 is None && Some(found.0)
            == latest_with_key(tree.entities, entity_id),
{
}

/// An entity whose device the snapshot does not hold resolves to nothing.
pub proof fn lemma_dangling_device_fails(tree: TreeView, entity_id: Seq<char>)
    requires
        latest_with_key(tree.entities, entity_id) matches Some(entity)
            && entity.device_id matches Some(device_id) && latest_with_key(
            tree.devices,
            device_id@,
        ) is None,
    ensures
        resolve(tree, entity_id) is None,
{
}

} // verus!
