//! The records of the durable store, what they become in memory, and the
//! operations that write a committed change back.

use vstd::prelude::*;
use std::collections::HashMap;
use crate::canvas::{apply_entries, id_entries_view, Canvas, CanvasSpec};
use crate::ids::{CanvasIdType, CanvasObjectIdType, ObjectId, UserIdType, WhiteboardIdType};
use crate::messages::{diffs_view, WhiteboardDiff, WhiteboardDiffSpec};
use crate::shape::{ShapeModel, ShapeSpec};
use crate::time::{utc_in_range, UtcDateTime};
use crate::users::{
    permission_index, permissions_view, WhiteboardPermission, WhiteboardPermissionEnum,
    WhiteboardPermissionMongoDBView, WhiteboardPermissionSpec, WhiteboardPermissionType,
    };
use crate::whiteboard::{canvas_map_view, id_set_of, Whiteboard, WhiteboardSpec};

verus! {

broadcast use vstd::std_specs::hash::group_hash_axioms;

/// A shape with its id.
#[derive(Debug, Clone)]
pub struct CanvasObject {
    pub id: CanvasObjectIdType,
    pub shape: ShapeModel,
}

/// A shape as the store holds it: with its id and that of its canvas.
#[derive(Debug, Clone)]
pub struct CanvasObjectMongoDBView {
    pub id: ObjectId,
    pub canvas_id: ObjectId,
    pub shape: ShapeModel,
}

pub struct CanvasObjectMongoDBViewSpec {
    pub id: ObjectId,
    pub canvas_id: ObjectId,
    pub shape: ShapeSpec,
}

impl View for CanvasObjectMongoDBView {
    type V = CanvasObjectMongoDBViewSpec;

    open spec fn view(&self) -> CanvasObjectMongoDBViewSpec {
        CanvasObjectMongoDBViewSpec { id: self.id, canvas_id: self.canvas_id, shape: self.shape@ }
    }
}

impl CanvasObjectMongoDBView {
    pub fn to_canvas_object(&self) -> (r: CanvasObject)
        ensures
            r.id == self.id,
            r.shape@ == self.shape@,
    {
        CanvasObject { id: self.id, shape: self.shape.duplicate() }
    }

    pub fn from_canvas_object(obj: &CanvasObject, canvas_id: &CanvasIdType) -> (r:
        CanvasObjectMongoDBView)
        ensures
            r@ == (CanvasObjectMongoDBViewSpec {
                id: obj.id,
                canvas_id: *canvas_id,
                shape: obj.shape@,
            }),
    {
        CanvasObjectMongoDBView { id: obj.id, canvas_id: *canvas_id, shape: obj.shape.duplicate() }
    }
}

/// The seconds of the instant `millis` milliseconds after the Unix epoch.
pub open spec fn millis_secs(millis: i64) -> i64 {
    (millis as int / 1000) as i64
}

/// The nanoseconds, past its last whole second, of the instant `millis`
/// milliseconds after the Unix epoch.
pub open spec fn millis_nanos(millis: i64) -> u32 {
    ((millis as int % 1000) * 1_000_000) as u32
}

/// Whether the store's instant `millis`, milliseconds after the Unix
/// epoch, is one that chrono can hold.
pub open spec fn millis_in_range(millis: i64) -> bool {
    utc_in_range(millis_secs(millis), millis_nanos(millis))
}

/// The instant that the store writes as `millis` milliseconds after the
/// Unix epoch.
pub fn dt_bson_to_chrono_utc(millis: i64) -> (r: UtcDateTime)
    requires
        millis_in_range(millis),
    ensures
        r.spec_timestamp() == millis_secs(millis),
        r.spec_subsec_nanos() == millis_nanos(millis),
        r.spec_timestamp_millis() == millis,
{
    match UtcDateTime::from_timestamp_millis(millis) {
        Some(t) => t,
        None => vstd::pervasive::unreached(),
    }
}

/// The instant that the store writes as `millis`, if chrono can hold it.
pub fn try_dt_bson_to_chrono_utc(millis: i64) -> (r: Option<UtcDateTime>)
    ensures
        r is Some <==> millis_in_range(millis),
        r matches Some(t) ==> t.spec_timestamp() == millis_secs(millis) && t.spec_subsec_nanos()
            == millis_nanos(millis) && t.spec_timestamp_millis() == millis,
{
    if UtcDateTime::from_timestamp_millis(millis).is_some() {
        Some(dt_bson_to_chrono_utc(millis))
    } else {
        None
    }
}

/// The instant as the store writes it: milliseconds after the Unix epoch,
/// rounded down.
pub fn dt_chrono_utc_to_bson(dt: &UtcDateTime) -> (r: i64)
    ensures
        r == dt.spec_timestamp_millis(),
{
    dt.timestamp_millis()
}

/// A canvas as the store holds it, without its shapes. Instants are
/// milliseconds after the Unix epoch.
#[derive(Clone, Debug)]
pub struct CanvasMongoDBView {
    pub id: ObjectId,
    pub whiteboard_id: ObjectId,
    pub width: i32,
    pub height: i32,
    pub name: String,
    pub time_created: i64,
    pub time_last_modified: i64,
    pub allowed_users: Option<Vec<ObjectId>>,
}

/// The shapes of a list of objects, each under its id.
pub open spec fn object_entries(objects: Seq<CanvasObject>) -> Seq<(ObjectId, ShapeSpec)> {
    objects.map_values(|o: CanvasObject| (o.id, o.shape@))
}

/// The members of an allow-list as the store holds it.
pub open spec fn stored_allow_list(allowed: Option<Vec<ObjectId>>) -> Option<Set<ObjectId>> {
    match allowed {
        Some(users) => Some(users@.to_set()),
        None => None,
    }
}

fn objects_as_entries(objects: &[CanvasObject]) -> (r: Vec<(ObjectId, ShapeModel)>)
    ensures
        id_entries_view(r@) == object_entries(objects@),
{
    let mut out: Vec<(ObjectId, ShapeModel)> = Vec::new();
    let n: usize = objects.len();
    let mut i: usize = 0;
    while i < n
        invariant
            n == objects@.len(),
            i <= n,
            out@.len() == i,
            forall|j: int|
                0 <= j < i ==> (#[trigger] out@[j]).0 == objects@[j].id && out@[j].1@
                    == objects@[j].shape@,
        decreases n - i,
    {
        out.push((objects[i].id, objects[i].shape.duplicate()));
        i = i + 1;
    }
    assert(id_entries_view(out@) =~= object_entries(objects@));
    out
}

impl CanvasMongoDBView {
    /// Whether chrono can hold both instants of the record.
    pub open spec fn times_in_range(&self) -> bool {
        millis_in_range(self.time_created) && millis_in_range(self.time_last_modified)
    }

    /// The canvas in memory, with the shapes `canvas_objects`: of two
    /// objects under one id the later stays.
    pub fn to_canvas(&self, canvas_objects: &[CanvasObject]) -> (r: Canvas)
        requires
            self.times_in_range(),
        ensures
            canvas_loaded(*self, canvas_objects@, r@),
    {
        let allowed_users = match &self.allowed_users {
            Some(users) => Some(id_set_of(users)),
            None => None,
        };
        let mut canvas = Canvas {
            id: self.id,
            next_shape_id_base: 0,
            width: self.width,
            height: self.height,
            name: self.name.clone(),
            time_created: dt_bson_to_chrono_utc(self.time_created),
            time_last_modified: dt_bson_to_chrono_utc(self.time_last_modified),
            shapes: HashMap::new(),
            allowed_users,
        };
        assert(canvas@.shapes =~= Map::empty());
        let entries = objects_as_entries(canvas_objects);
        canvas.put_shapes(&entries);
        canvas
    }

    /// The canvas in memory, if chrono can hold both instants of the
    /// record.
    pub fn try_to_canvas(&self, canvas_objects: &[CanvasObject]) -> (r: Option<Canvas>)
        ensures
            r is Some <==> self.times_in_range(),
            r matches Some(canvas) ==> canvas_loaded(*self, canvas_objects@, canvas@),
    {
        if UtcDateTime::from_timestamp_millis(self.time_created).is_some()
            && UtcDateTime::from_timestamp_millis(self.time_last_modified).is_some() {
            Some(self.to_canvas(canvas_objects))
        } else {
            None
        }
    }
}

/// Whether `canvas` is the record `record` in memory, with the shapes
/// `objects`.
pub open spec fn canvas_loaded(
    record: CanvasMongoDBView,
    objects: Seq<CanvasObject>,
    canvas: CanvasSpec,
) -> bool {
    &&& canvas.id == record.id
    &&& canvas.next_shape_id_base == 0
    &&& canvas.width == record.width
    &&& canvas.height == record.height
    &&& canvas.name == record.name@
    &&& canvas.time_created.spec_timestamp_millis() == record.time_created
    &&& canvas.time_created.spec_timestamp() == millis_secs(record.time_created)
    &&& canvas.time_created.spec_subsec_nanos() == millis_nanos(record.time_created)
    &&& canvas.time_last_modified.spec_timestamp_millis() == record.time_last_modified
    &&& canvas.time_last_modified.spec_timestamp() == millis_secs(record.time_last_modified)
    &&& canvas.time_last_modified.spec_subsec_nanos() == millis_nanos(record.time_last_modified)
    &&& canvas.shapes == apply_entries(Map::empty(), object_entries(objects))
    &&& canvas.allowed_users == stored_allow_list(record.allowed_users)
}

/// A whiteboard as the store holds it, without its canvases.
#[derive(Clone, Debug)]
pub struct WhiteboardMongoDBView {
    pub id: ObjectId,
    pub name: String,
    pub owner_id: ObjectId,
    pub shared_users: Vec<WhiteboardPermissionMongoDBView>,
}

/// The canvases of a list, each filed under its id: of two canvases with
/// one id the later stays.
pub open spec fn canvases_by_id(canvases: Seq<CanvasSpec>) -> Map<CanvasIdType, CanvasSpec>
    decreases canvases.len(),
{
    if canvases.len() == 0 {
        Map::empty()
    } else {
        canvases_by_id(canvases.drop_last()).insert(canvases.last().id, canvases.last())
    }
}

/// The views of a list of canvases, in order.
pub open spec fn canvases_view(canvases: Seq<Canvas>) -> Seq<CanvasSpec> {
    canvases.map_values(|c: Canvas| c@)
}

/// Every canvas of `canvases_by_id` is filed under its own id.
pub proof fn lemma_canvases_by_id_keys(canvases: Seq<CanvasSpec>)
    ensures
        forall|k: CanvasIdType| #[trigger]
            canvases_by_id(canvases).contains_key(k) ==> canvases_by_id(canvases)[k].id == k,
    decreases canvases.len(),
{
    if canvases.len() > 0 {
        lemma_canvases_by_id_keys(canvases.drop_last());
    }
}

/// A copy of the grants of a list.
pub fn copy_permissions(shared: &Vec<WhiteboardPermission>) -> (r: Vec<WhiteboardPermission>)
    ensures
        permissions_view(r@) == permissions_view(shared@),
{
    let mut out: Vec<WhiteboardPermission> = Vec::new();
    let n: usize = shared.len();
    let mut i: usize = 0;
    while i < n
        invariant
            n == shared@.len(),
            i <= n,
            out@.len() == i,
            forall|j: int| 0 <= j < i ==> (#[trigger] out@[j])@ == shared@[j]@,
        decreases n - i,
    {
        out.push(shared[i].duplicate());
        i = i + 1;
    }
    assert(permissions_view(out@) =~= permissions_view(shared@));
    out
}

/// The tier of each account that the grants name.
pub fn index_permissions(shared: &Vec<WhiteboardPermission>) -> (r: HashMap<
    UserIdType,
    WhiteboardPermissionEnum,
>)
    ensures
        r@ == permission_index(permissions_view(shared@)),
{
    let mut out: HashMap<UserIdType, WhiteboardPermissionEnum> = HashMap::new();
    let n: usize = shared.len();
    let mut i: usize = 0;
    let ghost all = permissions_view(shared@);
    assert(all.take(0) =~= Seq::<WhiteboardPermissionSpec>::empty());
    assert(out@ =~= permission_index(all.take(0)));
    while i < n
        invariant
            n == shared@.len(),
            i <= n,
            all == permissions_view(shared@),
            out@ == permission_index(all.take(i as int)),
        decreases n - i,
    {
        proof {
            assert(all.take(i + 1).drop_last() =~= all.take(i as int));
            assert(all.take(i + 1).last() == all[i as int]);
        }
        match &shared[i].permission_type {
            WhiteboardPermissionType::User { user } => {
                out.insert(*user, shared[i].permission);
            },
            WhiteboardPermissionType::Email { .. } => {},
        }
        i = i + 1;
    }
    assert(all.take(n as int) =~= all);
    out
}

impl WhiteboardMongoDBView {
    /// The whiteboard in memory, with the canvases `canvases`.
    pub fn to_whiteboard(&self, canvases: &[Canvas]) -> (r: Whiteboard)
        ensures
            r@ == (WhiteboardSpec {
                id: self.id,
                name: self.name@,
                canvases: canvases_by_id(canvases_view(canvases@)),
                owner_id: self.owner_id,
                shared_users: permissions_view(self.shared_users@),
                permissions_by_user_id: permission_index(permissions_view(self.shared_users@)),
            }),
            r@.wf(),
    {
        let mut by_id: HashMap<CanvasIdType, Canvas> = HashMap::new();
        let n: usize = canvases.len();
        let mut i: usize = 0;
        let ghost all = canvases_view(canvases@);
        assert(all.take(0) =~= Seq::<CanvasSpec>::empty());
        assert(canvas_map_view(by_id@) =~= canvases_by_id(all.take(0)));
        while i < n
            invariant
                n == canvases@.len(),
                i <= n,
                all == canvases_view(canvases@),
                canvas_map_view(by_id@) == canvases_by_id(all.take(i as int)),
            decreases n - i,
        {
            let copy = canvases[i].duplicate();
            let ghost before = by_id@;
            by_id.insert(copy.id, copy);
            proof {
                assert(all.take(i + 1).drop_last() =~= all.take(i as int));
                assert(all.take(i + 1).last() == all[i as int]);
                assert(canvas_map_view(by_id@) =~= canvas_map_view(before).insert(copy.id, copy@));
            }
            i = i + 1;
        }
        assert(all.take(n as int) =~= all);
        proof {
            lemma_canvases_by_id_keys(all);
        }
        Whiteboard {
            id: self.id,
            name: self.name.clone(),
            canvases: by_id,
            owner_id: self.owner_id,
            shared_users: copy_permissions(&self.shared_users),
            permissions_by_user_id: index_permissions(&self.shared_users),
        }
    }
}

/// The objects of a list of records, in order.
pub fn objects_of(records: &Vec<CanvasObjectMongoDBView>) -> (r: Vec<CanvasObject>)
    ensures
        object_entries(r@) == record_entries(records@),
{
    let mut out: Vec<CanvasObject> = Vec::new();
    let n: usize = records.len();
    let mut i: usize = 0;
    while i < n
        invariant
            n == records@.len(),
            i <= n,
            out@.len() == i,
            forall|j: int|
                0 <= j < i ==> (#[trigger] out@[j]).id == records@[j].id && out@[j].shape@
                    == records@[j].shape@,
        decreases n - i,
    {
        out.push(records[i].to_canvas_object());
        i = i + 1;
    }
    assert(object_entries(out@) =~= record_entries(records@));
    out
}

/// The shapes of a list of records, each under its id.
pub open spec fn record_entries(records: Seq<CanvasObjectMongoDBView>) -> Seq<
    (ObjectId, ShapeSpec),
> {
    records.map_values(|o: CanvasObjectMongoDBView| (o.id, o.shape@))
}

/// Whether the first `n` of `canvases` are the first `n` of the records
/// `records` in memory, in order, the canvas at each place with the shapes
/// of `shapes` at that place.
pub open spec fn canvases_loaded_up_to(
    records: Seq<CanvasMongoDBView>,
    shapes: Seq<Vec<CanvasObjectMongoDBView>>,
    canvases: Seq<CanvasSpec>,
    n: int,
) -> bool {
    forall|i: int|
        0 <= i < n ==> {
            &&& (#[trigger] records[i]).times_in_range()
            &&& record_loaded(records[i], record_entries(shapes[i]@), canvases[i])
        }
}

/// Whether `canvases` are the records `records` in memory, in order, the
/// canvas at each place with the shapes of `shapes` at that place.
pub open spec fn canvases_loaded(
    records: Seq<CanvasMongoDBView>,
    shapes: Seq<Vec<CanvasObjectMongoDBView>>,
    canvases: Seq<CanvasSpec>,
) -> bool {
    &&& canvases.len() == records.len()
    &&& canvases_loaded_up_to(records, shapes, canvases, records.len() as int)
}

/// Whether `canvas` is the record `record` in memory, with the shapes
/// `entries`.
pub open spec fn record_loaded(
    record: CanvasMongoDBView,
    entries: Seq<(ObjectId, ShapeSpec)>,
    canvas: CanvasSpec,
) -> bool {
    &&& canvas.id == record.id
    &&& canvas.next_shape_id_base == 0
    &&& canvas.width == record.width
    &&& canvas.height == record.height
    &&& canvas.name == record.name@
    &&& canvas.time_created.spec_timestamp_millis() == record.time_created
    &&& canvas.time_last_modified.spec_timestamp_millis() == record.time_last_modified
    &&& canvas.shapes == apply_entries(Map::empty(), entries)
    &&& canvas.allowed_users == stored_allow_list(record.allowed_users)
}

/// Whether chrono can hold the instants of every record.
pub open spec fn all_times_in_range(records: Seq<CanvasMongoDBView>) -> bool {
    forall|i: int| 0 <= i < records.len() ==> (#[trigger] records[i]).times_in_range()
}

/// The whiteboard in memory, from what the store holds of it: its own
/// record, the records of its canvases, and for the canvas at each place
/// the records of its shapes at that place. Nothing where the store holds
/// an instant that chrono cannot hold.
pub fn assemble_whiteboard(
    whiteboard_view: &WhiteboardMongoDBView,
    canvas_views: &Vec<CanvasMongoDBView>,
    object_views: &Vec<Vec<CanvasObjectMongoDBView>>,
) -> (r: Option<Whiteboard>)
    requires
        canvas_views@.len() == object_views@.len(),
    ensures
        r is Some <==> all_times_in_range(canvas_views@),
        r matches Some(whiteboard) ==> {
            &&& whiteboard@.wf()
            &&& whiteboard@.id == whiteboard_view.id
            &&& whiteboard@.name == whiteboard_view.name@
            &&& whiteboard@.owner_id == whiteboard_view.owner_id
            &&& whiteboard@.shared_users == permissions_view(whiteboard_view.shared_users@)
            &&& exists|canvases: Seq<CanvasSpec>| #[trigger]
                canvases_loaded(canvas_views@, object_views@, canvases) && whiteboard@.canvases
                    == canvases_by_id(canvases)
        },
{
    let mut canvases: Vec<Canvas> = Vec::new();
    let n: usize = canvas_views.len();
    let mut i: usize = 0;
    while i < n
        invariant
            n == canvas_views@.len(),
            n == object_views@.len(),
            i <= n,
            canvases@.len() == i,
            canvases_loaded_up_to(
                canvas_views@,
                object_views@,
                canvases_view(canvases@),
                i as int,
            ),
        decreases n - i,
    {
        let objects = objects_of(&object_views[i]);
        let ghost before = canvases_view(canvases@);
        match canvas_views[i].try_to_canvas(objects.as_slice()) {
            Some(canvas) => {
                canvases.push(canvas);
                proof {
                    let now = canvases_view(canvases@);
                    assert(now =~= before.push(canvas@));
                    assert forall|j: int| 0 <= j < i + 1 implies {
                        &&& (#[trigger] canvas_views@[j]).times_in_range()
                        &&& record_loaded(
                            canvas_views@[j],
                            record_entries(object_views@[j]@),
                            now[j],
                        )
                    } by {
                        if j < i {
                            assert(now[j] == before[j]);
                        } else {
                            assert(now[j] == canvas@);
                            assert(canvas_loaded(canvas_views@[i as int], objects@, canvas@));
                        }
                    }
                }
            },
            None => {
                assert(!(#[trigger] canvas_views@[i as int]).times_in_range());
                return None;
            },
        }
        i = i + 1;
    }
    let whiteboard = whiteboard_view.to_whiteboard(canvases.as_slice());
    proof {
        let loaded = canvases_view(canvases@);
        assert(canvases_loaded(canvas_views@, object_views@, loaded));
        assert forall|j: int| 0 <= j < canvas_views@.len() implies (#[trigger] canvas_views@[j]).times_in_range() by {}
    }
    Some(whiteboard)
}

/// One operation on the durable store.
#[derive(Clone, Debug)]
#[allow(inconsistent_fields)]
pub enum StoreOperation {
    CreateCanvas {
        canvas_id: CanvasIdType,
        whiteboard_id: WhiteboardIdType,
        name: String,
        width: i32,
        height: i32,
        allowed_users: Vec<ObjectId>,
    },
    /// Deletes the canvases named, with their shapes.
    DeleteCanvases { canvas_ids: Vec<CanvasIdType> },
    InsertShape { object: CanvasObjectMongoDBView },
    ReplaceShape { object: CanvasObjectMongoDBView },
    UpdateCanvasAllowedUsers { canvas_id: CanvasIdType, allowed_users: Vec<ObjectId> },
}

#[allow(inconsistent_fields)]
pub enum StoreOperationSpec {
    CreateCanvas {
        canvas_id: CanvasIdType,
        whiteboard_id: WhiteboardIdType,
        name: Seq<char>,
        width: i32,
        height: i32,
        allowed_users: Seq<ObjectId>,
    },
    DeleteCanvases { canvas_ids: Seq<CanvasIdType> },
    InsertShape { object: CanvasObjectMongoDBViewSpec },
    ReplaceShape { object: CanvasObjectMongoDBViewSpec },
    UpdateCanvasAllowedUsers { canvas_id: CanvasIdType, allowed_users: Seq<ObjectId> },
}

impl View for StoreOperation {
    type V = StoreOperationSpec;

    open spec fn view(&self) -> StoreOperationSpec {
        match *self {
            StoreOperation::CreateCanvas {
                canvas_id,
                whiteboard_id,
                name,
                width,
                height,
                allowed_users,
            } => StoreOperationSpec::CreateCanvas {
                canvas_id,
                whiteboard_id,
                name: name@,
                width,
                height,
                allowed_users: allowed_users@,
            },
            StoreOperation::DeleteCanvases { canvas_ids } => StoreOperationSpec::DeleteCanvases {
                canvas_ids: canvas_ids@,
            },
            StoreOperation::InsertShape { object } => StoreOperationSpec::InsertShape {
                object: object@,
            },
            StoreOperation::ReplaceShape { object } => StoreOperationSpec::ReplaceShape {
                object: object@,
            },
            StoreOperation::UpdateCanvasAllowedUsers { canvas_id, allowed_users } => {
                StoreOperationSpec::UpdateCanvasAllowedUsers {
                    canvas_id,
                    allowed_users: allowed_users@,
                }
            },
        }
    }
}

/// The views of a list of operations, in order.
pub open spec fn operations_view(ops: Seq<StoreOperation>) -> Seq<StoreOperationSpec> {
    ops.map_values(|o: StoreOperation| o@)
}

/// One insert for each shape, in order.
pub open spec fn shape_inserts(
    canvas_id: CanvasIdType,
    shapes: Seq<(ObjectId, ShapeSpec)>,
) -> Seq<StoreOperationSpec> {
    shapes.map_values(
        |e: (ObjectId, ShapeSpec)|
            StoreOperationSpec::InsertShape {
                object: CanvasObjectMongoDBViewSpec { id: e.0, canvas_id, shape: e.1 },
            },
    )
}

/// One replacement for each shape, in order.
pub open spec fn shape_replacements(
    canvas_id: CanvasIdType,
    shapes: Seq<(ObjectId, ShapeSpec)>,
) -> Seq<StoreOperationSpec> {
    shapes.map_values(
        |e: (ObjectId, ShapeSpec)|
            StoreOperationSpec::ReplaceShape {
                object: CanvasObjectMongoDBViewSpec { id: e.0, canvas_id, shape: e.1 },
            },
    )
}

/// The operations that write one diff of the whiteboard `whiteboard_id`
/// to the store: one insert for each shape created, one replacement for
/// each shape updated, one operation for any other diff.
pub open spec fn operations_for(
    whiteboard_id: WhiteboardIdType,
    diff: WhiteboardDiffSpec,
) -> Seq<StoreOperationSpec> {
    match diff {
        WhiteboardDiffSpec::CreateCanvas { canvas_id, name, width, height, allowed_users } => seq![
            StoreOperationSpec::CreateCanvas {
                canvas_id,
                whiteboard_id,
                name,
                width,
                height,
                allowed_users,
            },
        ],
        WhiteboardDiffSpec::DeleteCanvases { canvas_ids } => seq![
            StoreOperationSpec::DeleteCanvases { canvas_ids },
        ],
        WhiteboardDiffSpec::CreateShapes { canvas_id, shapes } => shape_inserts(canvas_id, shapes),
        WhiteboardDiffSpec::UpdateShapes { canvas_id, shapes } => shape_replacements(
            canvas_id,
            shapes,
        ),
        WhiteboardDiffSpec::UpdateCanvasAllowedUsers { canvas_id, allowed_users } => seq![
            StoreOperationSpec::UpdateCanvasAllowedUsers { canvas_id, allowed_users },
        ],
    }
}

/// The operations that write a queue of diffs to the store: those of the
/// first diff, then those of the second, and so on.
pub open spec fn planned_operations(
    whiteboard_id: WhiteboardIdType,
    diffs: Seq<WhiteboardDiffSpec>,
) -> Seq<StoreOperationSpec>
    decreases diffs.len(),
{
    if diffs.len() == 0 {
        Seq::empty()
    } else {
        planned_operations(whiteboard_id, diffs.drop_last()) + operations_for(
            whiteboard_id,
            diffs.last(),
        )
    }
}

fn copy_ids(ids: &Vec<ObjectId>) -> (r: Vec<ObjectId>)
    ensures
        r@ == ids@,
{
    let r = ids.clone();
    assert(r@ =~= ids@);
    r
}

fn push_shape_operations(
    out: &mut Vec<StoreOperation>,
    canvas_id: CanvasIdType,
    shapes: &Vec<(ObjectId, ShapeModel)>,
    replace: bool,
)
    ensures
        operations_view(final(out)@) == operations_view(old(out)@) + if replace {
            shape_replacements(canvas_id, id_entries_view(shapes@))
        } else {
            shape_inserts(canvas_id, id_entries_view(shapes@))
        },
{
    let n: usize = shapes.len();
    let mut i: usize = 0;
    let ghost before = operations_view(out@);
    let ghost all = if replace {
        shape_replacements(canvas_id, id_entries_view(shapes@))
    } else {
        shape_inserts(canvas_id, id_entries_view(shapes@))
    };
    assert(operations_view(out@) =~= before + all.take(0));
    while i < n
        invariant
            n == shapes@.len(),
            i <= n,
            all.len() == n,
            all == if replace {
                shape_replacements(canvas_id, id_entries_view(shapes@))
            } else {
                shape_inserts(canvas_id, id_entries_view(shapes@))
            },
            operations_view(out@) == before + all.take(i as int),
        decreases n - i,
    {
        let object = CanvasObjectMongoDBView {
            id: shapes[i].0,
            canvas_id,
            shape: shapes[i].1.duplicate(),
        };
        let ghost ops_before = out@;
        let op = if replace {
            StoreOperation::ReplaceShape { object }
        } else {
            StoreOperation::InsertShape { object }
        };
        out.push(op);
        proof {
            assert(op@ == all[i as int]);
            assert(operations_view(out@) =~= operations_view(ops_before).push(op@));
            assert(before + all.take(i + 1) =~= (before + all.take(i as int)).push(all[i as int]));
        }
        i = i + 1;
    }
    assert(all.take(n as int) =~= all);
}

/// Appends to `out` the operations that write `diff` to the store.
pub fn push_operations_for(
    out: &mut Vec<StoreOperation>,
    whiteboard_id: WhiteboardIdType,
    diff: &WhiteboardDiff,
)
    ensures
        operations_view(final(out)@) == operations_view(old(out)@) + operations_for(
            whiteboard_id,
            diff@,
        ),
{
    let ghost before = out@;
    match diff {
        WhiteboardDiff::CreateCanvas { canvas_id, name, width, height, allowed_users } => {
            let op = StoreOperation::CreateCanvas {
                canvas_id: *canvas_id,
                whiteboard_id,
                name: name.clone(),
                width: *width,
                height: *height,
                allowed_users: copy_ids(allowed_users),
            };
            out.push(op);
            assert(operations_view(out@) =~= operations_view(before) + seq![op@]);
        },
        WhiteboardDiff::DeleteCanvases { canvas_ids } => {
            let op = StoreOperation::DeleteCanvases { canvas_ids: copy_ids(canvas_ids) };
            out.push(op);
            assert(operations_view(out@) =~= operations_view(before) + seq![op@]);
        },
        WhiteboardDiff::CreateShapes { canvas_id, shapes } => {
            push_shape_operations(out, *canvas_id, shapes, false);
        },
        WhiteboardDiff::UpdateShapes { canvas_id, shapes } => {
            push_shape_operations(out, *canvas_id, shapes, true);
        },
        WhiteboardDiff::UpdateCanvasAllowedUsers { canvas_id, allowed_users } => {
            let op = StoreOperation::UpdateCanvasAllowedUsers {
                canvas_id: *canvas_id,
                allowed_users: copy_ids(allowed_users),
            };
            out.push(op);
            assert(operations_view(out@) =~= operations_view(before) + seq![op@]);
        },
    }
}

/// The operations that write the diffs `diffs` of the whiteboard
/// `whiteboard_id` to the store, in the order in which the diffs were
/// recorded.
pub fn plan_store_operations(whiteboard_id: WhiteboardIdType, diffs: &Vec<WhiteboardDiff>) -> (r:
    Vec<StoreOperation>)
    ensures
        operations_view(r@) == planned_operations(whiteboard_id, diffs_view(diffs@)),
{
    let mut out: Vec<StoreOperation> = Vec::new();
    let n: usize = diffs.len();
    let mut i: usize = 0;
    let ghost all = diffs_view(diffs@);
    assert(all.take(0) =~= Seq::<WhiteboardDiffSpec>::empty());
    assert(operations_view(out@) =~= planned_operations(whiteboard_id, all.take(0)));
    while i < n
        invariant
            n == diffs@.len(),
            i <= n,
            all == diffs_view(diffs@),
            operations_view(out@) == planned_operations(whiteboard_id, all.take(i as int)),
        decreases n - i,
    {
        proof {
            assert(all.take(i + 1).drop_last() =~= all.take(i as int));
            assert(all.take(i + 1).last() == all[i as int]);
        }
        push_operations_for(&mut out, whiteboard_id, &diffs[i]);
        i = i + 1;
    }
    assert(all.take(n as int) =~= all);
    out
}

} // verus!
