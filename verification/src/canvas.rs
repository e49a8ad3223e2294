//! Canvases: the drawing surfaces of a whiteboard, each with its shapes.

use vstd::prelude::*;
use std::collections::HashMap;
use std::collections::HashSet;
use crate::ids::{
    encode_object_id, object_id_hex, parse_object_id, spec_parse_object_id, CanvasIdType,
    CanvasObjectIdType, ObjectId,
};
use crate::listing::{is_listing, keys_of, members_of};
use crate::shape::{shape_map_view, ShapeModel, ShapeSpec};
use crate::time::{rfc3339_text, UtcDateTime};
use crate::users::WhiteboardPermissionEnum;

verus! {

broadcast use vstd::std_specs::hash::group_hash_axioms;

/// A named drawing surface.
#[derive(Clone, Debug)]
pub struct Canvas {
    pub id: CanvasIdType,
    pub next_shape_id_base: u64,
    pub width: i32,
    pub height: i32,
    pub name: String,
    pub time_created: UtcDateTime,
    pub time_last_modified: UtcDateTime,
    pub shapes: HashMap<CanvasObjectIdType, ShapeModel>,
    /// The users who may change the canvas; `None` leaves it open to all.
    pub allowed_users: Option<HashSet<ObjectId>>,
}

pub struct CanvasSpec {
    pub id: CanvasIdType,
    pub next_shape_id_base: u64,
    pub width: i32,
    pub height: i32,
    pub name: Seq<char>,
    pub time_created: UtcDateTime,
    pub time_last_modified: UtcDateTime,
    pub shapes: Map<CanvasObjectIdType, ShapeSpec>,
    pub allowed_users: Option<Set<ObjectId>>,
}

/// The members of an allow-list, if there is one.
pub open spec fn allow_list_view(allowed: Option<HashSet<ObjectId>>) -> Option<Set<ObjectId>> {
    match allowed {
        Some(set) => Some(set@),
        None => None,
    }
}

impl View for Canvas {
    type V = CanvasSpec;

    open spec fn view(&self) -> CanvasSpec {
        CanvasSpec {
            id: self.id,
            next_shape_id_base: self.next_shape_id_base,
            width: self.width,
            height: self.height,
            name: self.name@,
            time_created: self.time_created,
            time_last_modified: self.time_last_modified,
            shapes: shape_map_view(self.shapes@),
            allowed_users: allow_list_view(self.allowed_users),
        }
    }
}

impl CanvasSpec {
    /// Whether the allow-list lets the account `user`, of the tier `tier`
    /// on the whiteboard, change the canvas: an open canvas lets every
    /// account of the tier `Edit` or `Own`; a canvas with a list lets the
    /// accounts on the list, whatever their tier.
    pub open spec fn admits(self, user: ObjectId, tier: WhiteboardPermissionEnum) -> bool {
        match self.allowed_users {
            None => tier.spec_can_edit(),
            Some(users) => users.contains(user),
        }
    }
}

/// A canvas as clients see it: ids and instants as text, the shapes keyed by
/// the text of their ids, an empty list of users where the canvas is open
/// to all.
#[derive(Debug, Clone, PartialEq)]
pub struct CanvasClientView {
    pub id: String,
    pub width: i32,
    pub height: i32,
    pub name: String,
    pub time_created: String,
    pub time_last_modified: String,
    pub shapes: Vec<(String, ShapeModel)>,
    pub allowed_users: Vec<String>,
}

pub struct CanvasClientViewSpec {
    pub id: Seq<char>,
    pub width: i32,
    pub height: i32,
    pub name: Seq<char>,
    pub time_created: Seq<char>,
    pub time_last_modified: Seq<char>,
    pub shapes: Seq<(Seq<char>, ShapeSpec)>,
    pub allowed_users: Seq<Seq<char>>,
}

/// The views of shapes listed under durable ids.
pub open spec fn id_entries_view(entries: Seq<(ObjectId, ShapeModel)>) -> Seq<
    (ObjectId, ShapeSpec),
> {
    entries.map_values(|e: (ObjectId, ShapeModel)| (e.0, e.1@))
}

/// The views of shapes listed under texts.
pub open spec fn text_entries_view(entries: Seq<(String, ShapeModel)>) -> Seq<
    (Seq<char>, ShapeSpec),
> {
    entries.map_values(|e: (String, ShapeModel)| (e.0@, e.1@))
}

/// The views of a list of texts.
pub open spec fn texts_view(texts: Seq<String>) -> Seq<Seq<char>> {
    texts.map_values(|t: String| t@)
}

impl View for CanvasClientView {
    type V = CanvasClientViewSpec;

    open spec fn view(&self) -> CanvasClientViewSpec {
        CanvasClientViewSpec {
            id: self.id@,
            width: self.width,
            height: self.height,
            name: self.name@,
            time_created: self.time_created@,
            time_last_modified: self.time_last_modified@,
            shapes: text_entries_view(self.shapes@),
            allowed_users: texts_view(self.allowed_users@),
        }
    }
}

/// The texts of a list of durable ids, in order.
pub open spec fn ids_as_text(ids: Seq<ObjectId>) -> Seq<Seq<char>> {
    ids.map_values(|id: ObjectId| object_id_hex(id))
}

/// Shapes listed under ids, listed under the texts of those ids instead.
pub open spec fn entries_as_text(entries: Seq<(ObjectId, ShapeSpec)>) -> Seq<
    (Seq<char>, ShapeSpec),
> {
    entries.map_values(|e: (ObjectId, ShapeSpec)| (object_id_hex(e.0), e.1))
}

/// The shapes of a map under the keys `ks`, in the order of `ks`.
pub open spec fn entries_at(ks: Seq<ObjectId>, shapes: Map<ObjectId, ShapeSpec>) -> Seq<
    (ObjectId, ShapeSpec),
> {
    ks.map_values(|k: ObjectId| (k, shapes[k]))
}

/// Whether `v` shows the canvas `c`. The order in which the shapes and the
/// allowed users appear is left open.
pub open spec fn shows_canvas(v: CanvasClientViewSpec, c: CanvasSpec) -> bool {
    &&& v.id == object_id_hex(c.id)
    &&& v.width == c.width
    &&& v.height == c.height
    &&& v.name == c.name
    &&& v.time_created == rfc3339_text(
        c.time_created.spec_timestamp(),
        c.time_created.spec_subsec_nanos(),
    )
    &&& v.time_last_modified == rfc3339_text(
        c.time_last_modified.spec_timestamp(),
        c.time_last_modified.spec_subsec_nanos(),
    )
    &&& exists|ks: Seq<ObjectId>| #[trigger]
        is_listing(ks, c.shapes.dom()) && v.shapes == entries_as_text(entries_at(ks, c.shapes))
    &&& match c.allowed_users {
        None => v.allowed_users == Seq::<Seq<char>>::empty(),
        Some(users) => exists|us: Seq<ObjectId>| #[trigger]
            is_listing(us, users) && v.allowed_users == ids_as_text(us),
    }
}

/// The map `m` after each entry of `entries` was written to it, in order:
/// of two entries under one id the later stays.
pub open spec fn apply_entries(
    m: Map<ObjectId, ShapeSpec>,
    entries: Seq<(ObjectId, ShapeSpec)>,
) -> Map<ObjectId, ShapeSpec>
    decreases entries.len(),
{
    if entries.len() == 0 {
        m
    } else {
        apply_entries(m, entries.drop_last()).insert(entries.last().0, entries.last().1)
    }
}

/// The shapes `shapes`, each under the id of `ids` at its place.
pub open spec fn pair_up(ids: Seq<ObjectId>, shapes: Seq<ShapeSpec>) -> Seq<(ObjectId, ShapeSpec)>
    recommends
        ids.len() == shapes.len(),
{
    Seq::new(ids.len(), |i: int| (ids[i], shapes[i]))
}

/// The updates that take effect on a canvas whose shapes have the ids
/// `present`: those whose key is the text of an id that is present, in the
/// order in which they were asked for.
pub open spec fn applied_updates(
    present: Set<ObjectId>,
    updates: Seq<(Seq<char>, ShapeSpec)>,
) -> Seq<(ObjectId, ShapeSpec)>
    decreases updates.len(),
{
    if updates.len() == 0 {
        Seq::empty()
    } else {
        let rest = applied_updates(present, updates.drop_last());
        match spec_parse_object_id(updates.last().0) {
            Some(id) => if present.contains(id) {
                rest.push((id, updates.last().1))
            } else {
                rest
            },
            None => rest,
        }
    }
}

/// The texts of the ids `ids`, in order.
pub fn render_ids(ids: &Vec<ObjectId>) -> (r: Vec<String>)
    ensures
        texts_view(r@) == ids_as_text(ids@),
{
    let mut out: Vec<String> = Vec::new();
    let n: usize = ids.len();
    let mut i: usize = 0;
    while i < n
        invariant
            n == ids@.len(),
            i <= n,
            out@.len() == i,
            forall|j: int| 0 <= j < i ==> (#[trigger] out@[j])@ == object_id_hex(ids@[j]),
        decreases n - i,
    {
        out.push(encode_object_id(ids[i]));
        i = i + 1;
    }
    assert(texts_view(out@) =~= ids_as_text(ids@));
    out
}

/// The entries `entries`, each under the text of its id.
pub fn render_entries(entries: &Vec<(ObjectId, ShapeModel)>) -> (r: Vec<(String, ShapeModel)>)
    ensures
        text_entries_view(r@) == entries_as_text(id_entries_view(entries@)),
{
    let mut out: Vec<(String, ShapeModel)> = Vec::new();
    let n: usize = entries.len();
    let mut i: usize = 0;
    while i < n
        invariant
            n == entries@.len(),
            i <= n,
            out@.len() == i,
            forall|j: int|
                0 <= j < i ==> (#[trigger] out@[j]).0@ == object_id_hex(entries@[j].0)
                    && out@[j].1@ == entries@[j].1@,
        decreases n - i,
    {
        let text = encode_object_id(entries[i].0);
        let shape = entries[i].1.duplicate();
        out.push((text, shape));
        i = i + 1;
    }
    assert(text_entries_view(out@) =~= entries_as_text(id_entries_view(entries@)));
    out
}

/// The shapes `shapes`, each under the id of `ids` at its place.
pub fn pair_ids_with_shapes(ids: &Vec<ObjectId>, shapes: &Vec<ShapeModel>) -> (r: Vec<
    (ObjectId, ShapeModel),
>)
    requires
        ids@.len() == shapes@.len(),
    ensures
        id_entries_view(r@) == pair_up(ids@, crate::shape::shapes_view(shapes@)),
{
    let mut out: Vec<(ObjectId, ShapeModel)> = Vec::new();
    let n: usize = ids.len();
    let mut i: usize = 0;
    while i < n
        invariant
            n == ids@.len(),
            n == shapes@.len(),
            i <= n,
            out@.len() == i,
            forall|j: int|
                0 <= j < i ==> (#[trigger] out@[j]).0 == ids@[j] && out@[j].1@ == shapes@[j]@,
        decreases n - i,
    {
        out.push((ids[i], shapes[i].duplicate()));
        i = i + 1;
    }
    assert(id_entries_view(out@) =~= pair_up(ids@, crate::shape::shapes_view(shapes@)));
    out
}

impl Canvas {
    /// Whether the allow-list lets the account `user`, of the tier `tier`
    /// on the whiteboard, change the canvas.
    pub fn admits(&self, user: ObjectId, tier: WhiteboardPermissionEnum) -> (r: bool)
        ensures
            r == self@.admits(user, tier),
    {
        match &self.allowed_users {
            None => tier.can_edit(),
            Some(users) => users.contains(&user),
        }
    }

    /// A canvas without shapes, created and last modified at `now`.
    pub fn new(
        id: CanvasIdType,
        width: i32,
        height: i32,
        name: String,
        now: UtcDateTime,
        allowed_users: Option<HashSet<ObjectId>>,
    ) -> (r: Canvas)
        ensures
            r@ == (CanvasSpec {
                id,
                next_shape_id_base: 0,
                width,
                height,
                name: name@,
                time_created: now,
                time_last_modified: now,
                shapes: Map::empty(),
                allowed_users: allow_list_view(allowed_users),
            }),
    {
        let r = Canvas {
            id,
            next_shape_id_base: 0,
            width,
            height,
            name,
            time_created: now,
            time_last_modified: now,
            shapes: HashMap::new(),
            allowed_users,
        };
        assert(r@.shapes =~= Map::empty());
        r
    }

    /// A copy of the canvas.
    pub fn duplicate(&self) -> (r: Canvas)
        ensures
            r@ == self@,
    {
        let allowed_users = match &self.allowed_users {
            Some(set) => {
                let members = members_of(set);
                Some(crate::whiteboard::id_set_of(&members))
            },
            None => None,
        };
        Canvas {
            id: self.id,
            next_shape_id_base: self.next_shape_id_base,
            width: self.width,
            height: self.height,
            name: self.name.clone(),
            time_created: self.time_created,
            time_last_modified: self.time_last_modified,
            shapes: self.shapes.clone(),
            allowed_users,
        }
    }

    /// The canvas as clients see it.
    pub fn to_client_view(&self) -> (r: CanvasClientView)
        ensures
            shows_canvas(r@, self@),
    {
        let keys = keys_of(&self.shapes);
        let mut shapes: Vec<(String, ShapeModel)> = Vec::new();
        let n: usize = keys.len();
        let mut i: usize = 0;
        while i < n
            invariant
                n == keys@.len(),
                i <= n,
                is_listing(keys@, self.shapes@.dom()),
                shapes@.len() == i,
                forall|j: int|
                    0 <= j < i ==> (#[trigger] shapes@[j]).0@ == object_id_hex(keys@[j])
                        && shapes@[j].1@ == self.shapes@[keys@[j]]@,
            decreases n - i,
        {
            let k: ObjectId = keys[i];
            assert(keys@.to_set().contains(keys@[i as int]));
            let found = self.shapes.get(&k);
            match found {
                Some(shape) => {
                    shapes.push((encode_object_id(k), shape.duplicate()));
                },
                None => {
                    assert(false);
                },
            }
            i = i + 1;
        }
        let ghost mut users: Seq<ObjectId> = Seq::empty();
        let allowed_users = match &self.allowed_users {
            Some(set) => {
                let members = members_of(set);
                proof {
                    users = members@;
                }
                render_ids(&members)
            },
            None => Vec::new(),
        };
        let r = CanvasClientView {
            id: encode_object_id(self.id),
            width: self.width,
            height: self.height,
            name: self.name.clone(),
            time_created: self.time_created.to_rfc3339(),
            time_last_modified: self.time_last_modified.to_rfc3339(),
            shapes,
            allowed_users,
        };
        proof {
            assert(self@.shapes.dom() =~= self.shapes@.dom());
            assert(r@.shapes =~= entries_as_text(entries_at(keys@, self@.shapes)));
            assert(is_listing(keys@, self@.shapes.dom()));
            if self.allowed_users is None {
                assert(r@.allowed_users =~= Seq::<Seq<char>>::empty());
            } else {
                assert(is_listing(users, self@.allowed_users->Some_0));
                assert(r@.allowed_users == ids_as_text(users));
            }
        }
        r
    }

    /// Writes each entry to the canvas's shapes, in order, whether or not
    /// its id is in use.
    pub fn put_shapes(&mut self, entries: &Vec<(ObjectId, ShapeModel)>)
        ensures
            final(self)@ == (CanvasSpec {
                shapes: apply_entries(old(self)@.shapes, id_entries_view(entries@)),
                ..old(self)@
            }),
    {
        let n: usize = entries.len();
        let mut i: usize = 0;
        let ghost before = self@;
        let ghost all = id_entries_view(entries@);
        assert(all.take(0) =~= Seq::<(ObjectId, ShapeSpec)>::empty());
        while i < n
            invariant
                n == entries@.len(),
                i <= n,
                all == id_entries_view(entries@),
                self@ == (CanvasSpec {
                    shapes: apply_entries(before.shapes, all.take(i as int)),
                    ..before
                }),
            decreases n - i,
        {
            let id: ObjectId = entries[i].0;
            let shape = entries[i].1.duplicate();
            let ghost shapes_before = self.shapes@;
            self.shapes.insert(id, shape);
            proof {
                assert(all.take(i + 1).drop_last() =~= all.take(i as int));
                assert(all.take(i + 1).last() == all[i as int]);
                assert(shape_map_view(self.shapes@) =~= shape_map_view(shapes_before).insert(
                    id,
                    shape@,
                ));
            }
            i = i + 1;
        }
        assert(all.take(n as int) =~= all);
    }

    /// Picks from `updates` those that name a shape of the canvas: the key
    /// is the text of an id, and the canvas has a shape under that id.
    pub fn select_updates(&self, updates: &Vec<(String, ShapeModel)>) -> (r: Vec<
        (ObjectId, ShapeModel),
    >)
        ensures
            id_entries_view(r@) == applied_updates(self@.shapes.dom(), text_entries_view(updates@)),
    {
        let mut out: Vec<(ObjectId, ShapeModel)> = Vec::new();
        let n: usize = updates.len();
        let mut i: usize = 0;
        let ghost all = text_entries_view(updates@);
        let ghost present = self@.shapes.dom();
        assert(present =~= self.shapes@.dom());
        assert(all.take(0) =~= Seq::<(Seq<char>, ShapeSpec)>::empty());
        assert(id_entries_view(out@) =~= Seq::<(ObjectId, ShapeSpec)>::empty());
        while i < n
            invariant
                n == updates@.len(),
                i <= n,
                all == text_entries_view(updates@),
                present == self.shapes@.dom(),
                id_entries_view(out@) == applied_updates(present, all.take(i as int)),
            decreases n - i,
        {
            proof {
                assert(all.take(i + 1).drop_last() =~= all.take(i as int));
                assert(all.take(i + 1).last() == all[i as int]);
            }
            let ghost out_before = out@;
            match parse_object_id(updates[i].0.as_str()) {
                Ok(id) => {
                    if self.shapes.contains_key(&id) {
                        let shape = updates[i].1.duplicate();
                        out.push((id, shape));
                        assert(id_entries_view(out@) =~= id_entries_view(out_before).push(
                            (id, all[i as int].1),
                        ));
                    }
                },
                Err(_) => {},
            }
            i = i + 1;
        }
        assert(all.take(n as int) =~= all);
        out
    }
}

} // verus!
