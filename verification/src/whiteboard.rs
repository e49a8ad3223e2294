//! Whiteboards: the shared documents, each with its canvases and the access
//! it grants.

use vstd::prelude::*;
use std::collections::HashMap;
use std::collections::HashSet;
use crate::canvas::{
    apply_entries, applied_updates, id_entries_view, shows_canvas, text_entries_view, Canvas,
    CanvasClientView, CanvasClientViewSpec, CanvasSpec,
};
use crate::ids::{encode_object_id, object_id_hex, CanvasIdType, ObjectId, UserIdType, WhiteboardIdType};
use crate::listing::{is_listing, keys_of};
use crate::shape::{ShapeModel, ShapeSpec};
use crate::users::{
    permission_index, permissions_view, WhiteboardPermission, WhiteboardPermissionEnum,
    WhiteboardPermissionSpec,
};

verus! {

broadcast use vstd::std_specs::hash::group_hash_axioms;

/// One shared document.
#[derive(Clone, Debug)]
pub struct Whiteboard {
    pub id: WhiteboardIdType,
    pub name: String,
    pub canvases: HashMap<CanvasIdType, Canvas>,
    pub owner_id: UserIdType,
    pub shared_users: Vec<WhiteboardPermission>,
    /// The tier of each account that `shared_users` names, for quick
    /// lookup at login.
    pub permissions_by_user_id: HashMap<UserIdType, WhiteboardPermissionEnum>,
}

pub struct WhiteboardSpec {
    pub id: WhiteboardIdType,
    pub name: Seq<char>,
    pub canvases: Map<CanvasIdType, CanvasSpec>,
    pub owner_id: UserIdType,
    pub shared_users: Seq<WhiteboardPermissionSpec>,
    pub permissions_by_user_id: Map<UserIdType, WhiteboardPermissionEnum>,
}

/// The views of the canvases of a map, key by key.
pub open spec fn canvas_map_view(canvases: Map<CanvasIdType, Canvas>) -> Map<
    CanvasIdType,
    CanvasSpec,
> {
    canvases.map_values(|c: Canvas| c@)
}

impl View for Whiteboard {
    type V = WhiteboardSpec;

    open spec fn view(&self) -> WhiteboardSpec {
        WhiteboardSpec {
            id: self.id,
            name: self.name@,
            canvases: canvas_map_view(self.canvases@),
            owner_id: self.owner_id,
            shared_users: permissions_view(self.shared_users@),
            permissions_by_user_id: self.permissions_by_user_id@,
        }
    }
}

impl WhiteboardSpec {
    /// Every canvas is filed under its own id, and the index of tiers is
    /// the one that the list of shared users gives.
    pub open spec fn wf(self) -> bool {
        &&& forall|k: CanvasIdType| #[trigger]
            self.canvases.contains_key(k) ==> self.canvases[k].id == k
        &&& self.permissions_by_user_id == permission_index(self.shared_users)
    }

    /// The whiteboard with the canvas `c` filed under its id.
    pub open spec fn with_canvas(self, c: CanvasSpec) -> WhiteboardSpec {
        WhiteboardSpec { canvases: self.canvases.insert(c.id, c), ..self }
    }

    /// The whiteboard without the canvases that `ids` names.
    pub open spec fn without_canvases(self, ids: Set<CanvasIdType>) -> WhiteboardSpec {
        WhiteboardSpec { canvases: self.canvases.remove_keys(ids), ..self }
    }

    /// The whiteboard after `entries` were written to the shapes of the
    /// canvas `canvas_id`.
    pub open spec fn with_shapes(
        self,
        canvas_id: CanvasIdType,
        entries: Seq<(ObjectId, ShapeSpec)>,
    ) -> WhiteboardSpec
        recommends
            self.canvases.contains_key(canvas_id),
    {
        let c = self.canvases[canvas_id];
        WhiteboardSpec {
            canvases: self.canvases.insert(
                canvas_id,
                CanvasSpec { shapes: apply_entries(c.shapes, entries), ..c },
            ),
            ..self
        }
    }

    /// The whiteboard after the allow-list of the canvas `canvas_id` was
    /// replaced by `users`.
    pub open spec fn with_allowed_users(
        self,
        canvas_id: CanvasIdType,
        users: Set<ObjectId>,
    ) -> WhiteboardSpec
        recommends
            self.canvases.contains_key(canvas_id),
    {
        let c = self.canvases[canvas_id];
        WhiteboardSpec {
            canvases: self.canvases.insert(
                canvas_id,
                CanvasSpec { allowed_users: Some(users), ..c },
            ),
            ..self
        }
    }
}

/// A whiteboard as clients see it.
#[derive(Debug, Clone, PartialEq)]
pub struct WhiteboardClientView {
    pub id: String,
    pub name: String,
    pub canvases: Vec<CanvasClientView>,
}

pub struct WhiteboardClientViewSpec {
    pub id: Seq<char>,
    pub name: Seq<char>,
    pub canvases: Seq<CanvasClientViewSpec>,
}

impl View for WhiteboardClientView {
    type V = WhiteboardClientViewSpec;

    open spec fn view(&self) -> WhiteboardClientViewSpec {
        WhiteboardClientViewSpec {
            id: self.id@,
            name: self.name@,
            canvases: self.canvases@.map_values(|c: CanvasClientView| c@),
        }
    }
}

/// Whether `v` shows the whiteboard `w`: its id and name, and each of its
/// canvases once. The order of the canvases is left open.
pub open spec fn shows_whiteboard(v: WhiteboardClientViewSpec, w: WhiteboardSpec) -> bool {
    &&& v.id == object_id_hex(w.id)
    &&& v.name == w.name
    &&& exists|ks: Seq<CanvasIdType>| #[trigger]
        is_listing(ks, w.canvases.dom()) && shows_canvases(v.canvases, ks, w.canvases)
}

/// Whether `views` shows the canvases under the keys `ks`, in the order of
/// `ks`.
pub open spec fn shows_canvases(
    views: Seq<CanvasClientViewSpec>,
    ks: Seq<CanvasIdType>,
    canvases: Map<CanvasIdType, CanvasSpec>,
) -> bool {
    &&& views.len() == ks.len()
    &&& forall|i: int| 0 <= i < ks.len() ==> shows_canvas(#[trigger] views[i], canvases[ks[i]])
}

/// The set of the ids that a list holds.
pub fn id_set_of(ids: &Vec<ObjectId>) -> (r: HashSet<ObjectId>)
    ensures
        r@ == ids@.to_set(),
{
    let mut out: HashSet<ObjectId> = HashSet::new();
    let n: usize = ids.len();
    let mut i: usize = 0;
    while i < n
        invariant
            n == ids@.len(),
            i <= n,
            out@ == ids@.take(i as int).to_set(),
        decreases n - i,
    {
        out.insert(ids[i]);
        proof {
            assert(ids@.take(i + 1) =~= ids@.take(i as int).push(ids@[i as int]));
            ids@.take(i as int).lemma_push_to_set_commute(ids@[i as int]);
        }
        i = i + 1;
    }
    assert(ids@.take(n as int) =~= ids@);
    out
}

impl Whiteboard {
    /// The whiteboard as clients see it.
    pub fn to_client_view(&self) -> (r: WhiteboardClientView)
        ensures
            shows_whiteboard(r@, self@),
    {
        let keys = keys_of(&self.canvases);
        let mut canvases: Vec<CanvasClientView> = Vec::new();
        let n: usize = keys.len();
        let mut i: usize = 0;
        while i < n
            invariant
                n == keys@.len(),
                i <= n,
                is_listing(keys@, self.canvases@.dom()),
                canvases@.len() == i,
                forall|j: int|
                    0 <= j < i ==> shows_canvas(
                        (#[trigger] canvases@[j])@,
                        self.canvases@[keys@[j]]@,
                    ),
            decreases n - i,
        {
            let k: CanvasIdType = keys[i];
            assert(keys@.to_set().contains(keys@[i as int]));
            match self.canvases.get(&k) {
                Some(canvas) => {
                    canvases.push(canvas.to_client_view());
                },
                None => {
                    assert(false);
                },
            }
            i = i + 1;
        }
        let r = WhiteboardClientView {
            id: encode_object_id(self.id),
            name: self.name.clone(),
            canvases,
        };
        proof {
            assert(self@.canvases.dom() =~= self.canvases@.dom());
            assert(is_listing(keys@, self@.canvases.dom()));
            assert(shows_canvases(r@.canvases, keys@, self@.canvases));
        }
        r
    }

    /// The tier that the whiteboard grants to the account `user_id`, if any.
    pub fn permission_of(&self, user_id: UserIdType) -> (r: Option<WhiteboardPermissionEnum>)
        ensures
            r == if self@.permissions_by_user_id.contains_key(user_id) {
                Some(self@.permissions_by_user_id[user_id])
            } else {
                None
            },
    {
        match self.permissions_by_user_id.get(&user_id) {
            Some(p) => Some(*p),
            None => None,
        }
    }

    /// Whether the whiteboard has a canvas under `canvas_id`.
    pub fn has_canvas(&self, canvas_id: CanvasIdType) -> (r: bool)
        ensures
            r == self@.canvases.contains_key(canvas_id),
    {
        self.canvases.contains_key(&canvas_id)
    }

    /// Files `canvas` under its id, in place of any canvas that was there.
    pub fn insert_canvas(&mut self, canvas: Canvas)
        ensures
            final(self)@ == old(self)@.with_canvas(canvas@),
    {
        let ghost before = self.canvases@;
        self.canvases.insert(canvas.id, canvas);
        assert(canvas_map_view(self.canvases@) =~= canvas_map_view(before).insert(
            canvas.id,
            canvas@,
        ));
    }

    /// Removes the canvases that `ids` names; an id without a canvas is
    /// passed over.
    pub fn delete_canvases(&mut self, ids: &Vec<CanvasIdType>)
        ensures
            final(self)@ == old(self)@.without_canvases(ids@.to_set()),
    {
        let n: usize = ids.len();
        let mut i: usize = 0;
        let ghost before = self@;
        assert(before.canvases.remove_keys(ids@.take(0).to_set()) =~= before.canvases);
        while i < n
            invariant
                n == ids@.len(),
                i <= n,
                self@ == before.without_canvases(ids@.take(i as int).to_set()),
            decreases n - i,
        {
            let ghost map_before = self.canvases@;
            self.canvases.remove(&ids[i]);
            proof {
                assert(self.canvases@ == map_before.remove(ids@[i as int]));
                assert(canvas_map_view(self.canvases@) =~= canvas_map_view(map_before).remove(
                    ids@[i as int],
                ));
                assert(ids@.take(i + 1) =~= ids@.take(i as int).push(ids@[i as int]));
                ids@.take(i as int).lemma_push_to_set_commute(ids@[i as int]);
                assert(before.canvases.remove_keys(ids@.take(i + 1).to_set())
                    =~= before.canvases.remove_keys(ids@.take(i as int).to_set()).remove(
                    ids@[i as int],
                ));
            }
            i = i + 1;
        }
        assert(ids@.take(n as int) =~= ids@);
    }

    /// Writes `entries` to the shapes of the canvas `canvas_id`, in order.
    /// Without such a canvas nothing changes, and the result says so.
    pub fn put_shapes(&mut self, canvas_id: CanvasIdType, entries: &Vec<(ObjectId, ShapeModel)>) -> (found:
        bool)
        ensures
            found == old(self)@.canvases.contains_key(canvas_id),
            found ==> final(self)@ == old(self)@.with_shapes(canvas_id, id_entries_view(entries@)),
            !found ==> final(self)@ == old(self)@,
    {
        let ghost before = self.canvases@;
        match self.canvases.remove(&canvas_id) {
            Some(mut canvas) => {
                canvas.put_shapes(entries);
                self.canvases.insert(canvas_id, canvas);
                assert(canvas_map_view(self.canvases@) =~= canvas_map_view(before).insert(
                    canvas_id,
                    canvas@,
                ));
                true
            },
            None => {
                assert(self.canvases@ =~= before);
                false
            },
        }
    }

    /// Overwrites the shapes that `updates` names and the canvas
    /// `canvas_id` holds, and returns what was written. An update whose
    /// key is no id, or the id of no shape of the canvas, is dropped.
    /// Without such a canvas nothing changes, and nothing is returned.
    pub fn update_shapes(
        &mut self,
        canvas_id: CanvasIdType,
        updates: &Vec<(String, ShapeModel)>,
    ) -> (r: Option<Vec<(ObjectId, ShapeModel)>>)
        ensures
            r is Some == old(self)@.canvases.contains_key(canvas_id),
            r matches Some(applied) ==> {
                &&& id_entries_view(applied@) == applied_updates(
                    old(self)@.canvases[canvas_id].shapes.dom(),
                    text_entries_view(updates@),
                )
                &&& final(self)@ == old(self)@.with_shapes(canvas_id, id_entries_view(applied@))
            },
            r is None ==> final(self)@ == old(self)@,
    {
        let ghost before = self.canvases@;
        match self.canvases.remove(&canvas_id) {
            Some(mut canvas) => {
                let applied = canvas.select_updates(updates);
                canvas.put_shapes(&applied);
                self.canvases.insert(canvas_id, canvas);
                assert(canvas_map_view(self.canvases@) =~= canvas_map_view(before).insert(
                    canvas_id,
                    canvas@,
                ));
                Some(applied)
            },
            None => {
                assert(self.canvases@ =~= before);
                None
            },
        }
    }

    /// Replaces the allow-list of the canvas `canvas_id` by `users`.
    /// Without such a canvas nothing changes, and the result says so.
    pub fn set_allowed_users(&mut self, canvas_id: CanvasIdType, users: &Vec<ObjectId>) -> (found:
        bool)
        ensures
            found == old(self)@.canvases.contains_key(canvas_id),
            found ==> final(self)@ == old(self)@.with_allowed_users(canvas_id, users@.to_set()),
            !found ==> final(self)@ == old(self)@,
    {
        let ghost before = self.canvases@;
        match self.canvases.remove(&canvas_id) {
            Some(mut canvas) => {
                canvas.allowed_users = Some(id_set_of(users));
                self.canvases.insert(canvas_id, canvas);
                assert(canvas_map_view(self.canvases@) =~= canvas_map_view(before).insert(
                    canvas_id,
                    canvas@,
                ));
                true
            },
            None => {
                assert(self.canvases@ =~= before);
                false
            },
        }
    }
}

} // verus!
