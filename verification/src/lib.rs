pub mod behaviour;
pub mod camera;
pub mod counter;
pub mod keyboard;
pub mod matrix;
pub mod models;
pub mod rat;
pub mod render_object;
pub mod transform;

use vstd::prelude::*;

pub use crate::behaviour::Behaviour;
pub use crate::camera::Camera;
pub use crate::render_object::RenderObject;
pub use crate::transform::Transform;

use crate::keyboard::KeyboardState;
use crate::matrix::{Mat4Model, Matrix4, Vec4Model, Vector4};
use crate::rat::{rat_one, rat_zero, Rat, RatModel};
use crate::render_object::RenderObjectModel;
use crate::transform::{model_matrix_rats, TransformStore};

verus! {

/// One input event observed by the render loop's event polling.
#[derive(Clone, Copy, PartialEq, Eq, Structural, Debug)]
pub enum InputEvent {
    KeyPressed(u32),
    KeyReleased(u32),
    /// The window was asked to close: the engine's only shutdown trigger.
    CloseRequested,
    /// Any event the engine does not interpret.
    Other,
}

/// The registry as a mathematical value: names paired with object models.
pub open spec fn reg_view(reg: Seq<(String, RenderObject)>) -> Seq<(Seq<char>, RenderObjectModel)> {
    reg.map_values(|p: (String, RenderObject)| (p.0@, p.1@))
}

/// The index of `name` in the registry, or `-1` when it is not registered.
pub open spec fn name_index(reg: Seq<(Seq<char>, RenderObjectModel)>, name: Seq<char>) -> int
    decreases reg.len(),
{
    if reg.len() == 0 {
        -1
    } else if reg[0].0 == name {
        0
    } else {
        let sub = name_index(reg.drop_first(), name);
        if sub == -1 {
            -1
        } else {
            sub + 1
        }
    }
}

pub open spec fn registered(reg: Seq<(Seq<char>, RenderObjectModel)>, name: Seq<char>) -> bool {
    name_index(reg, name) >= 0
}

/// The registry after one attach: when `name` is registered, `id` is appended
/// to that object's instance list; otherwise nothing changes.
pub open spec fn attach_model(
    reg: Seq<(Seq<char>, RenderObjectModel)>,
    name: Seq<char>,
    id: usize,
) -> Seq<(Seq<char>, RenderObjectModel)> {
    let i = name_index(reg, name);
    if i >= 0 {
        reg.update(
            i,
            (
                reg[i].0,
                RenderObjectModel {
                    transforms: reg[i].1.transforms.push(id),
                    vertices: reg[i].1.vertices,
                    indices: reg[i].1.indices,
                },
            ),
        )
    } else {
        reg
    }
}

/// The instance-buffer snapshot: the model matrix of each visible transform
/// of `ids`, in list order; invisible transforms are skipped, not zeroed.
pub open spec fn instances_model(store: Seq<Transform>, ids: Seq<usize>) -> Seq<Matrix4>
    decreases ids.len(),
{
    if ids.len() == 0 {
        Seq::empty()
    } else {
        let rest = instances_model(store, ids.drop_last());
        let t = store[ids.last() as int];
        if t.visible {
            rest.push(model_matrix_rats(t))
        } else {
            rest
        }
    }
}

/// The sublist of `ids` whose transforms are visible in `store`.
pub open spec fn visible_ids(store: Seq<Transform>, ids: Seq<usize>) -> Seq<usize>
    decreases ids.len(),
{
    if ids.len() == 0 {
        Seq::empty()
    } else {
        let rest = visible_ids(store, ids.drop_last());
        if store[ids.last() as int].visible {
            rest.push(ids.last())
        } else {
            rest
        }
    }
}

/// The viewport view transform: reciprocal viewport extent on the diagonal,
/// the camera position negated in the translation column.
pub open spec fn viewport_view_model(
    width: RatModel,
    height: RatModel,
    cx: RatModel,
    cy: RatModel,
) -> Mat4Model {
    Mat4Model {
        c0: Vec4Model { x: width.recip(), y: rat_zero(), z: rat_zero(), w: rat_zero() },
        c1: Vec4Model { x: rat_zero(), y: height.recip(), z: rat_zero(), w: rat_zero() },
        c2: Vec4Model { x: rat_zero(), y: rat_zero(), z: rat_one(), w: rat_zero() },
        c3: Vec4Model { x: cx.neg(), y: cy.neg(), z: rat_zero(), w: rat_one() },
    }
}

/// The model of the built-in square object as it stands right after startup.
pub open spec fn square_object_model() -> RenderObjectModel {
    RenderObjectModel {
        transforms: Seq::empty(),
        vertices: crate::models::square::vertices_spec(),
        indices: crate::models::square::indices_spec(),
    }
}

/// The engine context: it owns the render-object registry, the shared
/// transforms, the keyboard table and the behaviour queues. The embedder
/// owns the drawing surface and the two loops; each loop iteration calls
/// into the matching step methods here.
pub struct Oxen<B: Behaviour> {
    width: Rat,
    height: Rat,
    camera: Option<Camera>,
    transforms: TransformStore,
    render_objects: Vec<(String, RenderObject)>,
    keyboard: KeyboardState,
    pending: Vec<B>,
    behaviours: Vec<B>,
}

impl<B: Behaviour> Oxen<B> {
    pub closed spec fn spec_width(self) -> Rat {
        self.width
    }

    pub closed spec fn spec_height(self) -> Rat {
        self.height
    }

    pub closed spec fn spec_camera(self) -> Option<Camera> {
        self.camera
    }

    /// The stored transforms, by identifier.
    pub closed spec fn transform_seq(self) -> Seq<Transform> {
        self.transforms@
    }

    /// The registry as a mathematical value.
    pub closed spec fn registry(self) -> Seq<(Seq<char>, RenderObjectModel)> {
        reg_view(self.render_objects@)
    }

    pub closed spec fn keyboard_map(self) -> Map<u32, bool> {
        self.keyboard@
    }

    /// Behaviours submitted but not yet drained by the simulation loop.
    pub closed spec fn pending_seq(self) -> Seq<B> {
        self.pending@
    }

    /// Behaviours the simulation loop updates each tick, in registration order.
    pub closed spec fn active_seq(self) -> Seq<B> {
        self.behaviours@
    }

    /// The engine's invariant: a usable viewport, well-formed transforms and
    /// camera, uniquely named render objects with well-formed meshes, and
    /// every attached instance identifier naming a stored transform.
    pub closed spec fn wf(self) -> bool {
        &&& self.width.wf() && !self.width@.is_zero()
        &&& self.height.wf() && !self.height@.is_zero()
        &&& self.transforms.all_wf()
        &&& match self.camera {
            Some(c) => c.transform.wf(),
            None => true,
        }
        &&& forall|i: int, j: int|
            0 <= i < j < self.render_objects@.len() ==> (#[trigger] self.render_objects@[i]).0@
                != (#[trigger] self.render_objects@[j]).0@
        &&& forall|i: int|
            0 <= i < self.render_objects@.len() ==> (#[trigger] self.render_objects@[i]).1.wf()
        &&& forall|i: int, k: int|
            0 <= i < self.render_objects@.len() && 0 <= k
                < (#[trigger] self.render_objects@[i]).1.transforms@.len()
                ==> #[trigger] self.render_objects@[i].1.transforms@[k] < self.transforms@.len()
    }

    /// Build the engine context for a viewport of the given extent and load
    /// the built-in models. The embedder creates the drawing surface and
    /// spawns the simulation loop around the finished context.
    pub fn new(width: Rat, height: Rat) -> (oxen: Oxen<B>)
        requires
            width.wf(),
            !width@.is_zero(),
            height.wf(),
            !height@.is_zero(),
        ensures
            oxen.wf(),
            oxen.spec_width() == width,
            oxen.spec_height() == height,
            oxen.spec_camera() is None,
            oxen.transform_seq() == Seq::<Transform>::empty(),
            oxen.keyboard_map() == Map::<u32, bool>::empty(),
            oxen.pending_seq() == Seq::<B>::empty(),
            oxen.active_seq() == Seq::<B>::empty(),
            oxen.registry() == seq![("square"@, square_object_model())],
    {
        let mut oxen = Oxen {
            width,
            height,
            camera: None,
            transforms: TransformStore::new(),
            render_objects: Vec::new(),
            keyboard: KeyboardState::new(),
            pending: Vec::new(),
            behaviours: Vec::new(),
        };
        oxen.load_models();
        proof {
            assert(oxen.registry() =~= seq![("square"@, square_object_model())]);
        }
        oxen
    }

    fn load_models(&mut self)
        requires
            old(self).render_objects@.len() == 0,
        ensures
            final(self).render_objects@.len() == 1,
            final(self).render_objects@[0].0@ == "square"@,
            final(self).render_objects@[0].1@ == square_object_model(),
            final(self).render_objects@[0].1.wf(),
            final(self).width == old(self).width,
            final(self).height == old(self).height,
            final(self).camera == old(self).camera,
            final(self).transforms == old(self).transforms,
            final(self).keyboard == old(self).keyboard,
            final(self).pending == old(self).pending,
            final(self).behaviours == old(self).behaviours,
    {
        let square_object = self.square();
        self.render_objects.push(("square".to_owned(), square_object));
    }

    /// The built-in square render object, with no instances attached.
    pub fn square(&self) -> (r: RenderObject)
        ensures
            r@ == square_object_model(),
            r.wf(),
    {
        crate::models::square()
    }

    /// Assign the camera used by the render loop.
    pub fn set_camera(&mut self, camera: Camera)
        requires
            old(self).wf(),
            camera.transform.wf(),
        ensures
            final(self).wf(),
            final(self).spec_camera() == Some(camera),
            final(self).spec_width() == old(self).spec_width(),
            final(self).spec_height() == old(self).spec_height(),
            final(self).transform_seq() == old(self).transform_seq(),
            final(self).registry() == old(self).registry(),
            final(self).keyboard_map() == old(self).keyboard_map(),
            final(self).pending_seq() == old(self).pending_seq(),
            final(self).active_seq() == old(self).active_seq(),
    {
        self.camera = Some(camera);
    }

    /// Store a transform in the engine's shared state and hand back the
    /// identifier under which behaviours and render objects refer to it.
    pub fn add_transform(&mut self, t: Transform) -> (id: usize)
        requires
            old(self).wf(),
            t.wf(),
        ensures
            final(self).wf(),
            id == old(self).transform_seq().len(),
            final(self).transform_seq() == old(self).transform_seq().push(t),
            final(self).spec_width() == old(self).spec_width(),
            final(self).spec_height() == old(self).spec_height(),
            final(self).spec_camera() == old(self).spec_camera(),
            final(self).registry() == old(self).registry(),
            final(self).keyboard_map() == old(self).keyboard_map(),
            final(self).pending_seq() == old(self).pending_seq(),
            final(self).active_seq() == old(self).active_seq(),
    {
        self.transforms.add(t)
    }

    /// Submit a behaviour. It is queued until the simulation loop next
    /// drains its registrations; see `drain_pending`.
    pub fn add_behaviour(&mut self, behaviour: B)
        requires
            old(self).wf(),
        ensures
            final(self).wf(),
            final(self).pending_seq() == old(self).pending_seq().push(behaviour),
            final(self).active_seq() == old(self).active_seq(),
            final(self).spec_width() == old(self).spec_width(),
            final(self).spec_height() == old(self).spec_height(),
            final(self).spec_camera() == old(self).spec_camera(),
            final(self).transform_seq() == old(self).transform_seq(),
            final(self).registry() == old(self).registry(),
            final(self).keyboard_map() == old(self).keyboard_map(),
    {
        self.pending.push(behaviour);
    }
}

proof fn lemma_name_index_props(reg: Seq<(Seq<char>, RenderObjectModel)>, name: Seq<char>)
    ensures
        -1 <= name_index(reg, name) < reg.len(),
        name_index(reg, name) >= 0 ==> reg[name_index(reg, name)].0 == name,
    decreases reg.len(),
{
    if reg.len() > 0 && reg[0].0 != name {
        lemma_name_index_props(reg.drop_first(), name);
    }
}

proof fn lemma_name_index_at(reg: Seq<(Seq<char>, RenderObjectModel)>, name: Seq<char>, i: int)
    requires
        0 <= i < reg.len(),
        reg[i].0 == name,
        forall|j: int| 0 <= j < i ==> reg[j].0 != name,
    ensures
        name_index(reg, name) == i,
    decreases i,
{
    if i > 0 {
        assert(reg[0].0 != name);
        assert forall|j: int| 0 <= j < i - 1 implies reg.drop_first()[j].0 != name by {
            assert(reg.drop_first()[j] == reg[j + 1]);
        }
        assert(reg.drop_first()[i - 1] == reg[i]);
        lemma_name_index_at(reg.drop_first(), name, i - 1);
    }
}

proof fn lemma_name_index_none(reg: Seq<(Seq<char>, RenderObjectModel)>, name: Seq<char>)
    requires
        forall|j: int| 0 <= j < reg.len() ==> reg[j].0 != name,
    ensures
        name_index(reg, name) == -1,
    decreases reg.len(),
{
    if reg.len() > 0 {
        assert forall|j: int| 0 <= j < reg.len() - 1 implies reg.drop_first()[j].0 != name by {
            assert(reg.drop_first()[j] == reg[j + 1]);
        }
        lemma_name_index_none(reg.drop_first(), name);
    }
}

proof fn lemma_name_index_same_names(
    r1: Seq<(Seq<char>, RenderObjectModel)>,
    r2: Seq<(Seq<char>, RenderObjectModel)>,
    name: Seq<char>,
)
    requires
        r1.len() == r2.len(),
        forall|i: int| 0 <= i < r1.len() ==> r1[i].0 == r2[i].0,
    ensures
        name_index(r1, name) == name_index(r2, name),
    decreases r1.len(),
{
    if r1.len() > 0 {
        assert(r1[0].0 == r2[0].0);
        assert forall|i: int| 0 <= i < r1.len() - 1 implies r1.drop_first()[i].0
            == r2.drop_first()[i].0 by {
            assert(r1.drop_first()[i] == r1[i + 1]);
            assert(r2.drop_first()[i] == r2[i + 1]);
        }
        lemma_name_index_same_names(r1.drop_first(), r2.drop_first(), name);
    }
}

/// What one successful attach does: the named object's instance list is the
/// old list with the new identifier appended; its name, its mesh, every
/// other object and the name's index are untouched.
pub proof fn lemma_attach_step(reg: Seq<(Seq<char>, RenderObjectModel)>, name: Seq<char>, id: usize)
    requires
        registered(reg, name),
    ensures
        ({
            let i = name_index(reg, name);
            let reg2 = attach_model(reg, name, id);
            &&& reg2.len() == reg.len()
            &&& name_index(reg2, name) == i
            &&& registered(reg2, name)
            &&& reg2[i].0 == reg[i].0
            &&& reg2[i].1.transforms == reg[i].1.transforms.push(id)
            &&& reg2[i].1.vertices == reg[i].1.vertices
            &&& reg2[i].1.indices == reg[i].1.indices
            &&& forall|j: int| 0 <= j < reg.len() && j != i ==> reg2[j] == reg[j]
        }),
{
    lemma_name_index_props(reg, name);
    let i = name_index(reg, name);
    let reg2 = attach_model(reg, name, id);
    assert forall|j: int| 0 <= j < reg.len() implies reg2[j].0 == reg[j].0 by {}
    lemma_name_index_same_names(reg2, reg, name);
}

impl<B: Behaviour> Oxen<B> {
    /// Append a stored transform to the named render object's instance list.
    /// Attaching to an unknown name is an error and changes nothing.
    pub fn attach_render_object(&mut self, transform: usize, render_object_name: &str) -> (res:
        Result<(), &'static str>)
        requires
            old(self).wf(),
            transform < old(self).transform_seq().len(),
        ensures
            final(self).wf(),
            res is Ok <==> registered(old(self).registry(), render_object_name@),
            final(self).registry() == attach_model(
                old(self).registry(),
                render_object_name@,
                transform,
            ),
            final(self).spec_width() == old(self).spec_width(),
            final(self).spec_height() == old(self).spec_height(),
            final(self).spec_camera() == old(self).spec_camera(),
            final(self).transform_seq() == old(self).transform_seq(),
            final(self).keyboard_map() == old(self).keyboard_map(),
            final(self).pending_seq() == old(self).pending_seq(),
            final(self).active_seq() == old(self).active_seq(),
    {
        let name_string: String = render_object_name.to_owned();
        let ghost reg0 = self.render_objects@;
        let n = self.render_objects.len();
        let mut i: usize = 0;
        while i < n
            invariant
                *self == *old(self),
                old(self).wf(),
                transform < old(self).transform_seq().len(),
                reg0 == self.render_objects@,
                n == reg0.len(),
                i <= n,
                name_string@ == render_object_name@,
                forall|j: int| 0 <= j < i ==> (#[trigger] reg0[j]).0@ != render_object_name@,
            decreases n - i,
        {
            if self.render_objects[i].0 == name_string {
                let mut entry = self.render_objects.remove(i);
                entry.1.transforms.push(transform);
                let ghost new_entry = entry;
                self.render_objects.insert(i, entry);
                proof {
                    let name = render_object_name@;
                    let model0 = reg_view(reg0);
                    assert forall|j: int| 0 <= j < i implies (#[trigger] model0[j]).0 != name by {
                        assert(model0[j].0 == reg0[j].0@);
                    }
                    assert(model0[i as int].0 == reg0[i as int].0@);
                    lemma_name_index_at(model0, name, i as int);
                    assert(self.render_objects@ =~= reg0.update(i as int, new_entry));
                    assert(new_entry.0 == reg0[i as int].0);
                    assert(new_entry.1@ == (RenderObjectModel {
                        transforms: reg0[i as int].1@.transforms.push(transform),
                        vertices: reg0[i as int].1@.vertices,
                        indices: reg0[i as int].1@.indices,
                    }));
                    assert(reg_view(self.render_objects@) =~= attach_model(
                        model0,
                        name,
                        transform,
                    ));
                    assert forall|a: int, b: int|
                        0 <= a < b < self.render_objects@.len() implies (
                    #[trigger] self.render_objects@[a]).0@ != (
                    #[trigger] self.render_objects@[b]).0@ by {
                        assert(reg0[a].0@ != reg0[b].0@);
                    }
                    assert(new_entry.1.wf());
                    assert forall|a: int|
                        0 <= a < self.render_objects@.len() implies (
                    #[trigger] self.render_objects@[a]).1.wf() by {
                        if a != i {
                            assert(reg0[a].1.wf());
                        }
                    }
                    assert forall|a: int, k: int|
                        0 <= a < self.render_objects@.len() && 0 <= k < (
                    #[trigger] self.render_objects@[a]).1.transforms@.len() implies #[trigger] self.render_objects@[a].1.transforms@[k]
                        < self.transforms@.len() by {
                        if a != i {
                            assert(reg0[a].1.wf());
                            assert(reg0[a].1.transforms@[k] < self.transforms@.len());
                        } else {
                            if k < new_entry.1.transforms@.len() - 1 {
                                assert(reg0[a].1.transforms@[k] < self.transforms@.len());
                            }
                        }
                    }
                }
                return Ok(());
            }
            i += 1;
        }
        proof {
            let name = render_object_name@;
            let model0 = reg_view(reg0);
            assert forall|j: int| 0 <= j < model0.len() implies (#[trigger] model0[j]).0 != name
                by {
                assert(model0[j].0 == reg0[j].0@);
            }
            lemma_name_index_none(model0, name);
        }
        Err("No such render object")
    }

    /// Build the instance buffer for one render object's instance list: the
    /// model matrix of each visible transform, in list order.
    pub fn instances(&self, transforms: &Vec<usize>) -> (buf: Vec<Matrix4>)
        requires
            self.wf(),
            forall|k: int|
                0 <= k < transforms@.len() ==> transforms@[k] < self.transform_seq().len(),
        ensures
            buf@ == instances_model(self.transform_seq(), transforms@),
    {
        let mut buf: Vec<Matrix4> = Vec::new();
        let mut i: usize = 0;
        while i < transforms.len()
            invariant
                self.wf(),
                i <= transforms@.len(),
                forall|k: int|
                    0 <= k < transforms@.len() ==> transforms@[k] < self.transform_seq().len(),
                buf@ == instances_model(self.transform_seq(), transforms@.subrange(0, i as int)),
            decreases transforms@.len() - i,
        {
            let id = transforms[i];
            let t = self.transforms.get(id);
            if t.visible {
                let m = t.as_matrix();
                buf.push(m);
            }
            proof {
                let prefix = transforms@.subrange(0, i + 1);
                assert(prefix.drop_last() =~= transforms@.subrange(0, i as int));
                assert(prefix.last() == transforms@[i as int]);
            }
            i += 1;
        }
        proof {
            assert(transforms@.subrange(0, transforms@.len() as int) =~= transforms@);
        }
        buf
    }

    /// The view transform handed to every draw call: reciprocal viewport
    /// extent on the diagonal, the camera position negated.
    pub open spec fn camera_view_model(self) -> Mat4Model
        recommends
            self.spec_camera() is Some,
    {
        match self.spec_camera() {
            Some(c) => viewport_view_model(
                self.spec_width()@,
                self.spec_height()@,
                c.transform.position.x@,
                c.transform.position.y@,
            ),
            None => arbitrary(),
        }
    }

    /// A camera must be assigned before the render loop starts.
    pub fn view_transform(&self) -> (m: Matrix4)
        requires
            self.wf(),
            self.spec_camera() is Some,
        ensures
            m@ == self.camera_view_model(),
            m.wf(),
    {
        match &self.camera {
            Some(c) => Matrix4 {
                c0: Vector4 {
                    x: self.width.recip(),
                    y: Rat { num: 0, den: 1 },
                    z: Rat { num: 0, den: 1 },
                    w: Rat { num: 0, den: 1 },
                },
                c1: Vector4 {
                    x: Rat { num: 0, den: 1 },
                    y: self.height.recip(),
                    z: Rat { num: 0, den: 1 },
                    w: Rat { num: 0, den: 1 },
                },
                c2: Vector4 {
                    x: Rat { num: 0, den: 1 },
                    y: Rat { num: 0, den: 1 },
                    z: Rat { num: 1, den: 1 },
                    w: Rat { num: 0, den: 1 },
                },
                c3: Vector4 {
                    x: c.transform.position.x.neg(),
                    y: c.transform.position.y.neg(),
                    z: Rat { num: 0, den: 1 },
                    w: Rat { num: 1, den: 1 },
                },
            },
            None => vstd::pervasive::unreached(),
        }
    }

    /// Move every submitted behaviour into the active list, keeping
    /// registration order; the simulation loop does this once per tick,
    /// without ever waiting for more submissions.
    pub fn drain_pending(&mut self)
        requires
            old(self).wf(),
        ensures
            final(self).wf(),
            final(self).active_seq() == old(self).active_seq() + old(self).pending_seq(),
            final(self).pending_seq() == Seq::<B>::empty(),
            final(self).spec_width() == old(self).spec_width(),
            final(self).spec_height() == old(self).spec_height(),
            final(self).spec_camera() == old(self).spec_camera(),
            final(self).transform_seq() == old(self).transform_seq(),
            final(self).registry() == old(self).registry(),
            final(self).keyboard_map() == old(self).keyboard_map(),
    {
        while self.pending.len() > 0
            invariant
                old(self).wf(),
                self.width == old(self).width,
                self.height == old(self).height,
                self.camera == old(self).camera,
                self.transforms == old(self).transforms,
                self.render_objects == old(self).render_objects,
                self.keyboard == old(self).keyboard,
                self.behaviours@ + self.pending@ == old(self).behaviours@ + old(self).pending@,
            decreases self.pending@.len(),
        {
            let b = self.pending.remove(0);
            self.behaviours.push(b);
            proof {
                assert(self.behaviours@ + self.pending@ =~= old(self).behaviours@ + old(
                    self,
                ).pending@);
            }
        }
        proof {
            assert(self.behaviours@ =~= old(self).behaviours@ + old(self).pending@);
        }
    }

    /// One simulation tick: drain newly submitted behaviours, then invoke
    /// `update` on every active behaviour in registration order, handing each
    /// the shared transforms and the keyboard. Returns how many behaviours
    /// were updated.
    pub fn simulation_tick(&mut self) -> (updated: usize)
        requires
            old(self).wf(),
        ensures
            final(self).wf(),
            final(self).pending_seq().len() == 0,
            final(self).active_seq().len() == old(self).active_seq().len() + old(
                self,
            ).pending_seq().len(),
            updated == final(self).active_seq().len(),
            final(self).transform_seq().len() == old(self).transform_seq().len(),
            final(self).spec_width() == old(self).spec_width(),
            final(self).spec_height() == old(self).spec_height(),
            final(self).spec_camera() == old(self).spec_camera(),
            final(self).registry() == old(self).registry(),
            final(self).keyboard_map() == old(self).keyboard_map(),
    {
        self.drain_pending();
        let ghost mid = *self;
        let total = self.behaviours.len();
        let mut done: Vec<B> = Vec::new();
        while self.behaviours.len() > 0
            invariant
                mid.wf(),
                self.transforms.all_wf(),
                self.transforms@.len() == mid.transforms@.len(),
                done@.len() + self.behaviours@.len() == total,
                total == mid.behaviours@.len(),
                self.pending == mid.pending,
                self.width == mid.width,
                self.height == mid.height,
                self.camera == mid.camera,
                self.render_objects == mid.render_objects,
                self.keyboard == mid.keyboard,
            decreases self.behaviours@.len(),
        {
            let mut b = self.behaviours.remove(0);
            b.update(&mut self.transforms, &self.keyboard);
            done.push(b);
        }
        self.behaviours = done;
        total
    }

    /// Apply one polled input event: key state changes update the keyboard
    /// table; a close request ends the render loop; anything else is ignored.
    /// Returns whether the render loop keeps running.
    pub fn apply_event(&mut self, event: InputEvent) -> (keep_running: bool)
        requires
            old(self).wf(),
        ensures
            final(self).wf(),
            keep_running == !(event is CloseRequested),
            final(self).keyboard_map() == match event {
                InputEvent::KeyPressed(k) => old(self).keyboard_map().insert(k, true),
                InputEvent::KeyReleased(k) => old(self).keyboard_map().insert(k, false),
                InputEvent::CloseRequested => old(self).keyboard_map(),
                InputEvent::Other => old(self).keyboard_map(),
            },
            final(self).spec_width() == old(self).spec_width(),
            final(self).spec_height() == old(self).spec_height(),
            final(self).spec_camera() == old(self).spec_camera(),
            final(self).transform_seq() == old(self).transform_seq(),
            final(self).registry() == old(self).registry(),
            final(self).pending_seq() == old(self).pending_seq(),
            final(self).active_seq() == old(self).active_seq(),
    {
        match event {
            InputEvent::KeyPressed(k) => {
                self.keyboard.set_key(k, true);
                true
            },
            InputEvent::KeyReleased(k) => {
                self.keyboard.set_key(k, false);
                true
            },
            InputEvent::CloseRequested => false,
            InputEvent::Other => true,
        }
    }

    /// How many render objects are registered.
    pub fn render_object_count(&self) -> (n: usize)
        ensures
            n == self.registry().len(),
    {
        self.render_objects.len()
    }

    /// The name and render object at one registry position.
    pub fn render_object_at(&self, i: usize) -> (entry: &(String, RenderObject))
        requires
            i < self.registry().len(),
        ensures
            entry.0@ == self.registry()[i as int].0,
            entry.1@ == self.registry()[i as int].1,
    {
        &self.render_objects[i]
    }

    /// Look a render object up by name.
    pub fn render_object(&self, name: &str) -> (res: Option<&RenderObject>)
        ensures
            match res {
                Some(obj) => registered(self.registry(), name@) && obj@ == self.registry()[
                    name_index(self.registry(), name@)
                ].1,
                None => !registered(self.registry(), name@),
            },
    {
        let name_string: String = name.to_owned();
        let ghost reg0 = self.render_objects@;
        let n = self.render_objects.len();
        let mut i: usize = 0;
        while i < n
            invariant
                reg0 == self.render_objects@,
                n == reg0.len(),
                i <= n,
                name_string@ == name@,
                forall|j: int| 0 <= j < i ==> (#[trigger] reg0[j]).0@ != name@,
            decreases n - i,
        {
            if self.render_objects[i].0 == name_string {
                proof {
                    let model0 = reg_view(reg0);
                    assert forall|j: int| 0 <= j < i implies (#[trigger] model0[j]).0 != name@ by {
                        assert(model0[j].0 == reg0[j].0@);
                    }
                    assert(model0[i as int].0 == reg0[i as int].0@);
                    lemma_name_index_at(model0, name@, i as int);
                }
                return Some(&self.render_objects[i].1);
            }
            i += 1;
        }
        proof {
            let model0 = reg_view(reg0);
            assert forall|j: int| 0 <= j < model0.len() implies (#[trigger] model0[j]).0 != name@
                by {
                assert(model0[j].0 == reg0[j].0@);
            }
            lemma_name_index_none(model0, name@);
        }
        None
    }

    /// Read a stored transform.
    pub fn transform(&self, id: usize) -> (t: &Transform)
        requires
            id < self.transform_seq().len(),
        ensures
            *t == self.transform_seq()[id as int],
    {
        self.transforms.get(id)
    }

    /// Replace a stored transform.
    pub fn set_transform(&mut self, id: usize, t: Transform)
        requires
            old(self).wf(),
            id < old(self).transform_seq().len(),
            t.wf(),
        ensures
            final(self).wf(),
            final(self).transform_seq() == old(self).transform_seq().update(id as int, t),
            final(self).spec_width() == old(self).spec_width(),
            final(self).spec_height() == old(self).spec_height(),
            final(self).spec_camera() == old(self).spec_camera(),
            final(self).registry() == old(self).registry(),
            final(self).keyboard_map() == old(self).keyboard_map(),
            final(self).pending_seq() == old(self).pending_seq(),
            final(self).active_seq() == old(self).active_seq(),
    {
        self.transforms.set(id, t);
    }

    /// Whether a key is currently pressed; absence of an entry means released.
    pub fn key_pressed(&self, key: u32) -> (pressed: bool)
        ensures
            pressed == (self.keyboard_map().contains_key(key) && self.keyboard_map()[key]),
    {
        self.keyboard.is_pressed(key)
    }
}

/// The registry after a whole sequence of attaches to one name.
pub open spec fn attach_all(
    reg: Seq<(Seq<char>, RenderObjectModel)>,
    name: Seq<char>,
    ids: Seq<usize>,
) -> Seq<(Seq<char>, RenderObjectModel)>
    decreases ids.len(),
{
    if ids.len() == 0 {
        reg
    } else {
        attach_model(attach_all(reg, name, ids.drop_last()), name, ids.last())
    }
}

/// Law: for every sequence of attaches to a registered name, the named
/// object's instance count afterwards is its count before plus the number of
/// attaches — growth is monotonic and nothing is silently dropped — and no
/// other render object is touched.
pub proof fn lemma_attach_growth(
    reg: Seq<(Seq<char>, RenderObjectModel)>,
    name: Seq<char>,
    ids: Seq<usize>,
)
    requires
        registered(reg, name),
    ensures
        ({
            let i = name_index(reg, name);
            let reg2 = attach_all(reg, name, ids);
            &&& reg2.len() == reg.len()
            &&& name_index(reg2, name) == i
            &&& reg2[i].1.transforms.len() == reg[i].1.transforms.len() + ids.len()
            &&& forall|j: int| 0 <= j < reg.len() && j != i ==> reg2[j] == reg[j]
        }),
    decreases ids.len(),
{
    if ids.len() > 0 {
        lemma_attach_growth(reg, name, ids.drop_last());
        lemma_attach_step(attach_all(reg, name, ids.drop_last()), name, ids.last());
    }
}

/// Law: attaching to an unregistered name fails and mutates no render
/// object's instance list: the registry is returned unchanged.
pub proof fn lemma_attach_unregistered(
    reg: Seq<(Seq<char>, RenderObjectModel)>,
    name: Seq<char>,
    id: usize,
)
    requires
        !registered(reg, name),
    ensures
        attach_model(reg, name, id) == reg,
{
}

/// Law: two attaches to the same registered name — in whatever order two
/// callers' appends were serialised — leave the registry holding the union:
/// both identifiers stand in the named object's instance list, after
/// everything that was already there, and every other object is untouched.
pub proof fn lemma_attach_pair(
    reg: Seq<(Seq<char>, RenderObjectModel)>,
    name: Seq<char>,
    a: usize,
    b: usize,
)
    requires
        registered(reg, name),
    ensures
        ({
            let i = name_index(reg, name);
            let reg2 = attach_model(attach_model(reg, name, a), name, b);
            &&& name_index(reg2, name) == i
            &&& reg2[i].1.transforms == reg[i].1.transforms.push(a).push(b)
            &&& reg2[i].1.transforms.contains(a)
            &&& reg2[i].1.transforms.contains(b)
            &&& forall|j: int| 0 <= j < reg.len() && j != i ==> reg2[j] == reg[j]
        }),
{
    lemma_attach_step(reg, name, a);
    lemma_attach_step(attach_model(reg, name, a), name, b);
    let i = name_index(reg, name);
    let reg2 = attach_model(attach_model(reg, name, a), name, b);
    let s = reg[i].1.transforms;
    assert(reg2[i].1.transforms[s.len() as int] == a);
    assert(reg2[i].1.transforms[s.len() as int + 1] == b);
}

/// Law: a transform with `visible` false never contributes an entry to the
/// instance-buffer snapshot: the snapshot of an instance list equals the
/// snapshot of its visible sublist, so its length is the number of visible
/// instances. The snapshot is a pure function of the current store, so
/// toggling visibility changes membership in the very next snapshot.
pub proof fn lemma_snapshot_skips_invisible(store: Seq<Transform>, ids: Seq<usize>)
    ensures
        instances_model(store, ids) == instances_model(store, visible_ids(store, ids)),
        instances_model(store, ids).len() == visible_ids(store, ids).len(),
    decreases ids.len(),
{
    if ids.len() > 0 {
        let rest = ids.drop_last();
        lemma_snapshot_skips_invisible(store, rest);
        if store[ids.last() as int].visible {
            let vis = visible_ids(store, rest);
            assert(visible_ids(store, ids) == vis.push(ids.last()));
            assert(vis.push(ids.last()).drop_last() =~= vis);
            assert(vis.push(ids.last()).last() == ids.last());
        } else {
            assert(visible_ids(store, ids) == visible_ids(store, rest));
        }
    }
}

/// Law: behaviour registration is eventually visible. A behaviour that sits
/// in the pending queue when the simulation loop drains registrations stands
/// in the active list right afterwards — at the position after the already
/// active behaviours — so the very next tick invokes its `update`.
pub proof fn lemma_pending_scheduled<B>(active: Seq<B>, queued: Seq<B>, i: int)
    requires
        0 <= i < queued.len(),
    ensures
        (active + queued)[active.len() + i] == queued[i],
        (active + queued).contains(queued[i]),
{
    assert((active + queued)[active.len() + i] == queued[i]);
}

} // verus!
