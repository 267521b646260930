//! The layer registry: the ordered table of background layers, built once and
//! read-only afterwards.

use vstd::prelude::*;
use crate::lifecycle::Entity;

verus! {

/// The static configuration of one background layer. Fractions are held in
/// thousandths: a speed of 900 moves the layer by nine tenths of the camera's
/// displacement, a scale of 3500 draws it three and a half times its size.
#[derive(Clone, Copy, PartialEq, Eq, Debug)]
pub struct LayerDescriptor {
    pub speed_permille: u32,
    pub path: &'static str,
    pub tile_width: u32,
    pub tile_height: u32,
    pub cols: u32,
    pub rows: u32,
    pub scale_permille: u32,
    pub z: i32,
}

impl LayerDescriptor {
    /// The speed coefficient lies above zero and at most at one.
    pub open spec fn speed_in_range(&self) -> bool {
        0 < self.speed_permille <= 1000
    }

    pub fn has_speed_in_range(&self) -> (b: bool)
        ensures
            b == self.speed_in_range(),
    {
        0 < self.speed_permille && self.speed_permille <= 1000
    }
}

/// The one message that hands the layers to the renderer, with the camera to
/// attach them to.
#[derive(Clone, Debug, PartialEq, Eq)]
pub struct CreateLayersEvent {
    pub layers_data: Vec<LayerDescriptor>,
    pub camera: Entity,
}

/// The table of layers. It is filled when it is made and offers no way to
/// change it.
#[derive(Clone, Debug, PartialEq, Eq)]
pub struct LayerRegistry {
    layers: Vec<LayerDescriptor>,
    camera: Entity,
}

impl View for LayerRegistry {
    type V = Seq<LayerDescriptor>;

    closed spec fn view(&self) -> Seq<LayerDescriptor> {
        self.layers@
    }
}

/// A background layer of the scene: a 384 by 216 tile, shown once, at three
/// and a half times its size.
pub open spec fn scene_layer(speed_permille: u32, path: &'static str, z: i32) -> LayerDescriptor {
    LayerDescriptor {
        speed_permille,
        path,
        tile_width: 384,
        tile_height: 216,
        cols: 1,
        rows: 1,
        scale_permille: 3500,
        z,
    }
}

/// The scene's layers, back to front.
pub open spec fn scene_layers() -> Seq<LayerDescriptor> {
    seq![
        scene_layer(900, "images/bg/sky_lightened.png", -4i32),
        scene_layer(800, "images/bg/far_mountains_fc.png", -3i32),
        scene_layer(600, "images/bg/grassy_mountains_fc.png", -2i32),
        scene_layer(200, "images/bg/clouds_mid_t_fc.png", -1i32),
        scene_layer(500, "images/bg/hill.png", 0i32),
        scene_layer(100, "images/bg/clouds_front_t_fc.png", 3i32),
    ]
}

fn make_scene_layer(speed_permille: u32, path: &'static str, z: i32) -> (layer: LayerDescriptor)
    ensures
        layer == scene_layer(speed_permille, path, z),
{
    LayerDescriptor {
        speed_permille,
        path,
        tile_width: 384,
        tile_height: 216,
        cols: 1,
        rows: 1,
        scale_permille: 3500,
        z,
    }
}

impl LayerRegistry {
    /// The camera that the layers are attached to.
    pub closed spec fn camera(&self) -> Entity {
        self.camera
    }

    /// Builds the registry from `descriptors` and reports them for `camera`.
    /// Registry and event hold the descriptors as they were given: the same
    /// values in the same order, whatever that order is.
    pub fn initialize(descriptors: Vec<LayerDescriptor>, camera: Entity) -> (made: (
        LayerRegistry,
        CreateLayersEvent,
    ))
        ensures
            made.0@ == descriptors@,
            made.0.camera() == camera,
            made.1.layers_data@ == descriptors@,
            made.1.camera == camera,
    {
        let mut layers_data: Vec<LayerDescriptor> = Vec::new();
        let mut i: usize = 0;
        while i < descriptors.len()
            invariant
                i <= descriptors@.len(),
                layers_data@ == descriptors@.take(i as int),
            decreases descriptors@.len() - i,
        {
            layers_data.push(descriptors[i]);
            proof {
                assert(descriptors@.take(i + 1) =~= descriptors@.take(i as int).push(
                    descriptors@[i as int],
                ));
            }
            i = i + 1;
        }
        proof {
            assert(descriptors@.take(descriptors@.len() as int) =~= descriptors@);
        }
        (LayerRegistry { layers: descriptors, camera }, CreateLayersEvent { layers_data, camera })
    }

    /// The number of layers.
    pub fn len(&self) -> (n: usize)
        ensures
            n == self@.len(),
    {
        self.layers.len()
    }

    /// The layer at position `index`, counted in insertion order.
    pub fn layer(&self, index: usize) -> (layer: Option<LayerDescriptor>)
        ensures
            index < self@.len() ==> layer == Some(self@[index as int]),
            index >= self@.len() ==> layer is None,
    {
        if index < self.layers.len() {
            Some(self.layers[index])
        } else {
            None
        }
    }

    pub fn target_camera(&self) -> (camera: Entity)
        ensures
            camera == self.camera(),
    {
        self.camera
    }
}

/// Startup step for the camera `camera`: builds the scene's layers and the
/// message that creates them.
pub fn initialize_camera_system(camera: Entity) -> (made: (LayerRegistry, CreateLayersEvent))
    ensures
        made.0@ == scene_layers(),
        made.0.camera() == camera,
        made.1.layers_data@ == scene_layers(),
        made.1.camera == camera,
{
    let mut descriptors: Vec<LayerDescriptor> = Vec::new();
    descriptors.push(make_scene_layer(900, "images/bg/sky_lightened.png", -4i32));
    descriptors.push(make_scene_layer(800, "images/bg/far_mountains_fc.png", -3i32));
    descriptors.push(make_scene_layer(600, "images/bg/grassy_mountains_fc.png", -2i32));
    descriptors.push(make_scene_layer(200, "images/bg/clouds_mid_t_fc.png", -1i32));
    descriptors.push(make_scene_layer(500, "images/bg/hill.png", 0i32));
    descriptors.push(make_scene_layer(100, "images/bg/clouds_front_t_fc.png", 3i32));
    proof {
        assert(descriptors@ =~= scene_layers());
    }
    LayerRegistry::initialize(descriptors, camera)
}

/// Every layer of the scene has its speed coefficient above zero and at most
/// at one, and a layer that comes later lies nearer to the viewer.
pub proof fn lemma_scene_layers_ordered()
    ensures
        scene_layers().len() == 6,
        forall|i: int| 0 <= i < scene_layers().len() ==> (#[trigger] scene_layers()[i]).speed_in_range(),
        forall|i: int, j: int|
            0 <= i < j < scene_layers().len() ==> (#[trigger] scene_layers()[i]).z < (
            #[trigger] scene_layers()[j]).z,
{
}

} // verus!
