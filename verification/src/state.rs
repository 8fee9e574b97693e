//! The state of the frame loop and what each step of the loop does to it.
//!
//! One turn of the loop applies the resizes that the session reports,
//! renders one frame, and ticks. The functions here make the decisions of
//! each step and say what is to be done to the surface and the buffers; the
//! caller does it.

use vstd::prelude::*;
use crate::bytes::is_u32_image;
use crate::ground::instance_table;
use crate::ground::DrawCall;
use crate::ground::Ground;
use crate::ground::NUM_INSTANCES;
use crate::primitives::camera::scene_camera;
use crate::primitives::camera::Camera;
use crate::primitives::frame::next_frame;
use crate::primitives::frame::FRAME_PERIOD;
use crate::primitives::frame::FrameUniform;
use crate::xscreensaver::Event;
use crate::xscreensaver::SizedWindow;

verus! {

/// How finished frames reach the screen.
#[derive(Debug, Clone, Copy, PartialEq, Eq)]
pub enum PresentMode {
    /// In order, none dropped, one per refresh.
    Fifo,
}

/// The width of the indices in the index buffer.
#[derive(Debug, Clone, Copy, PartialEq, Eq)]
pub enum IndexFormat {
    Uint16,
}

/// How the output surface is set up. `format` is the code under which the
/// caller knows a pixel format.
#[derive(Debug, Clone, Copy, PartialEq, Eq)]
pub struct SurfaceConfig {
    pub format: u32,
    pub width: u32,
    pub height: u32,
    pub present_mode: PresentMode,
}

/// What can go wrong between the program and the GPU. None of it can be
/// mended from inside: the caller stops.
#[derive(Debug, Clone, Copy, PartialEq, Eq)]
pub enum GraphicsError {
    /// No adapter or device fits the surface.
    DeviceAcquisition,
    /// The surface cannot be set up at the size asked for.
    SurfaceConfiguration,
    /// The surface gave no image to render into.
    SurfaceAcquisition,
}

/// A colour with opacity, each channel in thousandths.
#[derive(Debug, Clone, Copy, PartialEq, Eq)]
pub struct ClearColor {
    pub r: i32,
    pub g: i32,
    pub b: i32,
    pub a: i32,
}

/// Everything that the render pass of one frame is told.
#[derive(Debug, Clone, Copy, PartialEq, Eq)]
pub struct RenderPass {
    pub clear_color: ClearColor,
    pub frame_bind_group: u32,
    pub camera_bind_group: u32,
    pub vertex_buffer_slot: u32,
    pub instance_buffer_slot: u32,
    pub index_format: IndexFormat,
    pub draw: DrawCall,
}

/// Bytes to be written into a buffer, and where.
#[derive(Debug, PartialEq, Eq)]
pub struct BufferWrite {
    pub offset: u64,
    pub data: Vec<u8>,
}

impl SurfaceConfig {
    /// A surface has an area.
    pub open spec fn valid(self) -> bool {
        self.width > 0 && self.height > 0
    }

    /// Whether the surface is `width` by `height` pixels.
    pub open spec fn has_size(self, width: u32, height: u32) -> bool {
        self.width == width && self.height == height
    }

    /// The same setup at `width` by `height` pixels.
    pub open spec fn resized(self, width: u32, height: u32) -> SurfaceConfig {
        SurfaceConfig { format: self.format, width, height, present_mode: self.present_mode }
    }

    /// Takes on a new size. Returns whether that changed anything, which is
    /// when the surface itself has to be set up anew.
    pub fn reconfigure(&mut self, width: u32, height: u32) -> (changed: bool)
        requires
            width > 0,
            height > 0,
        ensures
            *final(self) == old(self).resized(width, height),
            changed == !old(self).has_size(width, height),
            !changed ==> *final(self) == *old(self),
            final(self).valid(),
        no_unwind
    {
        if self.width != width || self.height != height {
            self.width = width;
            self.height = height;
            true
        } else {
            false
        }
    }
}

/// Whether an event can be applied: a resize must leave the surface an area.
pub open spec fn event_valid(event: Event) -> bool {
    match event {
        Event::Resized { width, height } => width > 0 && height > 0,
    }
}

/// Whether every one of `events` can be applied.
pub open spec fn events_valid(events: Seq<Event>) -> bool {
    forall|i: int| 0 <= i < events.len() ==> event_valid(#[trigger] events[i])
}

/// The setup of the surface once `events` have been applied to `config`, in
/// order.
pub open spec fn config_after(config: SurfaceConfig, events: Seq<Event>) -> SurfaceConfig
    decreases events.len(),
{
    if events.len() == 0 {
        config
    } else {
        let before = config_after(config, events.drop_last());
        match events.last() {
            Event::Resized { width, height } => before.resized(width, height),
        }
    }
}

/// The setups that the surface is given while `events` are applied to
/// `config`, in order: one for each event that changes the size.
pub open spec fn reconfigurations(config: SurfaceConfig, events: Seq<Event>) -> Seq<SurfaceConfig>
    decreases events.len(),
{
    if events.len() == 0 {
        Seq::empty()
    } else {
        let before = config_after(config, events.drop_last());
        let earlier = reconfigurations(config, events.drop_last());
        match events.last() {
            Event::Resized { width, height } => if before.has_size(width, height) {
                earlier
            } else {
                earlier.push(before.resized(width, height))
            },
        }
    }
}

/// The dark colour that every frame is cleared to.
pub open spec fn background() -> ClearColor {
    ClearColor { r: 10, g: 0, b: 10, a: 1000 }
}

/// What `State` stands for.
pub struct StateView {
    pub config: SurfaceConfig,
    pub fps: u32,
    pub frame: nat,
    pub camera: Camera,
    pub ground: Ground,
}

/// The render pass of a frame in state `state`: clear, bind the frame
/// counter and the camera, bind the quad and its copies, and draw every index
/// once for every copy.
pub open spec fn frame_pass(state: StateView) -> RenderPass {
    RenderPass {
        clear_color: background(),
        frame_bind_group: 0,
        camera_bind_group: 1,
        vertex_buffer_slot: 0,
        instance_buffer_slot: 1,
        index_format: IndexFormat::Uint16,
        draw: DrawCall {
            first_index: 0,
            end_index: state.ground.indices@.len() as u32,
            base_vertex: 0,
            first_instance: 0,
            end_instance: state.ground.instances@.len() as u32,
        },
    }
}

/// Whether `state` is the state right after startup on a surface of `width`
/// by `height` pixels in format `format`, paced at `fps`.
pub open spec fn is_started(state: StateView, width: u32, height: u32, fps: u32, format: u32) -> bool {
    &&& state.config == SurfaceConfig { format, width, height, present_mode: PresentMode::Fifo }
    &&& state.fps == fps
    &&& state.frame == 0
    &&& state.camera == scene_camera(width, height)
    &&& state.ground.wf()
    &&& state.ground.instances@ == instance_table(NUM_INSTANCES as nat)
}

/// Why startup fails on a window of `width` by `height` pixels when the
/// adapter offers `formats`, if it does.
pub open spec fn start_error(width: u32, height: u32, formats: Seq<u32>) -> Option<GraphicsError> {
    if formats.len() == 0 {
        Some(GraphicsError::DeviceAcquisition)
    } else if width == 0 || height == 0 {
        Some(GraphicsError::SurfaceConfiguration)
    } else {
        None
    }
}

/// Whether `outcome` is how startup ends on a window of `width` by `height`
/// pixels: with the error that applies, or else in the state right after
/// startup, in the format that the adapter likes best.
pub open spec fn start_post(
    outcome: Result<State, GraphicsError>,
    width: u32,
    height: u32,
    fps: u32,
    formats: Seq<u32>,
) -> bool {
    match outcome {
        Ok(state) => start_error(width, height, formats) is None && is_started(
            state@,
            width,
            height,
            fps,
            formats[0],
        ),
        Err(error) => start_error(width, height, formats) == Some(error),
    }
}

/// The state of the frame loop.
pub struct State {
    config: SurfaceConfig,
    fps: u32,
    frame_uniform: FrameUniform,
    camera: Camera,
    ground: Ground,
}

impl View for State {
    type V = StateView;

    closed spec fn view(&self) -> StateView {
        StateView {
            config: self.config,
            fps: self.fps,
            frame: self.frame_uniform.value(),
            camera: self.camera,
            ground: self.ground,
        }
    }
}

impl State {
    #[verifier::type_invariant]
    spec fn inv(self) -> bool {
        &&& self.config.valid()
        &&& self.ground.wf()
    }

    /// Starts the loop on a surface of `width` by `height` pixels.
    ///
    /// `formats` are the pixel formats that the adapter offers for the
    /// surface, the best first; none means that the adapter does not fit.
    pub fn start(width: u32, height: u32, fps: u32, formats: &Vec<u32>) -> (outcome: Result<
        State,
        GraphicsError,
    >)
        ensures
            start_post(outcome, width, height, fps, formats@),
    {
        if formats.len() == 0 {
            return Err(GraphicsError::DeviceAcquisition);
        }
        let format: u32 = formats[0];
        if width == 0 || height == 0 {
            return Err(GraphicsError::SurfaceConfiguration);
        }
        let config = SurfaceConfig { format, width, height, present_mode: PresentMode::Fifo };
        let frame_uniform = FrameUniform::new();
        let camera = Camera::new(width, height);
        let ground = Ground::init();
        Ok(State { config, fps, frame_uniform, camera, ground })
    }

    /// Starts the loop on the surface of `window`, at the size that the window
    /// reports: as `start` does for that size. Without a format the window is
    /// not even asked; with one, startup fails only on a window without an
    /// area.
    pub fn setup<T: SizedWindow>(window: &T, fps: u32, formats: &Vec<u32>) -> (outcome: Result<
        State,
        GraphicsError,
    >)
        ensures
            match outcome {
                Ok(state) => {
                    &&& formats@.len() > 0
                    &&& state@.config.valid()
                    &&& is_started(
                        state@,
                        state@.config.width,
                        state@.config.height,
                        fps,
                        formats@[0],
                    )
                },
                Err(error) => error == if formats@.len() == 0 {
                    GraphicsError::DeviceAcquisition
                } else {
                    GraphicsError::SurfaceConfiguration
                },
            },
    {
        if formats.len() == 0 {
            return Err(GraphicsError::DeviceAcquisition);
        }
        let (width, height) = window.size();
        State::start(width, height, fps, formats)
    }

    /// Follows a resize of the window. Returns whether the size changed,
    /// which is when the surface has to be set up anew before the next frame.
    pub fn resize(&mut self, width: u32, height: u32) -> (changed: bool)
        requires
            width > 0,
            height > 0,
        ensures
            final(self)@ == (StateView {
                config: old(self)@.config.resized(width, height),
                ..old(self)@
            }),
            changed == !old(self)@.config.has_size(width, height),
            !changed ==> final(self)@ == old(self)@,
    {
        proof {
            use_type_invariant(&*self);
        }
        self.config.reconfigure(width, height)
    }

    /// Follows every resize among `events`, in order. Returns the setups that
    /// the surface has to be given, one for each event that changed the size.
    pub fn apply_events(&mut self, events: &Vec<Event>) -> (applied: Vec<SurfaceConfig>)
        requires
            events_valid(events@),
        ensures
            final(self)@ == (StateView {
                config: config_after(old(self)@.config, events@),
                ..old(self)@
            }),
            applied@ == reconfigurations(old(self)@.config, events@),
    {
        let mut applied: Vec<SurfaceConfig> = Vec::new();
        let mut i: usize = 0;
        while i < events.len()
            invariant
                i <= events@.len(),
                events_valid(events@),
                self@ == (StateView {
                    config: config_after(old(self)@.config, events@.take(i as int)),
                    ..old(self)@
                }),
                applied@ == reconfigurations(old(self)@.config, events@.take(i as int)),
            decreases events@.len() - i,
        {
            assert(events@.take(i + 1).drop_last() =~= events@.take(i as int));
            assert(event_valid(events@[i as int]));
            match events[i] {
                Event::Resized { width, height } => {
                    if self.resize(width, height) {
                        applied.push(self.config);
                    }
                },
            }
            i = i + 1;
        }
        assert(events@.take(events@.len() as int) =~= events@);
        applied
    }

    /// Plans the render pass of the next frame. `frame_acquired` tells whether
    /// the surface gave an image to render into; without one there is no
    /// frame.
    pub fn render(&self, frame_acquired: bool) -> (pass: Result<RenderPass, GraphicsError>)
        ensures
            frame_acquired ==> pass == Ok::<RenderPass, GraphicsError>(frame_pass(self@)),
            !frame_acquired ==> pass == Err::<RenderPass, GraphicsError>(
                GraphicsError::SurfaceAcquisition,
            ),
    {
        proof {
            use_type_invariant(self);
        }
        if !frame_acquired {
            return Err(GraphicsError::SurfaceAcquisition);
        }
        Ok(
            RenderPass {
                clear_color: ClearColor { r: 10, g: 0, b: 10, a: 1000 },
                frame_bind_group: 0,
                camera_bind_group: 1,
                vertex_buffer_slot: 0,
                instance_buffer_slot: 1,
                index_format: IndexFormat::Uint16,
                draw: self.ground.draw_call(),
            },
        )
    }

    /// Ends a frame: advances the frame counter and returns the write that
    /// brings the counter's buffer up to date.
    pub fn tick(&mut self) -> (write: BufferWrite)
        ensures
            final(self)@ == (StateView { frame: next_frame(old(self)@.frame), ..old(self)@ }),
            write.offset == 0,
            is_u32_image(write.data@, seq![final(self)@.frame as u32]),
    {
        proof {
            use_type_invariant(&*self);
        }
        self.frame_uniform.incr_frame();
        BufferWrite { offset: 0, data: self.frame_uniform.to_bytes() }
    }
    /// How the surface is set up right now.
    pub fn config(&self) -> (config: SurfaceConfig)
        ensures
            config == self@.config,
            config.valid(),
    {
        proof {
            use_type_invariant(self);
        }
        self.config
    }

    /// The frame rate that the loop is paced at.
    pub fn fps(&self) -> (fps: u32)
        ensures
            fps == self@.fps,
    {
        self.fps
    }

    /// The frame counter as it is mirrored into its buffer.
    pub fn frame_uniform(&self) -> (uniform: FrameUniform)
        ensures
            uniform.value() == self@.frame,
    {
        self.frame_uniform
    }

    /// The value of the frame counter.
    pub fn frame(&self) -> (frame: u32)
        ensures
            frame == self@.frame,
            frame < FRAME_PERIOD,
    {
        self.frame_uniform.frame()
    }

    /// The camera, as it was set at startup.
    pub fn camera(&self) -> (camera: Camera)
        ensures
            camera == self@.camera,
    {
        self.camera
    }

    /// The ground that every frame draws.
    pub fn ground(&self) -> (ground: &Ground)
        ensures
            *ground == self@.ground,
            ground.wf(),
    {
        proof {
            use_type_invariant(self);
        }
        &self.ground
    }
}

/// A run of resizes leaves the surface at the size of the last of them, and
/// as it was in everything else.
pub proof fn lemma_last_resize_wins(config: SurfaceConfig, events: Seq<Event>)
    requires
        events.len() > 0,
    ensures
        config_after(config, events) == match events.last() {
            Event::Resized { width, height } => config.resized(width, height),
        },
        config_after(config, events).format == config.format,
        config_after(config, events).present_mode == config.present_mode,
    decreases events.len(),
{
    if events.len() > 1 {
        lemma_last_resize_wins(config, events.drop_last());
    } else {
        assert(config_after(config, events.drop_last()) == config);
    }
}

/// While a run of resizes is applied, the surface always has the size of the
/// resize applied last: after the first `count` of them, that of resize
/// number `count`.
pub proof fn lemma_size_follows_resizes(config: SurfaceConfig, events: Seq<Event>, count: int)
    requires
        0 < count <= events.len(),
    ensures
        match events[count - 1] {
            Event::Resized { width, height } => config_after(config, events.take(count)).has_size(
                width,
                height,
            ),
        },
{
    lemma_last_resize_wins(config, events.take(count));
}

/// A resize to the size that the surface already has changes nothing and
/// sets nothing up: the surface is given no setup that it was not given
/// without that resize.
pub proof fn lemma_same_size_is_noop(
    config: SurfaceConfig,
    events: Seq<Event>,
    width: u32,
    height: u32,
)
    requires
        config_after(config, events).has_size(width, height),
    ensures
        config_after(config, events.push(Event::Resized { width, height })) == config_after(
            config,
            events,
        ),
        reconfigurations(config, events.push(Event::Resized { width, height }))
            == reconfigurations(config, events),
{
    assert(events.push(Event::Resized { width, height }).drop_last() =~= events);
}

/// A resize to another size sets the surface up exactly once more, at that
/// size.
pub proof fn lemma_new_size_reconfigures(
    config: SurfaceConfig,
    events: Seq<Event>,
    width: u32,
    height: u32,
)
    requires
        !config_after(config, events).has_size(width, height),
    ensures
        reconfigurations(config, events.push(Event::Resized { width, height }))
            == reconfigurations(config, events).push(
            config_after(config, events).resized(width, height),
        ),
{
    assert(events.push(Event::Resized { width, height }).drop_last() =~= events);
}

/// Resizes that leave the surface an area never take it away: a surface
/// with an area keeps one, and every setup it is given has one.
pub proof fn lemma_resizes_keep_area(config: SurfaceConfig, events: Seq<Event>)
    requires
        config.valid(),
        events_valid(events),
    ensures
        config_after(config, events).valid(),
        reconfigurations(config, events).len() <= events.len(),
        forall|k: int|
            0 <= k < reconfigurations(config, events).len() ==> (#[trigger] reconfigurations(
                config,
                events,
            )[k]).valid(),
    decreases events.len(),
{
    if events.len() > 0 {
        assert(event_valid(events.last()));
        lemma_resizes_keep_area(config, events.drop_last());
    }
}

} // verus!
