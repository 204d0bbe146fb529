//! The two cameras: one draws the scene into the canvas render target at its
//! native resolution, the other shows that target, zoomed, on the surface.
use vstd::prelude::*;
use crate::canvas::{CanvasConfig, ClearColor, Ratio};

verus! {

/// The off-screen render target, by its size in pixels.
#[derive(Clone, Copy, Debug, PartialEq, Eq, Structural)]
pub struct CanvasHandle {
    pub width: u32,
    pub height: u32,
}

/// The camera that draws the scene into the render target (scale one).
#[derive(Clone, Copy, Debug, PartialEq, Eq, Structural)]
pub struct CanvasCamera {
    pub clear_color: ClearColor,
}

/// The camera that shows the render target on the display surface.
#[derive(Clone, Copy, Debug, PartialEq, Eq, Structural)]
pub struct WindowCamera {
    /// The orthographic scale: world units per surface pixel.
    pub scale: Ratio,
}

/// The state of both cameras and the surface size they were fitted to.
#[derive(Clone, Copy, Debug, PartialEq, Eq, Structural)]
pub struct Compositor {
    pub target: CanvasHandle,
    pub canvas_camera: CanvasCamera,
    pub window_camera: WindowCamera,
    pub surface_w: u32,
    pub surface_h: u32,
}

/// A surface size reported by a resize event.
#[derive(Clone, Copy, Debug, PartialEq, Eq, Structural)]
pub struct SurfaceSize {
    pub width: u32,
    pub height: u32,
}

impl CanvasHandle {
    /// A render target sized to the configured resolution.
    pub fn from_config(config: &CanvasConfig) -> (r: CanvasHandle)
        ensures
            r.width == config.width,
            r.height == config.height,
    {
        CanvasHandle { width: config.width, height: config.height }
    }
}

impl Compositor {
    /// Both cameras agree with `config` and with the surface size.
    pub open spec fn in_sync(self, config: CanvasConfig) -> bool {
        &&& self.target.width == config.width
        &&& self.target.height == config.height
        &&& self.canvas_camera.clear_color == config.clear_color
        &&& self.window_camera.scale == config.zoom_for(
            self.surface_w as nat,
            self.surface_h as nat,
        )
    }

    /// Allocates the render target and both cameras for a surface of the
    /// given size.
    pub fn setup_canvas(config: &CanvasConfig, surface_w: u32, surface_h: u32) -> (r: Compositor)
        requires
            config.wf(),
        ensures
            r.surface_w == surface_w,
            r.surface_h == surface_h,
            r.in_sync(*config),
    {
        Compositor {
            target: CanvasHandle::from_config(config),
            canvas_camera: CanvasCamera { clear_color: config.clear_color },
            window_camera: WindowCamera { scale: config.resolve_scale(surface_w, surface_h) },
            surface_w,
            surface_h,
        }
    }

    /// Refits the display camera to each resize event in turn; the last one
    /// decides.
    pub fn fit_to_window(&mut self, config: &CanvasConfig, resizes: &Vec<SurfaceSize>)
        requires
            config.wf(),
        ensures
            final(self).target == old(self).target,
            final(self).canvas_camera == old(self).canvas_camera,
            resizes@.len() == 0 ==> *final(self) == *old(self),
            resizes@.len() > 0 ==> {
                let last = resizes@.last();
                &&& final(self).surface_w == last.width
                &&& final(self).surface_h == last.height
                &&& final(self).window_camera.scale == config.zoom_for(
                    last.width as nat,
                    last.height as nat,
                )
            },
    {
        let mut i: usize = 0;
        while i < resizes.len()
            invariant
                config.wf(),
                i <= resizes@.len(),
                self.target == old(self).target,
                self.canvas_camera == old(self).canvas_camera,
                i == 0 ==> *self == *old(self),
                i > 0 ==> {
                    let last = resizes@[i - 1];
                    &&& self.surface_w == last.width
                    &&& self.surface_h == last.height
                    &&& self.window_camera.scale == config.zoom_for(
                        last.width as nat,
                        last.height as nat,
                    )
                },
            decreases resizes@.len() - i,
        {
            let size = resizes[i];
            self.surface_w = size.width;
            self.surface_h = size.height;
            self.window_camera.scale = config.resolve_scale(size.width, size.height);
            i = i + 1;
        }
    }

    /// When the configuration changed, resizes the render target and
    /// recomputes the display camera's scale; otherwise does nothing.
    pub fn apply_config(&mut self, config: &CanvasConfig, changed: bool)
        requires
            config.wf(),
        ensures
            !changed ==> *final(self) == *old(self),
            changed ==> {
                &&& final(self).surface_w == old(self).surface_w
                &&& final(self).surface_h == old(self).surface_h
                &&& final(self).in_sync(*config)
            },
    {
        if !changed {
            return;
        }
        self.target = CanvasHandle::from_config(config);
        self.canvas_camera.clear_color = config.clear_color;
        self.window_camera.scale = config.resolve_scale(self.surface_w, self.surface_h);
    }

    /// One frame of the compositor: observes the resize events and the
    /// configuration change, neither in place of the other. The render
    /// target matches the configured resolution when the frame ends, and
    /// changes only when the configuration did.
    pub fn run_frame(&mut self, config: &CanvasConfig, changed: bool, resizes: &Vec<SurfaceSize>)
        requires
            config.wf(),
            !changed ==> old(self).in_sync(*config),
        ensures
            final(self).in_sync(*config),
            !changed ==> final(self).target == old(self).target,
            resizes@.len() == 0 ==> final(self).surface_w == old(self).surface_w
                && final(self).surface_h == old(self).surface_h,
            resizes@.len() > 0 ==> final(self).surface_w == resizes@.last().width
                && final(self).surface_h == resizes@.last().height,
    {
        self.fit_to_window(config, resizes);
        self.apply_config(config, changed);
    }
}

} // verus!
