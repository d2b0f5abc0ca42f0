//! The camera of the 2d renderer. It can be moved and scaled, not rotated.
//!
//! The camera keeps its parameters and knows whether the matrix that the
//! graphics device holds is up to date with them. Its scale and the
//! coordinates of its position are 32 bit floating point numbers, which it
//! keeps by their bits and never computes with.

use vstd::prelude::*;
use crate::arena::ArenaKey;
use crate::rendering::GpuBackend;

verus! {

/// The bits of the floating point number one.
pub const SCALE_ONE_BITS: u32 = 0x3f80_0000;

/// The parameters of a camera, from which its matrix is computed.
#[derive(Debug, Copy, Clone, PartialEq, Eq, Hash, Structural)]
pub struct CameraParameters {
    pub screen_width: u32,
    pub screen_height: u32,
    /// The bits of the scale factor. Bigger is more zoomed in.
    pub scale: u32,
    /// The bits of the first coordinate of the position in the world.
    pub position_x: u32,
    /// The bits of the second coordinate of the position in the world.
    pub position_y: u32,
}

/// A camera as a value: its parameters, and whether they have changed since
/// the matrix was last computed from them.
pub ghost struct CameraState {
    pub parameters: CameraParameters,
    pub needs_matrix_update: bool,
}

impl CameraState {
    /// The camera after its screen size was set.
    pub open spec fn with_screen_size(self, screen_width: u32, screen_height: u32) -> CameraState {
        CameraState {
            parameters: CameraParameters { screen_width, screen_height, ..self.parameters },
            needs_matrix_update: true,
        }
    }

    /// The camera after it was told the screen size: a size that it had
    /// already changes nothing.
    pub open spec fn fed_screen_size(self, screen_width: u32, screen_height: u32) -> CameraState {
        if self.parameters.screen_width != screen_width || self.parameters.screen_height
            != screen_height {
            self.with_screen_size(screen_width, screen_height)
        } else {
            self
        }
    }

    /// The camera after its scale was set.
    pub open spec fn with_scale(self, scale: u32) -> CameraState {
        CameraState {
            parameters: CameraParameters { scale, ..self.parameters },
            needs_matrix_update: true,
        }
    }

    /// The camera after its position was set.
    pub open spec fn with_position(self, position_x: u32, position_y: u32) -> CameraState {
        CameraState {
            parameters: CameraParameters { position_x, position_y, ..self.parameters },
            needs_matrix_update: true,
        }
    }

    /// The camera after an update.
    pub open spec fn updated(self) -> CameraState {
        CameraState { needs_matrix_update: false, ..self }
    }

    /// The parameters from which an update computes the matrix anew, if it
    /// does so: it does if and only if a parameter was set since the last
    /// update.
    pub open spec fn recomputed(self) -> Option<CameraParameters> {
        if self.needs_matrix_update {
            Some(self.parameters)
        } else {
            None
        }
    }

    /// After the scale was set, the next update computes the matrix anew,
    /// once, from the parameters with the new scale; an update that follows
    /// it with no setter in between computes nothing.
    pub proof fn lemma_update_recomputes_once(self, scale: u32)
        ensures
            self.with_scale(scale).recomputed() == Some(
                CameraParameters { scale, ..self.parameters },
            ),
            self.with_scale(scale).updated().recomputed() is None,
            self.with_scale(scale).updated().updated() == self.with_scale(scale).updated(),
    {
    }

    /// After any setter the next update computes the matrix anew, and the
    /// update after that does not. An update changes no parameter.
    pub proof fn lemma_update_clears_dirty_flag(self)
        ensures
            self.updated().recomputed() is None,
            self.updated().parameters == self.parameters,
            forall|w: u32, h: u32| (#[trigger] self.with_screen_size(w, h)).recomputed() is Some,
            forall|s: u32| (#[trigger] self.with_scale(s)).recomputed() is Some,
            forall|x: u32, y: u32| (#[trigger] self.with_position(x, y)).recomputed() is Some,
    {
    }
}

/// Default camera for `Renderer2d`. Permits translation and scaling of the camera, but not rotation.
pub struct Camera2d<G: GpuBackend> {
    camera_uniform_buffer: G::Buffer,
    camera_bind_group_layout: G::BindGroupLayout,
    camera_bind_group_key: ArenaKey,
    parameters: CameraParameters,
    needs_matrix_update: bool,
}

impl<G: GpuBackend> Camera2d<G> {
    /// The camera as a value.
    pub closed spec fn view(&self) -> CameraState {
        CameraState { parameters: self.parameters, needs_matrix_update: self.needs_matrix_update }
    }

    /// The key of the bind group of the camera's uniform.
    pub closed spec fn bind_group_key(&self) -> ArenaKey {
        self.camera_bind_group_key
    }

    /// The buffer on the graphics device that holds the camera's matrix.
    pub closed spec fn uniform_buffer(&self) -> G::Buffer {
        self.camera_uniform_buffer
    }

    /// The layout of the bind group of the camera's uniform.
    pub closed spec fn bind_group_layout(&self) -> G::BindGroupLayout {
        self.camera_bind_group_layout
    }

    /// A camera for a screen of the given size, with the buffer, the layout
    /// and the bind group that were created for its uniform. Its scale is
    /// one and it is at the origin. Its matrix has still to be computed: the
    /// first update does so.
    pub fn new(
        screen_width: u32,
        screen_height: u32,
        camera_uniform_buffer: G::Buffer,
        camera_bind_group_layout: G::BindGroupLayout,
        camera_bind_group_key: ArenaKey,
    ) -> (camera: Self)
        ensures
            camera@ == (CameraState {
                parameters: CameraParameters {
                    screen_width,
                    screen_height,
                    scale: SCALE_ONE_BITS,
                    position_x: 0,
                    position_y: 0,
                },
                needs_matrix_update: true,
            }),
            camera.bind_group_key() == camera_bind_group_key,
            camera.uniform_buffer() == camera_uniform_buffer,
            camera.bind_group_layout() == camera_bind_group_layout,
    {
        Camera2d {
            camera_uniform_buffer,
            camera_bind_group_layout,
            camera_bind_group_key,
            parameters: CameraParameters {
                screen_width,
                screen_height,
                scale: SCALE_ONE_BITS,
                position_x: 0,
                position_y: 0,
            },
            needs_matrix_update: true,
        }
    }

    /// Updates screen size if it is different from what camera had stored.
    pub fn feed_screen_size(&mut self, screen_width: u32, screen_height: u32)
        ensures
            final(self)@ == old(self)@.fed_screen_size(screen_width, screen_height),
            final(self).bind_group_key() == old(self).bind_group_key(),
            final(self).uniform_buffer() == old(self).uniform_buffer(),
            final(self).bind_group_layout() == old(self).bind_group_layout(),
    {
        if (self.parameters.screen_width != screen_width) || (self.parameters.screen_height
            != screen_height) {
            self.set_screen_size(screen_width, screen_height);
        }
    }

    /// Sets screen size. You should probably use `feed_screen_size()` instead.
    ///
    /// We use setters because we need to flag that the camera matrix should be
    /// updated. The actual updating of the camera matrix happens on `Camera2d::update()`.
    pub fn set_screen_size(&mut self, screen_width: u32, screen_height: u32)
        ensures
            final(self)@ == old(self)@.with_screen_size(screen_width, screen_height),
            final(self).bind_group_key() == old(self).bind_group_key(),
            final(self).uniform_buffer() == old(self).uniform_buffer(),
            final(self).bind_group_layout() == old(self).bind_group_layout(),
    {
        self.parameters.screen_width = screen_width;
        self.parameters.screen_height = screen_height;
        self.needs_matrix_update = true;
    }

    /// Sets the camera scale factor, given by its bits. Bigger is more zoomed in.
    pub fn set_scale(&mut self, scale: u32)
        ensures
            final(self)@ == old(self)@.with_scale(scale),
            final(self).bind_group_key() == old(self).bind_group_key(),
            final(self).uniform_buffer() == old(self).uniform_buffer(),
            final(self).bind_group_layout() == old(self).bind_group_layout(),
    {
        self.parameters.scale = scale;
        self.needs_matrix_update = true;
    }

    /// Sets the camera's position in the world, given by the bits of its
    /// coordinates.
    pub fn set_position(&mut self, position_x: u32, position_y: u32)
        ensures
            final(self)@ == old(self)@.with_position(position_x, position_y),
            final(self).bind_group_key() == old(self).bind_group_key(),
            final(self).uniform_buffer() == old(self).uniform_buffer(),
            final(self).bind_group_layout() == old(self).bind_group_layout(),
    {
        self.parameters.position_x = position_x;
        self.parameters.position_y = position_y;
        self.needs_matrix_update = true;
    }

    /// The parameters of the camera.
    pub fn parameters(&self) -> (parameters: CameraParameters)
        ensures
            parameters == self@.parameters,
    {
        self.parameters
    }

    /// The key of the bind group of the camera's uniform.
    pub fn camera_bind_group_key(&self) -> (key: ArenaKey)
        ensures
            key == self.bind_group_key(),
    {
        self.camera_bind_group_key
    }

    /// The buffer on the graphics device that holds the camera's matrix.
    pub fn camera_uniform_buffer(&self) -> (buffer: &G::Buffer)
        ensures
            *buffer == self.uniform_buffer(),
    {
        &self.camera_uniform_buffer
    }

    /// The layout of the bind group of the camera's uniform.
    pub fn camera_bind_group_layout(&self) -> (layout: &G::BindGroupLayout)
        ensures
            *layout == self.bind_group_layout(),
    {
        &self.camera_bind_group_layout
    }

    /// Updates the camera. Should be called once per frame, after the
    /// parameters were set and before the bind group of the camera is used.
    ///
    /// If any parameter has changed since the last update, it hands out the
    /// parameters: the matrix is to be computed from them anew and sent to
    /// the graphics device. Otherwise there is nothing to do.
    pub fn update(&mut self) -> (recompute: Option<CameraParameters>)
        ensures
            recompute == old(self)@.recomputed(),
            final(self)@ == old(self)@.updated(),
            final(self).bind_group_key() == old(self).bind_group_key(),
            final(self).uniform_buffer() == old(self).uniform_buffer(),
            final(self).bind_group_layout() == old(self).bind_group_layout(),
    {
        if self.needs_matrix_update {
            self.needs_matrix_update = false;
            Some(self.parameters)
        } else {
            None
        }
    }
}

} // verus!
