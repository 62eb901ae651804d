//! The renderer's state and the decisions taken on window events and on the
//! outcome of each frame. The caller owns the GPU objects and carries out
//! the actions returned here.

use vstd::prelude::*;
use crate::color::{
    clear_color_at, color_at, initial_clear_color, initial_color, ClearColor, CursorPosition,
    PixelSize,
};
use crate::geometry::{pentagon_index_seq, pentagon_indices, VERTEX_COUNT};
use crate::surface::{
    choose_surface_format, preferred_format, SurfaceSettings, MAX_FRAME_LATENCY,
};

verus! {

/// wgpu's error from acquiring a surface texture. It has four variants
/// without fields (Timeout, Outdated, Lost, OutOfMemory), which the frame
/// decisions tell apart.
#[verifier::external_type_specification]
pub struct ExSurfaceError(wgpu::SurfaceError);

/// Why a renderer could not be set up from the surface's capabilities.
#[derive(Clone, Copy, Debug, PartialEq, Eq, Structural)]
pub enum SetupError {
    NoSurfaceFormat,
    NoPresentMode,
    NoAlphaMode,
}

/// A key that the renderer tells apart.
#[derive(Clone, Copy, Debug, PartialEq, Eq, Structural)]
pub enum Key {
    Backspace,
    Other,
}

/// A window event, as far as the renderer reads it.
#[derive(Clone, Copy, Debug, PartialEq, Eq, Structural)]
pub enum WindowSignal {
    CloseRequested,
    KeyInput(Key),
    CursorMoved(CursorPosition),
    Resized(PixelSize),
    /// A redraw was requested; `own_window` says whether for this renderer's window.
    RedrawRequested { own_window: bool },
    /// The event loop is about to wait for more events.
    Idle,
}

/// What the caller does next.
#[derive(Clone, Copy, Debug, PartialEq, Eq, Structural)]
pub enum LoopAction {
    /// Nothing to do.
    Continue,
    /// Stop the event loop.
    Exit,
    /// Apply the current settings to the surface again.
    Reconfigure,
    /// Draw one frame.
    Render,
    /// Ask the window for a redraw.
    RequestRedraw,
    /// Report the frame's error and go on with the next frame.
    LogAndContinue,
}

/// The one draw call of a frame: clear to `clear`, then draw `index_count`
/// indices from the start of the index buffer, one instance, base vertex 0.
#[derive(Clone, Copy, Debug, PartialEq, Eq, Structural)]
pub struct FramePlan {
    pub clear: ClearColor,
    pub index_count: u32,
    pub instance_count: u32,
}

/// Everything the renderer decides with. The settings are what the surface
/// was last configured with.
#[derive(Clone, Copy, Debug, PartialEq, Eq)]
pub struct RendererState {
    pub settings: SurfaceSettings,
    pub size: PixelSize,
    pub clear_color: ClearColor,
    pub num_vertices: u32,
    pub num_indices: u32,
}

/// The state right after setup, from the window size and the first choices
/// of format, present mode and alpha mode.
pub open spec fn initial_state(
    size: PixelSize,
    format: wgpu::TextureFormat,
    present_mode: wgpu::PresentMode,
    alpha_mode: wgpu::CompositeAlphaMode,
) -> RendererState {
    RendererState {
        settings: SurfaceSettings {
            format,
            width: size.width,
            height: size.height,
            present_mode,
            alpha_mode,
            max_frame_latency: MAX_FRAME_LATENCY,
        },
        size,
        clear_color: initial_color(),
        num_vertices: VERTEX_COUNT,
        num_indices: pentagon_index_seq().len() as u32,
    }
}

/// Setup succeeds exactly when there is a format, a present mode and an alpha mode.
pub open spec fn setup_result(
    size: PixelSize,
    formats: Seq<wgpu::TextureFormat>,
    present_modes: Seq<wgpu::PresentMode>,
    alpha_modes: Seq<wgpu::CompositeAlphaMode>,
) -> Result<RendererState, SetupError> {
    if formats.len() == 0 {
        Err(SetupError::NoSurfaceFormat)
    } else if present_modes.len() == 0 {
        Err(SetupError::NoPresentMode)
    } else if alpha_modes.len() == 0 {
        Err(SetupError::NoAlphaMode)
    } else {
        Ok(initial_state(size, preferred_format(formats).unwrap(), present_modes[0], alpha_modes[0]))
    }
}

impl RendererState {
    /// The surface is configured to the stored size, and the counts are the pentagon's.
    pub open spec fn wf(self) -> bool {
        &&& self.settings.width == self.size.width
        &&& self.settings.height == self.size.height
        &&& self.num_vertices == VERTEX_COUNT
        &&& self.num_indices == pentagon_index_seq().len()
    }

    /// The state after a resize request: applied when both sides are non-zero,
    /// ignored otherwise.
    pub open spec fn resized(self, size: PixelSize) -> RendererState {
        if size.width > 0 && size.height > 0 {
            RendererState {
                settings: SurfaceSettings {
                    width: size.width,
                    height: size.height,
                    ..self.settings
                },
                size,
                ..self
            }
        } else {
            self
        }
    }

    /// The state after the pointer moved to `pos`.
    pub open spec fn pointed(self, pos: CursorPosition) -> RendererState {
        RendererState { clear_color: color_at(pos, self.size), ..self }
    }

    /// The state after a window event.
    pub open spec fn after_signal(self, signal: WindowSignal) -> RendererState {
        match signal {
            WindowSignal::CursorMoved(pos) => self.pointed(pos),
            WindowSignal::Resized(size) => self.resized(size),
            _ => self,
        }
    }

    /// The action for a window event.
    pub open spec fn signal_action(self, signal: WindowSignal) -> LoopAction {
        match signal {
            WindowSignal::CloseRequested => LoopAction::Exit,
            WindowSignal::KeyInput(Key::Backspace) => LoopAction::Exit,
            WindowSignal::KeyInput(Key::Other) => LoopAction::Continue,
            WindowSignal::CursorMoved(_) => LoopAction::Continue,
            WindowSignal::Resized(size) => if size.width > 0 && size.height > 0 {
                LoopAction::Reconfigure
            } else {
                LoopAction::Continue
            },
            WindowSignal::RedrawRequested { own_window } => if own_window {
                LoopAction::Render
            } else {
                LoopAction::Continue
            },
            WindowSignal::Idle => LoopAction::RequestRedraw,
        }
    }

    /// The state after a frame: a lost surface is configured again at the
    /// current size; nothing else changes the state.
    pub open spec fn after_frame_state(self, outcome: Result<(), wgpu::SurfaceError>) -> RendererState {
        match outcome {
            Err(wgpu::SurfaceError::Lost) => self.resized(self.size),
            _ => self,
        }
    }

    /// The action after a frame.
    pub open spec fn frame_action(self, outcome: Result<(), wgpu::SurfaceError>) -> LoopAction {
        match outcome {
            Ok(()) => LoopAction::Continue,
            Err(wgpu::SurfaceError::Lost) => if self.size.width > 0 && self.size.height > 0 {
                LoopAction::Reconfigure
            } else {
                LoopAction::Continue
            },
            Err(wgpu::SurfaceError::OutOfMemory) => LoopAction::Exit,
            Err(_) => LoopAction::LogAndContinue,
        }
    }

    /// Sets up the state for a window of `size` from the surface's
    /// capabilities: the first sRGB format (or else the first format), the
    /// first present mode and the first alpha mode.
    pub fn new(
        size: PixelSize,
        formats: &Vec<wgpu::TextureFormat>,
        present_modes: &Vec<wgpu::PresentMode>,
        alpha_modes: &Vec<wgpu::CompositeAlphaMode>,
    ) -> (r: Result<RendererState, SetupError>)
        ensures
            r == setup_result(size, formats@, present_modes@, alpha_modes@),
            r matches Ok(s) ==> s.wf(),
    {
        let format = match choose_surface_format(formats) {
            Some(f) => f,
            None => return Err(SetupError::NoSurfaceFormat),
        };
        if present_modes.len() == 0 {
            return Err(SetupError::NoPresentMode);
        }
        if alpha_modes.len() == 0 {
            return Err(SetupError::NoAlphaMode);
        }
        let indices = pentagon_indices();
        Ok(RendererState {
            settings: SurfaceSettings {
                format,
                width: size.width,
                height: size.height,
                present_mode: present_modes[0],
                alpha_mode: alpha_modes[0],
                max_frame_latency: MAX_FRAME_LATENCY,
            },
            size,
            clear_color: initial_clear_color(),
            num_vertices: VERTEX_COUNT,
            num_indices: indices.len() as u32,
        })
    }

    /// Takes a new window size. Returns whether it was applied, in which case
    /// the caller configures the surface with the new settings.
    pub fn resize(&mut self, new_size: PixelSize) -> (applied: bool)
        ensures
            *final(self) == old(self).resized(new_size),
            applied == (new_size.width > 0 && new_size.height > 0),
            applied ==> final(self).settings.width == new_size.width
                && final(self).settings.height == new_size.height
                && final(self).size == new_size,
            !applied ==> *final(self) == *old(self),
            final(self).settings.format == old(self).settings.format,
            final(self).settings.present_mode == old(self).settings.present_mode,
            final(self).settings.alpha_mode == old(self).settings.alpha_mode,
            old(self).wf() ==> final(self).wf(),
    {
        if new_size.width > 0 && new_size.height > 0 {
            self.size = new_size;
            self.settings.width = new_size.width;
            self.settings.height = new_size.height;
            true
        } else {
            false
        }
    }

    /// Takes a pointer position: the clear colour becomes
    /// `(x / width, y / height, 0.3, 1)`. The event is always consumed.
    pub fn input(&mut self, position: CursorPosition) -> (consumed: bool)
        ensures
            *final(self) == old(self).pointed(position),
            final(self).clear_color == color_at(position, old(self).size),
            consumed,
            old(self).wf() ==> final(self).wf(),
    {
        self.clear_color = clear_color_at(position, self.size);
        true
    }

    /// The draw of the next frame: clear to the current colour, then draw
    /// the whole index list once.
    pub fn frame(&self) -> (p: FramePlan)
        ensures
            p.clear == self.clear_color,
            p.index_count == self.num_indices,
            p.instance_count == 1,
    {
        FramePlan { clear: self.clear_color, index_count: self.num_indices, instance_count: 1 }
    }

    /// Updates the state for a window event and says what the caller does next.
    pub fn handle_event(&mut self, signal: WindowSignal) -> (action: LoopAction)
        ensures
            *final(self) == old(self).after_signal(signal),
            action == old(self).signal_action(signal),
            old(self).wf() ==> final(self).wf(),
    {
        match signal {
            WindowSignal::CloseRequested => LoopAction::Exit,
            WindowSignal::KeyInput(Key::Backspace) => LoopAction::Exit,
            WindowSignal::KeyInput(Key::Other) => LoopAction::Continue,
            WindowSignal::CursorMoved(pos) => {
                self.input(pos);
                LoopAction::Continue
            },
            WindowSignal::Resized(size) => {
                if self.resize(size) {
                    LoopAction::Reconfigure
                } else {
                    LoopAction::Continue
                }
            },
            WindowSignal::RedrawRequested { own_window } => {
                if own_window {
                    LoopAction::Render
                } else {
                    LoopAction::Continue
                }
            },
            WindowSignal::Idle => LoopAction::RequestRedraw,
        }
    }

    /// Takes the outcome of a frame: a lost surface is configured again at
    /// the current size, running out of memory stops the loop, and any other
    /// error is reported before the next frame.
    pub fn after_frame(&mut self, outcome: Result<(), wgpu::SurfaceError>) -> (action: LoopAction)
        ensures
            *final(self) == old(self).after_frame_state(outcome),
            action == old(self).frame_action(outcome),
            old(self).wf() ==> final(self).wf(),
    {
        match outcome {
            Ok(()) => LoopAction::Continue,
            Err(wgpu::SurfaceError::Lost) => {
                let current = self.size;
                if self.resize(current) {
                    LoopAction::Reconfigure
                } else {
                    LoopAction::Continue
                }
            },
            Err(wgpu::SurfaceError::OutOfMemory) => LoopAction::Exit,
            Err(_) => LoopAction::LogAndContinue,
        }
    }
}

/// Moving the pointer to the same place twice gives the state that moving
/// it there once gives; within the window, red is `x / width` and green is
/// `y / height` as rational numbers, blue is 0.3 and alpha is 1.
pub proof fn lemma_pointer_move_idempotent(s: RendererState, pos: CursorPosition)
    ensures
        s.pointed(pos).pointed(pos) == s.pointed(pos),
        (0 <= pos.x < s.size.width && 0 <= pos.y < s.size.height) ==> {
            let c = s.pointed(pos).clear_color;
            &&& c.r.same_value(pos.x as int, s.size.width as int)
            &&& c.g.same_value(pos.y as int, s.size.height as int)
            &&& c.b.same_value(3, 10)
            &&& c.a.same_value(1, 1)
        },
{
}

/// A resize never changes the format, the present mode, the alpha mode or
/// the frame latency; only the width and the height.
pub proof fn lemma_resize_keeps_modes(s: RendererState, size: PixelSize)
    ensures
        s.resized(size).settings.format == s.settings.format,
        s.resized(size).settings.present_mode == s.settings.present_mode,
        s.resized(size).settings.alpha_mode == s.settings.alpha_mode,
        s.resized(size).settings.max_frame_latency == s.settings.max_frame_latency,
{
}

/// Setting up, resizing to the size set up with, and handling the outcome
/// of a frame (whatever it is) leave the state as it was set up, so the
/// format, present mode and alpha mode too.
pub proof fn lemma_setup_resize_frame_round_trip(
    size: PixelSize,
    formats: Seq<wgpu::TextureFormat>,
    present_modes: Seq<wgpu::PresentMode>,
    alpha_modes: Seq<wgpu::CompositeAlphaMode>,
    outcome: Result<(), wgpu::SurfaceError>,
)
    requires
        setup_result(size, formats, present_modes, alpha_modes) is Ok,
    ensures
        ({
            let s0 = setup_result(size, formats, present_modes, alpha_modes).unwrap();
            let s2 = s0.resized(size).after_frame_state(outcome);
            &&& s0.resized(size) == s0
            &&& s2 == s0
            &&& s2.settings.format == s0.settings.format
            &&& s2.settings.present_mode == s0.settings.present_mode
            &&& s2.settings.alpha_mode == s0.settings.alpha_mode
        }),
{
    let s0 = setup_result(size, formats, present_modes, alpha_modes).unwrap();
    lemma_resize_to_current_size(s0);
}

/// For a well-formed state, a resize to the stored size changes nothing.
pub proof fn lemma_resize_to_current_size(s: RendererState)
    requires
        s.wf(),
    ensures
        s.resized(s.size) == s,
{
}

} // verus!
