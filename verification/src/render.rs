//! What the client's video renderer decides: when the video texture must be
//! made anew, how its pixels are laid out for upload, what each window
//! event leads to, and which surface format is used. The GPU objects
//! themselves live with the graphics stack; this module keeps the sizes and
//! which of those objects exist.

use crate::text::{decimal, push_decimal};
use vstd::prelude::*;
use vstd::string::StringExecFns;

verus! {

broadcast use vstd::string::group_string_axioms;

/// Indices of the two triangles that make the full-window quad.
pub const QUAD_INDICES: [u16; 6] = [0, 1, 2, 2, 1, 3];

/// Why the renderer could not do what was asked.
#[derive(Debug, Clone, PartialEq, Eq, Structural)]
pub enum RenderError {
    /// The GPU queue was not set up yet.
    QueueNotInitialized,
    /// The window surface was not set up yet.
    SurfaceNotInitialized,
    /// The GPU device was not set up yet.
    DeviceNotInitialized,
    /// The render pipeline was not set up yet.
    PipelineNotInitialized,
    /// No texture is bound yet.
    BindGroupNotInitialized,
    /// The surface configuration was not set up yet.
    ConfigNotInitialized,
    /// Fewer pixel bytes were given than the frame needs.
    InvalidTextureData { expected: u64, got: u64 },
}

/// The display text of a render error.
pub open spec fn render_error_text(e: RenderError) -> Seq<char> {
    match e {
        RenderError::QueueNotInitialized => "Queue not initialized"@,
        RenderError::SurfaceNotInitialized => "Surface not initialized"@,
        RenderError::DeviceNotInitialized => "Device not initialized"@,
        RenderError::PipelineNotInitialized => "Pipeline not initialized"@,
        RenderError::BindGroupNotInitialized => "Bind group not initialized"@,
        RenderError::ConfigNotInitialized => "Config not initialized"@,
        RenderError::InvalidTextureData { expected, got } => "Invalid texture data: expected "@ + decimal(
            expected as nat,
        ) + " bytes, got "@ + decimal(got as nat),
    }
}

impl RenderError {
    /// The error's display text.
    pub fn to_string(&self) -> (s: String)
        ensures
            s@ == render_error_text(*self),
    {
        match self {
            RenderError::QueueNotInitialized => "Queue not initialized".to_string(),
            RenderError::SurfaceNotInitialized => "Surface not initialized".to_string(),
            RenderError::DeviceNotInitialized => "Device not initialized".to_string(),
            RenderError::PipelineNotInitialized => "Pipeline not initialized".to_string(),
            RenderError::BindGroupNotInitialized => "Bind group not initialized".to_string(),
            RenderError::ConfigNotInitialized => "Config not initialized".to_string(),
            RenderError::InvalidTextureData { expected, got } => {
                let mut s = "Invalid texture data: expected ".to_string();
                push_decimal(&mut s, *expected);
                s.append(" bytes, got ");
                push_decimal(&mut s, *got);
                s
            },
        }
    }
}

/// How a frame's pixels are uploaded into the video texture.
#[derive(Debug, Clone, Copy, PartialEq, Eq, Structural)]
pub struct TextureUpload {
    /// Whether the texture, its view, its sampler and its bind group are
    /// made anew first.
    pub recreate: bool,
    /// Width of the texture in pixels.
    pub width: u32,
    /// Height of the texture in pixels.
    pub height: u32,
    /// Bytes in a row of the uploaded pixels.
    pub bytes_per_row: u32,
    /// Rows in the uploaded image.
    pub rows_per_image: u32,
}

/// Which of the renderer's GPU objects exist, and the size of its texture
/// and surface.
#[derive(Debug, Clone, Copy, PartialEq, Eq, Structural)]
pub struct RendererState {
    pub width: u32,
    pub height: u32,
    pub has_queue: bool,
    pub has_surface: bool,
    pub has_device: bool,
    pub has_pipeline: bool,
    pub has_config: bool,
    pub has_texture: bool,
    pub has_bind_group: bool,
}

/// The result of uploading a frame of `width` by `height` pixels given in
/// `data_len` bytes, in `s`.
pub open spec fn update_texture_spec(s: RendererState, data_len: nat, width: u32, height: u32) -> Result<
    TextureUpload,
    RenderError,
> {
    if !s.has_queue {
        Err(RenderError::QueueNotInitialized)
    } else if data_len < width * height * 4 {
        Err(RenderError::InvalidTextureData { expected: (width * height * 4) as u64, got: data_len as u64 })
    } else {
        Ok(
            TextureUpload {
                recreate: !s.has_texture || s.width != width || s.height != height || !s.has_bind_group,
                width,
                height,
                bytes_per_row: (width * 4) as u32,
                rows_per_image: height,
            },
        )
    }
}

impl RendererState {
    /// A renderer with nothing set up and a size of zero.
    pub fn new() -> (s: Self)
        ensures
            s.width == 0 && s.height == 0,
            !s.has_queue && !s.has_surface && !s.has_device && !s.has_pipeline && !s.has_config,
            !s.has_texture && !s.has_bind_group,
    {
        RendererState {
            width: 0,
            height: 0,
            has_queue: false,
            has_surface: false,
            has_device: false,
            has_pipeline: false,
            has_config: false,
            has_texture: false,
            has_bind_group: false,
        }
    }

    /// Plans the upload of a frame of `width` by `height` BGRA pixels given
    /// in `data_len` bytes. The queue must exist and the bytes must cover
    /// the frame; the texture is made anew when there is none yet, when
    /// the size changed, or when nothing binds it. The state then records
    /// the texture's size and that it is bound.
    pub fn update_texture(&mut self, data_len: usize, width: u32, height: u32) -> (r: Result<TextureUpload, RenderError>)
        requires
            width * height * 4 <= u32::MAX,
            width * 4 <= u32::MAX,
        ensures
            r == update_texture_spec(*old(self), data_len as nat, width, height),
            r is Ok ==> *final(self) == (RendererState {
                width,
                height,
                has_texture: true,
                has_bind_group: true,
                ..*old(self)
            }),
            r is Err ==> *final(self) == *old(self),
    {
        if !self.has_queue {
            return Err(RenderError::QueueNotInitialized);
        }
        let expected: u32 = width * height * 4;
        if (data_len as u64) < (expected as u64) {
            return Err(RenderError::InvalidTextureData { expected: expected as u64, got: data_len as u64 });
        }
        let recreate = !self.has_texture || self.width != width || self.height != height || !self.has_bind_group;
        if recreate {
            self.width = width;
            self.height = height;
            self.has_texture = true;
            self.has_bind_group = true;
        }
        Ok(TextureUpload { recreate, width, height, bytes_per_row: width * 4, rows_per_image: height })
    }

    /// Takes a new window size. A size with a zero side is ignored; else
    /// the surface, the device and the configuration must exist, and the
    /// surface is configured anew with the size. Returns whether it was.
    pub fn resize(&mut self, width: u32, height: u32) -> (r: Result<bool, RenderError>)
        ensures
            width == 0 || height == 0 ==> r == Ok::<bool, RenderError>(false) && *final(self) == *old(
                self,
            ),
            width != 0 && height != 0 ==> {
                &&& !old(self).has_surface ==> r == Err::<bool, RenderError>(
                    RenderError::SurfaceNotInitialized,
                ) && *final(self) == *old(self)
                &&& old(self).has_surface && !old(self).has_device ==> r == Err::<bool, RenderError>(
                    RenderError::DeviceNotInitialized,
                ) && *final(self) == *old(self)
                &&& old(self).has_surface && old(self).has_device && !old(self).has_config ==> r == Err::<
                    bool,
                    RenderError,
                >(RenderError::ConfigNotInitialized) && *final(self) == (RendererState {
                    width,
                    height,
                    ..*old(self)
                })
                &&& old(self).has_surface && old(self).has_device && old(self).has_config ==> r == Ok::<
                    bool,
                    RenderError,
                >(true) && *final(self) == (RendererState { width, height, ..*old(self) })
            },
    {
        if width == 0 || height == 0 {
            return Ok(false);
        }
        if !self.has_surface {
            return Err(RenderError::SurfaceNotInitialized);
        }
        if !self.has_device {
            return Err(RenderError::DeviceNotInitialized);
        }
        self.width = width;
        self.height = height;
        if !self.has_config {
            return Err(RenderError::ConfigNotInitialized);
        }
        Ok(true)
    }

    /// Checks that everything a frame is drawn with exists, in the order
    /// the renderer needs them.
    pub fn ready_to_render(&self) -> (r: Result<(), RenderError>)
        ensures
            r == (if !self.has_surface {
                Err(RenderError::SurfaceNotInitialized)
            } else if !self.has_device {
                Err(RenderError::DeviceNotInitialized)
            } else if !self.has_queue {
                Err(RenderError::QueueNotInitialized)
            } else if !self.has_pipeline {
                Err(RenderError::PipelineNotInitialized)
            } else if !self.has_bind_group {
                Err(RenderError::BindGroupNotInitialized)
            } else {
                Ok(())
            }),
    {
        if !self.has_surface {
            Err(RenderError::SurfaceNotInitialized)
        } else if !self.has_device {
            Err(RenderError::DeviceNotInitialized)
        } else if !self.has_queue {
            Err(RenderError::QueueNotInitialized)
        } else if !self.has_pipeline {
            Err(RenderError::PipelineNotInitialized)
        } else if !self.has_bind_group {
            Err(RenderError::BindGroupNotInitialized)
        } else {
            Ok(())
        }
    }

    /// The size to draw at: the window's inner size when there is a
    /// window, else the last size taken.
    pub fn size(&self, window_size: Option<(u32, u32)>) -> (s: (u32, u32))
        ensures
            s == (match window_size {
                Some(ws) => ws,
                None => (self.width, self.height),
            }),
    {
        match window_size {
            Some(ws) => ws,
            None => (self.width, self.height),
        }
    }
}

/// A window event, as far as the renderer tells them apart.
#[derive(Debug, Clone, Copy, PartialEq, Eq, Structural)]
pub enum WindowEventKind {
    CloseRequested,
    Resized { width: u32, height: u32 },
    RedrawRequested,
    Other,
}

/// What the renderer does on a window event.
#[derive(Debug, Clone, Copy, PartialEq, Eq, Structural)]
pub enum WindowAction {
    /// Leave the event loop.
    Exit,
    /// Take the new size.
    Resize { width: u32, height: u32 },
    /// Draw a frame.
    Render,
    /// Nothing.
    Ignore,
}

/// What the renderer does on `event`.
pub fn window_action(event: WindowEventKind) -> (a: WindowAction)
    ensures
        a == (match event {
            WindowEventKind::CloseRequested => WindowAction::Exit,
            WindowEventKind::Resized { width, height } => WindowAction::Resize { width, height },
            WindowEventKind::RedrawRequested => WindowAction::Render,
            WindowEventKind::Other => WindowAction::Ignore,
        }),
{
    match event {
        WindowEventKind::CloseRequested => WindowAction::Exit,
        WindowEventKind::Resized { width, height } => WindowAction::Resize { width, height },
        WindowEventKind::RedrawRequested => WindowAction::Render,
        WindowEventKind::Other => WindowAction::Ignore,
    }
}

/// The position of the surface format to use among the formats a surface
/// offers, given whether each is an sRGB format: the first sRGB one, else
/// the first one.
pub fn choose_surface_format(is_srgb: &[bool]) -> (i: usize)
    requires
        is_srgb@.len() > 0,
    ensures
        i < is_srgb@.len(),
        is_srgb@[i as int] ==> forall|j: int| 0 <= j < i ==> !#[trigger] is_srgb@[j],
        !is_srgb@[i as int] ==> i == 0 && forall|j: int| 0 <= j < is_srgb@.len() ==> !#[trigger] is_srgb@[j],
{
    let mut i: usize = 0;
    while i < is_srgb.len()
        invariant
            i <= is_srgb@.len(),
            forall|j: int| 0 <= j < i ==> !#[trigger] is_srgb@[j],
        decreases is_srgb@.len() - i,
    {
        if is_srgb[i] {
            return i;
        }
        i = i + 1;
    }
    0
}

/// Law: uploading the same size twice in a row makes the texture only the
/// first time, if at all.
pub proof fn law_same_size_keeps_texture(s: RendererState, data_len: nat, width: u32, height: u32)
    requires
        s.has_queue,
        data_len >= width * height * 4,
    ensures
        ({
            let after = RendererState { width, height, has_texture: true, has_bind_group: true, ..s };
            update_texture_spec(after, data_len, width, height) matches Ok(u) && !u.recreate
        }),
{
}

} // verus!
