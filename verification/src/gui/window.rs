//! What the window is opened with: its sizes, its flags and its icon.

use vstd::prelude::*;

verus! {

/// The family of operating system that the application runs on.
#[derive(Debug, Clone, Copy, PartialEq, Eq, Structural)]
pub enum Platform {
    Windows,
    Linux,
    Other,
}

/// The graphics backend that draws the interface.
#[derive(Debug, Clone, Copy, PartialEq, Eq, Structural)]
pub enum Renderer {
    Wgpu,
    OpenGl,
}

/// The settings of the window that the runtime is started with.
#[derive(Debug, Clone, Copy, PartialEq, Eq)]
pub struct WindowSettings {
    /// Width and height of the window when it opens.
    pub size: (u32, u32),
    /// The smallest width and height the window can be given, if bounded.
    pub min_size: Option<(u32, u32)>,
    /// Whether a request to close the window ends the application.
    pub exit_on_close_request: bool,
    /// Whether edges are smoothed.
    pub antialiasing: bool,
}

/// The settings for a window on `platform`, drawn by `renderer`, where the
/// configuration asks for `window_size` and the command line for
/// `antialiasing`, each of which may be left open.
pub open spec fn spec_window_settings(
    platform: Platform,
    renderer: Renderer,
    window_size: Option<(u32, u32)>,
    antialiasing: Option<bool>,
) -> WindowSettings {
    WindowSettings {
        size: match window_size {
            Some(size) => size,
            None => (900, 620),
        },
        min_size: if platform == Platform::Linux {
            None
        } else {
            Some((600u32, 300u32))
        },
        exit_on_close_request: platform != Platform::Windows,
        antialiasing: match antialiasing {
            Some(wanted) => wanted,
            None => renderer == Renderer::Wgpu,
        },
    }
}

/// The settings of the window. Without a configured size the window opens
/// 900 wide and 620 high. It cannot be made smaller than 600 by 300,
/// except on Linux, where no bound is set. On Windows closing the window
/// does not end the application, which lives on in the tray. Antialiasing
/// follows the command line; left open, it is on for wgpu and off for
/// OpenGL.
pub fn window_settings(
    platform: Platform,
    renderer: Renderer,
    window_size: Option<(u32, u32)>,
    antialiasing: Option<bool>,
) -> (settings: WindowSettings)
    ensures
        settings == spec_window_settings(platform, renderer, window_size, antialiasing),
{
    let size = match window_size {
        Some(size) => size,
        None => (900, 620),
    };
    let min_size = match platform {
        Platform::Linux => None,
        _ => Some((600, 300)),
    };
    let exit_on_close_request = match platform {
        Platform::Windows => false,
        _ => true,
    };
    let antialiasing = match antialiasing {
        Some(wanted) => wanted,
        None => match renderer {
            Renderer::Wgpu => true,
            Renderer::OpenGl => false,
        },
    };
    WindowSettings { size, min_size, exit_on_close_request, antialiasing }
}

/// What decoding the bytes of an ICO file gives: the pixels of the picture
/// as 8-bit RGBA, row by row, with its width and height; or nothing where
/// the bytes are not a picture that the decoder reads.
pub uninterp spec fn ico_pixels(bytes: Seq<u8>) -> Option<(Seq<u8>, u32, u32)>;

/// `image::load_from_memory_with_format` of the image crate with the format
/// `ImageFormat::Ico`, the picture then converted by `DynamicImage::to_rgba8`
/// and taken apart by `dimensions` and `into_raw`. The result depends on
/// the bytes alone, which is all that is claimed of it; bytes that the
/// decoder rejects, which it reports as an error, give `None`.
#[verifier::external_body]
fn decode_ico(bytes: &[u8]) -> (decoded: Option<(Vec<u8>, u32, u32)>)
    ensures
        match decoded {
            Some((rgba, width, height)) => ico_pixels(bytes@) == Some((rgba@, width, height)),
            None => ico_pixels(bytes@) is None,
        },
{
    match image::load_from_memory_with_format(bytes, image::ImageFormat::Ico) {
        Ok(picture) => {
            let rgba = picture.to_rgba8();
            let (width, height) = rgba.dimensions();
            Some((rgba.into_raw(), width, height))
        },
        Err(_) => None,
    }
}

/// Whether `rgba` holds exactly the pixels of a picture of the given width
/// and height, four bytes for each pixel.
pub open spec fn fits(rgba: Seq<u8>, width: u32, height: u32) -> bool {
    rgba.len() == 4 * (width * height)
}

/// The icon of the window: 8-bit RGBA pixels, row by row, with the width
/// and height of the picture. There are always four bytes for each pixel.
#[derive(Debug)]
pub struct WindowIcon {
    rgba: Vec<u8>,
    width: u32,
    height: u32,
}

impl View for WindowIcon {
    type V = (Seq<u8>, u32, u32);

    closed spec fn view(&self) -> (Seq<u8>, u32, u32) {
        (self.rgba@, self.width, self.height)
    }
}

/// The icon made of a decoded picture, where there is a picture and its
/// pixels fit its width and height.
pub open spec fn icon_of(decoded: Option<(Seq<u8>, u32, u32)>) -> Option<(Seq<u8>, u32, u32)> {
    match decoded {
        Some((rgba, width, height)) => if fits(rgba, width, height) {
            decoded
        } else {
            None
        },
        None => None,
    }
}

impl WindowIcon {
    #[verifier::type_invariant]
    spec fn pixels_fit(self) -> bool {
        fits(self.rgba@, self.width, self.height)
    }

    /// An icon of the given pixels, if they fit the width and height.
    pub fn from_rgba(rgba: Vec<u8>, width: u32, height: u32) -> (icon: Option<WindowIcon>)
        ensures
            match icon {
                Some(made) => fits(rgba@, width, height) && made@ == (rgba@, width, height),
                None => !fits(rgba@, width, height),
            },
    {
        assert(width * height <= 0xffff_ffff * 0xffff_ffff) by (nonlinear_arith)
            requires
                0 <= width <= 0xffff_ffff,
                0 <= height <= 0xffff_ffff,
        ;
        let pixels: u128 = (width as u128) * (height as u128);
        if rgba.len() as u128 == 4 * pixels {
            Some(WindowIcon { rgba, width, height })
        } else {
            None
        }
    }

    /// The icon that a decoded picture makes, if any.
    pub fn from_decoded(decoded: Option<(Vec<u8>, u32, u32)>) -> (icon: Option<WindowIcon>)
        ensures
            match icon {
                Some(made) => decoded matches Some((rgba, width, height)) && fits(
                    rgba@,
                    width,
                    height,
                ) && made@ == (rgba@, width, height),
                None => decoded matches Some((rgba, width, height)) ==> !fits(
                    rgba@,
                    width,
                    height,
                ),
            },
    {
        match decoded {
            Some((rgba, width, height)) => WindowIcon::from_rgba(rgba, width, height),
            None => None,
        }
    }

    /// The width of the picture in pixels.
    pub fn width(&self) -> (width: u32)
        ensures
            width == self@.1,
    {
        self.width
    }

    /// The height of the picture in pixels.
    pub fn height(&self) -> (height: u32)
        ensures
            height == self@.2,
    {
        self.height
    }

    /// The pixels of the picture.
    pub fn rgba(&self) -> (rgba: &Vec<u8>)
        ensures
            rgba@ == self@.0,
            fits(rgba@, self@.1, self@.2),
    {
        proof {
            use_type_invariant(self);
        }
        &self.rgba
    }

    /// The pixels, the width and the height, for the window system.
    pub fn into_rgba(self) -> (parts: (Vec<u8>, u32, u32))
        ensures
            (parts.0@, parts.1, parts.2) == self@,
            fits(parts.0@, parts.1, parts.2),
    {
        proof {
            use_type_invariant(&self);
        }
        (self.rgba, self.width, self.height)
    }
}

/// The icon of the window, decoded from the bytes of an ICO file; nothing
/// where the bytes are no such file.
pub fn window_icon(bytes: &[u8]) -> (icon: Option<WindowIcon>)
    ensures
        match icon {
            Some(made) => icon_of(ico_pixels(bytes@)) == Some(made@),
            None => icon_of(ico_pixels(bytes@)) is None,
        },
{
    WindowIcon::from_decoded(decode_ico(bytes))
}

} // verus!
