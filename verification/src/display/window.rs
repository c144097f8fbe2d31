use vstd::prelude::*;
use vstd::string::StringExecFns;
use crate::display::types::Size;

verus! {

/// Basic operations any window provides.
pub trait Window {
    fn show(&self);

    fn close(&self);

    fn center(&self);
}

/// A window that owns a graphics context with a swappable back buffer.
pub trait GLWindow: Window {
    fn swap_buffers(&mut self);
}

/// What a window is created with: title, size and behaviour flags.
/// Built with the `with_` methods starting from `default()`.
#[derive(Debug, Clone)]
pub struct WindowSettings {
    title: String,
    size: Size,
    vsync: bool,
    resizable: bool,
    visible: bool,
    exit_on_esc: bool,
}

impl Default for WindowSettings {
    fn default() -> (r: Self)
        ensures
            r.spec_title() == "DIEGO"@,
            r.spec_size() == (Size { width: 800, height: 600 }),
            !r.spec_vsync(),
            !r.spec_resizable(),
            r.spec_visible(),
            r.spec_exit_on_esc(),
    {
        WindowSettings {
            title: String::from_str("DIEGO"),
            size: Size::new(800, 600),
            vsync: false,
            resizable: false,
            visible: true,
            exit_on_esc: true,
        }
    }
}

impl WindowSettings {
    pub closed spec fn spec_title(self) -> Seq<char> {
        self.title@
    }

    pub closed spec fn spec_size(self) -> Size {
        self.size
    }

    pub closed spec fn spec_vsync(self) -> bool {
        self.vsync
    }

    pub closed spec fn spec_resizable(self) -> bool {
        self.resizable
    }

    pub closed spec fn spec_visible(self) -> bool {
        self.visible
    }

    pub closed spec fn spec_exit_on_esc(self) -> bool {
        self.exit_on_esc
    }

    pub fn with_title(self, title: &str) -> (r: Self)
        ensures
            r.spec_title() == title@,
            r.spec_size() == self.spec_size(),
            r.spec_vsync() == self.spec_vsync(),
            r.spec_resizable() == self.spec_resizable(),
            r.spec_visible() == self.spec_visible(),
            r.spec_exit_on_esc() == self.spec_exit_on_esc(),
    {
        WindowSettings { title: String::from_str(title), ..self }
    }

    pub fn with_size(self, size: Size) -> (r: Self)
        ensures
            r.spec_size() == size,
            r.spec_title() == self.spec_title(),
            r.spec_vsync() == self.spec_vsync(),
            r.spec_resizable() == self.spec_resizable(),
            r.spec_visible() == self.spec_visible(),
            r.spec_exit_on_esc() == self.spec_exit_on_esc(),
    {
        WindowSettings { size, ..self }
    }

    pub fn with_vsync(self, vsync: bool) -> (r: Self)
        ensures
            r.spec_vsync() == vsync,
            r.spec_title() == self.spec_title(),
            r.spec_size() == self.spec_size(),
            r.spec_resizable() == self.spec_resizable(),
            r.spec_visible() == self.spec_visible(),
            r.spec_exit_on_esc() == self.spec_exit_on_esc(),
    {
        WindowSettings { vsync, ..self }
    }

    pub fn with_resizable(self, resizable: bool) -> (r: Self)
        ensures
            r.spec_resizable() == resizable,
            r.spec_title() == self.spec_title(),
            r.spec_size() == self.spec_size(),
            r.spec_vsync() == self.spec_vsync(),
            r.spec_visible() == self.spec_visible(),
            r.spec_exit_on_esc() == self.spec_exit_on_esc(),
    {
        WindowSettings { resizable, ..self }
    }

    pub fn with_visible(self, visible: bool) -> (r: Self)
        ensures
            r.spec_visible() == visible,
            r.spec_title() == self.spec_title(),
            r.spec_size() == self.spec_size(),
            r.spec_vsync() == self.spec_vsync(),
            r.spec_resizable() == self.spec_resizable(),
            r.spec_exit_on_esc() == self.spec_exit_on_esc(),
    {
        WindowSettings { visible, ..self }
    }

    pub fn with_exit_on_esc(self, exit_on_esc: bool) -> (r: Self)
        ensures
            r.spec_exit_on_esc() == exit_on_esc,
            r.spec_title() == self.spec_title(),
            r.spec_size() == self.spec_size(),
            r.spec_vsync() == self.spec_vsync(),
            r.spec_resizable() == self.spec_resizable(),
            r.spec_visible() == self.spec_visible(),
    {
        WindowSettings { exit_on_esc, ..self }
    }

    pub fn get_title(&self) -> (r: &str)
        ensures
            r@ == self.spec_title(),
    {
        self.title.as_str()
    }

    pub fn get_size(&self) -> (r: Size)
        ensures
            r == self.spec_size(),
    {
        self.size
    }

    pub fn get_resizable(&self) -> (r: bool)
        ensures
            r == self.spec_resizable(),
    {
        self.resizable
    }

    pub fn get_visible(&self) -> (r: bool)
        ensures
            r == self.spec_visible(),
    {
        self.visible
    }

    pub fn get_exit_on_esc(&self) -> (r: bool)
        ensures
            r == self.spec_exit_on_esc(),
    {
        self.exit_on_esc
    }
}

} // verus!
