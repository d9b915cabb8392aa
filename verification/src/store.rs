//! The stack of screens: the main screen and the alternate screens made
//! after it, one of which is current.

use crate::buffer::ScreenBuffer;
use crate::error::Error;
use crate::grid::{Grid, Platform};
use crate::paint::Paint;
use crate::style::{Clear, Color, Style};
use crate::text::grapheme_clusters;
use vstd::prelude::*;

verus! {

/// A screen buffer and the modes of the device while it is shown.
pub struct Screen {
    is_raw_enabled: bool,
    is_mouse_enabled: bool,
    is_cursor_visible: bool,
    buffer: ScreenBuffer,
}

/// The state of a [`Screen`].
pub struct ScreenView {
    pub raw: bool,
    pub mouse: bool,
    pub cursor_visible: bool,
    pub grid: Grid,
}

impl ScreenView {
    /// A new screen: cooked, no mouse, cursor shown, an empty grid.
    pub open spec fn new(w: int, h: int, platform: Platform) -> ScreenView {
        ScreenView { raw: false, mouse: false, cursor_visible: true, grid: Grid::new(w, h, platform) }
    }
}

impl Screen {
    pub closed spec fn view(&self) -> ScreenView {
        ScreenView {
            raw: self.is_raw_enabled,
            mouse: self.is_mouse_enabled,
            cursor_visible: self.is_cursor_visible,
            grid: self.buffer@,
        }
    }

    pub open spec fn wf(&self) -> bool {
        self@.grid.wf()
    }

    /// A screen of `w` columns and `h` rows on which a line feed keeps the
    /// column.
    pub fn new(w: i16, h: i16) -> (r: Screen)
        requires
            w > 0,
            h > 0,
        ensures
            r.wf(),
            r@ == ScreenView::new(w as int, h as int, Platform::Ansi),
    {
        Screen::with_platform(w, h, Platform::Ansi)
    }

    /// A screen of `w` columns and `h` rows.
    pub fn with_platform(w: i16, h: i16, platform: Platform) -> (r: Screen)
        requires
            w > 0,
            h > 0,
        ensures
            r.wf(),
            r@ == ScreenView::new(w as int, h as int, platform),
    {
        Screen {
            is_raw_enabled: false,
            is_mouse_enabled: false,
            is_cursor_visible: true,
            buffer: ScreenBuffer::with_platform(w, h, platform),
        }
    }
}

/// The state of a [`Store`].
pub struct StoreView {
    /// The index of the current screen.
    pub id: int,
    pub screens: Seq<ScreenView>,
    pub platform: Platform,
}

impl StoreView {
    /// At least the main screen, a current screen that exists, and every
    /// grid well formed.
    pub open spec fn wf(self) -> bool {
        &&& 0 <= self.id < self.screens.len()
        &&& forall|i: int| 0 <= i < self.screens.len() ==> (#[trigger] self.screens[i]).grid.wf()
    }

    pub open spec fn new(w: int, h: int, platform: Platform) -> StoreView {
        StoreView { id: 0, screens: seq![ScreenView::new(w, h, platform)], platform }
    }

    pub open spec fn current(self) -> ScreenView {
        self.screens[self.id]
    }

    /// The grid of the current screen.
    pub open spec fn grid(self) -> Grid {
        self.current().grid
    }

    /// The current screen replaced.
    pub open spec fn with_current(self, screen: ScreenView) -> StoreView {
        StoreView { screens: self.screens.update(self.id, screen), ..self }
    }

    /// The grid of the current screen replaced.
    pub open spec fn with_grid(self, grid: Grid) -> StoreView {
        self.with_current(ScreenView { grid, ..self.current() })
    }

    pub open spec fn contains(self, id: int) -> bool {
        0 <= id < self.screens.len()
    }

    /// Screen `id` made current.
    pub open spec fn switched(self, id: int) -> StoreView {
        StoreView { id, ..self }
    }

    /// A new screen added after the others and made current.
    pub open spec fn grown(self, w: int, h: int) -> StoreView {
        StoreView {
            id: self.screens.len() as int,
            screens: self.screens.push(ScreenView::new(w, h, self.platform)),
            ..self
        }
    }
}

/// The screens of one terminal.
pub struct Store {
    id: usize,
    data: Vec<Screen>,
    platform: Platform,
}

impl Store {
    pub closed spec fn view(&self) -> StoreView {
        StoreView {
            id: self.id as int,
            screens: Seq::new(self.data@.len(), |i: int| self.data@[i]@),
            platform: self.platform,
        }
    }

    pub open spec fn wf(&self) -> bool {
        self@.wf()
    }

    /// A store with a main screen of `w` columns and `h` rows on which a
    /// line feed keeps the column.
    pub fn new(w: i16, h: i16) -> (r: Store)
        requires
            w > 0,
            h > 0,
        ensures
            r.wf(),
            r@ == StoreView::new(w as int, h as int, Platform::Ansi),
    {
        Store::with_platform(w, h, Platform::Ansi)
    }

    /// A store with a main screen of `w` columns and `h` rows.
    pub fn with_platform(w: i16, h: i16, platform: Platform) -> (r: Store)
        requires
            w > 0,
            h > 0,
        ensures
            r.wf(),
            r@ == StoreView::new(w as int, h as int, platform),
    {
        let mut data: Vec<Screen> = Vec::new();
        data.push(Screen::with_platform(w, h, platform));
        let r = Store { id: 0, data, platform };
        proof {
            assert(r@.screens =~= seq![ScreenView::new(w as int, h as int, platform)]);
        }
        r
    }

    /// How a line feed moves the cursor on the screens of this store.
    pub fn platform(&self) -> (r: Platform)
        ensures
            r == self@.platform,
    {
        self.platform
    }

    /// The index of the current screen.
    pub fn id(&self) -> (r: usize)
        ensures
            r == self@.id,
    {
        self.id
    }

    /// Whether a screen has index `id`.
    pub fn contains(&self, id: usize) -> (r: bool)
        ensures
            r == self@.contains(id as int),
    {
        id < self.data.len()
    }

    /// Makes screen `id` current, if there is one.
    pub fn set(&mut self, id: usize) -> (r: Result<(), Error>)
        requires
            old(self).wf(),
        ensures
            final(self).wf(),
            old(self)@.contains(id as int) ==> r is Ok && final(self)@ == old(self)@.switched(
                id as int,
            ),
            !old(self)@.contains(id as int) ==> r == Err::<(), Error>(Error::NotFound(id))
                && final(self)@ == old(self)@,
    {
        if id < self.data.len() {
            self.id = id;
            return Ok(());
        }
        Err(Error::NotFound(id))
    }

    /// Adds a screen of `w` columns and `h` rows and makes it current.
    pub fn new_screen(&mut self, w: i16, h: i16)
        requires
            old(self).wf(),
            w > 0,
            h > 0,
        ensures
            final(self).wf(),
            final(self)@ == old(self)@.grown(w as int, h as int),
    {
        self.data.push(Screen::with_platform(w, h, self.platform));
        self.id = self.data.len() - 1;
        proof {
            assert(self@.screens =~= old(self)@.screens.push(
                ScreenView::new(w as int, h as int, self.platform),
            ));
        }
    }

    /// The buffer of the current screen.
    pub fn buffer(&self) -> (r: &ScreenBuffer)
        requires
            self.wf(),
        ensures
            r.wf(),
            r@ == self@.grid(),
    {
        proof {
            assert(self@.screens[self.id as int].grid.wf());
        }
        &self.data[self.id].buffer
    }

    /// The buffer of screen `id`.
    pub fn buffer_at(&self, id: usize) -> (r: &ScreenBuffer)
        requires
            self.wf(),
            self@.contains(id as int),
        ensures
            r.wf(),
            r@ == self@.screens[id as int].grid,
    {
        proof {
            assert(self@.screens[id as int].grid.wf());
        }
        &self.data[id].buffer
    }

    /// Whether screen `id` is raw, reports the mouse, and shows the cursor.
    pub fn modes_at(&self, id: usize) -> (r: (bool, bool, bool))
        requires
            self.wf(),
            self@.contains(id as int),
        ensures
            r.0 == self@.screens[id as int].raw,
            r.1 == self@.screens[id as int].mouse,
            r.2 == self@.screens[id as int].cursor_visible,
    {
        let screen = &self.data[id];
        (screen.is_raw_enabled, screen.is_mouse_enabled, screen.is_cursor_visible)
    }

    /// Records that the device now shows every cell of the current screen.
    pub fn sync_front(&mut self)
        requires
            old(self).wf(),
        ensures
            final(self).wf(),
            final(self)@ == old(self)@.with_grid(old(self)@.grid().painted()),
    {
        proof {
            assert(self@.screens[self.id as int].grid.wf());
        }
        self.data[self.id].buffer.sync_front();
        proof {
            assert(self@.screens =~= old(self)@.screens.update(
                self.id as int,
                ScreenView { grid: old(self)@.grid().painted(), ..old(self)@.current() },
            ));
        }
    }

    /// Column and row of the cursor of the current screen.
    pub fn coord(&self) -> (r: (i16, i16))
        requires
            self.wf(),
        ensures
            r.0 == self@.grid().col(),
            r.1 == self@.grid().row(),
            0 <= r.0 < self@.grid().width,
            0 <= r.1 <= self@.grid().height,
    {
        proof {
            assert(self@.screens[self.id as int].grid.wf());
        }
        self.data[self.id].buffer.coord()
    }

    /// Width and height of the current screen.
    pub fn size(&self) -> (r: (i16, i16))
        requires
            self.wf(),
        ensures
            r.0 == self@.grid().width,
            r.1 == self@.grid().height,
            r.0 > 0,
            r.1 > 0,
    {
        proof {
            assert(self@.screens[self.id as int].grid.wf());
        }
        self.data[self.id].buffer.size()
    }

    /// The glyph under the cursor of the current screen.
    pub fn getch(&self) -> (r: String)
        requires
            self.wf(),
        ensures
            r@ == self@.grid().getch(),
    {
        proof {
            assert(self@.screens[self.id as int].grid.wf());
        }
        self.data[self.id].buffer.getch()
    }

    pub fn is_raw(&self) -> (r: bool)
        requires
            self.wf(),
        ensures
            r == self@.current().raw,
    {
        self.data[self.id].is_raw_enabled
    }

    pub fn is_cursor(&self) -> (r: bool)
        requires
            self.wf(),
        ensures
            r == self@.current().cursor_visible,
    {
        self.data[self.id].is_cursor_visible
    }

    pub fn is_mouse(&self) -> (r: bool)
        requires
            self.wf(),
        ensures
            r == self@.current().mouse,
    {
        self.data[self.id].is_mouse_enabled
    }

    pub fn sync_raw(&mut self, state: bool)
        requires
            old(self).wf(),
        ensures
            final(self).wf(),
            final(self)@ == old(self)@.with_current(
                ScreenView { raw: state, ..old(self)@.current() },
            ),
    {
        self.data[self.id].is_raw_enabled = state;
        proof {
            assert(self@.screens =~= old(self)@.screens.update(
                self.id as int,
                ScreenView { raw: state, ..old(self)@.current() },
            ));
        }
    }

    /// Records whether the cursor of the current screen is shown.
    pub fn sync_cursor(&mut self, state: bool)
        requires
            old(self).wf(),
        ensures
            final(self).wf(),
            final(self)@ == old(self)@.with_current(
                ScreenView { cursor_visible: state, ..old(self)@.current() },
            ),
    {
        self.data[self.id].is_cursor_visible = state;
        proof {
            assert(self@.screens =~= old(self)@.screens.update(
                self.id as int,
                ScreenView { cursor_visible: state, ..old(self)@.current() },
            ));
        }
    }

    /// Records whether the current screen reports the mouse.
    pub fn sync_mouse(&mut self, state: bool)
        requires
            old(self).wf(),
        ensures
            final(self).wf(),
            final(self)@ == old(self)@.with_current(
                ScreenView { mouse: state, ..old(self)@.current() },
            ),
    {
        self.data[self.id].is_mouse_enabled = state;
        proof {
            assert(self@.screens =~= old(self)@.screens.update(
                self.id as int,
                ScreenView { mouse: state, ..old(self)@.current() },
            ));
        }
    }

    /// Moves the cursor of the current screen to a column and a row.
    pub fn sync_goto(&mut self, col: i16, row: i16)
        requires
            old(self).wf(),
        ensures
            final(self).wf(),
            final(self)@ == old(self)@.with_grid(old(self)@.grid().goto(col as int, row as int)),
    {
        proof {
            assert(self@.screens[self.id as int].grid.wf());
        }
        self.data[self.id].buffer.sync_coord(col, row);
        proof {
            assert(self@.screens =~= old(self)@.screens.update(
                self.id as int,
                ScreenView { grid: old(self)@.grid().goto(col as int, row as int), ..old(self)@.current() },
            ));
        }
    }

    /// Moves the cursor of the current screen to the left.
    pub fn sync_left(&mut self, n: i16)
        requires
            old(self).wf(),
        ensures
            final(self).wf(),
            final(self)@ == old(self)@.with_grid(old(self)@.grid().left(n as int)),
    {
        proof {
            assert(self@.screens[self.id as int].grid.wf());
        }
        self.data[self.id].buffer.sync_left(n);
        proof {
            assert(self@.screens =~= old(self)@.screens.update(
                self.id as int,
                ScreenView { grid: old(self)@.grid().left(n as int), ..old(self)@.current() },
            ));
        }
    }

    /// Moves the cursor of the current screen to the right.
    pub fn sync_right(&mut self, n: i16)
        requires
            old(self).wf(),
        ensures
            final(self).wf(),
            final(self)@ == old(self)@.with_grid(old(self)@.grid().right(n as int)),
    {
        proof {
            assert(self@.screens[self.id as int].grid.wf());
        }
        self.data[self.id].buffer.sync_right(n);
        proof {
            assert(self@.screens =~= old(self)@.screens.update(
                self.id as int,
                ScreenView { grid: old(self)@.grid().right(n as int), ..old(self)@.current() },
            ));
        }
    }

    /// Moves the cursor of the current screen up.
    pub fn sync_up(&mut self, n: i16)
        requires
            old(self).wf(),
        ensures
            final(self).wf(),
            final(self)@ == old(self)@.with_grid(old(self)@.grid().up(n as int)),
    {
        proof {
            assert(self@.screens[self.id as int].grid.wf());
        }
        self.data[self.id].buffer.sync_up(n);
        proof {
            assert(self@.screens =~= old(self)@.screens.update(
                self.id as int,
                ScreenView { grid: old(self)@.grid().up(n as int), ..old(self)@.current() },
            ));
        }
    }

    /// Moves the cursor of the current screen down.
    pub fn sync_down(&mut self, n: i16)
        requires
            old(self).wf(),
        ensures
            final(self).wf(),
            final(self)@ == old(self)@.with_grid(old(self)@.grid().down(n as int)),
    {
        proof {
            assert(self@.screens[self.id as int].grid.wf());
        }
        self.data[self.id].buffer.sync_down(n);
        proof {
            assert(self@.screens =~= old(self)@.screens.update(
                self.id as int,
                ScreenView { grid: old(self)@.grid().down(n as int), ..old(self)@.current() },
            ));
        }
    }

    /// Swaps cursor and marker of the current screen.
    pub fn jump(&mut self)
        requires
            old(self).wf(),
        ensures
            final(self).wf(),
            final(self)@ == old(self)@.with_grid(old(self)@.grid().jump()),
    {
        proof {
            assert(self@.screens[self.id as int].grid.wf());
        }
        self.data[self.id].buffer.jump();
        proof {
            assert(self@.screens =~= old(self)@.screens.update(
                self.id as int,
                ScreenView { grid: old(self)@.grid().jump(), ..old(self)@.current() },
            ));
        }
    }

    /// Sets the marker of the current screen.
    pub fn sync_marker(&mut self, col: i16, row: i16)
        requires
            old(self).wf(),
        ensures
            final(self).wf(),
            final(self)@ == old(self)@.with_grid(old(self)@.grid().mark(col as int, row as int)),
    {
        proof {
            assert(self@.screens[self.id as int].grid.wf());
        }
        self.data[self.id].buffer.sync_marker(col, row);
        proof {
            assert(self@.screens =~= old(self)@.screens.update(
                self.id as int,
                ScreenView { grid: old(self)@.grid().mark(col as int, row as int), ..old(self)@.current() },
            ));
        }
    }

    /// Changes the window of the current screen.
    pub fn sync_size(&mut self, w: i16, h: i16)
        requires
            old(self).wf(),
            w > 0,
            h > 0,
        ensures
            final(self).wf(),
            final(self)@ == old(self)@.with_grid(old(self)@.grid().resized(w as int, h as int)),
    {
        proof {
            assert(self@.screens[self.id as int].grid.wf());
        }
        self.data[self.id].buffer.sync_size(w, h);
        proof {
            assert(self@.screens =~= old(self)@.screens.update(
                self.id as int,
                ScreenView { grid: old(self)@.grid().resized(w as int, h as int), ..old(self)@.current() },
            ));
        }
    }

    /// Sets the distance between tab stops of the current screen.
    pub fn sync_tab_size(&mut self, n: usize)
        requires
            old(self).wf(),
            n > 0,
        ensures
            final(self).wf(),
            final(self)@ == old(self)@.with_grid(old(self)@.grid().with_tab_size(n as int)),
    {
        proof {
            assert(self@.screens[self.id as int].grid.wf());
        }
        self.data[self.id].buffer.sync_tab_size(n);
        proof {
            assert(self@.screens =~= old(self)@.screens.update(
                self.id as int,
                ScreenView { grid: old(self)@.grid().with_tab_size(n as int), ..old(self)@.current() },
            ));
        }
    }

    /// Writes `content` at the cursor of the current screen.
    pub fn sync_content(&mut self, content: &str)
        requires
            old(self).wf(),
        ensures
            final(self).wf(),
            final(self)@ == old(self)@.with_grid(old(self)@.grid().content(grapheme_clusters(content@))),
    {
        proof {
            assert(self@.screens[self.id as int].grid.wf());
        }
        self.data[self.id].buffer.sync_content(content);
        proof {
            assert(self@.screens =~= old(self)@.screens.update(
                self.id as int,
                ScreenView { grid: old(self)@.grid().content(grapheme_clusters(content@)), ..old(self)@.current() },
            ));
        }
    }

    /// Replaces one component of the active style of the current screen.
    pub fn sync_style(&mut self, style: Style)
        requires
            old(self).wf(),
        ensures
            final(self).wf(),
            final(self)@ == old(self)@.with_grid(old(self)@.grid().with_style(style)),
    {
        proof {
            assert(self@.screens[self.id as int].grid.wf());
        }
        self.data[self.id].buffer.sync_style(style);
        proof {
            assert(self@.screens =~= old(self)@.screens.update(
                self.id as int,
                ScreenView { grid: old(self)@.grid().with_style(style), ..old(self)@.current() },
            ));
        }
    }

    /// Replaces the active style of the current screen.
    pub fn sync_styles(&mut self, f: Color, b: Color, fx: u32)
        requires
            old(self).wf(),
        ensures
            final(self).wf(),
            final(self)@ == old(self)@.with_grid(old(self)@.grid().with_styles(f, b, fx)),
    {
        proof {
            assert(self@.screens[self.id as int].grid.wf());
        }
        self.data[self.id].buffer.sync_styles(f, b, fx);
        proof {
            assert(self@.screens =~= old(self)@.screens.update(
                self.id as int,
                ScreenView { grid: old(self)@.grid().with_styles(f, b, fx), ..old(self)@.current() },
            ));
        }
    }

    /// Empties a region of the current screen.
    pub fn sync_clear(&mut self, clr: Clear)
        requires
            old(self).wf(),
        ensures
            final(self).wf(),
            final(self)@ == old(self)@.with_grid(old(self)@.grid().cleared(clr)),
    {
        proof {
            assert(self@.screens[self.id as int].grid.wf());
        }
        self.data[self.id].buffer.sync_clear(clr);
        proof {
            assert(self@.screens =~= old(self)@.screens.update(
                self.id as int,
                ScreenView { grid: old(self)@.grid().cleared(clr), ..old(self)@.current() },
            ));
        }
    }

    /// Deletes the glyph under the cursor of the current screen.
    pub fn delch(&mut self)
        requires
            old(self).wf(),
        ensures
            final(self).wf(),
            final(self)@ == old(self)@.with_grid(old(self)@.grid().delch()),
    {
        proof {
            assert(self@.screens[self.id as int].grid.wf());
        }
        self.data[self.id].buffer.delch();
        proof {
            assert(self@.screens =~= old(self)@.screens.update(
                self.id as int,
                ScreenView { grid: old(self)@.grid().delch(), ..old(self)@.current() },
            ));
        }
    }

    /// Paints the whole current screen and returns the writes.
    pub fn render(&mut self) -> (out: Vec<Paint>)
        requires
            old(self).wf(),
        ensures
            final(self).wf(),
            final(self)@ == old(self)@.with_grid(old(self)@.grid().painted()),
            out@ == old(self)@.grid().render_paint(),
    {
        proof {
            assert(self@.screens[self.id as int].grid.wf());
        }
        let out = self.data[self.id].buffer.render();
        proof {
            assert(self@.screens =~= old(self)@.screens.update(
                self.id as int,
                ScreenView { grid: old(self)@.grid().painted(), ..old(self)@.current() },
            ));
        }
        out
    }

    /// Paints what changed on the current screen and returns the writes.
    pub fn refresh(&mut self) -> (out: Vec<Paint>)
        requires
            old(self).wf(),
        ensures
            final(self).wf(),
            final(self)@ == old(self)@.with_grid(old(self)@.grid().painted()),
            out@ == old(self)@.grid().refresh_paint(),
    {
        proof {
            assert(self@.screens[self.id as int].grid.wf());
        }
        let out = self.data[self.id].buffer.refresh();
        proof {
            assert(self@.screens =~= old(self)@.screens.update(
                self.id as int,
                ScreenView { grid: old(self)@.grid().painted(), ..old(self)@.current() },
            ));
        }
        out
    }
}

} // verus!
