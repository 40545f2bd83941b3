//! The native-console backend: every request is a list of console calls,
//! worked out from the screen buffer information that the console gave.

use vstd::prelude::*;
use crate::clear_type::ClearType;

verus! {

/// What the console reports about its screen buffer: the buffer's size in
/// cells, the cursor's cell, and the window, which is the part of the buffer
/// that is shown. All coordinates count from zero; the window's four edges
/// are the first and last column and row shown.
#[derive(Clone, Copy, Debug, PartialEq, Eq, Structural)]
pub struct ScreenInfo {
    pub width: i16,
    pub height: i16,
    pub cursor_x: i16,
    pub cursor_y: i16,
    pub left: i16,
    pub top: i16,
    pub right: i16,
    pub bottom: i16,
}

/// One call for the console to carry out.
#[derive(Clone, Copy, Debug, PartialEq, Eq, Structural)]
pub enum ConsoleCall {
    /// Write blanks into `cells` cells, row after row, from the cell (x, y) on.
    Fill { x: i16, y: i16, cells: u32 },
    /// Put the cursor on the cell (x, y).
    MoveCursor { x: i16, y: i16 },
    /// Give the screen buffer this size.
    ResizeBuffer { width: i16, height: i16 },
    /// Show these columns and rows of the buffer.
    MoveWindow { left: i16, top: i16, right: i16, bottom: i16 },
}

impl ScreenInfo {
    /// Whether the report makes sense: the buffer has cells, and the cursor and
    /// the window lie inside it.
    pub open spec fn coherent(self) -> bool {
        &&& 1 <= self.width
        &&& 1 <= self.height
        &&& 0 <= self.cursor_x < self.width
        &&& 0 <= self.cursor_y < self.height
        &&& 0 <= self.left <= self.right < self.width
        &&& 0 <= self.top <= self.bottom < self.height
    }

    /// How many cells the buffer has.
    pub open spec fn cells(self) -> int {
        self.width * self.height
    }

    /// How many cells come before the cell (x, y), row after row.
    pub open spec fn cells_before(self, x: int, y: int) -> int {
        y * self.width + x
    }

    /// Whether the report makes sense.
    pub fn is_coherent(&self) -> (ok: bool)
        ensures
            ok == self.coherent(),
    {
        1 <= self.width && 1 <= self.height && 0 <= self.cursor_x && self.cursor_x < self.width
            && 0 <= self.cursor_y && self.cursor_y < self.height && 0 <= self.left && self.left
            <= self.right && self.right < self.width && 0 <= self.top && self.top <= self.bottom
            && self.bottom < self.height
    }
}

/// The cell at which clearing starts.
pub open spec fn clear_start(clear_type: ClearType, screen: ScreenInfo) -> (int, int) {
    match clear_type {
        ClearType::All => (0, 0),
        ClearType::FromCursorDown => (screen.cursor_x as int, screen.cursor_y as int),
        ClearType::FromCursorUp => (0, 0),
        ClearType::CurrentLine => (0, screen.cursor_y as int),
        ClearType::UntilNewLine => (screen.cursor_x as int, screen.cursor_y as int),
    }
}

/// How many cells are cleared.
pub open spec fn clear_cells(clear_type: ClearType, screen: ScreenInfo) -> int {
    let cursor = screen.cells_before(screen.cursor_x as int, screen.cursor_y as int);
    match clear_type {
        ClearType::All => screen.cells(),
        ClearType::FromCursorDown => screen.cells() - cursor,
        ClearType::FromCursorUp => cursor + 1,
        ClearType::CurrentLine => screen.width as int,
        ClearType::UntilNewLine => screen.width - screen.cursor_x,
    }
}

/// The calls that clear a region: one fill, and after clearing everything the
/// cursor goes to the first cell. A report that makes no sense gives no calls.
pub open spec fn clear_calls(clear_type: ClearType, screen: ScreenInfo) -> Seq<ConsoleCall> {
    if !screen.coherent() {
        Seq::empty()
    } else {
        let (x, y) = clear_start(clear_type, screen);
        let fill = ConsoleCall::Fill {
            x: x as i16,
            y: y as i16,
            cells: clear_cells(clear_type, screen) as u32,
        };
        if clear_type == ClearType::All {
            seq![fill, ConsoleCall::MoveCursor { x: 0, y: 0 }]
        } else {
            seq![fill]
        }
    }
}

/// The size of the window as (columns, rows); (0, 0) for a report that makes
/// no sense.
pub open spec fn window_size(screen: ScreenInfo) -> (u16, u16) {
    if screen.coherent() {
        ((screen.right - screen.left + 1) as u16, (screen.bottom - screen.top + 1) as u16)
    } else {
        (0u16, 0u16)
    }
}

/// The calls that move the window `lines` rows down the buffer (up, where
/// `lines` is negative). There are none where `lines` is zero, where the
/// window would leave the buffer, or where the report makes no sense.
pub open spec fn shift_calls(screen: ScreenInfo, lines: int) -> Seq<ConsoleCall> {
    if screen.coherent() && lines != 0 && 0 <= screen.top + lines && screen.bottom + lines
        < screen.height {
        seq![
            ConsoleCall::MoveWindow {
                left: screen.left,
                top: (screen.top + lines) as i16,
                right: screen.right,
                bottom: (screen.bottom + lines) as i16,
            },
        ]
    } else {
        Seq::empty()
    }
}

/// The calls that scroll up by `count` lines.
pub open spec fn scroll_up_calls(count: i16, screen: ScreenInfo) -> Seq<ConsoleCall> {
    shift_calls(screen, -count)
}

/// The calls that scroll down by `count` lines.
pub open spec fn scroll_down_calls(count: i16, screen: ScreenInfo) -> Seq<ConsoleCall> {
    shift_calls(screen, count as int)
}

/// Whether a window of `width` columns and `height` rows can be asked for: both
/// are positive, and from the window's place the new edges can be written down.
pub open spec fn can_resize(width: i16, height: i16, screen: ScreenInfo) -> bool {
    &&& screen.coherent()
    &&& width > 0
    &&& height > 0
    &&& screen.left + width <= i16::MAX
    &&& screen.top + height <= i16::MAX
}

/// The calls that give the window `width` columns and `height` rows where it
/// stands: the buffer is enlarged first where it is too small for that. There
/// are none where the window cannot be asked for.
pub open spec fn resize_calls(width: i16, height: i16, screen: ScreenInfo) -> Seq<ConsoleCall> {
    if can_resize(width, height, screen) {
        let window = ConsoleCall::MoveWindow {
            left: screen.left,
            top: screen.top,
            right: (screen.left + width - 1) as i16,
            bottom: (screen.top + height - 1) as i16,
        };
        if screen.left + width > screen.width || screen.top + height > screen.height {
            seq![
                ConsoleCall::ResizeBuffer {
                    width: if screen.left + width > screen.width {
                        (screen.left + width) as i16
                    } else {
                        screen.width
                    },
                    height: if screen.top + height > screen.height {
                        (screen.top + height) as i16
                    } else {
                        screen.height
                    },
                },
                window,
            ]
        } else {
            seq![window]
        }
    } else {
        Seq::empty()
    }
}

/// What the console reports once it has carried out `call` to the letter.
pub open spec fn after_call(screen: ScreenInfo, call: ConsoleCall) -> ScreenInfo {
    match call {
        ConsoleCall::Fill { .. } => screen,
        ConsoleCall::MoveCursor { x, y } => ScreenInfo { cursor_x: x, cursor_y: y, ..screen },
        ConsoleCall::ResizeBuffer { width, height } => ScreenInfo { width, height, ..screen },
        ConsoleCall::MoveWindow { left, top, right, bottom } => ScreenInfo {
            left,
            top,
            right,
            bottom,
            ..screen
        },
    }
}

/// What the console reports once it has carried out `calls`, in order, to the
/// letter.
pub open spec fn after(screen: ScreenInfo, calls: Seq<ConsoleCall>) -> ScreenInfo
    decreases calls.len(),
{
    if calls.len() == 0 {
        screen
    } else {
        after(after_call(screen, calls.first()), calls.drop_first())
    }
}

/// The row of the cursor lies inside the buffer, and the cells of the buffer
/// can be counted in 32 bits.
proof fn cursor_row_fits(screen: ScreenInfo)
    requires
        screen.coherent(),
    ensures
        0 <= screen.cursor_y * screen.width,
        screen.cursor_y * screen.width + screen.width <= screen.cells() <= i16::MAX * i16::MAX,
{
    let w = screen.width as int;
    let h = screen.height as int;
    let y = screen.cursor_y as int;
    assert(0 <= y * w && y * w + w <= w * h && w * h <= 32767 * 32767) by (nonlinear_arith)
        requires
            0 <= y < h <= 32767,
            1 <= w <= 32767,
    ;
}

/// A clear never reaches past the end of the buffer, and always clears at
/// least one cell.
pub proof fn clear_stays_inside(clear_type: ClearType, screen: ScreenInfo)
    requires
        screen.coherent(),
    ensures
        0 <= clear_start(clear_type, screen).0 < screen.width,
        0 <= clear_start(clear_type, screen).1 < screen.height,
        1 <= clear_cells(clear_type, screen),
        screen.cells_before(clear_start(clear_type, screen).0, clear_start(clear_type, screen).1)
            + clear_cells(clear_type, screen) <= screen.cells() <= i16::MAX * i16::MAX,
{
    cursor_row_fits(screen);
    assert(0 * screen.width == 0);
}

/// The window comes back: where the console honours each request to the
/// letter, and scrolling up by `count` is possible (the window stays inside
/// the buffer) or `count` is zero, scrolling up by `count` and then down by
/// `count` leaves the console reporting what it reported at first.
pub proof fn scroll_round_trip(screen: ScreenInfo, count: i16)
    requires
        screen.coherent(),
        count == 0 || (0 <= screen.top - count && screen.bottom - count < screen.height),
    ensures
        ({
            let up = after(screen, scroll_up_calls(count, screen));
            after(up, scroll_down_calls(count, up)) == screen
        }),
{
    reveal_with_fuel(after, 2);
    let up = after(screen, scroll_up_calls(count, screen));
    if count != 0 {
        assert(scroll_up_calls(count, screen).drop_first() =~= Seq::<ConsoleCall>::empty());
        assert(up.coherent());
        assert(scroll_down_calls(count, up).drop_first() =~= Seq::<ConsoleCall>::empty());
    }
}

/// A resize is read back: where the window can be asked for and the console
/// honours the request to the letter, the size it then reports is the one that
/// was asked for.
pub proof fn resize_then_size(screen: ScreenInfo, width: i16, height: i16)
    requires
        can_resize(width, height, screen),
    ensures
        after(screen, resize_calls(width, height, screen)).coherent(),
        window_size(after(screen, resize_calls(width, height, screen))) == (
            width as u16,
            height as u16,
        ),
{
    reveal_with_fuel(after, 3);
    let calls = resize_calls(width, height, screen);
    if calls.len() == 2 {
        assert(calls.drop_first().drop_first() =~= Seq::<ConsoleCall>::empty());
        assert(calls.drop_first().first() == calls[1]);
    } else {
        assert(calls.drop_first() =~= Seq::<ConsoleCall>::empty());
    }
}

/// The calls that clear the region named by `clear_type`.
pub fn clear(clear_type: ClearType, screen: &ScreenInfo) -> (calls: Vec<ConsoleCall>)
    ensures
        calls@ == clear_calls(clear_type, *screen),
{
    if !screen.is_coherent() {
        return Vec::new();
    }
    proof {
        cursor_row_fits(*screen);
    }
    let width: u32 = screen.width as u32;
    let height: u32 = screen.height as u32;
    let x: u32 = screen.cursor_x as u32;
    let y: u32 = screen.cursor_y as u32;
    let total: u32 = width * height;
    let before: u32 = y * width + x;
    let fill = match clear_type {
        ClearType::All => ConsoleCall::Fill { x: 0, y: 0, cells: total },
        ClearType::FromCursorDown => ConsoleCall::Fill {
            x: screen.cursor_x,
            y: screen.cursor_y,
            cells: total - before,
        },
        ClearType::FromCursorUp => ConsoleCall::Fill { x: 0, y: 0, cells: before + 1 },
        ClearType::CurrentLine => ConsoleCall::Fill { x: 0, y: screen.cursor_y, cells: width },
        ClearType::UntilNewLine => ConsoleCall::Fill {
            x: screen.cursor_x,
            y: screen.cursor_y,
            cells: width - x,
        },
    };
    let mut calls: Vec<ConsoleCall> = Vec::new();
    calls.push(fill);
    match clear_type {
        ClearType::All => {
            calls.push(ConsoleCall::MoveCursor { x: 0, y: 0 });
        },
        _ => {},
    }
    assert(calls@ =~= clear_calls(clear_type, *screen));
    calls
}

/// The size of the window as (columns, rows); (0, 0) where the report makes
/// no sense.
pub fn terminal_size(screen: &ScreenInfo) -> (size: (u16, u16))
    ensures
        size == window_size(*screen),
{
    if !screen.is_coherent() {
        return (0, 0);
    }
    ((screen.right - screen.left + 1) as u16, (screen.bottom - screen.top + 1) as u16)
}

/// The calls that move the window `lines` rows down the buffer.
fn shift(screen: &ScreenInfo, lines: i32) -> (calls: Vec<ConsoleCall>)
    requires
        -0x8000 <= lines <= 0x8000,
    ensures
        calls@ == shift_calls(*screen, lines as int),
{
    if !screen.is_coherent() || lines == 0 {
        return Vec::new();
    }
    let top: i32 = screen.top as i32 + lines;
    let bottom: i32 = screen.bottom as i32 + lines;
    if top < 0 || bottom >= screen.height as i32 {
        return Vec::new();
    }
    let calls = vec![
        ConsoleCall::MoveWindow {
            left: screen.left,
            top: top as i16,
            right: screen.right,
            bottom: bottom as i16,
        },
    ];
    assert(calls@ =~= shift_calls(*screen, lines as int));
    calls
}

/// The calls that scroll the window up by `count` lines. A negative count
/// scrolls down instead. There are none where `count` is zero or the window
/// would leave the buffer.
pub fn scroll_up(count: i16, screen: &ScreenInfo) -> (calls: Vec<ConsoleCall>)
    ensures
        calls@ == scroll_up_calls(count, *screen),
{
    shift(screen, -(count as i32))
}

/// The calls that scroll the window down by `count` lines. A negative count
/// scrolls up instead. There are none where `count` is zero or the window
/// would leave the buffer.
pub fn scroll_down(count: i16, screen: &ScreenInfo) -> (calls: Vec<ConsoleCall>)
    ensures
        calls@ == scroll_down_calls(count, *screen),
{
    shift(screen, count as i32)
}

/// The calls that give the window `width` columns and `height` rows. There
/// are none where the window cannot be asked for.
pub fn set_size(width: i16, height: i16, screen: &ScreenInfo) -> (calls: Vec<ConsoleCall>)
    ensures
        calls@ == resize_calls(width, height, *screen),
{
    if !screen.is_coherent() || width <= 0 || height <= 0 {
        return Vec::new();
    }
    let columns: i32 = screen.left as i32 + width as i32;
    let rows: i32 = screen.top as i32 + height as i32;
    if columns > 0x7fff || rows > 0x7fff {
        return Vec::new();
    }
    let mut calls: Vec<ConsoleCall> = Vec::new();
    if columns > screen.width as i32 || rows > screen.height as i32 {
        calls.push(
            ConsoleCall::ResizeBuffer {
                width: if columns > screen.width as i32 {
                    columns as i16
                } else {
                    screen.width
                },
                height: if rows > screen.height as i32 {
                    rows as i16
                } else {
                    screen.height
                },
            },
        );
    }
    calls.push(
        ConsoleCall::MoveWindow {
            left: screen.left,
            top: screen.top,
            right: (columns - 1) as i16,
            bottom: (rows - 1) as i16,
        },
    );
    assert(calls@ =~= resize_calls(width, height, *screen));
    calls
}

} // verus!
