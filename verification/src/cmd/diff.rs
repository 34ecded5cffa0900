//! The `diff` command: two objects side by side, one function at a time.

use vstd::prelude::*;
use vstd::string::*;
use crate::text::same_text;

verus! {

/// The arguments of the command: the two object files and the function to
/// show.
#[derive(Debug)]
pub struct Args {
    pub target: String,
    pub base: String,
    pub symbol: String,
}

/// What a section of an object holds.
#[derive(Clone, Copy, Debug, PartialEq, Eq, Structural)]
pub enum ObjSectionKind {
    Code,
    Data,
    Bss,
}

/// What the command reads of a symbol: its name and how many instruction
/// rows it has.
#[derive(Debug)]
pub struct ObjSymbol {
    pub name: String,
    pub instructions: usize,
}

/// What the command reads of a section.
#[derive(Debug)]
pub struct ObjSection {
    pub kind: ObjSectionKind,
    pub symbols: Vec<ObjSymbol>,
}

/// The symbol `j` of the section `i` is a function called `name`.
pub open spec fn is_function(sections: Seq<ObjSection>, name: Seq<char>, i: int, j: int) -> bool {
    &&& 0 <= i < sections.len()
    &&& sections[i].kind == ObjSectionKind::Code
    &&& 0 <= j < sections[i].symbols@.len()
    &&& sections[i].symbols@[j].name@ == name
}

/// The place `(i, j)` comes before `(k, l)` in the order of the object.
pub open spec fn comes_before(i: int, j: int, k: int, l: int) -> bool {
    i < k || (i == k && j < l)
}

/// The first function called `name` in the code sections of an object, as
/// the index of its section and its index in the section.
pub fn find_function(sections: &Vec<ObjSection>, name: &str) -> (r: Option<(usize, usize)>)
    ensures
        match r {
            Some((i, j)) => is_function(sections@, name@, i as int, j as int) && forall|
                k: int,
                l: int,
            |
                comes_before(k, l, i as int, j as int) ==> !is_function(sections@, name@, k, l),
            None => forall|k: int, l: int| !is_function(sections@, name@, k, l),
        },
{
    let mut i: usize = 0;
    while i < sections.len()
        invariant
            i <= sections.len(),
            forall|k: int, l: int| k < i ==> !is_function(sections@, name@, k, l),
        decreases sections.len() - i,
    {
        let section = &sections[i];
        if section.kind == ObjSectionKind::Code {
            let mut j: usize = 0;
            while j < section.symbols.len()
                invariant
                    i < sections.len(),
                    *section == sections@[i as int],
                    section.kind == ObjSectionKind::Code,
                    j <= section.symbols.len(),
                    forall|k: int, l: int| k < i ==> !is_function(sections@, name@, k, l),
                    forall|l: int| l < j ==> !is_function(sections@, name@, i as int, l),
                decreases section.symbols.len() - j,
            {
                if same_text(section.symbols[j].name.as_str(), name) {
                    return Some((i, j));
                }
                j += 1;
            }
        }
        i += 1;
    }
    None
}

/// The number of rows to show for a function that was looked up on both
/// sides: the longer of the two, or nothing if neither side has it.
pub fn shown_rows(left: Option<usize>, right: Option<usize>) -> (r: Option<usize>)
    ensures
        r == match (left, right) {
            (Some(l), Some(r)) => Some(if l >= r { l } else { r }),
            (Some(l), None) => Some(l),
            (None, Some(r)) => Some(r),
            (None, None) => None,
        },
{
    match (left, right) {
        (Some(l), Some(r)) => Some(if l >= r { l } else { r }),
        (Some(l), None) => Some(l),
        (None, Some(r)) => Some(r),
        (None, None) => None,
    }
}

/// The message for a function that neither object has.
pub fn symbol_not_found(symbol: &str) -> (m: String)
    ensures
        m@ == "Symbol not found: "@ + symbol@,
{
    String::from_str("Symbol not found: ").concat(symbol)
}

/// The rows of the screen that the title and the column heads take.
pub const HEADER_ROWS: usize = 2;

/// The rows that a wheel step scrolls by.
pub const WHEEL_ROWS: usize = 3;

/// A key, as far as the command tells keys apart.
#[derive(Clone, Copy, Debug, PartialEq, Eq, Structural)]
pub enum KeyCode {
    Esc,
    PageUp,
    PageDown,
    Up,
    Down,
    Char(char),
    Other,
}

/// An event from the terminal. A key is `active` while it is pressed or
/// repeats, not when it is released.
#[derive(Clone, Copy, Debug, PartialEq, Eq, Structural)]
pub enum Input {
    Key { code: KeyCode, shift: bool, active: bool },
    ScrollDown,
    ScrollUp,
    Resize,
    Other,
}

/// What an event asks of the pager.
#[derive(Clone, Copy, Debug, PartialEq, Eq, Structural)]
pub enum Motion {
    Quit,
    Up(usize),
    Down(usize),
    Top,
    Bottom,
    Redraw,
    Stay,
}

/// The key bindings: what an event asks for on a screen of `per_page` rows.
pub open spec fn motion_of(input: Input, per_page: usize) -> Motion {
    match input {
        Input::Key { code, shift, active: true } => match code {
            KeyCode::Esc => Motion::Quit,
            KeyCode::PageUp => Motion::Up(per_page),
            KeyCode::PageDown => Motion::Down(per_page),
            KeyCode::Down => Motion::Down(1),
            KeyCode::Up => Motion::Up(1),
            KeyCode::Char(c) => if c == 'q' {
                Motion::Quit
            } else if c == ' ' {
                if shift {
                    Motion::Up(per_page)
                } else {
                    Motion::Down(per_page)
                }
            } else if c == 'j' {
                Motion::Down(1)
            } else if c == 'k' {
                Motion::Up(1)
            } else if c == 'g' {
                Motion::Top
            } else if c == 'G' {
                Motion::Bottom
            } else {
                Motion::Stay
            },
            KeyCode::Other => Motion::Stay,
        },
        Input::Key { active: false, .. } => Motion::Stay,
        Input::ScrollDown => Motion::Down(WHEEL_ROWS),
        Input::ScrollUp => Motion::Up(WHEEL_ROWS),
        Input::Resize => Motion::Redraw,
        Input::Other => Motion::Stay,
    }
}

/// `a - b`, or zero where `b` is the larger.
pub open spec fn minus(a: usize, b: usize) -> usize {
    if a >= b {
        (a - b) as usize
    } else {
        0
    }
}

/// `a + b`, or the largest number where the sum does not fit.
pub open spec fn plus(a: usize, b: usize) -> usize {
    if a + b <= usize::MAX {
        (a + b) as usize
    } else {
        usize::MAX
    }
}

/// Where the pager stands: the rows skipped at the top, whether the screen
/// is to be drawn again, and the number of rows of the function.
#[derive(Clone, Copy, Debug, PartialEq, Eq, Structural)]
pub struct Pager {
    pub skip: usize,
    pub redraw: bool,
    pub max_len: usize,
}

impl Pager {
    /// The pager after a motion. Moving marks the screen for drawing; the
    /// position is brought back into range when the screen is drawn.
    pub open spec fn moved(self, motion: Motion) -> Pager {
        match motion {
            Motion::Quit | Motion::Stay => self,
            Motion::Up(rows) => Pager { skip: minus(self.skip, rows), redraw: true, ..self },
            Motion::Down(rows) => Pager { skip: plus(self.skip, rows), redraw: true, ..self },
            Motion::Top => Pager { skip: 0, redraw: true, ..self },
            Motion::Bottom => Pager { skip: self.max_len, redraw: true, ..self },
            Motion::Redraw => Pager { redraw: true, ..self },
        }
    }

    /// The pager after the screen was drawn, if it was to be: the position
    /// is at most the last one that fills a page, and the mark is cleared.
    pub open spec fn drawn(self, per_page: usize) -> Pager {
        if self.redraw {
            let last = minus(self.max_len, per_page);
            Pager { skip: if self.skip > last { last } else { self.skip }, redraw: false, ..self }
        } else {
            self
        }
    }

    /// A pager at the top of a function of `max_len` rows, not yet drawn.
    pub fn new(max_len: usize) -> (p: Pager)
        ensures
            p == (Pager { skip: 0, redraw: true, max_len }),
    {
        Pager { skip: 0, redraw: true, max_len }
    }

    /// The rows of a page on a screen of `rows` rows.
    pub fn page_size(rows: u16) -> (r: usize)
        ensures
            r == minus(rows as usize, HEADER_ROWS),
    {
        let rows = rows as usize;
        if rows >= HEADER_ROWS {
            rows - HEADER_ROWS
        } else {
            0
        }
    }

    /// What an event asks for.
    pub fn motion(input: Input, per_page: usize) -> (m: Motion)
        ensures
            m == motion_of(input, per_page),
    {
        match input {
            Input::Key { code, shift, active } => {
                if !active {
                    return Motion::Stay;
                }
                match code {
                    KeyCode::Esc => Motion::Quit,
                    KeyCode::PageUp => Motion::Up(per_page),
                    KeyCode::PageDown => Motion::Down(per_page),
                    KeyCode::Down => Motion::Down(1),
                    KeyCode::Up => Motion::Up(1),
                    KeyCode::Char(c) => {
                        if c == 'q' {
                            Motion::Quit
                        } else if c == ' ' {
                            if shift {
                                Motion::Up(per_page)
                            } else {
                                Motion::Down(per_page)
                            }
                        } else if c == 'j' {
                            Motion::Down(1)
                        } else if c == 'k' {
                            Motion::Up(1)
                        } else if c == 'g' {
                            Motion::Top
                        } else if c == 'G' {
                            Motion::Bottom
                        } else {
                            Motion::Stay
                        }
                    },
                    KeyCode::Other => Motion::Stay,
                }
            },
            Input::ScrollDown => Motion::Down(WHEEL_ROWS),
            Input::ScrollUp => Motion::Up(WHEEL_ROWS),
            Input::Resize => Motion::Redraw,
            Input::Other => Motion::Stay,
        }
    }

    /// Takes an event on a screen of `per_page` rows. Says whether the
    /// command is to end.
    pub fn handle(&mut self, input: Input, per_page: usize) -> (quit: bool)
        ensures
            *final(self) == old(self).moved(motion_of(input, per_page)),
            quit == (motion_of(input, per_page) == Motion::Quit),
    {
        match Self::motion(input, per_page) {
            Motion::Quit => {
                return true;
            },
            Motion::Stay => {},
            Motion::Up(rows) => {
                self.skip = if self.skip >= rows {
                    self.skip - rows
                } else {
                    0
                };
                self.redraw = true;
            },
            Motion::Down(rows) => {
                self.skip = if self.skip <= usize::MAX - rows {
                    self.skip + rows
                } else {
                    usize::MAX
                };
                self.redraw = true;
            },
            Motion::Top => {
                self.skip = 0;
                self.redraw = true;
            },
            Motion::Bottom => {
                self.skip = self.max_len;
                self.redraw = true;
            },
            Motion::Redraw => {
                self.redraw = true;
            },
        }
        false
    }

    /// Prepares a drawing of the screen. Says whether the screen is to be
    /// drawn; if so the position was brought into range and the mark
    /// cleared.
    pub fn begin_draw(&mut self, per_page: usize) -> (draw: bool)
        ensures
            *final(self) == old(self).drawn(per_page),
            draw == old(self).redraw,
    {
        if !self.redraw {
            return false;
        }
        let last = if self.max_len >= per_page {
            self.max_len - per_page
        } else {
            0
        };
        if self.skip > last {
            self.skip = last;
        }
        self.redraw = false;
        true
    }
}

/// After a drawing the page starts inside the function: a page that starts
/// at the position shown ends at the function's last row or before it,
/// unless the whole function fits on one page, which then starts at the top.
pub proof fn lemma_drawn_page_is_in_range(pager: Pager, per_page: usize)
    requires
        pager.redraw,
    ensures
        pager.drawn(per_page).skip <= pager.skip,
        per_page <= pager.max_len ==> pager.drawn(per_page).skip + per_page <= pager.max_len,
        per_page > pager.max_len ==> pager.drawn(per_page).skip == 0,
        !pager.drawn(per_page).redraw,
        pager.drawn(per_page).drawn(per_page) == pager.drawn(per_page),
{
}

} // verus!
