//! How a row of the comparison is laid out on the terminal.

use vstd::prelude::*;
use vstd::string::*;
use vstd::utf8::*;

verus! {

/// How an instruction differs from its counterpart.
#[derive(Clone, Copy, Debug, PartialEq, Eq, Structural)]
pub enum ObjInsDiffKind {
    Unchanged,
    OpMismatch,
    ArgMismatch,
    Replace,
    Delete,
    Insert,
}

/// The colours that the command uses.
#[derive(Clone, Copy, Debug, PartialEq, Eq, Structural)]
pub enum Color {
    Magenta,
    Cyan,
    Green,
    Red,
    Yellow,
    DarkMagenta,
    Blue,
    Grey,
    DarkGrey,
    DarkCyan,
    DarkRed,
    DarkGreen,
    White,
}

/// One piece of the text of an instruction.
#[derive(Debug)]
pub enum DiffText {
    /// Plain text.
    Basic(String),
    /// Text in the colour of a group of differences.
    BasicColor(String, usize),
    /// A source line number.
    Line(usize),
    /// The address of the instruction, relative to its function.
    Address(u32),
    /// The mnemonic.
    Opcode(String),
    /// An argument, with the group of differences it belongs to, if any.
    Argument(String, Option<usize>),
    /// The target of a branch.
    BranchTarget(u32),
    /// A symbol that is referred to: its name, and its demangled name if
    /// it has one.
    Symbol(String, Option<String>),
    /// Columns left blank.
    Spacing(usize),
    /// The end of the row.
    Eol,
}

/// The number of colours that groups of differences rotate through.
pub const ROTATION: usize = 8;

/// The colour of the group of differences `idx`.
pub open spec fn rotation(idx: usize) -> Color {
    let turn = idx % ROTATION;
    if turn == 0 {
        Color::Magenta
    } else if turn == 1 {
        Color::Cyan
    } else if turn == 2 {
        Color::Green
    } else if turn == 3 {
        Color::Red
    } else if turn == 4 {
        Color::Yellow
    } else if turn == 5 {
        Color::DarkMagenta
    } else if turn == 6 {
        Color::Blue
    } else {
        Color::Green
    }
}

/// The colour of text that nothing else decides on.
pub open spec fn base_color(kind: ObjInsDiffKind) -> Color {
    match kind {
        ObjInsDiffKind::Unchanged | ObjInsDiffKind::OpMismatch | ObjInsDiffKind::ArgMismatch =>
            Color::Grey,
        ObjInsDiffKind::Replace => Color::DarkCyan,
        ObjInsDiffKind::Delete => Color::DarkRed,
        ObjInsDiffKind::Insert => Color::DarkGreen,
    }
}

/// The digit for a value below sixteen.
pub open spec fn digit(d: nat) -> char {
    if d == 0 {
        '0'
    } else if d == 1 {
        '1'
    } else if d == 2 {
        '2'
    } else if d == 3 {
        '3'
    } else if d == 4 {
        '4'
    } else if d == 5 {
        '5'
    } else if d == 6 {
        '6'
    } else if d == 7 {
        '7'
    } else if d == 8 {
        '8'
    } else if d == 9 {
        '9'
    } else if d == 10 {
        'a'
    } else if d == 11 {
        'b'
    } else if d == 12 {
        'c'
    } else if d == 13 {
        'd'
    } else if d == 14 {
        'e'
    } else {
        'f'
    }
}

/// A number in decimal, without leading zeros.
pub open spec fn decimal(n: nat) -> Seq<char>
    decreases n,
{
    if n < 10 {
        seq![digit(n)]
    } else {
        decimal(n / 10).push(digit(n % 10))
    }
}

/// A number in hexadecimal, in lower case and without leading zeros.
pub open spec fn lower_hex(n: nat) -> Seq<char>
    decreases n,
{
    if n < 16 {
        seq![digit(n)]
    } else {
        lower_hex(n / 16).push(digit(n % 16))
    }
}

/// The text of one digit.
fn digit_text(d: usize) -> (r: &'static str)
    requires
        d < 16,
    ensures
        r@ == seq![digit(d as nat)],
{
    proof {
        reveal_strlit("0");
        reveal_strlit("1");
        reveal_strlit("2");
        reveal_strlit("3");
        reveal_strlit("4");
        reveal_strlit("5");
        reveal_strlit("6");
        reveal_strlit("7");
        reveal_strlit("8");
        reveal_strlit("9");
        reveal_strlit("a");
        reveal_strlit("b");
        reveal_strlit("c");
        reveal_strlit("d");
        reveal_strlit("e");
        reveal_strlit("f");
    }
    let r = if d == 0 {
        "0"
    } else if d == 1 {
        "1"
    } else if d == 2 {
        "2"
    } else if d == 3 {
        "3"
    } else if d == 4 {
        "4"
    } else if d == 5 {
        "5"
    } else if d == 6 {
        "6"
    } else if d == 7 {
        "7"
    } else if d == 8 {
        "8"
    } else if d == 9 {
        "9"
    } else if d == 10 {
        "a"
    } else if d == 11 {
        "b"
    } else if d == 12 {
        "c"
    } else if d == 13 {
        "d"
    } else if d == 14 {
        "e"
    } else {
        "f"
    };
    assert(r@ =~= seq![digit(d as nat)]);
    r
}

/// A number in decimal.
pub fn format_decimal(n: usize) -> (r: String)
    ensures
        r@ == decimal(n as nat),
    decreases n,
{
    if n < 10 {
        String::from_str(digit_text(n))
    } else {
        let r = format_decimal(n / 10).concat(digit_text(n % 10));
        assert(r@ =~= decimal((n / 10) as nat).push(digit((n % 10) as nat)));
        r
    }
}

/// A number in hexadecimal.
pub fn format_lower_hex(n: u32) -> (r: String)
    ensures
        r@ == lower_hex(n as nat),
    decreases n,
{
    if n < 16 {
        String::from_str(digit_text(n as usize))
    } else {
        let r = format_lower_hex(n / 16).concat(digit_text((n % 16) as usize));
        assert(r@ =~= lower_hex((n / 16) as nat).push(digit((n % 16) as nat)));
        r
    }
}

/// The text of a piece, its colour, and the width it is padded to.
#[derive(Debug)]
pub struct Label {
    pub text: String,
    pub color: Color,
    pub pad_to: usize,
}

/// Mathematical content of a [`Label`].
pub struct LabelView {
    pub text: Seq<char>,
    pub color: Color,
    pub pad_to: usize,
}

impl View for Label {
    type V = LabelView;

    open spec fn view(&self) -> LabelView {
        LabelView { text: self.text@, color: self.color, pad_to: self.pad_to }
    }
}

/// The content of an optional label.
pub open spec fn label_content(label: Option<Label>) -> Option<LabelView> {
    match label {
        Some(l) => Some(l@),
        None => None,
    }
}

/// The label of a piece of an instruction of the given kind. A symbol is
/// shown by its demangled name where it has one. Blank columns and the end
/// of the row have no label.
pub open spec fn label_of(kind: ObjInsDiffKind, piece: DiffText) -> Option<LabelView> {
    match piece {
        DiffText::Basic(text) => Some(
            LabelView { text: text@, color: base_color(kind), pad_to: 0 },
        ),
        DiffText::BasicColor(text, idx) => Some(
            LabelView { text: text@, color: rotation(idx), pad_to: 0 },
        ),
        DiffText::Line(num) => Some(
            LabelView { text: decimal(num as nat).push(' '), color: Color::DarkGrey, pad_to: 5 },
        ),
        DiffText::Address(addr) => Some(
            LabelView { text: lower_hex(addr as nat).push(':'), color: base_color(kind), pad_to: 5 },
        ),
        DiffText::Opcode(mnemonic) => Some(
            LabelView {
                text: mnemonic@,
                color: if kind == ObjInsDiffKind::OpMismatch {
                    Color::Blue
                } else {
                    base_color(kind)
                },
                pad_to: 8,
            },
        ),
        DiffText::Argument(arg, diff) => Some(
            LabelView {
                text: arg@,
                color: match diff {
                    Some(idx) => rotation(idx),
                    None => base_color(kind),
                },
                pad_to: 0,
            },
        ),
        DiffText::BranchTarget(addr) => Some(
            LabelView { text: lower_hex(addr as nat), color: base_color(kind), pad_to: 0 },
        ),
        DiffText::Symbol(name, demangled) => Some(
            LabelView {
                text: match demangled {
                    Some(d) => d@,
                    None => name@,
                },
                color: Color::White,
                pad_to: 0,
            },
        ),
        DiffText::Spacing(_) | DiffText::Eol => None,
    }
}

/// The colour of the group of differences `idx`.
pub fn rotation_color(idx: usize) -> (c: Color)
    ensures
        c == rotation(idx),
{
    let turn = idx % ROTATION;
    if turn == 0 {
        Color::Magenta
    } else if turn == 1 {
        Color::Cyan
    } else if turn == 2 {
        Color::Green
    } else if turn == 3 {
        Color::Red
    } else if turn == 4 {
        Color::Yellow
    } else if turn == 5 {
        Color::DarkMagenta
    } else if turn == 6 {
        Color::Blue
    } else {
        Color::Green
    }
}

/// The colour of text of an instruction that nothing else decides on.
pub fn kind_color(kind: ObjInsDiffKind) -> (c: Color)
    ensures
        c == base_color(kind),
{
    match kind {
        ObjInsDiffKind::Unchanged | ObjInsDiffKind::OpMismatch | ObjInsDiffKind::ArgMismatch =>
            Color::Grey,
        ObjInsDiffKind::Replace => Color::DarkCyan,
        ObjInsDiffKind::Delete => Color::DarkRed,
        ObjInsDiffKind::Insert => Color::DarkGreen,
    }
}

/// The label of a piece of an instruction of the given kind.
pub fn label(kind: ObjInsDiffKind, piece: &DiffText) -> (r: Option<Label>)
    ensures
        label_content(r) == label_of(kind, *piece),
{
    match piece {
        DiffText::Basic(text) => Some(
            Label { text: text.clone(), color: kind_color(kind), pad_to: 0 },
        ),
        DiffText::BasicColor(text, idx) => Some(
            Label { text: text.clone(), color: rotation_color(*idx), pad_to: 0 },
        ),
        DiffText::Line(num) => {
            proof {
                reveal_strlit(" ");
                assert(" "@ =~= seq![' ']);
            }
            let text = format_decimal(*num).concat(" ");
            assert(text@ =~= decimal(*num as nat).push(' '));
            Some(Label { text, color: Color::DarkGrey, pad_to: 5 })
        },
        DiffText::Address(addr) => {
            proof {
                reveal_strlit(":");
                assert(":"@ =~= seq![':']);
            }
            let text = format_lower_hex(*addr).concat(":");
            assert(text@ =~= lower_hex(*addr as nat).push(':'));
            Some(Label { text, color: kind_color(kind), pad_to: 5 })
        },
        DiffText::Opcode(mnemonic) => {
            let color = if kind == ObjInsDiffKind::OpMismatch {
                Color::Blue
            } else {
                kind_color(kind)
            };
            Some(Label { text: mnemonic.clone(), color, pad_to: 8 })
        },
        DiffText::Argument(arg, diff) => {
            let color = match diff {
                Some(idx) => rotation_color(*idx),
                None => kind_color(kind),
            };
            Some(Label { text: arg.clone(), color, pad_to: 0 })
        },
        DiffText::BranchTarget(addr) => Some(
            Label { text: format_lower_hex(*addr), color: kind_color(kind), pad_to: 0 },
        ),
        DiffText::Symbol(name, demangled) => {
            let text = match demangled {
                Some(d) => d.clone(),
                None => name.clone(),
            };
            Some(Label { text, color: Color::White, pad_to: 0 })
        },
        DiffText::Spacing(_) => None,
        DiffText::Eol => None,
    }
}

/// Where the next piece goes: a column and a row of the screen.
#[derive(Clone, Copy, Debug, PartialEq, Eq, Structural)]
pub struct Pen {
    pub sx: u16,
    pub sy: u16,
}

/// What to put on the screen for one piece.
#[derive(Debug)]
pub enum Draw {
    /// Nothing: the piece is off the screen, or ends the row.
    Nothing,
    /// Move the cursor to the right.
    MoveRight(u16),
    /// Print `text` in `color`, then move the cursor `pad` columns on.
    Print { text: String, color: Color, pad: u16 },
}

/// Mathematical content of a [`Draw`].
pub enum DrawView {
    Nothing,
    MoveRight(u16),
    Print { text: Seq<char>, color: Color, pad: u16 },
}

impl View for Draw {
    type V = DrawView;

    open spec fn view(&self) -> DrawView {
        match *self {
            Draw::Nothing => DrawView::Nothing,
            Draw::MoveRight(by) => DrawView::MoveRight(by),
            Draw::Print { text, color, pad } => DrawView::Print { text: text@, color, pad },
        }
    }
}

/// A width in the sixteen bits in which the terminal counts columns: what
/// does not fit is cut off at the top.
pub open spec fn columns(n: nat) -> u16 {
    (n % 0x10000) as u16
}

/// `by` columns or rows further. The pen stops at the last column or row
/// rather than going round to the first.
pub open spec fn further(at: u16, by: u16) -> u16 {
    if at + by <= u16::MAX {
        (at + by) as u16
    } else {
        u16::MAX
    }
}

/// The last place at or before `at` at which a character of the encoded
/// text `bytes` begins.
pub open spec fn boundary_before(bytes: Seq<u8>, at: int) -> int
    decreases at,
{
    if at <= 0 {
        0
    } else if is_char_boundary(bytes, at) {
        at
    } else {
        boundary_before(bytes, at - 1)
    }
}

/// A text cut to `room` bytes of its encoding. Where the cut would fall
/// inside a character, that character is left out too.
pub open spec fn cut_text(text: Seq<char>, room: int) -> Seq<char> {
    let bytes = encode_utf8(text);
    if bytes.len() <= room {
        text
    } else {
        decode_utf8(bytes.subrange(0, boundary_before(bytes, room)))
    }
}

/// A piece as it is placed: the pen after it, and what is drawn.
pub struct Placed {
    pub pen: Pen,
    pub draw: DrawView,
}

/// Places a label at the pen, on a screen half that ends before `max_sx`.
/// Widths are counted in bytes of the encoded text. A label that starts off
/// the screen is left out and the pen stays. Else it is cut to the columns
/// that are left, and the pen moves on by the full width of the label and by
/// the padding up to the label's column width.
pub open spec fn place_label(pen: Pen, max_sx: u16, label: LabelView) -> Placed {
    if pen.sx >= max_sx {
        Placed { pen, draw: DrawView::Nothing }
    } else {
        let len = encode_utf8(label.text).len();
        let pad = if label.pad_to > len {
            columns((label.pad_to - len) as nat)
        } else {
            0
        };
        Placed {
            pen: Pen { sx: further(further(pen.sx, columns(len)), pad), ..pen },
            draw: DrawView::Print {
                text: cut_text(label.text, max_sx - pen.sx),
                color: label.color,
                pad,
            },
        }
    }
}

/// Places one piece of an instruction of the given kind.
pub open spec fn place_of(pen: Pen, max_sx: u16, kind: ObjInsDiffKind, piece: DiffText)
    -> Placed {
    match piece {
        DiffText::Spacing(n) => Placed {
            pen: Pen { sx: further(pen.sx, columns(n as nat)), ..pen },
            draw: DrawView::MoveRight(columns(n as nat)),
        },
        DiffText::Eol => Placed {
            pen: Pen { sy: further(pen.sy, 1), ..pen },
            draw: DrawView::Nothing,
        },
        _ => place_label(pen, max_sx, label_of(kind, piece)->0),
    }
}

/// The pen after the pieces of a row were placed one after the other.
pub open spec fn pen_after(pen: Pen, max_sx: u16, kind: ObjInsDiffKind, pieces: Seq<DiffText>)
    -> Pen
    decreases pieces.len(),
{
    if pieces.len() == 0 {
        pen
    } else {
        place_of(
            pen_after(pen, max_sx, kind, pieces.drop_last()),
            max_sx,
            kind,
            pieces.last(),
        ).pen
    }
}

/// What is drawn for the pieces of a row, one entry for each piece.
pub open spec fn draws_of(pen: Pen, max_sx: u16, kind: ObjInsDiffKind, pieces: Seq<DiffText>)
    -> Seq<DrawView> {
    Seq::new(
        pieces.len(),
        |i: int| place_of(pen_after(pen, max_sx, kind, pieces.take(i)), max_sx, kind, pieces[i]).draw,
    )
}

/// The contents of a list of drawings.
pub open spec fn draw_views(draws: Seq<Draw>) -> Seq<DrawView> {
    Seq::new(draws.len(), |i: int| draws[i]@)
}

/// The mark in front of a row of an instruction that differs.
#[derive(Debug)]
pub struct Marker {
    pub text: String,
    pub color: Color,
}

/// Mathematical content of a [`Marker`].
pub struct MarkerView {
    pub text: Seq<char>,
    pub color: Color,
}

/// The column at which the drawing of a row begins, and its mark, if any.
#[derive(Debug)]
pub struct RowStart {
    pub column: u16,
    pub marker: Option<Marker>,
}

/// Mathematical content of a [`RowStart`].
pub struct RowStartView {
    pub column: u16,
    pub marker: Option<MarkerView>,
}

impl View for RowStart {
    type V = RowStartView;

    open spec fn view(&self) -> RowStartView {
        RowStartView {
            column: self.column,
            marker: match self.marker {
                Some(m) => Some(MarkerView { text: m.text@, color: m.color }),
                None => None,
            },
        }
    }
}

/// The text of the mark of an instruction that differs.
pub open spec fn marker_of(kind: ObjInsDiffKind) -> Seq<char> {
    match kind {
        ObjInsDiffKind::Delete => seq!['<', ' '],
        ObjInsDiffKind::Insert => seq!['>', ' '],
        _ => seq!['|', ' '],
    }
}

/// Whether a row that begins at column `sx` gets a mark in the two columns
/// before it.
pub open spec fn is_marked(kind: ObjInsDiffKind, sx: u16) -> bool {
    kind != ObjInsDiffKind::Unchanged && sx > 2
}

/// Where the drawing of a row begins. An instruction that differs is marked
/// in dark grey in the two columns before the row, if there are that many;
/// else the drawing begins at the row's own column, without a mark.
pub open spec fn row_start_of(kind: ObjInsDiffKind, sx: u16) -> RowStartView {
    if is_marked(kind, sx) {
        RowStartView {
            column: (sx - 2) as u16,
            marker: Some(MarkerView { text: marker_of(kind), color: Color::DarkGrey }),
        }
    } else {
        RowStartView { column: sx, marker: None }
    }
}

fn columns_of(n: usize) -> (r: u16)
    ensures
        r == columns(n as nat),
{
    (n % 0x10000) as u16
}

fn go_further(at: u16, by: u16) -> (r: u16)
    ensures
        r == further(at, by),
{
    if by <= 0xffff - at {
        at + by
    } else {
        0xffff
    }
}

/// Where the drawing of a row of an instruction begins.
pub fn row_start(kind: ObjInsDiffKind, sx: u16) -> (r: RowStart)
    ensures
        r@ == row_start_of(kind, sx),
{
    if kind != ObjInsDiffKind::Unchanged && sx > 2 {
        proof {
            reveal_strlit("< ");
            reveal_strlit("> ");
            reveal_strlit("| ");
            assert("< "@ =~= seq!['<', ' ']);
            assert("> "@ =~= seq!['>', ' ']);
            assert("| "@ =~= seq!['|', ' ']);
        }
        let text = match kind {
            ObjInsDiffKind::Delete => String::from_str("< "),
            ObjInsDiffKind::Insert => String::from_str("> "),
            _ => String::from_str("| "),
        };
        RowStart { column: sx - 2, marker: Some(Marker { text, color: Color::DarkGrey }) }
    } else {
        RowStart { column: sx, marker: None }
    }
}

/// What holds of the last boundary at or before a place in an encoded text.
proof fn lemma_boundary_before(bytes: Seq<u8>, at: int)
    requires
        valid_utf8(bytes),
        0 <= at <= bytes.len(),
    ensures
        0 <= boundary_before(bytes, at) <= at,
        is_char_boundary(bytes, boundary_before(bytes, at)),
    decreases at,
{
    if at > 0 && !is_char_boundary(bytes, at) {
        lemma_boundary_before(bytes, at - 1);
    }
}

/// Cuts a text that is longer than `room` bytes.
fn cut(text: &str, room: usize) -> (r: String)
    requires
        room < text.spec_bytes().len(),
    ensures
        r@ == cut_text(text@, room as int),
{
    broadcast use {encode_utf8_valid_utf8, encode_utf8_decode_utf8};

    let ghost bytes = text.spec_bytes();
    let mut at = room;
    while !text.is_char_boundary(at)
        invariant
            bytes == text.spec_bytes(),
            valid_utf8(bytes),
            at <= room < bytes.len(),
            boundary_before(bytes, at as int) == boundary_before(bytes, room as int),
        decreases at,
    {
        at -= 1;
    }
    proof {
        lemma_boundary_before(bytes, room as int);
    }
    let (front, _) = text.split_at(at);
    assert(front@ == decode_utf8(encode_utf8(front@)));
    front.to_owned()
}

/// Places one piece at the pen and moves the pen on.
pub fn place(pen: &mut Pen, max_sx: u16, kind: ObjInsDiffKind, piece: &DiffText) -> (draw: Draw)
    ensures
        (Placed { pen: *final(pen), draw: draw@ }) == place_of(*old(pen), max_sx, kind, *piece),
{
    match piece {
        DiffText::Spacing(n) => {
            let by = columns_of(*n);
            pen.sx = go_further(pen.sx, by);
            Draw::MoveRight(by)
        },
        DiffText::Eol => {
            pen.sy = go_further(pen.sy, 1);
            Draw::Nothing
        },
        _ => {
            let label = match label(kind, piece) {
                Some(l) => l,
                None => {
                    return Draw::Nothing;
                },
            };
            if pen.sx >= max_sx {
                return Draw::Nothing;
            }
            let room = (max_sx - pen.sx) as usize;
            let len = label.text.as_str().as_bytes().len();
            let pad = if label.pad_to > len {
                columns_of(label.pad_to - len)
            } else {
                0
            };
            let text = if len > room {
                cut(label.text.as_str(), room)
            } else {
                label.text
            };
            pen.sx = go_further(go_further(pen.sx, columns_of(len)), pad);
            Draw::Print { text, color: label.color, pad }
        },
    }
}

/// Places the pieces of a row, from the pen on. Gives what is drawn, one
/// entry for each piece.
pub fn layout_row(pen: &mut Pen, max_sx: u16, kind: ObjInsDiffKind, pieces: &Vec<DiffText>)
    -> (draws: Vec<Draw>)
    ensures
        *final(pen) == pen_after(*old(pen), max_sx, kind, pieces@),
        draw_views(draws@) == draws_of(*old(pen), max_sx, kind, pieces@),
{
    let mut draws: Vec<Draw> = Vec::new();
    let mut i: usize = 0;
    while i < pieces.len()
        invariant
            i <= pieces.len(),
            draws.len() == i,
            *pen == pen_after(*old(pen), max_sx, kind, pieces@.take(i as int)),
            forall|k: int|
                0 <= k < i ==> (#[trigger] draws[k])@ == place_of(
                    pen_after(*old(pen), max_sx, kind, pieces@.take(k)),
                    max_sx,
                    kind,
                    pieces@[k],
                ).draw,
        decreases pieces.len() - i,
    {
        let draw = place(pen, max_sx, kind, &pieces[i]);
        draws.push(draw);
        proof {
            assert(pieces@.take(i + 1).drop_last() =~= pieces@.take(i as int));
            assert(pieces@.take(i + 1).last() == pieces@[i as int]);
        }
        i += 1;
    }
    assert(pieces@.take(i as int) =~= pieces@);
    assert(draw_views(draws@) =~= draws_of(*old(pen), max_sx, kind, pieces@));
    draws
}

/// One instruction of a function: how it differs, and the pieces of its
/// text.
#[derive(Debug)]
pub struct Row {
    pub kind: ObjInsDiffKind,
    pub pieces: Vec<DiffText>,
}

/// A row as it goes on the screen: its screen row, where its drawing
/// begins, and what is drawn from there.
#[derive(Debug)]
pub struct RowDraw {
    pub sy: u16,
    pub start: RowStart,
    pub draws: Vec<Draw>,
}

/// Mathematical content of a [`RowDraw`].
pub struct RowDrawView {
    pub sy: u16,
    pub start: RowStartView,
    pub draws: Seq<DrawView>,
}

impl View for RowDraw {
    type V = RowDrawView;

    open spec fn view(&self) -> RowDrawView {
        RowDrawView { sy: self.sy, start: self.start@, draws: draw_views(self.draws@) }
    }
}

/// The contents of a list of rows on the screen.
pub open spec fn row_draw_views(rows: Seq<RowDraw>) -> Seq<RowDrawView> {
    Seq::new(rows.len(), |i: int| rows[i]@)
}

/// A row laid out from column `sx` of the screen row `sy`.
pub open spec fn row_draw_of(row: Row, sx: u16, sy: u16, max_sx: u16) -> RowDrawView {
    RowDrawView {
        sy,
        start: row_start_of(row.kind, sx),
        draws: draws_of(Pen { sx, sy }, max_sx, row.kind, row.pieces@),
    }
}

/// The screen row at which the pen stands after a row was laid out.
pub open spec fn row_end(row: Row, sx: u16, sy: u16, max_sx: u16) -> u16 {
    pen_after(Pen { sx, sy }, max_sx, row.kind, row.pieces@).sy
}

/// The screen row at which the row `skip + i` begins, when the rows from
/// `skip` on are laid out one after the other from the screen row `sy`.
pub open spec fn row_sy(rows: Seq<Row>, skip: int, sx: u16, sy: u16, max_sx: u16, i: int) -> u16
    decreases i,
{
    if i <= 0 {
        sy
    } else {
        row_end(rows[skip + i - 1], sx, row_sy(rows, skip, sx, sy, max_sx, i - 1), max_sx)
    }
}

/// `out` is the screen of the rows from `skip` on: they are taken in their
/// order, each from column `sx` of the screen row that the one before left
/// the pen in; the first is always taken, and none is taken once the pen has
/// reached the screen row `max_sy`.
pub open spec fn is_screen(
    rows: Seq<Row>,
    skip: int,
    sx: u16,
    sy: u16,
    max_sx: u16,
    max_sy: u16,
    out: Seq<RowDrawView>,
) -> bool {
    let rest = if skip < rows.len() {
        rows.len() - skip
    } else {
        0
    };
    &&& out.len() <= rest
    &&& rest > 0 ==> out.len() > 0
    &&& forall|i: int|
        0 <= i < out.len() ==> #[trigger] out[i] == row_draw_of(
            rows[skip + i],
            sx,
            row_sy(rows, skip, sx, sy, max_sx, i),
            max_sx,
        )
    &&& forall|i: int| 0 < i < out.len() ==> #[trigger] row_sy(rows, skip, sx, sy, max_sx, i) < max_sy
    &&& out.len() < rest ==> row_sy(rows, skip, sx, sy, max_sx, out.len() as int) >= max_sy
}

/// Lays out the rows of a function from the row `skip` on, in the screen
/// half that begins at column `sx` and ends before `max_sx`, from the screen
/// row `sy` down to the screen row `max_sy`.
pub fn layout_rows(rows: &Vec<Row>, skip: usize, sx: u16, sy: u16, max_sx: u16, max_sy: u16)
    -> (out: Vec<RowDraw>)
    ensures
        is_screen(rows@, skip as int, sx, sy, max_sx, max_sy, row_draw_views(out@)),
{
    let mut out: Vec<RowDraw> = Vec::new();
    if skip >= rows.len() {
        return out;
    }
    let mut pen = Pen { sx, sy };
    let mut i: usize = skip;
    while i < rows.len() && (i == skip || pen.sy < max_sy)
        invariant
            skip <= i <= rows.len(),
            skip < rows.len(),
            out.len() == i - skip,
            pen.sy == row_sy(rows@, skip as int, sx, sy, max_sx, i - skip),
            forall|k: int|
                0 <= k < out.len() ==> (#[trigger] out[k])@ == row_draw_of(
                    rows@[skip + k],
                    sx,
                    row_sy(rows@, skip as int, sx, sy, max_sx, k),
                    max_sx,
                ),
            forall|k: int|
                0 < k < out.len() ==> #[trigger] row_sy(rows@, skip as int, sx, sy, max_sx, k)
                    < max_sy,
        decreases rows.len() - i,
    {
        pen.sx = sx;
        let row = &rows[i];
        let row_sy = pen.sy;
        let start = row_start(row.kind, sx);
        let draws = layout_row(&mut pen, max_sx, row.kind, &row.pieces);
        out.push(RowDraw { sy: row_sy, start, draws });
        i += 1;
    }
    assert(row_draw_views(out@).len() == out.len());
    out
}

/// The column before which the left half of a screen of `width` columns
/// ends: one short of the middle, and the first column on a screen too
/// narrow for that.
pub fn left_edge(width: u16) -> (r: u16)
    ensures
        r == if width / 2 >= 1 {
            (width / 2 - 1) as u16
        } else {
            0
        },
{
    let middle = width / 2;
    if middle >= 1 {
        middle - 1
    } else {
        0
    }
}

/// The column at which the right half of a screen of `width` columns
/// begins: the middle.
pub fn right_start(width: u16) -> (r: u16)
    ensures
        r == width / 2,
{
    width / 2
}

/// The pen never moves to the left or up: the column and the row after a
/// piece, and after the pieces of a row, are at least what they were.
pub proof fn lemma_pen_never_goes_back(
    pen: Pen,
    max_sx: u16,
    kind: ObjInsDiffKind,
    pieces: Seq<DiffText>,
)
    ensures
        pen_after(pen, max_sx, kind, pieces).sx >= pen.sx,
        pen_after(pen, max_sx, kind, pieces).sy >= pen.sy,
    decreases pieces.len(),
{
    if pieces.len() > 0 {
        lemma_pen_never_goes_back(pen, max_sx, kind, pieces.drop_last());
    }
}

/// A label that is printed starts before the edge and takes no more bytes
/// than there are columns up to the edge: what is printed is the beginning
/// of the label, whole characters only. A label that would start at the
/// edge or beyond it is not printed.
pub proof fn lemma_label_fits_the_room(pen: Pen, max_sx: u16, label: LabelView)
    ensures
        pen.sx >= max_sx ==> place_label(pen, max_sx, label).draw is Nothing,
        pen.sx < max_sx ==> (place_label(pen, max_sx, label).draw matches DrawView::Print {
            text,
            ..
        } && encode_utf8(text).len() <= max_sx - pen.sx && encode_utf8(text).is_prefix_of(
            encode_utf8(label.text),
        )),
{
    broadcast use {encode_utf8_valid_utf8, decode_utf8_encode_utf8, valid_utf8_split};

    if pen.sx < max_sx {
        let bytes = encode_utf8(label.text);
        let room = max_sx - pen.sx;
        if bytes.len() > room {
            lemma_boundary_before(bytes, room);
            let at = boundary_before(bytes, room);
            assert(valid_utf8(bytes.subrange(0, at)));
            assert(encode_utf8(decode_utf8(bytes.subrange(0, at))) == bytes.subrange(0, at));
        }
    }
}

/// Once the pen has reached the edge, nothing more of the row is printed.
pub proof fn lemma_nothing_is_printed_past_the_edge(
    pen: Pen,
    max_sx: u16,
    kind: ObjInsDiffKind,
    pieces: Seq<DiffText>,
    i: int,
)
    requires
        pen.sx >= max_sx,
        0 <= i < pieces.len(),
    ensures
        !(draws_of(pen, max_sx, kind, pieces)[i] is Print),
{
    lemma_pen_never_goes_back(pen, max_sx, kind, pieces.take(i));
}

} // verus!
