//! What the terminal shows of a session: the layout of its panels, the
//! header, the numbered history, the list of peers, the input line, their
//! titles and colours, and where the cursor goes.

use vstd::prelude::*;
use crate::app::{App, AppView, InputMode, texts};
use crate::text::{decimal, decimal_string};

verus! {

/// A piece of header text, bold or plain.
pub struct HeaderSpan {
    pub text: String,
    pub bold: bool,
}

/// The foreground colour of a panel's text.
#[derive(Debug, Clone, Copy, PartialEq, Eq, Structural)]
pub enum Colour {
    Plain,
    Cyan,
    Yellow,
}

/// How the screen is divided: from top to bottom a header of `header_rows`
/// rows, a body of at least `body_min_rows` rows and an input box of
/// `input_rows` rows; the body is split left to right into the history
/// (`history_percent` of the width) and the peers (`peers_percent`).
#[derive(Debug, Clone, Copy, PartialEq, Eq, Structural)]
pub struct Layout {
    pub header_rows: u16,
    pub body_min_rows: u16,
    pub input_rows: u16,
    pub history_percent: u16,
    pub peers_percent: u16,
}

/// Everything the terminal shows of a session. Every panel is drawn with a
/// border all around and its title on it.
pub struct Screen {
    pub layout: Layout,
    pub header: Vec<HeaderSpan>,
    pub header_blink: bool,
    pub header_colour: Colour,
    pub title: String,
    pub history_title: String,
    pub message_lines: Vec<String>,
    pub peers_title: String,
    pub peer_lines: Vec<String>,
    pub input_title: String,
    pub input: String,
    pub input_colour: Colour,
    pub cursor_visible: bool,
}

/// A screen as plain values.
pub struct ScreenView {
    pub layout: Layout,
    pub header: Seq<(Seq<char>, bool)>,
    pub header_blink: bool,
    pub header_colour: Colour,
    pub title: Seq<char>,
    pub history_title: Seq<char>,
    pub message_lines: Seq<Seq<char>>,
    pub peers_title: Seq<char>,
    pub peer_lines: Seq<Seq<char>>,
    pub input_title: Seq<char>,
    pub input: Seq<char>,
    pub input_colour: Colour,
    pub cursor_visible: bool,
}

pub open spec fn span_texts(v: Seq<HeaderSpan>) -> Seq<(Seq<char>, bool)> {
    v.map_values(|h: HeaderSpan| (h.text@, h.bold))
}

impl View for Screen {
    type V = ScreenView;

    open spec fn view(&self) -> ScreenView {
        ScreenView {
            layout: self.layout,
            header: span_texts(self.header@),
            header_blink: self.header_blink,
            header_colour: self.header_colour,
            title: self.title@,
            history_title: self.history_title@,
            message_lines: texts(self.message_lines@),
            peers_title: self.peers_title@,
            peer_lines: texts(self.peer_lines@),
            input_title: self.input_title@,
            input: self.input@,
            input_colour: self.input_colour,
            cursor_visible: self.cursor_visible,
        }
    }
}

/// The header's help text in each mode; the key names are bold.
pub open spec fn header_texts(mode: InputMode) -> Seq<(Seq<char>, bool)> {
    match mode {
        InputMode::Normal => seq![
            ("Press "@, false),
            ("q"@, true),
            (" to exit, "@, false),
            ("i"@, true),
            (" to start typing."@, false),
        ],
        InputMode::Editing => seq![
            ("Press "@, false),
            ("Esc"@, true),
            (" to stop editing, "@, false),
            ("Enter"@, true),
            (" to send message."@, false),
        ],
    }
}

/// The title of the header, naming the node.
pub open spec fn node_title(my_id: Seq<char>) -> Seq<char> {
    " Rust Africa Mesh - Node: "@ + my_id + " "@
}

/// The `i`-th line of the history as shown: its number, a colon and the line.
pub open spec fn numbered_line(i: nat, line: Seq<char>) -> Seq<char> {
    decimal(i) + ": "@ + line
}

/// The division of the screen: 3 header rows, at least 1 body row, 3 input
/// rows; history and peers at 70% and 30% of the width.
pub open spec fn screen_layout() -> Layout {
    Layout { header_rows: 3, body_min_rows: 1, input_rows: 3, history_percent: 70, peers_percent: 30 }
}

/// What the terminal shows of the session `a`.
pub open spec fn screen_of(a: AppView) -> ScreenView {
    ScreenView {
        layout: screen_layout(),
        header: header_texts(a.input_mode),
        header_blink: a.input_mode is Normal,
        header_colour: Colour::Cyan,
        title: node_title(a.my_id),
        history_title: " Class Chat "@,
        message_lines: Seq::new(a.messages.len(), |i: int| numbered_line(i as nat, a.messages[i])),
        peers_title: " Connected Students "@,
        peer_lines: a.peers,
        input_title: " Input "@,
        input: a.input_buffer,
        input_colour: if a.input_mode is Editing {
            Colour::Yellow
        } else {
            Colour::Plain
        },
        cursor_visible: a.input_mode is Editing,
    }
}

fn span(text: &str, bold: bool) -> (r: HeaderSpan)
    ensures
        r.text@ == text@,
        r.bold == bold,
{
    HeaderSpan { text: text.to_owned(), bold }
}

fn header(mode: InputMode) -> (r: Vec<HeaderSpan>)
    ensures
        span_texts(r@) == header_texts(mode),
{
    let r = match mode {
        InputMode::Normal => vec![
            span("Press ", false),
            span("q", true),
            span(" to exit, ", false),
            span("i", true),
            span(" to start typing.", false),
        ],
        InputMode::Editing => vec![
            span("Press ", false),
            span("Esc", true),
            span(" to stop editing, ", false),
            span("Enter", true),
            span(" to send message.", false),
        ],
    };
    assert(span_texts(r@) =~= header_texts(mode));
    r
}

/// What the terminal shows of `app`.
pub fn screen(app: &App) -> (r: Screen)
    ensures
        r@ == screen_of(app@),
{
    let mut title = " Rust Africa Mesh - Node: ".to_owned();
    title.append(app.my_id.as_str());
    title.append(" ");

    let n = app.messages.len();
    let mut lines: Vec<String> = Vec::new();
    for i in 0..n
        invariant
            n == app.messages@.len(),
            lines@.len() == i,
            forall|j: int|
                0 <= j < i ==> #[trigger] lines@[j]@ == numbered_line(
                    j as nat,
                    app.messages@[j]@,
                ),
    {
        let mut line = decimal_string(i);
        line.append(": ");
        line.append(app.messages[i].as_str());
        lines.push(line);
    }

    let m = app.peers.len();
    let mut peer_lines: Vec<String> = Vec::new();
    for i in 0..m
        invariant
            m == app.peers@.len(),
            peer_lines@.len() == i,
            forall|j: int| 0 <= j < i ==> #[trigger] peer_lines@[j]@ == app.peers@[j]@,
    {
        peer_lines.push(app.peers[i].clone());
    }

    let editing = match app.input_mode {
        InputMode::Normal => false,
        InputMode::Editing => true,
    };
    let r = Screen {
        layout: Layout {
            header_rows: 3,
            body_min_rows: 1,
            input_rows: 3,
            history_percent: 70,
            peers_percent: 30,
        },
        header: header(app.input_mode),
        header_blink: !editing,
        header_colour: Colour::Cyan,
        title,
        history_title: " Class Chat ".to_owned(),
        message_lines: lines,
        peers_title: " Connected Students ".to_owned(),
        peer_lines,
        input_title: " Input ".to_owned(),
        input: app.input_buffer.clone(),
        input_colour: if editing {
            Colour::Yellow
        } else {
            Colour::Plain
        },
        cursor_visible: editing,
    };
    assert(texts(r.message_lines@) =~= screen_of(app@).message_lines);
    assert(texts(r.peer_lines@) =~= texts(app.peers@));
    r
}

/// The number of terminal columns that the text takes, as ratatui measures
/// it (its Unicode display width).
pub uninterp spec fn display_width(text: Seq<char>) -> nat;

/// Whether every character is printable ASCII (space to tilde).
pub open spec fn printable_ascii(text: Seq<char>) -> bool {
    forall|i: int| 0 <= i < text.len() ==> ' ' <= #[trigger] text[i] <= '~'
}

/// The display width of `text` as `ratatui::text::Span::width` gives it (the
/// Unicode width of `unicode-width`'s `UnicodeWidthStr::width`). Claimed: the
/// result is `display_width` of the text, and for printable ASCII it is the
/// number of characters, one column each.
#[verifier::external_body]
fn text_width(text: &str) -> (w: usize)
    ensures
        w == display_width(text@),
        printable_ascii(text@) ==> w == text@.len(),
{
    ratatui::text::Span::raw(text).width()
}

/// Where the cursor goes while editing: on the cell just after the input
/// text (its display width, wrapped to 16 bits as the terminal's coordinates
/// are), inside the input box whose corner is at (`area_x`, `area_y`).
pub fn cursor_position(area_x: u16, area_y: u16, input: &str) -> (r: (u16, u16))
    requires
        area_x + (display_width(input@) % 65536) + 1 <= u16::MAX,
        area_y + 1 <= u16::MAX,
    ensures
        r.0 == area_x + (display_width(input@) % 65536) + 1,
        r.1 == area_y + 1,
        printable_ascii(input@) ==> r.0 == area_x + (input@.len() % 65536) + 1,
{
    let width: u16 = (text_width(input) % 65536) as u16;
    (area_x + width + 1, area_y + 1)
}

/// The cursor position of `cursor_position`, or `None` where it does not fit
/// in the terminal's 16-bit coordinates.
pub fn cursor_at(area_x: u16, area_y: u16, input: &str) -> (r: Option<(u16, u16)>)
    ensures
        r is None <==> area_x + (display_width(input@) % 65536) + 1 > u16::MAX || area_y + 1
            > u16::MAX,
        r matches Some(p) ==> p.0 == area_x + (display_width(input@) % 65536) + 1 && p.1 == area_y
            + 1,
        printable_ascii(input@) ==> display_width(input@) == input@.len(),
{
    let width: usize = text_width(input) % 65536;
    if area_x as usize + width + 1 > 65535 || area_y == 65535 {
        None
    } else {
        Some(cursor_position(area_x, area_y, input))
    }
}

/// The screen lists every peer of the session, in order, and nothing else;
/// and it shows one history line per line of the session's history, the
/// `i`-th ending with the `i`-th history line.
pub proof fn lemma_screen_lists_everything(a: AppView)
    ensures
        screen_of(a).peer_lines.len() == a.peers.len(),
        forall|i: int| 0 <= i < a.peers.len() ==> #[trigger] screen_of(a).peer_lines[i] == a.peers[i],
        screen_of(a).message_lines.len() == a.messages.len(),
        forall|i: int|
            0 <= i < a.messages.len() ==> #[trigger] screen_of(a).message_lines[i].subrange(
                screen_of(a).message_lines[i].len() - a.messages[i].len(),
                screen_of(a).message_lines[i].len() as int,
            ) == a.messages[i],
{
    assert forall|i: int| 0 <= i < a.messages.len() implies #[trigger] screen_of(a).message_lines[i].subrange(
        screen_of(a).message_lines[i].len() - a.messages[i].len(),
        screen_of(a).message_lines[i].len() as int,
    ) == a.messages[i] by {
        let l = screen_of(a).message_lines[i];
        assert(l == decimal(i as nat) + ": "@ + a.messages[i]);
        assert(l.subrange(l.len() - a.messages[i].len(), l.len() as int) =~= a.messages[i]);
    }
}

/// Each history line is shown under its position in the history: the line
/// at position `i` starts with the decimal number `i` followed by ": ".
/// The header's title names the node: its id stands whole, right after the
/// fixed 26 characters that open the title, followed by one space.
pub proof fn lemma_screen_numbers_and_title(a: AppView)
    ensures
        forall|i: int|
            0 <= i < a.messages.len() ==> {
                let l = #[trigger] screen_of(a).message_lines[i];
                &&& l.len() == decimal(i as nat).len() + 2 + a.messages[i].len()
                &&& l.subrange(0, decimal(i as nat).len() as int) == decimal(i as nat)
                &&& l.subrange(decimal(i as nat).len() as int, (decimal(i as nat).len() + 2) as int) == seq![':', ' ']
            },
        screen_of(a).title.len() == a.my_id.len() + 27,
        screen_of(a).title.subrange(26, (26 + a.my_id.len()) as int) == a.my_id,
        screen_of(a).title.last() == ' ',
{
    reveal_strlit(": ");
    reveal_strlit(" Rust Africa Mesh - Node: ");
    reveal_strlit(" ");
    assert forall|i: int| 0 <= i < a.messages.len() implies {
        let l = #[trigger] screen_of(a).message_lines[i];
        &&& l.len() == decimal(i as nat).len() + 2 + a.messages[i].len()
        &&& l.subrange(0, decimal(i as nat).len() as int) == decimal(i as nat)
        &&& l.subrange(decimal(i as nat).len() as int, (decimal(i as nat).len() + 2) as int) == seq![':', ' ']
    } by {
        let d = decimal(i as nat);
        let l = screen_of(a).message_lines[i];
        assert(l == d + ": "@ + a.messages[i]);
        assert(l.subrange(0, d.len() as int) =~= d);
        assert(l.subrange(d.len() as int, (d.len() + 2) as int) =~= seq![':', ' ']);
    }
    let t = screen_of(a).title;
    assert(t.subrange(26, (26 + a.my_id.len()) as int) =~= a.my_id);
}

/// The input box shows the whole input line; it is highlighted and holds the
/// cursor exactly while editing, and the header blinks exactly in command
/// mode, where it names `q` and `i`.
pub proof fn lemma_screen_shows_input(a: AppView)
    ensures
        screen_of(a).input == a.input_buffer,
        screen_of(a).cursor_visible <==> a.input_mode is Editing,
        (screen_of(a).input_colour == Colour::Yellow) <==> a.input_mode is Editing,
        screen_of(a).header_blink <==> a.input_mode is Normal,
        a.input_mode is Normal ==> screen_of(a).header[1] == ("q"@, true) && screen_of(a).header[3]
            == ("i"@, true),
{
}

} // verus!
