//! What the screens show, as styled text: runs of text in a palette colour,
//! bold or not. The terminal renderer only draws these lines.
use vstd::prelude::*;

use crate::text::{concat_str, owned, push_all, push_char};

verus! {

/// Colours of the palette; `Plain` is the terminal's own.
#[derive(Clone, Copy, PartialEq, Eq, Structural, Debug)]
pub enum Tone {
    Plain,
    Text,
    Accent,
    Success,
    Muted,
    Dangerous,
    Warn,
    Primary,
}

/// A run of text drawn in one colour, bold or not.
pub struct Piece {
    pub text: String,
    pub tone: Tone,
    pub bold: bool,
}

impl DeepView for Piece {
    type V = (Seq<char>, Tone, bool);

    open spec fn deep_view(&self) -> (Seq<char>, Tone, bool) {
        (self.text@, self.tone, self.bold)
    }
}

/// A run of the given text.
pub fn piece(text: &str, tone: Tone, bold: bool) -> (r: Piece)
    ensures
        r.deep_view() == (text@, tone, bold),
{
    Piece { text: owned(text), tone, bold }
}

/// A run of the given owned text.
pub fn piece_of(text: String, tone: Tone, bold: bool) -> (r: Piece)
    ensures
        r.deep_view() == (text@, tone, bold),
{
    Piece { text, tone, bold }
}

/// `n` copies of `c`.
pub open spec fn spec_repeat(c: char, n: int) -> Seq<char> {
    Seq::new(n as nat, |_i: int| c)
}

pub fn repeat_char(c: char, n: usize) -> (r: String)
    ensures
        r@ == spec_repeat(c, n as int),
{
    let mut r = String::new();
    assert(r@ =~= spec_repeat(c, 0));
    let mut i: usize = 0;
    while i < n
        invariant
            i <= n,
            r@ == spec_repeat(c, i as int),
        decreases n - i,
    {
        push_char(&mut r, c);
        assert(r@ =~= spec_repeat(c, i + 1));
        i = i + 1;
    }
    r
}

/// The text followed by spaces up to `width` characters (`{:<width$}`).
pub open spec fn spec_pad_right(s: Seq<char>, width: int) -> Seq<char> {
    if s.len() < width {
        s + spec_repeat(' ', width - s.len())
    } else {
        s
    }
}

pub fn pad_right(s: &str, width: usize) -> (r: String)
    ensures
        r@ == spec_pad_right(s@, width as int),
{
    let n = s.unicode_len();
    let mut r = owned(s);
    if n < width {
        let pad = repeat_char(' ', width - n);
        push_all(&mut r, pad.as_str());
    }
    r
}

/// The text preceded by spaces up to `width` characters (`{:>width$}`).
pub open spec fn spec_pad_left(s: Seq<char>, width: int) -> Seq<char> {
    if s.len() < width {
        spec_repeat(' ', width - s.len()) + s
    } else {
        s
    }
}

pub fn pad_left(s: &str, width: usize) -> (r: String)
    ensures
        r@ == spec_pad_left(s@, width as int),
{
    let n = s.unicode_len();
    if n < width {
        let mut r = repeat_char(' ', width - n);
        push_all(&mut r, s);
        r
    } else {
        owned(s)
    }
}

/// The decimal digit for `d` (below 10).
pub open spec fn spec_digit(d: int) -> char {
    if d == 0 {
        '0'
    } else if d == 1 {
        '1'
    } else if d == 2 {
        '2'
    } else if d == 3 {
        '3'
    } else if d == 4 {
        '4'
    } else if d == 5 {
        '5'
    } else if d == 6 {
        '6'
    } else if d == 7 {
        '7'
    } else if d == 8 {
        '8'
    } else {
        '9'
    }
}

fn digit(d: u64) -> (r: char)
    requires
        d < 10,
    ensures
        r == spec_digit(d as int),
{
    if d == 0 {
        '0'
    } else if d == 1 {
        '1'
    } else if d == 2 {
        '2'
    } else if d == 3 {
        '3'
    } else if d == 4 {
        '4'
    } else if d == 5 {
        '5'
    } else if d == 6 {
        '6'
    } else if d == 7 {
        '7'
    } else if d == 8 {
        '8'
    } else {
        '9'
    }
}

/// A number in decimal, without leading zeros.
pub open spec fn spec_decimal(n: nat) -> Seq<char>
    decreases n,
{
    if n < 10 {
        seq![spec_digit(n as int)]
    } else {
        spec_decimal(n / 10).push(spec_digit((n % 10) as int))
    }
}

pub fn decimal(n: u64) -> (r: String)
    ensures
        r@ == spec_decimal(n as nat),
    decreases n,
{
    if n < 10 {
        let mut r = String::new();
        push_char(&mut r, digit(n));
        assert(r@ =~= seq![spec_digit(n as int)]);
        r
    } else {
        let mut r = decimal(n / 10);
        push_char(&mut r, digit(n % 10));
        r
    }
}

/// Width of the section separators and dividers of the lists.
pub const SEPARATOR_WIDTH: usize = 46;

/// Width of the divider under the main menu's logo.
pub const DIVIDER_WIDTH: u16 = 53;

/// Label column of the inline fields.
pub const FIELD_LABEL_W: usize = 18;

/// Narrower label column for the timezone selector, whose editing hint
/// needs the room.
pub const FIELD_LABEL_W_TZ: usize = 13;

/// Shown after a value being cycled.
pub const HINT_CYCLE_VALUE: &'static str = "  ↑↓ change  •  ↵ confirm  •  ⌫ cancel";

/// Shown under finished screens.
pub const HINT_RETURN_TO_MENU: &'static str = "Press ↵ to return to the main menu";

/// The line of a piece sequence, as text, colour and weight.
pub type LineView = Seq<(Seq<char>, Tone, bool)>;

/// The arrow in front of a selected row, or the blank in its place.
pub open spec fn spec_marker(is_sel: bool) -> Seq<char> {
    if is_sel {
        "▸ "@
    } else {
        "  "@
    }
}

pub fn marker(is_sel: bool) -> (r: &'static str)
    ensures
        r@ == spec_marker(is_sel),
{
    if is_sel {
        "▸ "
    } else {
        "  "
    }
}

pub open spec fn spec_blank_item() -> LineView {
    Seq::empty()
}

pub fn blank_item() -> (r: Vec<Piece>)
    ensures
        r.deep_view() == spec_blank_item(),
{
    let r: Vec<Piece> = Vec::new();
    assert(r.deep_view() =~= spec_blank_item());
    r
}

pub open spec fn spec_divider_item() -> LineView {
    seq![("  "@, Tone::Plain, false), (spec_repeat('─', SEPARATOR_WIDTH as int), Tone::Muted, false)]
}

/// A muted horizontal rule across the list.
pub fn divider_item() -> (r: Vec<Piece>)
    ensures
        r.deep_view() == spec_divider_item(),
{
    let r = vec![
        piece("  ", Tone::Plain, false),
        piece_of(repeat_char('─', SEPARATOR_WIDTH), Tone::Muted, false),
    ];
    assert(r.deep_view() =~= spec_divider_item());
    r
}

pub open spec fn spec_separator_text(label: Seq<char>) -> Seq<char> {
    "── "@ + label + " "@ + spec_repeat('─', if SEPARATOR_WIDTH > label.len() + 4 {
        SEPARATOR_WIDTH - label.len() - 4
    } else {
        0
    })
}

pub open spec fn spec_separator_item(label: Seq<char>) -> LineView {
    seq![("  "@, Tone::Plain, false), (spec_separator_text(label), Tone::Muted, false)]
}

/// A muted section rule carrying its label: `── label ─────`, as wide as
/// the other rules when the label fits.
pub fn separator_item(label: &str) -> (r: Vec<Piece>)
    ensures
        r.deep_view() == spec_separator_item(label@),
{
    let prefix = label.unicode_len().saturating_add(4);
    let dashes = repeat_char('─', SEPARATOR_WIDTH.saturating_sub(prefix));
    let mut text = concat_str("── ", label);
    push_all(&mut text, " ");
    push_all(&mut text, dashes.as_str());
    let r = vec![piece("  ", Tone::Plain, false), piece_of(text, Tone::Muted, false)];
    assert(r.deep_view() =~= spec_separator_item(label@));
    r
}

pub open spec fn spec_back_item(is_sel: bool) -> LineView {
    seq![
        (spec_marker(is_sel), Tone::Primary, false),
        ("← Back"@, if is_sel {
            Tone::Accent
        } else {
            Tone::Muted
        }, is_sel),
    ]
}

/// The row that leaves the screen.
pub fn back_item(is_sel: bool) -> (r: Vec<Piece>)
    ensures
        r.deep_view() == spec_back_item(is_sel),
{
    let tone = if is_sel {
        Tone::Accent
    } else {
        Tone::Muted
    };
    let r = vec![piece(marker(is_sel), Tone::Primary, false), piece("← Back", tone, is_sel)];
    assert(r.deep_view() =~= spec_back_item(is_sel));
    r
}

pub open spec fn spec_badge(on: bool) -> Seq<char> {
    if on {
        "[ON ]  "@
    } else {
        "[OFF]  "@
    }
}

pub open spec fn spec_indent(indent: bool) -> Seq<char> {
    if indent {
        "    "@
    } else {
        ""@
    }
}

pub open spec fn spec_toggle_item(is_sel: bool, on: bool, label: Seq<char>, indent: bool, disabled: bool) -> LineView {
    if disabled {
        seq![
            (spec_marker(is_sel), Tone::Muted, false),
            (spec_indent(indent), Tone::Muted, false),
            (spec_badge(on), Tone::Muted, false),
            (label, Tone::Muted, false),
        ]
    } else if is_sel {
        seq![
            ("▸ "@, Tone::Primary, false),
            (spec_indent(indent), Tone::Plain, false),
            (spec_badge(on), Tone::Accent, true),
            (label, Tone::Accent, true),
        ]
    } else {
        seq![
            ("  "@, Tone::Plain, false),
            (spec_indent(indent), Tone::Plain, false),
            (spec_badge(on), if on {
                Tone::Success
            } else {
                Tone::Muted
            }, true),
            (label, Tone::Text, false),
        ]
    }
}

/// An `[ON ]` / `[OFF]` setting; a disabled one is all muted.
pub fn toggle_item(is_sel: bool, on: bool, label: String, indent: bool, disabled: bool) -> (r: Vec<Piece>)
    ensures
        r.deep_view() == spec_toggle_item(is_sel, on, label@, indent, disabled),
{
    let prefix = if indent {
        "    "
    } else {
        ""
    };
    let badge = if on {
        "[ON ]  "
    } else {
        "[OFF]  "
    };
    let r = if disabled {
        vec![
            piece(marker(is_sel), Tone::Muted, false),
            piece(prefix, Tone::Muted, false),
            piece(badge, Tone::Muted, false),
            piece_of(label, Tone::Muted, false),
        ]
    } else if is_sel {
        vec![
            piece("▸ ", Tone::Primary, false),
            piece(prefix, Tone::Plain, false),
            piece(badge, Tone::Accent, true),
            piece_of(label, Tone::Accent, true),
        ]
    } else {
        let badge_tone = if on {
            Tone::Success
        } else {
            Tone::Muted
        };
        vec![
            piece("  ", Tone::Plain, false),
            piece(prefix, Tone::Plain, false),
            piece(badge, badge_tone, true),
            piece_of(label, Tone::Text, false),
        ]
    };
    assert(r.deep_view() =~= spec_toggle_item(is_sel, on, label@, indent, disabled));
    r
}

/// How an inline label + value row is drawn.
#[derive(Clone, Copy, PartialEq, Eq, Structural, Debug)]
pub enum FieldState {
    /// Not focused.
    Normal,
    /// Focused, not being edited.
    Selected,
    /// Being edited: the value is drawn as `< value >` with the editing hint.
    Editing,
}

pub open spec fn spec_field_state(is_sel: bool, editing: bool) -> FieldState {
    if editing {
        FieldState::Editing
    } else if is_sel {
        FieldState::Selected
    } else {
        FieldState::Normal
    }
}

pub fn field_state(is_sel: bool, editing: bool) -> (r: FieldState)
    ensures
        r == spec_field_state(is_sel, editing),
{
    if editing {
        FieldState::Editing
    } else if is_sel {
        FieldState::Selected
    } else {
        FieldState::Normal
    }
}

pub open spec fn spec_inline_field_item(label: Seq<char>, value: Seq<char>, state: FieldState, label_w: int) -> LineView {
    let padded = spec_pad_right(label, label_w);
    match state {
        FieldState::Editing => seq![
            ("▸ "@, Tone::Primary, false),
            (padded, Tone::Accent, true),
            ("< "@ + value + " >"@, Tone::Accent, false),
            (HINT_CYCLE_VALUE@, Tone::Muted, false),
        ],
        FieldState::Selected => seq![
            ("▸ "@, Tone::Primary, false),
            (padded, Tone::Accent, true),
            (value, Tone::Accent, true),
        ],
        FieldState::Normal => seq![
            ("  "@, Tone::Plain, false),
            (padded, Tone::Text, false),
            (value, Tone::Text, false),
        ],
    }
}

/// A label in a column of `label_w` followed by its value.
pub fn inline_field_item(label: &str, value: &str, state: FieldState, label_w: usize) -> (r: Vec<Piece>)
    ensures
        r.deep_view() == spec_inline_field_item(label@, value@, state, label_w as int),
{
    let padded = pad_right(label, label_w);
    let r = match state {
        FieldState::Editing => {
            let mut boxed = concat_str("< ", value);
            push_all(&mut boxed, " >");
            vec![
                piece("▸ ", Tone::Primary, false),
                piece_of(padded, Tone::Accent, true),
                piece_of(boxed, Tone::Accent, false),
                piece(HINT_CYCLE_VALUE, Tone::Muted, false),
            ]
        },
        FieldState::Selected => vec![
            piece("▸ ", Tone::Primary, false),
            piece_of(padded, Tone::Accent, true),
            piece(value, Tone::Accent, true),
        ],
        FieldState::Normal => vec![
            piece("  ", Tone::Plain, false),
            piece_of(padded, Tone::Text, false),
            piece(value, Tone::Text, false),
        ],
    };
    assert(r.deep_view() =~= spec_inline_field_item(label@, value@, state, label_w as int));
    r
}

pub open spec fn spec_del_item(is_sel: bool, detail: Seq<char>) -> LineView {
    if is_sel {
        seq![
            ("▸ "@, Tone::Dangerous, false),
            ("[del]"@, Tone::Dangerous, true),
            (detail, Tone::Text, false),
        ]
    } else {
        seq![("  "@, Tone::Plain, false), ("[del]"@, Tone::Muted, false), (detail, Tone::Text, false)]
    }
}

/// A row that removes something when chosen.
pub fn del_item(is_sel: bool, detail: String) -> (r: Vec<Piece>)
    ensures
        r.deep_view() == spec_del_item(is_sel, detail@),
{
    let r = if is_sel {
        vec![
            piece("▸ ", Tone::Dangerous, false),
            piece("[del]", Tone::Dangerous, true),
            piece_of(detail, Tone::Text, false),
        ]
    } else {
        vec![
            piece("  ", Tone::Plain, false),
            piece("[del]", Tone::Muted, false),
            piece_of(detail, Tone::Text, false),
        ]
    };
    assert(r.deep_view() =~= spec_del_item(is_sel, detail@));
    r
}

pub open spec fn spec_link_item_styled(is_sel: bool, label: Seq<char>, unselected: Tone) -> LineView {
    seq![
        (spec_marker(is_sel), Tone::Primary, false),
        (label, if is_sel {
            Tone::Accent
        } else {
            unselected
        }, is_sel),
    ]
}

fn link_item_styled(is_sel: bool, label: &str, unselected: Tone) -> (r: Vec<Piece>)
    ensures
        r.deep_view() == spec_link_item_styled(is_sel, label@, unselected),
{
    let tone = if is_sel {
        Tone::Accent
    } else {
        unselected
    };
    let r = vec![piece(marker(is_sel), Tone::Primary, false), piece(label, tone, is_sel)];
    assert(r.deep_view() =~= spec_link_item_styled(is_sel, label@, unselected));
    r
}

/// A row that opens another screen.
pub fn link_item(is_sel: bool, label: &str) -> (r: Vec<Piece>)
    ensures
        r.deep_view() == spec_link_item_styled(is_sel, label@, Tone::Text),
{
    link_item_styled(is_sel, label, Tone::Text)
}

/// A secondary row that opens another screen, muted until selected.
pub fn sub_link_item(is_sel: bool, label: &str) -> (r: Vec<Piece>)
    ensures
        r.deep_view() == spec_link_item_styled(is_sel, label@, Tone::Muted),
{
    link_item_styled(is_sel, label, Tone::Muted)
}

/// The pieces of a key hint, all muted.
pub open spec fn spec_hint(parts: Seq<Seq<char>>) -> LineView {
    Seq::new(parts.len(), |i: int| (parts[i], Tone::Muted, false))
}

/// Key hint: move, act on the row (`action`), go back.
pub open spec fn spec_hint_navigate_action(action: Seq<char>) -> LineView {
    spec_hint(
        seq!["↑↓"@, " navigate  •  "@, "↵"@, " "@ + action + "  •  "@, "⌫/Esc"@, " back"@],
    )
}

pub fn hint_navigate_action(action: &str) -> (r: Vec<Piece>)
    ensures
        r.deep_view() == spec_hint_navigate_action(action@),
{
    let mut verb = concat_str(" ", action);
    push_all(&mut verb, "  •  ");
    let r = vec![
        piece("↑↓", Tone::Muted, false),
        piece(" navigate  •  ", Tone::Muted, false),
        piece("↵", Tone::Muted, false),
        piece_of(verb, Tone::Muted, false),
        piece("⌫/Esc", Tone::Muted, false),
        piece(" back", Tone::Muted, false),
    ];
    assert(r.deep_view() =~= spec_hint_navigate_action(action@));
    r
}

/// Key hint of a yes/no confirmation.
pub open spec fn spec_hint_confirm_cancel() -> LineView {
    spec_hint(seq!["↵/y"@, " confirm  •  "@, "Esc/n"@, " cancel"@])
}

pub fn hint_confirm_cancel() -> (r: Vec<Piece>)
    ensures
        r.deep_view() == spec_hint_confirm_cancel(),
{
    let r = vec![
        piece("↵/y", Tone::Muted, false),
        piece(" confirm  •  ", Tone::Muted, false),
        piece("Esc/n", Tone::Muted, false),
        piece(" cancel", Tone::Muted, false),
    ];
    assert(r.deep_view() =~= spec_hint_confirm_cancel());
    r
}

/// Key hint while text is typed.
pub open spec fn spec_hint_input_confirm() -> LineView {
    spec_hint(seq!["↵"@, " confirm  •  "@, "Esc"@, " cancel"@])
}

pub fn hint_input_confirm() -> (r: Vec<Piece>)
    ensures
        r.deep_view() == spec_hint_input_confirm(),
{
    let r = vec![
        piece("↵", Tone::Muted, false),
        piece(" confirm  •  ", Tone::Muted, false),
        piece("Esc", Tone::Muted, false),
        piece(" cancel", Tone::Muted, false),
    ];
    assert(r.deep_view() =~= spec_hint_input_confirm());
    r
}

/// A two-piece muted hint: a key and what it does.
pub open spec fn spec_hint_pair(key: Seq<char>, what: Seq<char>) -> LineView {
    spec_hint(seq![key, what])
}

pub fn hint_pair(key: &str, what: &str) -> (r: Vec<Piece>)
    ensures
        r.deep_view() == spec_hint_pair(key@, what@),
{
    let r = vec![piece(key, Tone::Muted, false), piece(what, Tone::Muted, false)];
    assert(r.deep_view() =~= spec_hint_pair(key@, what@));
    r
}

/// The spinner frames, in order.
pub open spec fn spec_spinner(tick: int) -> char {
    let k = tick % 8;
    if k == 0 {
        '⠋'
    } else if k == 1 {
        '⠙'
    } else if k == 2 {
        '⠹'
    } else if k == 3 {
        '⠸'
    } else if k == 4 {
        '⠼'
    } else if k == 5 {
        '⠴'
    } else if k == 6 {
        '⠦'
    } else {
        '⠧'
    }
}

/// The spinner frame for a tick count.
pub fn spinner(tick: usize) -> (r: char)
    ensures
        r == spec_spinner(tick as int),
{
    let k = tick % 8;
    if k == 0 {
        '⠋'
    } else if k == 1 {
        '⠙'
    } else if k == 2 {
        '⠹'
    } else if k == 3 {
        '⠸'
    } else if k == 4 {
        '⠼'
    } else if k == 5 {
        '⠴'
    } else if k == 6 {
        '⠦'
    } else {
        '⠧'
    }
}

} // verus!
