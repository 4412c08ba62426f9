//! Text views of a task: a one-line form with a status glyph and a colored
//! name, and a multi-line form with the task's details.
use vstd::prelude::*;
use vstd::string::StringExecFns;
use colored::Colorize;
use crate::task::{spec_status, Task, TaskStatus, TaskType};

verus! {

/// The colors that the one-line form gives a name.
#[derive(Debug, Clone, Copy, PartialEq, Eq, Structural)]
pub enum Hue {
    Green,
    White,
    Red,
    Blue,
}

/// The color that goes with each status.
pub open spec fn status_hue(st: TaskStatus) -> Hue {
    match st {
        TaskStatus::Complete => Hue::Green,
        TaskStatus::Incomplete => Hue::White,
        TaskStatus::Blocking => Hue::Red,
        TaskStatus::Ready => Hue::Blue,
    }
}

/// The last digit of the terminal code of each color's foreground.
pub open spec fn hue_digit(h: Hue) -> char {
    match h {
        Hue::Red => '1',
        Hue::Green => '2',
        Hue::Blue => '4',
        Hue::White => '7',
    }
}

/// The escape sequence that turns a color on.
pub open spec fn color_on(h: Hue) -> Seq<char> {
    seq!['\x1b', '[', '3', hue_digit(h), 'm']
}

/// The escape sequence that turns colors off.
pub open spec fn color_off() -> Seq<char> {
    seq!['\x1b', '[', '0', 'm']
}

/// `r` is `s` shown in color `h`: `s` unchanged where coloring is switched off,
/// or framed by the color's escape sequences where it is on.
pub open spec fn is_colored(r: Seq<char>, s: Seq<char>, h: Hue) -> bool {
    ||| r == s
    ||| {
        &&& r.len() >= color_on(h).len() + color_off().len()
        &&& r.take(color_on(h).len() as int) == color_on(h)
        &&& r.skip(r.len() - color_off().len()) == color_off()
        &&& !s.contains('\x1b') ==> r == color_on(h) + s + color_off()
    }
}

/// Relies on colored's `Colorize::color` on a `&str` and the `Display` of the
/// `ColoredString` it returns: plain text when coloring is off, and otherwise
/// the foreground code, the text (with inner resets re-escaped) and a reset.
#[verifier::external_body]
fn paint(s: &str, h: Hue) -> (r: String)
    ensures
        is_colored(r@, s@, h),
{
    let c = match h {
        Hue::Green => colored::Color::Green,
        Hue::White => colored::Color::White,
        Hue::Red => colored::Color::Red,
        Hue::Blue => colored::Color::Blue,
    };
    s.color(c).to_string()
}

/// The glyph and space that open the one-line form.
pub open spec fn glyph(st: TaskStatus) -> Seq<char> {
    match st {
        TaskStatus::Complete => "[X] "@,
        TaskStatus::Incomplete => "[ ] "@,
        TaskStatus::Blocking => "[!] "@,
        TaskStatus::Ready => "[*] "@,
    }
}

/// The name of a status, as the multi-line form shows it.
pub open spec fn status_label(st: TaskStatus) -> Seq<char> {
    match st {
        TaskStatus::Complete => "Complete"@,
        TaskStatus::Ready => "Ready"@,
        TaskStatus::Incomplete => "Incomplete"@,
        TaskStatus::Blocking => "Blocking"@,
    }
}

/// The name of a task kind.
pub open spec fn variant_label(v: TaskType) -> Seq<char> {
    match v {
        TaskType::All => "All"@,
        TaskType::Any => "Any"@,
    }
}

/// The decimal digit for `d < 10`.
pub open spec fn digit_char(d: nat) -> char {
    if d < 10 {
        ((d + 48) as u8) as char
    } else {
        '?'
    }
}

/// The decimal form of `n`, without leading zeros.
pub open spec fn decimal(n: nat) -> Seq<char>
    decreases n,
{
    if n < 10 {
        seq![digit_char(n)]
    } else {
        decimal(n / 10).push(digit_char(n % 10))
    }
}

/// What the multi-line form shows after the one-line form.
pub open spec fn long_tail(t: Task) -> Seq<char> {
    "\n\tStatus: "@ + status_label(spec_status(t)) + "\n\tDescription: "@ + t.description@
        + "\n\tVariant: "@ + variant_label(t.variant) + "\n\tChildren: "@ + decimal(
        t.children@.len(),
    )
}

/// A correct one-line form of `t`: its glyph, then its name in its color.
pub open spec fn is_short_form(t: Task, r: Seq<char>) -> bool {
    let g = glyph(spec_status(t));
    &&& r.len() >= g.len()
    &&& r.take(g.len() as int) == g
    &&& is_colored(r.skip(g.len() as int), t.name@, status_hue(spec_status(t)))
}

fn status_hue_of(st: TaskStatus) -> (r: Hue)
    ensures
        r == status_hue(st),
{
    match st {
        TaskStatus::Complete => Hue::Green,
        TaskStatus::Incomplete => Hue::White,
        TaskStatus::Blocking => Hue::Red,
        TaskStatus::Ready => Hue::Blue,
    }
}

fn glyph_of(st: TaskStatus) -> (r: &'static str)
    ensures
        r@ == glyph(st),
{
    match st {
        TaskStatus::Complete => "[X] ",
        TaskStatus::Incomplete => "[ ] ",
        TaskStatus::Blocking => "[!] ",
        TaskStatus::Ready => "[*] ",
    }
}

fn digit_str(d: usize) -> (r: &'static str)
    requires
        d < 10,
    ensures
        r@ == seq![digit_char(d as nat)],
{
    proof {
        reveal_strlit("0");
        reveal_strlit("1");
        reveal_strlit("2");
        reveal_strlit("3");
        reveal_strlit("4");
        reveal_strlit("5");
        reveal_strlit("6");
        reveal_strlit("7");
        reveal_strlit("8");
        reveal_strlit("9");
    }
    match d {
        0 => "0",
        1 => "1",
        2 => "2",
        3 => "3",
        4 => "4",
        5 => "5",
        6 => "6",
        7 => "7",
        8 => "8",
        _ => "9",
    }
}

/// The decimal form of `n`.
pub fn decimal_string(n: usize) -> (r: String)
    ensures
        r@ == decimal(n as nat),
    decreases n,
{
    if n < 10 {
        digit_str(n).to_owned()
    } else {
        decimal_string(n / 10).concat(digit_str(n % 10))
    }
}

impl TaskStatus {
    /// The status's name.
    pub fn label(&self) -> (r: &'static str)
        ensures
            r@ == status_label(*self),
    {
        match self {
            TaskStatus::Complete => "Complete",
            TaskStatus::Ready => "Ready",
            TaskStatus::Incomplete => "Incomplete",
            TaskStatus::Blocking => "Blocking",
        }
    }
}

impl TaskType {
    /// The kind's name.
    pub fn label(&self) -> (r: &'static str)
        ensures
            r@ == variant_label(*self),
    {
        match self {
            TaskType::All => "All",
            TaskType::Any => "Any",
        }
    }

    /// The kind's name, as an owned string.
    pub fn to_string(&self) -> (r: String)
        ensures
            r@ == variant_label(*self),
    {
        self.label().to_owned()
    }
}

/// The one-line form of a task of status `st` whose name, already colored, is `painted`.
pub fn render_short(st: TaskStatus, painted: &str) -> (r: String)
    ensures
        r@ == glyph(st) + painted@,
{
    glyph_of(st).to_owned().concat(painted)
}

impl Task {
    /// The multi-line form, built on the one-line form `short`.
    pub fn render_long(&self, short: &str) -> (r: String)
        ensures
            r@ == short@ + long_tail(*self),
    {
        let st = self.status();
        let r = short.to_owned().concat("\n\tStatus: ").concat(st.label()).concat(
            "\n\tDescription: ",
        ).concat(self.description.as_str()).concat("\n\tVariant: ").concat(
            self.variant.label(),
        ).concat("\n\tChildren: ").concat(decimal_string(self.children.len()).as_str());
        assert(r@ =~= short@ + long_tail(*self));
        r
    }

    /// One line: the status glyph, then the name in the status's color.
    pub fn display_short(&self) -> (r: String)
        ensures
            is_short_form(*self, r@),
    {
        let st = self.status();
        let painted = paint(self.name.as_str(), status_hue_of(st));
        let r = render_short(st, painted.as_str());
        assert(r@.take(glyph(st).len() as int) =~= glyph(st));
        assert(r@.skip(glyph(st).len() as int) =~= painted@);
        r
    }

    /// The one-line form, then the status, description, kind and number of children.
    pub fn display_long(&self) -> (r: String)
        ensures
            r@.len() >= long_tail(*self).len(),
            r@.skip(r@.len() - long_tail(*self).len()) == long_tail(*self),
            is_short_form(*self, r@.take(r@.len() - long_tail(*self).len())),
    {
        let short = self.display_short();
        let r = self.render_long(short.as_str());
        assert(r@.skip(r@.len() - long_tail(*self).len()) =~= long_tail(*self));
        assert(r@.take(r@.len() - long_tail(*self).len()) =~= short@);
        r
    }

    /// The one-line form.
    pub fn to_string(&self) -> (r: String)
        ensures
            is_short_form(*self, r@),
    {
        self.display_short()
    }
}

} // verus!
