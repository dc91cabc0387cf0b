use std::sync::atomic::AtomicBool;
use std::sync::Arc;
use vstd::prelude::*;

use crate::error::FormatError;
use crate::level::{level_token, level_token_width, Level};
use crate::switch::StyleSwitch;
use crate::timestamp::{
    is_digit, is_separator_position, now_utc, push_text, timestamp_text, timestamp_text_shape,
    Timestamp,
};

verus! {

/// The two ways of rendering a line.
#[derive(Debug, Clone, Copy, PartialEq, Eq, Structural)]
pub enum Style {
    /// The pipeline's own default line.
    Plain,
    /// The de-emphasised line of [`MyFormat`].
    Dim,
}

/// The style that a flag value selects.
pub open spec fn style_for(flag: bool) -> Style {
    if flag {
        Style::Dim
    } else {
        Style::Plain
    }
}

/// What the formatter reads of an event: its level, its target, and its fields
/// as the pipeline's field renderer wrote them.
#[derive(Debug, Clone, PartialEq, Eq)]
pub struct LogEvent {
    pub level: Level,
    pub target: String,
    pub fields: String,
}

/// The outcome of formatting one event.
#[derive(Debug, Clone, PartialEq, Eq)]
pub enum Rendered {
    /// The pipeline's default renderer is to write the line.
    Plain,
    /// The dimmed line, newline included, to be written as it is.
    Dim(String),
}

/// The escape sequence that starts the dim style, where the sink takes colour.
pub open spec fn dim_start(color: bool) -> Seq<char> {
    if color {
        seq!['\x1b', '[', '2', 'm']
    } else {
        Seq::empty()
    }
}

/// The escape sequence that resets the style, where the sink takes colour.
pub open spec fn dim_reset(color: bool) -> Seq<char> {
    if color {
        seq!['\x1b', '[', '0', 'm']
    } else {
        Seq::empty()
    }
}

/// The dimmed line: style start, timestamp and two spaces, level token, target
/// and `": "`, fields, style reset, newline.
pub open spec fn dim_line(
    color: bool,
    stamp: Seq<char>,
    level: Level,
    target: Seq<char>,
    fields: Seq<char>,
) -> Seq<char> {
    dim_start(color) + stamp + seq![' ', ' '] + level_token(level) + target + seq![':', ' ']
        + fields + dim_reset(color) + seq!['\n']
}

/// The dimmed line for `event` at the moment `now`.
pub open spec fn dim_line_at(color: bool, now: Timestamp, event: LogEvent) -> Seq<char> {
    dim_line(color, timestamp_text(now), event.level, event.target@, event.fields@)
}

/// `s` holds no escape character.
pub open spec fn free_of_escape(s: Seq<char>) -> bool {
    forall|i: int| 0 <= i < s.len() ==> #[trigger] s[i] != '\x1b'
}

/// The style selected by a flag value.
pub fn style_of(flag: bool) -> (r: Style)
    ensures
        r == style_for(flag),
{
    if flag {
        Style::Dim
    } else {
        Style::Plain
    }
}

/// The renderer of the dimmed line.
#[derive(Debug, Clone, Copy, PartialEq, Eq, Structural)]
pub struct MyFormat {}

impl MyFormat {
    /// The dimmed-line renderer; it holds no state.
    pub fn new() -> (r: Self)
        ensures
            r == (MyFormat {}),
    {
        MyFormat {}
    }

    /// The dimmed line for `event` with `now` as its timestamp; `color` says
    /// whether the sink takes escape sequences.
    pub fn render(&self, color: bool, now: &Timestamp, event: &LogEvent) -> (r: Result<
        String,
        FormatError,
    >)
        ensures
            match r {
                Ok(s) => now.renderable() && s@ == dim_line_at(color, *now, *event),
                Err(e) => !now.renderable() && e == FormatError::TimestampFormatFailed,
            },
    {
        let stamp = match now.format() {
            Ok(s) => s,
            Err(e) => return Err(e),
        };
        proof {
            reveal_strlit("\x1b[2m");
            reveal_strlit("\x1b[0m");
            reveal_strlit("  ");
            reveal_strlit(": ");
            reveal_strlit("\n");
        }
        let mut out = String::new();
        if color {
            push_text(&mut out, "\x1b[2m");
        }
        push_text(&mut out, stamp.as_str());
        push_text(&mut out, "  ");
        push_text(&mut out, event.level.token());
        push_text(&mut out, event.target.as_str());
        push_text(&mut out, ": ");
        push_text(&mut out, event.fields.as_str());
        if color {
            push_text(&mut out, "\x1b[0m");
        }
        push_text(&mut out, "\n");
        assert(out@ =~= dim_line_at(color, *now, *event));
        Ok(out)
    }

    /// The dimmed line for `event`, stamped with the current time in UTC.
    pub fn format_event(&self, color: bool, event: &LogEvent) -> (r: Result<String, FormatError>)
        ensures
            match r {
                Ok(s) => exists|t: Timestamp|
                    t.renderable() && s@ == #[trigger] dim_line_at(color, t, *event),
                Err(e) => e == FormatError::TimestampFormatFailed,
            },
    {
        let now = now_utc();
        self.render(color, &now, event)
    }
}

/// Formats each event in the style that the shared flag selects when the call
/// begins.
pub struct DynamicFormatter {
    dim_format: MyFormat,
    switch: StyleSwitch,
}

impl DynamicFormatter {
    /// The shared cell whose flag selects the style.
    pub closed spec fn cell(&self) -> Arc<AtomicBool> {
        self.switch.cell()
    }

    /// A formatter that follows `dim`, the caller's own cell (shared, not
    /// copied): set, it renders dimmed lines.
    pub fn new(dim: Arc<AtomicBool>) -> (r: Self)
        ensures
            r.cell() == dim,
    {
        DynamicFormatter { dim_format: MyFormat::new(), switch: StyleSwitch::shared(dim) }
    }

    /// The style that the flag selects as read now.
    pub fn style(&self) -> (r: Style) {
        style_of(self.switch.get())
    }

    /// Renders `event` in `style`, with `now` as the timestamp of a dimmed line.
    pub fn render_in(&self, style: Style, color: bool, now: &Timestamp, event: &LogEvent) -> (r:
        Result<Rendered, FormatError>)
        ensures
            style == Style::Plain ==> r == Ok::<Rendered, FormatError>(Rendered::Plain),
            style == Style::Dim ==> match r {
                Ok(Rendered::Dim(s)) => now.renderable() && s@ == dim_line_at(color, *now, *event),
                Ok(Rendered::Plain) => false,
                Err(e) => !now.renderable() && e == FormatError::TimestampFormatFailed,
            },
    {
        match style {
            Style::Plain => Ok(Rendered::Plain),
            Style::Dim => match self.dim_format.render(color, now, event) {
                Ok(s) => Ok(Rendered::Dim(s)),
                Err(e) => Err(e),
            },
        }
    }

    /// Reads the flag once and renders `event` in the style it selects; a
    /// dimmed line is stamped with the current time in UTC.
    pub fn format(&self, event: &LogEvent, color: bool) -> (r: Result<Rendered, FormatError>)
        ensures
            match r {
                Ok(Rendered::Plain) => true,
                Ok(Rendered::Dim(s)) => exists|t: Timestamp|
                    t.renderable() && s@ == #[trigger] dim_line_at(color, t, *event),
                Err(e) => e == FormatError::TimestampFormatFailed,
            },
    {
        let style = self.style();
        match style {
            Style::Plain => Ok(Rendered::Plain),
            Style::Dim => {
                let now = now_utc();
                self.render_in(style, color, &now, event)
            },
        }
    }
}

/// A set flag selects the dimmed style and a clear one the plain style; on a
/// sink that takes colour, a dimmed line opens with the dim sequence and closes
/// with the reset sequence and the newline.
pub proof fn style_follows_flag(
    flag: bool,
    stamp: Seq<char>,
    level: Level,
    target: Seq<char>,
    fields: Seq<char>,
)
    ensures
        style_for(flag) == Style::Dim <==> flag,
        style_for(flag) == Style::Plain <==> !flag,
        ({
            let s = dim_line(true, stamp, level, target, fields);
            &&& s.len() >= 9
            &&& s.subrange(0, 4) == dim_start(true)
            &&& s.subrange(s.len() - 5, s.len() as int) == dim_reset(true) + seq!['\n']
        }),
{
    let s = dim_line(true, stamp, level, target, fields);
    let head = dim_start(true) + stamp + seq![' ', ' '] + level_token(level) + target + seq![
        ':',
        ' ',
    ] + fields;
    assert(s == head + (dim_reset(true) + seq!['\n']));
    assert(s.subrange(0, 4) =~= dim_start(true));
    assert(s.subrange(s.len() - 5, s.len() as int) =~= dim_reset(true) + seq!['\n']);
}

/// Two renderings of one event at two moments differ only inside the
/// timestamp: they have one length and agree everywhere else.
pub proof fn same_line_but_timestamp(color: bool, t1: Timestamp, t2: Timestamp, event: LogEvent)
    ensures
        ({
            let s1 = dim_line_at(color, t1, event);
            let s2 = dim_line_at(color, t2, event);
            let p = dim_start(color).len();
            &&& s1.len() == s2.len()
            &&& forall|i: int|
                0 <= i < s1.len() && !(p <= i < p + 27) ==> #[trigger] s1[i] == s2[i]
        }),
{
    timestamp_text_shape(t1);
    timestamp_text_shape(t2);
    let a = dim_start(color);
    let x = timestamp_text(t1);
    let y = timestamp_text(t2);
    let b = seq![' ', ' '] + level_token(event.level) + event.target@ + seq![':', ' ']
        + event.fields@ + dim_reset(color) + seq!['\n'];
    let s1 = dim_line_at(color, t1, event);
    let s2 = dim_line_at(color, t2, event);
    assert(s1 =~= a + x + b);
    assert(s2 =~= a + y + b);
    assert forall|i: int|
        0 <= i < s1.len() && !(a.len() <= i < a.len() + 27) implies #[trigger] s1[i] == s2[i] by {
        if i < a.len() {
            assert(s1[i] == a[i]);
            assert(s2[i] == a[i]);
        } else {
            assert(s1[i] == b[i - a.len() - 27]);
            assert(s2[i] == b[i - a.len() - 27]);
        }
    }
}

proof fn concat_free_of_escape(a: Seq<char>, b: Seq<char>)
    requires
        free_of_escape(a),
        free_of_escape(b),
    ensures
        free_of_escape(a + b),
{
    assert forall|i: int| 0 <= i < (a + b).len() implies #[trigger] (a + b)[i] != '\x1b' by {
        if i < a.len() {
            assert((a + b)[i] == a[i]);
        } else {
            assert((a + b)[i] == b[i - a.len()]);
        }
    }
}

/// On a sink without colour, a dimmed line holds no escape character when its
/// target and fields hold none.
pub proof fn no_escape_without_color(now: Timestamp, event: LogEvent)
    requires
        free_of_escape(event.target@),
        free_of_escape(event.fields@),
    ensures
        free_of_escape(dim_line_at(false, now, event)),
{
    let stamp = timestamp_text(now);
    timestamp_text_shape(now);
    assert forall|i: int| 0 <= i < stamp.len() implies #[trigger] stamp[i] != '\x1b' by {
        if !is_separator_position(i) {
            assert(is_digit(stamp[i]));
        }
    }
    level_token_width(event.level);
    let token = level_token(event.level);
    assert(free_of_escape(token));
    let sp = seq![' ', ' '];
    let colon = seq![':', ' '];
    let nl = seq!['\n'];
    assert(free_of_escape(sp));
    assert(free_of_escape(colon));
    assert(free_of_escape(nl));
    concat_free_of_escape(stamp, sp);
    concat_free_of_escape(stamp + sp, token);
    concat_free_of_escape(stamp + sp + token, event.target@);
    concat_free_of_escape(stamp + sp + token + event.target@, colon);
    concat_free_of_escape(stamp + sp + token + event.target@ + colon, event.fields@);
    concat_free_of_escape(stamp + sp + token + event.target@ + colon + event.fields@, nl);
    assert(dim_line_at(false, now, event) =~= stamp + sp + token + event.target@ + colon
        + event.fields@ + nl);
}

} // verus!
