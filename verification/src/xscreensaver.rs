//! The display session: which window the program draws into, and which of
//! the window system's events it heeds.
//!
//! The session either attaches to a window that a screensaver host names in
//! the environment, or asks for a window of its own. Either way it listens
//! for the same events and turns structure changes into `Event::Resized`.

use vstd::prelude::*;

verus! {

/// Native event code of a key press.
pub const KEY_PRESS: i32 = 2;

/// Native event code of a change to a window's structure, a resize among them.
pub const CONFIGURE_NOTIFY: i32 = 22;

/// Event mask bit for key presses.
pub const KEY_PRESS_MASK: i64 = 0x0000_0001;

/// Event mask bit for exposures.
pub const EXPOSURE_MASK: i64 = 0x0000_8000;

/// Event mask bit for structure changes.
pub const STRUCTURE_NOTIFY_MASK: i64 = 0x0002_0000;

/// Width of a window that the session creates for itself.
pub const DEFAULT_WIDTH: u32 = 1200;

/// Height of a window that the session creates for itself.
pub const DEFAULT_HEIGHT: u32 = 800;

/// Border width of a window that the session creates for itself.
pub const DEFAULT_BORDER_WIDTH: u32 = 10;

/// What the session reports to the frame loop.
#[derive(Debug, Clone, Copy, PartialEq, Eq)]
pub enum Event {
    Resized { width: u32, height: u32 },
}

/// A window that can tell its size in pixels, width first.
pub trait SizedWindow {
    fn size(&self) -> (u32, u32);
}

/// Why no session could be set up.
#[derive(Debug, Clone, Copy, PartialEq, Eq)]
pub enum WindowInitError {
    /// The connection to the window system could not be opened.
    DisplayUnavailable,
}

/// Where the session's window comes from.
#[derive(Debug, Clone, Copy, PartialEq, Eq)]
pub enum WindowSource {
    /// A window that the host created and named.
    Attached { id: u64 },
    /// A top-level window that the session creates and shows.
    OwnedCreated { x: i32, y: i32, width: u32, height: u32, border_width: u32 },
}

/// What the session reads off one event of the window system.
#[derive(Debug, Clone, Copy, PartialEq, Eq)]
pub struct NativeEvent {
    pub kind: i32,
    pub width: i32,
    pub height: i32,
}

/// White space as Unicode defines it.
pub open spec fn is_white_space(c: char) -> bool {
    let code = c as u32;
    ||| 0x09 <= code <= 0x0d
    ||| code == 0x20
    ||| code == 0x85
    ||| code == 0xa0
    ||| code == 0x1680
    ||| 0x2000 <= code <= 0x200a
    ||| code == 0x2028
    ||| code == 0x2029
    ||| code == 0x202f
    ||| code == 0x205f
    ||| code == 0x3000
}

/// The first position at or after `from` that holds no white space, or the
/// length of `text` if there is none.
pub open spec fn skip_white_space(text: Seq<char>, from: int) -> int
    decreases text.len() - from,
{
    if 0 <= from < text.len() && is_white_space(text[from]) {
        skip_white_space(text, from + 1)
    } else {
        from
    }
}

/// The first position at or after `from` that holds white space, or the
/// length of `text` if there is none.
pub open spec fn skip_word(text: Seq<char>, from: int) -> int
    decreases text.len() - from,
{
    if 0 <= from < text.len() && !is_white_space(text[from]) {
        skip_word(text, from + 1)
    } else {
        from
    }
}

/// The first run of characters of `text` that are not white space; empty if
/// `text` holds nothing else.
pub open spec fn first_token(text: Seq<char>) -> Seq<char> {
    let start = skip_white_space(text, 0);
    text.subrange(start, skip_word(text, start))
}

/// `token` without one leading `0x`, if it has one.
pub open spec fn strip_hex_prefix(token: Seq<char>) -> Seq<char> {
    if token.len() >= 2 && token[0] == '0' && token[1] == 'x' {
        token.subrange(2, token.len() as int)
    } else {
        token
    }
}

/// The value of a hexadecimal digit in either case, if `c` is one.
pub open spec fn hex_digit(c: char) -> Option<nat> {
    let code = c as u32;
    if 0x30 <= code <= 0x39 {
        Some((code - 0x30) as nat)
    } else if 0x61 <= code <= 0x66 {
        Some((code - 0x61 + 10) as nat)
    } else if 0x41 <= code <= 0x46 {
        Some((code - 0x41 + 10) as nat)
    } else {
        None
    }
}

/// The number that `digits` spell in base 16, most significant digit first,
/// if all of them are hexadecimal digits.
pub open spec fn hex_number(digits: Seq<char>) -> Option<nat>
    decreases digits.len(),
{
    if digits.len() == 0 {
        Some(0)
    } else {
        match (hex_number(digits.drop_last()), hex_digit(digits.last())) {
            (Some(high), Some(low)) => Some(16 * high + low),
            _ => None,
        }
    }
}

/// `number` as a `u64`, if there is one and it fits.
pub open spec fn fit_u64(number: Option<nat>) -> Option<u64> {
    match number {
        Some(n) => if n <= u64::MAX {
            Some(n as u64)
        } else {
            None
        },
        None => None,
    }
}

/// `text` without one leading `+`, if it has one.
pub open spec fn strip_plus(text: Seq<char>) -> Seq<char> {
    if text.len() > 0 && text[0] == '+' {
        text.drop_first()
    } else {
        text
    }
}

/// `text` read as a hexadecimal number: an optional `+`, then at least one
/// digit and nothing else, the whole no larger than a `u64`.
pub open spec fn parse_hex(text: Seq<char>) -> Option<u64> {
    let digits = strip_plus(text);
    if digits.len() == 0 {
        None
    } else {
        fit_u64(hex_number(digits))
    }
}

/// The window that `value` names: its first token, with or without `0x` in
/// front, read as a hexadecimal number.
pub open spec fn window_id(value: Seq<char>) -> Option<u64> {
    parse_hex(strip_hex_prefix(first_token(value)))
}

/// The window that the session asks for when no host names one.
pub open spec fn default_window() -> WindowSource {
    WindowSource::OwnedCreated { x: 0, y: 0, width: 1200, height: 800, border_width: 10 }
}

/// Where the window comes from, given what the environment holds for the
/// host's window: the window it names, or else a window of the session's own.
pub open spec fn source_for(env_value: Option<&str>) -> WindowSource {
    match env_value {
        Some(value) => match window_id(value@) {
            Some(id) => WindowSource::Attached { id },
            None => default_window(),
        },
        None => default_window(),
    }
}

/// A native extent as the unsigned number with the same bits.
pub open spec fn dimension_of(native: i32) -> u32 {
    if native >= 0 {
        native as u32
    } else {
        (native + 0x1_0000_0000) as u32
    }
}

/// What one native event means to the frame loop: a structure change is a
/// resize to the extent it carries, and nothing else means anything.
pub open spec fn event_of(native: NativeEvent) -> Option<Event> {
    if native.kind == CONFIGURE_NOTIFY {
        Some(
            Event::Resized {
                width: dimension_of(native.width),
                height: dimension_of(native.height),
            },
        )
    } else {
        None
    }
}

/// The events that a run of native events amounts to, in their order.
pub open spec fn events_of(natives: Seq<NativeEvent>) -> Seq<Event> {
    natives.filter_map(|native: NativeEvent| event_of(native))
}

/// Tells whether `c` is white space.
pub fn is_whitespace(c: char) -> (white: bool)
    ensures
        white == is_white_space(c),
{
    let code: u32 = c as u32;
    (0x09 <= code && code <= 0x0d) || code == 0x20 || code == 0x85 || code == 0xa0 || code
        == 0x1680 || (0x2000 <= code && code <= 0x200a) || code == 0x2028 || code == 0x2029
        || code == 0x202f || code == 0x205f || code == 0x3000
}

/// The value of `c` as a hexadecimal digit.
pub fn hex_digit_value(c: char) -> (digit: Option<u64>)
    ensures
        match digit {
            Some(d) => hex_digit(c) == Some(d as nat) && d < 16,
            None => hex_digit(c) is None,
        },
{
    let code: u32 = c as u32;
    if 0x30 <= code && code <= 0x39 {
        Some((code - 0x30) as u64)
    } else if 0x61 <= code && code <= 0x66 {
        Some((code - 0x61 + 10) as u64)
    } else if 0x41 <= code && code <= 0x46 {
        Some((code - 0x41 + 10) as u64)
    } else {
        None
    }
}

/// The characters of `value`, one by one.
fn chars_of(value: &str) -> (chars: Vec<char>)
    ensures
        chars@ == value@,
{
    let mut chars: Vec<char> = Vec::new();
    for c in it: value.chars()
        invariant
            chars@ == it.seq().take(it.index() as int),
            it.seq() == value@,
    {
        chars.push(c);
        assert(it.seq().take(it.index() + 1) =~= it.seq().take(it.index() as int).push(c));
    }
    assert(chars@ =~= value@);
    chars
}

/// Every prefix of a hexadecimal number is one, and no larger.
proof fn lemma_hex_number_prefix(digits: Seq<char>, k: int)
    requires
        0 <= k <= digits.len(),
    ensures
        hex_number(digits) is Some ==> hex_number(digits.take(k)) is Some && hex_number(
            digits.take(k),
        )->0 <= hex_number(digits)->0,
    decreases digits.len(),
{
    if k == digits.len() {
        assert(digits.take(k) =~= digits);
    } else {
        assert(digits.drop_last().take(k) =~= digits.take(k));
        lemma_hex_number_prefix(digits.drop_last(), k);
    }
}

/// Reads `text[from..to]` as a hexadecimal number.
fn parse_hex_range(text: &Vec<char>, from: usize, to: usize) -> (number: Option<u64>)
    requires
        from <= to <= text@.len(),
    ensures
        number == parse_hex(text@.subrange(from as int, to as int)),
{
    let ghost whole = text@.subrange(from as int, to as int);
    let mut start: usize = from;
    if from < to && text[from] == '+' {
        start = from + 1;
    }
    let ghost digits = text@.subrange(start as int, to as int);
    assert(digits =~= strip_plus(whole));
    if start == to {
        return None;
    }
    let mut number: u64 = 0;
    let mut i: usize = start;
    while i < to
        invariant
            start <= i <= to <= text@.len(),
            digits == text@.subrange(start as int, to as int),
            hex_number(digits.take(i - start)) == Some(number as nat),
            parse_hex(text@.subrange(from as int, to as int)) == fit_u64(hex_number(digits)),
        decreases to - i,
    {
        let ghost seen = digits.take(i - start + 1);
        assert(seen.drop_last() =~= digits.take(i - start));
        assert(seen.last() == text@[i as int]);
        proof {
            lemma_hex_number_prefix(digits, i - start + 1);
        }
        match hex_digit_value(text[i]) {
            None => {
                return None;
            },
            Some(digit) => {
                if number > (u64::MAX - digit) / 16 {
                    return None;
                }
                number = 16 * number + digit;
            },
        }
        i = i + 1;
    }
    assert(digits.take(to - start) =~= digits);
    Some(number)
}

/// Reads the window that a host names in `value`.
///
/// The first token of `value` counts; it may start with `0x`, and what
/// follows is read as a hexadecimal number. The result is `None` if there is
/// no token, if it is no such number, or if the number does not fit.
pub fn parse_window_id(value: &str) -> (id: Option<u64>)
    ensures
        id == window_id(value@),
{
    let chars = chars_of(value);
    let n: usize = chars.len();
    let mut start: usize = 0;
    while start < n && is_whitespace(chars[start])
        invariant
            start <= n == chars@.len(),
            skip_white_space(chars@, 0) == skip_white_space(chars@, start as int),
        decreases n - start,
    {
        start = start + 1;
    }
    let mut end: usize = start;
    while end < n && !is_whitespace(chars[end])
        invariant
            start <= end <= n == chars@.len(),
            skip_word(chars@, start as int) == skip_word(chars@, end as int),
        decreases n - end,
    {
        end = end + 1;
    }
    let ghost token = chars@.subrange(start as int, end as int);
    assert(token == first_token(chars@));
    let mut from: usize = start;
    if end - start >= 2 && chars[start] == '0' && chars[start + 1] == 'x' {
        from = start + 2;
    }
    assert(chars@.subrange(from as int, end as int) =~= strip_hex_prefix(token));
    parse_hex_range(&chars, from, end)
}

/// A native extent as an unsigned number of pixels.
pub fn dimension(native: i32) -> (extent: u32)
    ensures
        extent == dimension_of(native),
        native >= 0 ==> extent == native,
{
    assert(native >= 0 ==> native as u32 == native) by (bit_vector);
    assert(native < 0 ==> native as u32 == native + 0x1_0000_0000) by (bit_vector);
    native as u32
}

impl NativeEvent {
    /// Maps the event to what the frame loop hears of it, if anything.
    pub fn to_event(&self) -> (event: Option<Event>)
        ensures
            event == event_of(*self),
            self.kind == CONFIGURE_NOTIFY && self.width >= 0 && self.height >= 0 ==> event
                == Some(Event::Resized { width: self.width as u32, height: self.height as u32 }),
            self.kind != CONFIGURE_NOTIFY ==> event is None,
    {
        if self.kind == CONFIGURE_NOTIFY {
            Some(Event::Resized { width: dimension(self.width), height: dimension(self.height) })
        } else {
            None
        }
    }
}

impl WindowSource {
    /// Decides where the window comes from, given what the environment holds
    /// for the host's window, if anything.
    pub fn select(env_value: Option<&str>) -> (source: WindowSource)
        ensures
            source == source_for(env_value),
    {
        let named: Option<u64> = match env_value {
            Some(value) => parse_window_id(value),
            None => None,
        };
        match named {
            Some(id) => WindowSource::Attached { id },
            None => WindowSource::OwnedCreated {
                x: 0,
                y: 0,
                width: DEFAULT_WIDTH,
                height: DEFAULT_HEIGHT,
                border_width: DEFAULT_BORDER_WIDTH,
            },
        }
    }
}

/// The session as far as its decisions go: the caller holds the connection
/// and, for a window of the session's own, the identifier it was given.
#[derive(Debug, Clone, Copy, PartialEq, Eq)]
pub struct ScreensaverWindow {
    pub source: WindowSource,
}

impl ScreensaverWindow {
    /// Sets the session up.
    ///
    /// `env_value` is what the environment holds for the host's window and
    /// `display_open` tells whether the connection to the window system could
    /// be opened. Without a connection there is no session; with one, the
    /// session attaches to the named window or creates its own.
    pub fn new(env_value: Option<&str>, display_open: bool) -> (session: Result<
        ScreensaverWindow,
        WindowInitError,
    >)
        ensures
            display_open ==> session == Ok::<ScreensaverWindow, WindowInitError>(
                ScreensaverWindow { source: source_for(env_value) },
            ),
            !display_open ==> session == Err::<ScreensaverWindow, WindowInitError>(
                WindowInitError::DisplayUnavailable,
            ),
    {
        let source = WindowSource::select(env_value);
        if display_open {
            Ok(ScreensaverWindow { source })
        } else {
            Err(WindowInitError::DisplayUnavailable)
        }
    }

    /// The events that the session selects on its window, whichever window it
    /// is: exposures, key presses and structure changes.
    pub fn event_mask(&self) -> (mask: i64)
        ensures
            mask == EXPOSURE_MASK | KEY_PRESS_MASK | STRUCTURE_NOTIFY_MASK,
            mask == 0x0002_8001,
    {
        assert(0x8000i64 | 0x1i64 | 0x2_0000i64 == 0x2_8001i64) by (bit_vector);
        EXPOSURE_MASK | KEY_PRESS_MASK | STRUCTURE_NOTIFY_MASK
    }

    /// Whether the session has to create its window and make it visible.
    pub fn creates_window(&self) -> (creates: bool)
        ensures
            creates == (self.source is OwnedCreated),
    {
        match self.source {
            WindowSource::Attached { .. } => false,
            WindowSource::OwnedCreated { .. } => true,
        }
    }

    /// Turns the native events drained from the queue into the events of the
    /// frame loop: one resize for each structure change, in order, and nothing
    /// for any other kind.
    pub fn process_events(&self, natives: &Vec<NativeEvent>) -> (events: Vec<Event>)
        ensures
            events@ == events_of(natives@),
    {
        let mut events: Vec<Event> = Vec::new();
        let mut i: usize = 0;
        while i < natives.len()
            invariant
                i <= natives@.len(),
                events@ == events_of(natives@.take(i as int)),
            decreases natives@.len() - i,
        {
            proof {
                natives@.lemma_filter_map_take_succ(|native: NativeEvent| event_of(native), i as int);
            }
            match natives[i].to_event() {
                Some(event) => {
                    events.push(event);
                },
                None => {},
            }
            i = i + 1;
        }
        assert(natives@.take(natives@.len() as int) =~= natives@);
        events
    }
}

/// Skipping white space stops inside the text, past nothing but white space,
/// and on something else if it stops before the end.
proof fn lemma_skip_white_space(text: Seq<char>, from: int)
    requires
        0 <= from <= text.len(),
    ensures
        from <= skip_white_space(text, from) <= text.len(),
        forall|i: int| from <= i < skip_white_space(text, from) ==> is_white_space(#[trigger] text[i]),
        skip_white_space(text, from) < text.len() ==> !is_white_space(
            text[skip_white_space(text, from)],
        ),
    decreases text.len() - from,
{
    if from < text.len() && is_white_space(text[from]) {
        lemma_skip_white_space(text, from + 1);
    }
}

/// Skipping a word stops inside the text, past no white space, and on white
/// space if it stops before the end.
proof fn lemma_skip_word(text: Seq<char>, from: int)
    requires
        0 <= from <= text.len(),
    ensures
        from <= skip_word(text, from) <= text.len(),
        forall|i: int| from <= i < skip_word(text, from) ==> !is_white_space(#[trigger] text[i]),
        skip_word(text, from) < text.len() ==> is_white_space(text[skip_word(text, from)]),
    decreases text.len() - from,
{
    if from < text.len() && !is_white_space(text[from]) {
        lemma_skip_word(text, from + 1);
    }
}

/// The first token is the longest run without white space that has nothing
/// but white space before it: it lies in the text at the position where the
/// leading white space ends, holds no white space itself, and is followed by
/// white space or by the end of the text.
pub proof fn lemma_first_token(text: Seq<char>)
    ensures
        ({
            let start = skip_white_space(text, 0);
            let token = first_token(text);
            &&& 0 <= start <= start + token.len() <= text.len()
            &&& forall|i: int| 0 <= i < start ==> is_white_space(#[trigger] text[i])
            &&& forall|i: int|
                0 <= i < token.len() ==> !is_white_space(#[trigger] token[i]) && token[i]
                    == text[start + i]
            &&& start + token.len() == text.len() || is_white_space(text[start + token.len()])
        }),
{
    lemma_skip_white_space(text, 0);
    lemma_skip_word(text, skip_white_space(text, 0));
}

/// A lone structure change gives exactly one resize, to the extent it
/// carries; a lone event of any other kind, a key press among them, gives
/// none.
pub proof fn lemma_events_of_one(native: NativeEvent)
    ensures
        native.kind == CONFIGURE_NOTIFY ==> events_of(seq![native]) == seq![
            Event::Resized {
                width: dimension_of(native.width),
                height: dimension_of(native.height),
            },
        ],
        native.kind != CONFIGURE_NOTIFY ==> events_of(seq![native]) == Seq::<Event>::empty(),
        native.kind == KEY_PRESS ==> events_of(seq![native]).len() == 0,
{
    Seq::lemma_filter_map_singleton(native, |native: NativeEvent| event_of(native));
}

/// Events keep their order: what a longer run amounts to is what its front
/// amounts to, followed by what its last event amounts to.
pub proof fn lemma_events_of_push(natives: Seq<NativeEvent>, native: NativeEvent)
    ensures
        events_of(natives.push(native)) == match event_of(native) {
            Some(event) => events_of(natives).push(event),
            None => events_of(natives),
        },
{
    assert(natives.push(native).drop_last() =~= natives);
    match event_of(native) {
        Some(event) => {
            assert(events_of(natives) + seq![event] =~= events_of(natives).push(event));
        },
        None => {},
    }
}

} // verus!
