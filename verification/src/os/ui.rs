//! The selection widget: which option is highlighted and which one is chosen.
use vstd::prelude::*;
use crate::os::keyboard::Key;

verus! {

/// A question with a list of options; the user moves a highlight with Up and
/// Down and confirms with Space.
pub struct Ask<'a> {
    pub options: &'a [&'static str],
    pub start_pos: (usize, usize),
    pub selection: usize,
}

impl<'a> Ask<'a> {
    /// The options of the question.
    pub open spec fn spec_options(&self) -> &'a [&'static str] {
        self.options
    }

    /// Where the question is drawn.
    pub open spec fn spec_start_pos(&self) -> (usize, usize) {
        self.start_pos
    }

    /// The highlight index stored after the last interaction.
    pub open spec fn spec_selection(&self) -> usize {
        self.selection
    }

    /// A question over `opts`, drawn from `start_pos`, with nothing selected yet.
    pub fn new(opts: &'a [&'static str], start_pos: (usize, usize)) -> (a: Self)
        ensures
            a.spec_options() == opts,
            a.spec_start_pos() == start_pos,
            a.spec_selection() == 0,
    {
        Ask { options: opts, selection: 0, start_pos }
    }

    /// The highlight index stored after the last interaction.
    pub fn selection(&self) -> (s: usize)
        ensures
            s == self.spec_selection(),
    {
        self.selection
    }

    /// Stores the highlight index at which the user confirmed.
    pub fn select(&mut self, current: usize)
        ensures
            final(self).spec_options() == old(self).spec_options(),
            final(self).spec_start_pos() == old(self).spec_start_pos(),
            final(self).spec_selection() == current,
    {
        self.selection = current;
    }

    /// The chosen option: the one before the stored highlight index, or the first
    /// option when the index is 0.
    pub fn get_result(&self) -> (r: &'static str)
        requires
            self.spec_options()@.len() > 0,
            self.spec_selection() <= self.spec_options()@.len(),
        ensures
            r == self.spec_options()@[result_index(self.spec_selection()) as int],
    {
        let index = self.selection;
        let i = if index > 0 {
            index - 1
        } else {
            index
        };
        self.options[i]
    }
}

/// The option index `get_result` reads for a stored highlight index.
pub open spec fn result_index(selection: usize) -> usize {
    if selection > 0 {
        (selection - 1) as usize
    } else {
        selection
    }
}

/// A question over `options` drawn from `start_pos`.
pub fn ask<'a>(options: &'a [&'static str], start_pos: (usize, usize)) -> (a: Ask<'a>)
    ensures
        a.spec_options() == options,
        a.spec_start_pos() == start_pos,
        a.spec_selection() == 0,
{
    Ask::new(options, start_pos)
}

/// The highlight after one round of the widget loop with `len` options: an index
/// past the list wraps to 0, then Down moves one further and Up one back (not
/// below 0); other keys leave it.
pub open spec fn next_highlight(current: usize, key: Key, len: usize) -> int {
    let c = if current >= len {
        0
    } else {
        current as int
    };
    match key {
        Key::Down => c + 1,
        Key::Up => if c > 0 {
            c - 1
        } else {
            c
        },
        _ => c,
    }
}

/// One round of the widget loop: the new highlight index after `key`.
pub fn ask_step(current: usize, key: &Key, len: usize) -> (r: usize)
    ensures
        r == next_highlight(current, *key, len),
        r <= len || (len == 0 && r == 1),
{
    let mut c = current;
    if c >= len {
        c = 0;
    }
    match key {
        Key::Down => {
            if c <= len {
                c = c + 1;
            }
        },
        Key::Up => {
            if c > 0 {
                c = c - 1;
            }
        },
        _ => {},
    }
    c
}

/// Whatever key was read, the highlight one round of the loop leaves on a
/// non-empty list names an option once it is confirmed: stored with `select`,
/// `get_result` may read it, and it reads an option of the list.
pub proof fn lemma_confirmed_highlight_names_option(a: Ask, current: usize, key: Key)
    requires
        a.spec_options()@.len() > 0,
    ensures
        0 <= next_highlight(current, key, a.spec_options()@.len() as usize) <= a.spec_options()@.len(),
        result_index(next_highlight(current, key, a.spec_options()@.len() as usize) as usize) < a.spec_options()@.len(),
{
}

} // verus!

verus! {

/// The margin kept free around the edge of the screen, in pixels.
pub const PADDING: isize = 20;

/// How many widgets a store holds.
pub const STORE_CAPACITY: usize = 125;

/// Why a widget could not be stored.
#[derive(Debug, PartialEq, Eq, Structural)]
pub enum StoreError {
    NoSpaceInBuffer,
}

/// A fixed stack of up to 125 widgets; `head` is the number pushed.
pub struct StoreFb<T> {
    pub buffer: [Option<T>; 125],
    pub head: usize,
}

impl<T: Copy> StoreFb<T> {
    /// An empty store.
    pub fn new() -> (s: Self)
        ensures
            s.head == 0,
            forall|i: int| 0 <= i < STORE_CAPACITY ==> s.buffer@[i] is None,
    {
        StoreFb { head: 0, buffer: [None; 125] }
    }

    /// Pushes `widget`, or fails when 125 are stored.
    pub fn push(&mut self, widget: T) -> (r: Result<(), StoreError>)
        requires
            old(self).head <= STORE_CAPACITY,
        ensures
            r is Err <==> old(self).head == STORE_CAPACITY,
            r is Err ==> *final(self) == *old(self),
            r is Ok ==> final(self).head == old(self).head + 1,
            r is Ok ==> final(self).buffer@ == old(self).buffer@.update(
                old(self).head as int,
                Some(widget),
            ),
    {
        if self.head == STORE_CAPACITY {
            return Err(StoreError::NoSpaceInBuffer);
        }
        self.buffer[self.head] = Some(widget);
        self.head = self.head + 1;
        Ok(())
    }

    /// Drops the top of the stack: clears the slot at `head` (one past the top) and
    /// moves `head` down; an empty store stays as it is.
    pub fn pop(&mut self)
        requires
            old(self).head < STORE_CAPACITY,
        ensures
            old(self).head == 0 ==> *final(self) == *old(self),
            old(self).head > 0 ==> final(self).head == old(self).head - 1,
            old(self).head > 0 ==> final(self).buffer@ == old(self).buffer@.update(
                old(self).head as int,
                None,
            ),
    {
        if self.head == 0 {
            return;
        }
        self.buffer[self.head] = None;
        self.head = self.head - 1;
    }

    /// The slot at `index`.
    pub fn index(&self, index: usize) -> (w: Option<T>)
        requires
            index < STORE_CAPACITY,
        ensures
            w == self.buffer@[index as int],
    {
        self.buffer[index]
    }
}

/// A push that succeeds followed by a pop brings `head` back. The pushed widget
/// stays in its slot: the pop clears the slot above it.
pub proof fn lemma_push_pop<T>(s0: StoreFb<T>, s1: StoreFb<T>, s2: StoreFb<T>, widget: T)
    requires
        s0.head + 1 < STORE_CAPACITY,
        s1.head == s0.head + 1,
        s1.buffer@ == s0.buffer@.update(s0.head as int, Some(widget)),
        s2.head == s1.head - 1,
        s2.buffer@ == s1.buffer@.update(s1.head as int, None),
    ensures
        s2.head == s0.head,
        s2.buffer@[s0.head as int] == Some(widget),
        s2.buffer@ == s0.buffer@.update(s0.head as int, Some(widget)).update(s0.head + 1, None),
{
}

/// The rectangle a menu drawn `pixels` inside the padding clears on a screen of
/// `width` by `height`: from `(PADDING + pixels, PADDING + pixels)` to
/// `(width - PADDING - pixels, height - PADDING - pixels)`.
pub fn menu_zone(pixels: isize, width: isize, height: isize) -> (r: ((u64, u64), (u64, u64)))
    requires
        PADDING + pixels >= 0,
        PADDING + pixels <= isize::MAX,
        width - PADDING - pixels >= 0,
        height - PADDING - pixels >= 0,
        width - PADDING - pixels <= isize::MAX,
        height - PADDING - pixels <= isize::MAX,
    ensures
        r.0.0 == PADDING + pixels,
        r.0.1 == PADDING + pixels,
        r.1.0 == width - PADDING - pixels,
        r.1.1 == height - PADDING - pixels,
{
    let from = (PADDING + pixels) as u64;
    let to_x = (width - PADDING - pixels) as u64;
    let to_y = ((height - PADDING) - pixels) as u64;
    ((from, from), (to_x, to_y))
}

/// The four borders of a menu drawn `pixels` inside the padding of a `width` by
/// `height` screen, as (from, to) point pairs: left, bottom, right, top. The left
/// border ends at `PADDING - pixels` horizontally.
pub fn menu_frame(pixels: isize, width: isize, height: isize) -> (lines: [((isize, isize), (isize, isize)); 4])
    requires
        isize::MIN <= PADDING + pixels <= isize::MAX,
        isize::MIN <= PADDING - pixels <= isize::MAX,
        isize::MIN <= width - PADDING <= isize::MAX,
        isize::MIN <= width - PADDING - pixels <= isize::MAX,
        isize::MIN <= height - PADDING <= isize::MAX,
        isize::MIN <= height - PADDING - pixels <= isize::MAX,
    ensures
        lines[0].0.0 == PADDING + pixels && lines[0].0.1 == PADDING + pixels,
        lines[0].1.0 == PADDING - pixels && lines[0].1.1 == height - PADDING - pixels,
        lines[1].0.0 == PADDING + pixels && lines[1].0.1 == height - PADDING - pixels,
        lines[1].1.0 == width - PADDING - pixels && lines[1].1.1 == height - PADDING - pixels,
        lines[2].0.0 == width - PADDING - pixels && lines[2].0.1 == PADDING + pixels,
        lines[2].1.0 == width - PADDING - pixels && lines[2].1.1 == height - PADDING - pixels,
        lines[3].0.0 == PADDING + pixels && lines[3].0.1 == PADDING + pixels,
        lines[3].1.0 == width - PADDING - pixels && lines[3].1.1 == PADDING + pixels,
{
    let s = pixels;
    let near = PADDING + s;
    let right = width - PADDING - s;
    let bottom = (height - PADDING) - s;
    [
        ((near, near), (PADDING - s, bottom)),
        ((near, height - PADDING - s), (right, bottom)),
        ((right, near), (right, bottom)),
        ((near, near), (right, near)),
    ]
}

/// `menu_zone`, or `None` when a corner would not fit: a coordinate overflows
/// an `isize` or is negative.
pub fn try_menu_zone(pixels: isize, width: isize, height: isize) -> (r: Option<((u64, u64), (u64, u64))>)
    ensures
        r is None <==> !(0 <= PADDING + pixels <= isize::MAX && isize::MIN <= width - PADDING
            && 0 <= width - PADDING - pixels <= isize::MAX && isize::MIN <= height - PADDING && 0
            <= height - PADDING - pixels <= isize::MAX),
        r is Some ==> r->0 == ((
            (PADDING + pixels) as u64,
            (PADDING + pixels) as u64,
        ), ((width - PADDING - pixels) as u64, (height - PADDING - pixels) as u64)),
{
    let near = match PADDING.checked_add(pixels) {
        Some(v) => v,
        None => return None,
    };
    let right = match width.checked_sub(PADDING) {
        Some(v) => match v.checked_sub(pixels) {
            Some(w) => w,
            None => return None,
        },
        None => return None,
    };
    let bottom = match height.checked_sub(PADDING) {
        Some(v) => match v.checked_sub(pixels) {
            Some(w) => w,
            None => return None,
        },
        None => return None,
    };
    if near < 0 || right < 0 || bottom < 0 {
        return None;
    }
    Some(menu_zone(pixels, width, height))
}

/// `menu_frame`, or `None` when a coordinate of a border would overflow an
/// `isize`.
pub fn try_menu_frame(pixels: isize, width: isize, height: isize) -> (r: Option<
    [((isize, isize), (isize, isize)); 4],
>)
    ensures
        r is None <==> !(isize::MIN <= PADDING + pixels <= isize::MAX && isize::MIN <= PADDING
            - pixels <= isize::MAX && isize::MIN <= width - PADDING && isize::MIN <= width - PADDING
            - pixels <= isize::MAX && isize::MIN <= height - PADDING && isize::MIN <= height
            - PADDING - pixels <= isize::MAX),
        r is Some ==> (r->0[0].0.0 == PADDING + pixels && r->0[0].0.1 == PADDING + pixels),
        r is Some ==> (r->0[0].1.0 == PADDING - pixels && r->0[0].1.1 == height - PADDING - pixels),
        r is Some ==> (r->0[1].0.0 == PADDING + pixels && r->0[1].0.1 == height - PADDING - pixels),
        r is Some ==> (r->0[1].1.0 == width - PADDING - pixels && r->0[1].1.1 == height - PADDING - pixels),
        r is Some ==> (r->0[2].0.0 == width - PADDING - pixels && r->0[2].0.1 == PADDING + pixels),
        r is Some ==> (r->0[2].1.0 == width - PADDING - pixels && r->0[2].1.1 == height - PADDING - pixels),
        r is Some ==> (r->0[3].0.0 == PADDING + pixels && r->0[3].0.1 == PADDING + pixels),
        r is Some ==> (r->0[3].1.0 == width - PADDING - pixels && r->0[3].1.1 == PADDING + pixels),
{
    if PADDING.checked_add(pixels).is_none() || PADDING.checked_sub(pixels).is_none() {
        return None;
    }
    match width.checked_sub(PADDING) {
        Some(v) => if v.checked_sub(pixels).is_none() {
            return None;
        },
        None => return None,
    }
    match height.checked_sub(PADDING) {
        Some(v) => if v.checked_sub(pixels).is_none() {
            return None;
        },
        None => return None,
    }
    Some(menu_frame(pixels, width, height))
}

/// Whether pixel `(x, y)` lies inside the padding of a `width` by `height` screen.
pub fn in_drawable_area(x: u64, y: u64, width: u64, height: u64) -> (r: bool)
    requires
        x >= 20 ==> width >= 20,
        x >= 20 && x < width - 20 && y >= 20 ==> height >= 20,
    ensures
        r == (20 <= x && x < width - 20 && 20 <= y && y < height - 20),
{
    let padding: u64 = 20;
    !(x < padding || x >= width - padding || y < padding || y >= height - padding)
}

} // verus!
