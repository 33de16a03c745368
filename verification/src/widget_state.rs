//! Persistent widget state and its per-frame transitions: what each
//! widget does with the event facts delivered to it, and how its version
//! advances exactly when its own visible state changed.

use vstd::prelude::*;
use vstd::string::StrSliceExecFns;
use crate::event::{UIKey, UINodeEventProcessed};

verus! {

/// A button's persistent state.
#[derive(Debug)]
pub struct ButtonState {
    pub hovered: bool,
    pub clicked: bool,
    pub state_changed: bool,
    pub version: u64,
}

/// A span's persistent state: only change detection and the version.
#[derive(Debug)]
pub struct SpanState {
    pub state_changed: bool,
    pub version: u64,
}

/// The caret slot after the last character of a text run.
#[derive(Debug)]
pub struct DummyUICharState {
    pub blinking: bool,
    pub showing_cursor: bool,
}

/// One character of a text run, with its caret state.
#[derive(Debug)]
pub struct CharState {
    pub character: char,
    pub blinking: bool,
    pub showing_cursor: bool,
}

/// What part of a character was clicked: the left half puts the caret
/// before it, the right half after it.
#[derive(Clone, Copy, Debug, PartialEq, Eq, Structural)]
pub enum CharEvent {
    LeftPartClicked,
    RightPartClicked,
}

/// A version counter after one frame's commit: one more than before
/// exactly when the widget's own state changed this frame (saturating at
/// `u64::MAX`), unchanged otherwise.
pub open spec fn spec_commit_version(v: u64, changed: bool) -> u64 {
    if changed {
        if v == u64::MAX {
            u64::MAX
        } else {
            (v + 1) as u64
        }
    } else {
        v
    }
}

/// Version monotonicity: for a given identity the version advances by
/// exactly one per frame in which the widget's own state changed, and does
/// not change otherwise; it never decreases.
pub proof fn lemma_version_monotonic(v: u64, changed: bool)
    ensures
        changed && v < u64::MAX ==> spec_commit_version(v, changed) == v + 1,
        !changed ==> spec_commit_version(v, changed) == v,
        spec_commit_version(v, changed) >= v,
{
}

/// Consume a change flag, advancing the version exactly when it was set:
/// the new (flag, version) pair.
pub fn commit_version(state_changed: bool, version: u64) -> (r: (bool, u64))
    ensures
        r.1 == spec_commit_version(version, state_changed),
        r.0 == false,
{
    if state_changed && version < u64::MAX {
        (false, version + 1)
    } else {
        (false, version)
    }
}

impl ButtonState {
    /// A button's clicked state after the frame's facts: pressed inside
    /// sets it, a release clears it, anything else keeps it.
    pub open spec fn spec_clicked_after(self, ev: UINodeEventProcessed) -> bool {
        if ev.left_clicked_inside {
            true
        } else if ev.left_released {
            false
        } else {
            self.clicked
        }
    }

    /// Apply one frame's facts: hover follows the pointer, a click inside
    /// presses the button, a release unpresses it. Returns whether the
    /// click callback must fire, and whether the change bubbles to the
    /// parent.
    pub fn handle_event(&mut self, ev: &UINodeEventProcessed) -> (r: (bool, bool))
        ensures
            button_handled(*old(self), *final(self), *ev, r.1),
            r.0 == ev.left_clicked_inside,
    {
        let prev_clicked = self.clicked;
        let prev_hovered = self.hovered;
        if ev.left_clicked_inside {
            self.clicked = true;
        } else if ev.left_released {
            self.clicked = false;
        }
        self.hovered = ev.mouse_hover;
        let bubble = self.clicked != prev_clicked || self.hovered != prev_hovered;
        if bubble {
            self.state_changed = true;
        }
        (ev.left_clicked_inside, bubble)
    }
}


/// The button handler's transition: hover follows the pointer, a click
/// inside presses, a release unpresses; the change bubbles exactly when
/// the visible state differs, and then the change flag is set.
pub open spec fn button_handled(
    b0: ButtonState,
    b1: ButtonState,
    ev: UINodeEventProcessed,
    bubble: bool,
) -> bool {
    &&& b1.clicked == b0.spec_clicked_after(ev)
    &&& b1.hovered == ev.mouse_hover
    &&& b1.version == b0.version
    &&& bubble == (b1.clicked != b0.clicked || b1.hovered != b0.hovered)
    &&& b1.state_changed == (b0.state_changed || bubble)
}

/// A character accepted into a text run: printable ASCII or the space.
pub open spec fn spec_insertable(c: char) -> bool {
    (c as int >= 0x21 && c as int <= 0x7e) || c == ' '
}

/// The insertable characters of a string, in order.
pub open spec fn spec_filter_insertable(s: Seq<char>) -> Seq<char>
    decreases s.len(),
{
    if s.len() == 0 {
        Seq::empty()
    } else {
        spec_filter_insertable(s.drop_last()) + (if spec_insertable(s.last()) {
            seq![s.last()]
        } else {
            Seq::empty()
        })
    }
}

fn is_insertable(c: char) -> (r: bool)
    ensures
        r == spec_insertable(c),
{
    let u = c as u32;
    (u >= 0x21 && u <= 0x7e) || c == ' '
}

/// The insertable characters of a string, as a list.
pub fn filter_insertable(s: &str) -> (r: Vec<char>)
    ensures
        r@ == spec_filter_insertable(s@),
{
    let n = s.unicode_len();
    let mut r: Vec<char> = Vec::new();
    let mut i: usize = 0;
    while i < n
        invariant
            n == s@.len(),
            i <= n,
            r@ == spec_filter_insertable(s@.subrange(0, i as int)),
        decreases n - i,
    {
        let c = s.get_char(i);
        if is_insertable(c) {
            r.push(c);
        }
        i = i + 1;
        proof {
            let pre = s@.subrange(0, i as int);
            assert(pre.drop_last() =~= s@.subrange(0, i as int - 1));
            assert(pre.last() == s@[i as int - 1]);
            if spec_insertable(s@[i as int - 1]) {
                assert(r@ =~= spec_filter_insertable(s@.subrange(0, i as int - 1)) + seq![
                    s@[i as int - 1],
                ]);
            } else {
                assert(r@ =~= spec_filter_insertable(s@.subrange(0, i as int - 1)));
            }
        }
    }
    proof {
        assert(s@.subrange(0, n as int) =~= s@);
    }
    r
}

/// The characters of a text run, without their caret state.
pub open spec fn chars_of(text: Seq<CharState>) -> Seq<char> {
    Seq::new(text.len(), |i: int| text[i].character)
}

/// Every caret indicator in a list of characters is off.
pub open spec fn all_blinking_off(text: Seq<CharState>) -> bool {
    forall|i: int|
        0 <= i < text.len() ==> !(#[trigger] text[i]).blinking && !text[i].showing_cursor
}

/// The caret sits exactly at `pos`: on the character there, or on the
/// end-of-text slot when `pos` equals the text length.
pub open spec fn caret_display_at(text: Seq<CharState>, dummy: DummyUICharState, pos: int) -> bool {
    &&& forall|i: int|
        0 <= i < text.len() ==> ((#[trigger] text[i]).blinking == (i == pos)
            && text[i].showing_cursor == (i == pos))
    &&& dummy.blinking == (pos == text.len())
    &&& dummy.showing_cursor == (pos == text.len())
}

/// Glyph metrics for one font at one scale, as the metrics provider
/// reports them, rounded to pixels: ascent and descent relative to the
/// baseline, the gap between lines, and per-character advance widths with
/// a fallback for characters not listed.
#[derive(Debug)]
pub struct FontMetrics {
    pub ascent: i32,
    pub descent: i32,
    pub line_gap: u32,
    pub advances: Vec<(char, u32)>,
    pub default_advance: u32,
}

/// The advance width of `c`: the first listed entry, or the fallback.
pub open spec fn spec_advance(advs: Seq<(char, u32)>, c: char, dflt: u32) -> u32
    decreases advs.len(),
{
    if advs.len() == 0 {
        dflt
    } else if advs[0].0 == c {
        advs[0].1
    } else {
        spec_advance(advs.drop_first(), c, dflt)
    }
}

impl FontMetrics {
    /// Sound metrics: the ascent does not lie below the descent, and the
    /// line height fits a pixel count.
    pub open spec fn wf(self) -> bool {
        0 <= self.ascent - self.descent <= u32::MAX
    }

    /// The advance width of one character.
    pub fn advance(&self, c: char) -> (r: u32)
        ensures
            r == spec_advance(self.advances@, c, self.default_advance),
    {
        let mut i: usize = 0;
        proof {
            assert(self.advances@.skip(0) =~= self.advances@);
        }
        while i < self.advances.len()
            invariant
                i <= self.advances@.len(),
                spec_advance(self.advances@.skip(i as int), c, self.default_advance)
                    == spec_advance(self.advances@, c, self.default_advance),
            decreases self.advances@.len() - i,
        {
            proof {
                assert(self.advances@.skip(i as int)[0] == self.advances@[i as int]);
            }
            if self.advances[i].0 == c {
                return self.advances[i].1;
            }
            i = i + 1;
            proof {
                assert(self.advances@.skip(i as int - 1).drop_first() =~= self.advances@.skip(
                    i as int,
                ));
            }
        }
        proof {
            assert(self.advances@.skip(i as int) =~= Seq::<(char, u32)>::empty());
        }
        self.default_advance
    }

    /// The pixel height of a line of this font: ascent minus descent.
    pub fn line_height(&self) -> (r: u32)
        requires
            self.wf(),
        ensures
            r == self.ascent - self.descent,
    {
        (self.ascent as i64 - self.descent as i64) as u32
    }
}

/// A text run widget: its characters with their caret state, the caret
/// slot after the last character, the caret position, and the input
/// scheduled by this frame's events for application at the next rebuild.
#[derive(Debug)]
pub struct TextWidget {
    pub box_dimensions: crate::dimensions::BoxDimensionsRelative,
    pub state_changed: bool,
    pub change_parent_state: bool,
    pub version: u64,
    pub text: Vec<CharState>,
    pub dummy: DummyUICharState,
    pub pending_char_event: Option<(u64, CharEvent)>,
    pub self_clicked: bool,
    pub font_path: String,
    pub metrics: FontMetrics,
    pub id: u64,
    pub current_blinking_index: Option<u64>,
    pub scheduled_insert: Option<String>,
    pub scheduled_delete: bool,
}

/// The declaration-side fields of a text widget are untouched: its box,
/// font, metrics and identity serial.
pub open spec fn keeps_decl(a: TextWidget, b: TextWidget) -> bool {
    &&& b.box_dimensions == a.box_dimensions
    &&& b.font_path == a.font_path
    &&& b.metrics == a.metrics
    &&& b.id == a.id
}

impl TextWidget {
    /// The caret, when present, sits within the text or just after it.
    pub open spec fn wf(self) -> bool {
        match self.current_blinking_index {
            Some(i) => i <= self.text@.len(),
            None => true,
        }
    }

    /// Turn every caret indicator off and forget the caret position.
    pub fn stop_blinking_all(&mut self)
        ensures
            keeps_decl(*old(self), *final(self)),
            final(self).text@.len() == old(self).text@.len(),
            forall|i: int|
                0 <= i < old(self).text@.len() ==> (#[trigger] final(self).text@[i]).character
                    == old(self).text@[i].character,
            all_blinking_off(final(self).text@),
            final(self).dummy.blinking == false,
            final(self).dummy.showing_cursor == false,
            final(self).current_blinking_index is None,
            final(self).state_changed == old(self).state_changed,
            final(self).change_parent_state == old(self).change_parent_state,
            final(self).version == old(self).version,
            final(self).pending_char_event == old(self).pending_char_event,
            final(self).self_clicked == old(self).self_clicked,
            final(self).scheduled_insert == old(self).scheduled_insert,
            final(self).scheduled_delete == old(self).scheduled_delete,
            final(self).wf(),
    {
        let n = self.text.len();
        let mut i: usize = 0;
        while i < n
            invariant
                n == self.text@.len(),
                i <= n,
                self.text@.len() == old(self).text@.len(),
                forall|j: int|
                    0 <= j < n ==> (#[trigger] self.text@[j]).character
                        == old(self).text@[j].character,
                forall|j: int|
                    0 <= j < i ==> !(#[trigger] self.text@[j]).blinking
                        && !self.text@[j].showing_cursor,
                self.box_dimensions == old(self).box_dimensions,
                self.font_path == old(self).font_path,
                self.metrics == old(self).metrics,
                self.id == old(self).id,
                self.state_changed == old(self).state_changed,
                self.change_parent_state == old(self).change_parent_state,
                self.version == old(self).version,
                self.pending_char_event == old(self).pending_char_event,
                self.self_clicked == old(self).self_clicked,
                self.scheduled_insert == old(self).scheduled_insert,
                self.scheduled_delete == old(self).scheduled_delete,
                self.dummy == old(self).dummy,
                self.current_blinking_index == old(self).current_blinking_index,
            decreases n - i,
        {
            self.text[i].blinking = false;
            self.text[i].showing_cursor = false;
            i = i + 1;
        }
        self.dummy.blinking = false;
        self.dummy.showing_cursor = false;
        self.current_blinking_index = None;
    }

    /// Put the caret at `index`: on the character there, or on the
    /// end-of-text slot when `index` equals the text length. Indicators
    /// elsewhere are untouched; callers turn them off first.
    pub fn start_blinking_one(&mut self, index: u64)
        requires
            index <= old(self).text@.len(),
        ensures
            keeps_decl(*old(self), *final(self)),
            final(self).current_blinking_index == Some(index),
            final(self).text@.len() == old(self).text@.len(),
            forall|i: int|
                0 <= i < old(self).text@.len() ==> (#[trigger] final(self).text@[i]).character
                    == old(self).text@[i].character,
            forall|i: int|
                0 <= i < old(self).text@.len() && i != index
                    ==> (#[trigger] final(self).text@[i]).blinking == old(self).text@[i].blinking
                    && final(self).text@[i].showing_cursor == old(self).text@[i].showing_cursor,
            index < old(self).text@.len() ==> final(self).text@[index as int].blinking
                && final(self).text@[index as int].showing_cursor,
            index == old(self).text@.len() ==> final(self).text@ == old(self).text@
                && final(self).dummy.blinking && final(self).dummy.showing_cursor,
            index < old(self).text@.len() ==> final(self).dummy == old(self).dummy,
            final(self).state_changed == old(self).state_changed,
            final(self).change_parent_state == old(self).change_parent_state,
            final(self).version == old(self).version,
            final(self).pending_char_event == old(self).pending_char_event,
            final(self).self_clicked == old(self).self_clicked,
            final(self).scheduled_insert == old(self).scheduled_insert,
            final(self).scheduled_delete == old(self).scheduled_delete,
            final(self).wf(),
    {
        self.current_blinking_index = Some(index);
        let n = self.text.len();
        if index == n as u64 {
            self.dummy.blinking = true;
            self.dummy.showing_cursor = true;
        } else {
            let i = index as usize;
            self.text[i].blinking = true;
            self.text[i].showing_cursor = true;
        }
    }

    /// Replace the whole text. Caret indicators reset and the caret is
    /// cleared; the run is marked changed.
    #[verifier::loop_isolation(false)]
    pub fn set_text(&mut self, s: &str)
        ensures
            final(self).wf(),
            keeps_decl(*old(self), *final(self)),
            chars_of(final(self).text@) == s@,
            all_blinking_off(final(self).text@),
            final(self).dummy.blinking == false,
            final(self).dummy.showing_cursor == false,
            final(self).current_blinking_index is None,
            final(self).state_changed == true,
            final(self).change_parent_state == old(self).change_parent_state,
            final(self).version == old(self).version,
            final(self).pending_char_event == old(self).pending_char_event,
            final(self).self_clicked == old(self).self_clicked,
            final(self).scheduled_insert == old(self).scheduled_insert,
            final(self).scheduled_delete == old(self).scheduled_delete,
    {
        let n = s.unicode_len();
        let mut new_text: Vec<CharState> = Vec::new();
        let mut i: usize = 0;
        while i < n
            invariant
                n == s@.len(),
                i <= n,
                new_text@.len() == i,
                chars_of(new_text@) == s@.subrange(0, i as int),
                all_blinking_off(new_text@),
            decreases n - i,
        {
            push_state(
                &mut new_text,
                CharState { character: s.get_char(i), blinking: false, showing_cursor: false },
            );
            i = i + 1;
            proof {
                assert(chars_of(new_text@) =~= s@.subrange(0, i as int));
            }
        }
        proof {
            assert(chars_of(new_text@) =~= s@);
        }
        self.text = new_text;
        self.dummy.blinking = false;
        self.dummy.showing_cursor = false;
        self.current_blinking_index = None;
        self.state_changed = true;
    }

    /// Insert the insertable characters of `pressed` at the caret: the
    /// text splits there, the caret advances past what was inserted, and
    /// the run is marked changed. Without a caret, or with nothing
    /// insertable, the widget is untouched.
    pub fn insert_string(&mut self, pressed: &str)
        requires
            old(self).wf(),
            old(self).text@.len() + pressed@.len() < u64::MAX,
        ensures
            final(self).wf(),
            keeps_decl(*old(self), *final(self)),
            final(self).version == old(self).version,
            final(self).change_parent_state == old(self).change_parent_state,
            final(self).pending_char_event == old(self).pending_char_event,
            final(self).self_clicked == old(self).self_clicked,
            final(self).scheduled_insert == old(self).scheduled_insert,
            final(self).scheduled_delete == old(self).scheduled_delete,
            final(self).text@.len() <= old(self).text@.len() + pressed@.len(),
            (spec_filter_insertable(pressed@).len() == 0 || old(self).current_blinking_index
                is None) ==> *final(self) == *old(self),
            (spec_filter_insertable(pressed@).len() > 0 && old(self).current_blinking_index
                is Some) ==> ({
                let f = spec_filter_insertable(pressed@);
                let idx = old(self).current_blinking_index->0 as int;
                let oldc = chars_of(old(self).text@);
                &&& chars_of(final(self).text@) == oldc.subrange(0, idx) + f + oldc.subrange(
                    idx,
                    oldc.len() as int,
                )
                &&& final(self).current_blinking_index == Some((idx + f.len()) as u64)
                &&& caret_display_at(final(self).text@, final(self).dummy, idx + f.len())
                &&& final(self).state_changed == true
            }),
    {
        let filtered = filter_insertable(pressed);
        proof {
            lemma_filter_insertable_len(pressed@);
        }
        if filtered.len() == 0 {
            return ;
        }
        let idx: u64 = match self.current_blinking_index {
            None => {
                return ;
            },
            Some(i) => i,
        };
        let n = self.text.len();
        let idx_us: usize = idx as usize;
        proof {
            assert(idx as int <= n as int);
            assert(idx_us as int == idx as int);
        }
        let mut new_text: Vec<CharState> = Vec::new();
        push_plain_chars(&mut new_text, &self.text, 0, idx_us);
        let ghost s1 = new_text@;
        push_new_chars(&mut new_text, &filtered);
        let ghost s2 = new_text@;
        push_plain_chars(&mut new_text, &self.text, idx_us, n);
        let ghost s3 = new_text@;
        let total = new_text.len();
        let pos_us: usize = idx_us + filtered.len();
        if pos_us < total {
            new_text[pos_us].blinking = true;
            new_text[pos_us].showing_cursor = true;
            self.dummy.blinking = false;
            self.dummy.showing_cursor = false;
        } else {
            self.dummy.blinking = true;
            self.dummy.showing_cursor = true;
        }
        proof {
            assert(new_text@.len() == s3.len());
            assert forall|t: int| 0 <= t < s3.len() implies (#[trigger] new_text@[t]).character
                == s3[t].character by {}
        }
        self.text = new_text;
        self.current_blinking_index = Some(idx + filtered.len() as u64);
        self.state_changed = true;
        proof {
            let f = spec_filter_insertable(pressed@);
            let oldc = chars_of(old(self).text@);
            let target = oldc.subrange(0, idx as int) + f + oldc.subrange(
                idx as int,
                oldc.len() as int,
            );
            assert(s1.len() == idx as int);
            assert(s2.len() == idx + f.len());
            assert(s3.len() == idx + f.len() + (n - idx));
            assert forall|t: int| 0 <= t < chars_of(self.text@).len() implies chars_of(
                self.text@,
            )[t] == target[t] by {
                assert(chars_of(self.text@)[t] == self.text@[t].character);
                assert(self.text@[t].character == s3[t].character);
                if t < idx as int {
                    assert(s3[t] == s2[t]);
                    assert(s2[t] == s1[t]);
                    assert(s1[t].character == old(self).text@[t].character);
                    assert(target[t] == oldc[t]);
                } else if t < idx + f.len() {
                    assert(s3[t] == s2[t]);
                    assert(s2[t].character == filtered@[t - s1.len()]);
                    assert(target[t] == f[t - idx]);
                } else {
                    assert(s3[t].character == old(self).text@[idx + (t - s2.len())].character);
                    assert(target[t] == oldc[t - f.len()]);
                }
            }
            assert(chars_of(self.text@) =~= target);
        }
    }

    /// Delete the character before the caret, moving the caret back one
    /// place, and mark the run changed. With the caret absent or at the
    /// start, the widget is untouched.
    pub fn delete_char(&mut self)
        requires
            old(self).wf(),
        ensures
            final(self).wf(),
            keeps_decl(*old(self), *final(self)),
            final(self).version == old(self).version,
            final(self).change_parent_state == old(self).change_parent_state,
            final(self).pending_char_event == old(self).pending_char_event,
            final(self).self_clicked == old(self).self_clicked,
            final(self).scheduled_insert == old(self).scheduled_insert,
            final(self).scheduled_delete == old(self).scheduled_delete,
            final(self).text@.len() <= old(self).text@.len(),
            (old(self).current_blinking_index is None || old(self).current_blinking_index == Some(
                0u64,
            )) ==> *final(self) == *old(self),
            (match old(self).current_blinking_index {
                Some(i) => i > 0,
                None => false,
            }) ==> ({
                let i = old(self).current_blinking_index->0 as int;
                let oldc = chars_of(old(self).text@);
                &&& chars_of(final(self).text@) == oldc.subrange(0, i - 1) + oldc.subrange(
                    i,
                    oldc.len() as int,
                )
                &&& final(self).current_blinking_index == Some((i - 1) as u64)
                &&& caret_display_at(final(self).text@, final(self).dummy, i - 1)
                &&& final(self).state_changed == true
            }),
    {
        let idx: u64 = match self.current_blinking_index {
            None => {
                return ;
            },
            Some(i) => i,
        };
        if idx == 0 {
            return ;
        }
        let n = self.text.len();
        let idx_us: usize = idx as usize;
        proof {
            assert(idx as int <= n as int);
            assert(idx_us as int == idx as int);
        }
        let mut new_text: Vec<CharState> = Vec::new();
        push_plain_chars(&mut new_text, &self.text, 0, idx_us - 1);
        let ghost s1 = new_text@;
        push_plain_chars(&mut new_text, &self.text, idx_us, n);
        let ghost s2 = new_text@;
        let total = new_text.len();
        let pos_us: usize = idx_us - 1;
        if pos_us < total {
            new_text[pos_us].blinking = true;
            new_text[pos_us].showing_cursor = true;
            self.dummy.blinking = false;
            self.dummy.showing_cursor = false;
        } else {
            self.dummy.blinking = true;
            self.dummy.showing_cursor = true;
        }
        proof {
            assert(new_text@.len() == s2.len());
            assert forall|t: int| 0 <= t < s2.len() implies (#[trigger] new_text@[t]).character
                == s2[t].character by {}
        }
        self.text = new_text;
        self.current_blinking_index = Some(idx - 1);
        self.state_changed = true;
        proof {
            let i = idx as int;
            let oldc = chars_of(old(self).text@);
            let target = oldc.subrange(0, i - 1) + oldc.subrange(i, oldc.len() as int);
            assert(s1.len() == i - 1);
            assert(s2.len() == i - 1 + (n - i));
            assert forall|t: int| 0 <= t < chars_of(self.text@).len() implies chars_of(
                self.text@,
            )[t] == target[t] by {
                assert(chars_of(self.text@)[t] == self.text@[t].character);
                assert(self.text@[t].character == s2[t].character);
                if t < i - 1 {
                    assert(s2[t] == s1[t]);
                    assert(s1[t].character == old(self).text@[t].character);
                    assert(target[t] == oldc[t]);
                } else {
                    assert(s2[t].character == old(self).text@[i + (t - s1.len())].character);
                    assert(target[t] == oldc[t + 1]);
                }
            }
            assert(chars_of(self.text@) =~= target);
        }
    }
}





/// The text run's own handler transition: focus loss stops the caret, a
/// click inside schedules a caret move to the end, pressed text that fits
/// schedules an insertion, backspace schedules a deletion; the
/// accumulated bubble flag is reported and cleared.
pub open spec fn text_handled(
    t0: TextWidget,
    t1: TextWidget,
    ev: UINodeEventProcessed,
    bubble: bool,
) -> bool {
    &&& keeps_decl(t0, t1)
    &&& t1.version == t0.version
    &&& t1.pending_char_event == t0.pending_char_event
    &&& bubble == (t0.change_parent_state || t0.spec_event_touches(ev))
    &&& t1.change_parent_state == false
    &&& t1.state_changed == (t0.state_changed || t0.spec_event_touches(ev))
    &&& t1.self_clicked == (t0.self_clicked || ev.left_clicked_inside)
    &&& t1.scheduled_delete == (t0.scheduled_delete || ev.key_down == Some(UIKey::Backspace))
    &&& match ev.pressed_str {
        Some(p) => if t0.text@.len() + p@.len() < u64::MAX {
            t1.scheduled_insert matches Some(t) && t@ == p@
        } else {
            t1.scheduled_insert == t0.scheduled_insert
        },
        None => t1.scheduled_insert == t0.scheduled_insert,
    }
    &&& (t1.text@.len() + (match t1.scheduled_insert {
        Some(p) => p@.len(),
        None => 0,
    }) < u64::MAX || t0.text@.len() + (match t0.scheduled_insert {
        Some(p) => p@.len(),
        None => 0,
    }) >= u64::MAX)
    &&& t1.text@.len() == t0.text@.len()
    &&& forall|i: int|
        0 <= i < t0.text@.len() ==> (#[trigger] t1.text@[i]).character == t0.text@[i].character
    &&& (ev.lose_focus ==> all_blinking_off(t1.text@) && !t1.dummy.blinking
        && !t1.dummy.showing_cursor && t1.current_blinking_index is None)
    &&& (!ev.lose_focus ==> t1.text == t0.text && t1.dummy == t0.dummy
        && t1.current_blinking_index == t0.current_blinking_index)
}

/// One character's handler transition: a click on its left or right half
/// records where the caret must go, and a blink tick toggles a visible
/// caret on it; everything else is untouched.
pub open spec fn char_handled(
    t0: TextWidget,
    t1: TextWidget,
    index: u64,
    ev: UINodeEventProcessed,
    bubble: bool,
) -> bool {
    &&& keeps_decl(t0, t1)
    &&& t1.version == t0.version
    &&& t1.change_parent_state == t0.change_parent_state
    &&& t1.self_clicked == t0.self_clicked
    &&& t1.scheduled_insert == t0.scheduled_insert
    &&& t1.scheduled_delete == t0.scheduled_delete
    &&& t1.dummy == t0.dummy
    &&& t1.current_blinking_index == t0.current_blinking_index
    &&& t1.pending_char_event == (if ev.left_clicked_left_half {
        Some((index, CharEvent::LeftPartClicked))
    } else if ev.left_clicked_right_half {
        Some((index, CharEvent::RightPartClicked))
    } else {
        t0.pending_char_event
    })
    &&& t1.text@.len() == t0.text@.len()
    &&& forall|i: int|
        0 <= i < t0.text@.len() && i != index ==> (#[trigger] t1.text@[i]) == t0.text@[i]
    &&& t1.text@[index as int].character == t0.text@[index as int].character
    &&& t1.text@[index as int].blinking == t0.text@[index as int].blinking
    &&& t1.text@[index as int].showing_cursor == (if ev.cursor_blink
        && t0.text@[index as int].blinking {
        !t0.text@[index as int].showing_cursor
    } else {
        t0.text@[index as int].showing_cursor
    })
    &&& bubble == (ev.left_clicked_left_half || ev.left_clicked_right_half || (ev.cursor_blink
        && t0.text@[index as int].blinking))
}

/// The end-of-text slot's handler transition: a blink tick toggles its
/// visible caret; everything else is untouched.
pub open spec fn end_handled(
    t0: TextWidget,
    t1: TextWidget,
    ev: UINodeEventProcessed,
    bubble: bool,
) -> bool {
    &&& keeps_decl(t0, t1)
    &&& t1.version == t0.version
    &&& t1.change_parent_state == t0.change_parent_state
    &&& t1.self_clicked == t0.self_clicked
    &&& t1.scheduled_insert == t0.scheduled_insert
    &&& t1.scheduled_delete == t0.scheduled_delete
    &&& t1.pending_char_event == t0.pending_char_event
    &&& t1.current_blinking_index == t0.current_blinking_index
    &&& t1.text == t0.text
    &&& t1.dummy.blinking == t0.dummy.blinking
    &&& t1.dummy.showing_cursor == (if ev.cursor_blink && t0.dummy.blinking {
        !t0.dummy.showing_cursor
    } else {
        t0.dummy.showing_cursor
    })
    &&& bubble == (ev.cursor_blink && t0.dummy.blinking)
}


/// The text-editing core of one frame's scheduled work, as a value: the
/// characters, the caret, whether anything changed, and whether the
/// pipeline placed the caret display.
pub ghost struct TextEdit {
    pub chars: Seq<char>,
    pub caret: Option<u64>,
    pub changed: bool,
    pub displayed: bool,
}

/// A scheduled insertion applied to an edit: with a caret and something
/// insertable, the text splits at the caret and the caret advances past
/// the insertion; otherwise nothing happens.
pub open spec fn spec_insert_edit(e: TextEdit, sched: Option<Seq<char>>) -> TextEdit {
    match (sched, e.caret) {
        (Some(p), Some(i)) => {
            let f = spec_filter_insertable(p);
            if f.len() == 0 || i > e.chars.len() {
                e
            } else {
                TextEdit {
                    chars: e.chars.subrange(0, i as int) + f + e.chars.subrange(
                        i as int,
                        e.chars.len() as int,
                    ),
                    caret: Some((i + f.len()) as u64),
                    changed: true,
                    displayed: true,
                }
            }
        },
        _ => e,
    }
}

/// A scheduled deletion applied to an edit: with the caret past the start,
/// the character before it goes away and the caret moves back one place.
pub open spec fn spec_delete_edit(e: TextEdit, del: bool) -> TextEdit {
    if del {
        match e.caret {
            Some(i) => if 0 < i <= e.chars.len() {
                TextEdit {
                    chars: e.chars.subrange(0, i - 1) + e.chars.subrange(
                        i as int,
                        e.chars.len() as int,
                    ),
                    caret: Some((i - 1) as u64),
                    changed: true,
                    displayed: true,
                }
            } else {
                e
            },
            None => e,
        }
    } else {
        e
    }
}

/// The caret position a pending click asks for, against a text of the
/// given length: before the clicked character or after it, clamped to the
/// length; a click on the run itself asks for the end.
pub open spec fn spec_caret_request(
    pending: Option<(u64, CharEvent)>,
    self_clicked: bool,
    len: u64,
) -> Option<u64> {
    match pending {
        Some((index, ce)) => match ce {
            CharEvent::LeftPartClicked => Some(
                if index > len {
                    len
                } else {
                    index
                },
            ),
            CharEvent::RightPartClicked => Some(
                if index >= len {
                    len
                } else {
                    (index + 1) as u64
                },
            ),
        },
        None => if self_clicked {
            Some(len)
        } else {
            None
        },
    }
}

/// A pending caret move applied to an edit.
pub open spec fn spec_caret_edit(
    e: TextEdit,
    pending: Option<(u64, CharEvent)>,
    self_clicked: bool,
) -> TextEdit {
    match spec_caret_request(pending, self_clicked, e.chars.len() as u64) {
        Some(p) => TextEdit { chars: e.chars, caret: Some(p), changed: e.changed, displayed: true },
        None => e,
    }
}

/// Everything a frame's events scheduled on a text run, applied in order:
/// the insertion, then the deletion, then the caret move.
pub open spec fn spec_apply_pending_edit(t: TextWidget) -> TextEdit {
    spec_caret_edit(
        spec_delete_edit(
            spec_insert_edit(
                TextEdit {
                    chars: chars_of(t.text@),
                    caret: t.current_blinking_index,
                    changed: false,
                    displayed: false,
                },
                match t.scheduled_insert {
                    Some(p) => Some(p@),
                    None => None,
                },
            ),
            t.scheduled_delete,
        ),
        t.pending_char_event,
        t.self_clicked,
    )
}

/// A text run's current editing state as an edit-pipeline value.
pub open spec fn edit_of(t: TextWidget) -> TextEdit {
    TextEdit {
        chars: chars_of(t.text@),
        caret: t.current_blinking_index,
        changed: false,
        displayed: false,
    }
}

/// A phase of the edit pipeline carried out on the widget: the characters,
/// caret and change flag match the edit `e`, and when the phase (or an
/// earlier one) placed the caret display, the caret blinks at its position
/// and nowhere else; with no display placed yet, the caret indicators are
/// untouched since `t0`.
pub open spec fn phase_ok(t0: TextWidget, t1: TextWidget, e: TextEdit) -> bool {
    &&& keeps_decl(t0, t1)
    &&& t1.version == t0.version
    &&& t1.change_parent_state == t0.change_parent_state
    &&& chars_of(t1.text@) == e.chars
    &&& t1.current_blinking_index == e.caret
    &&& t1.state_changed == (t0.state_changed || e.changed)
    &&& (e.displayed ==> (e.caret matches Some(p) && caret_display_at(t1.text@, t1.dummy, p as int)))
    &&& (!e.displayed ==> t1.text == t0.text && t1.dummy == t0.dummy)
}

/// The transition `apply_pending` makes: the characters, caret and change
/// flag come out exactly as the edit pipeline dictates, the schedule slots
/// come out empty, and when the pipeline placed the caret display, the
/// caret blinks at its position and nowhere else.
pub open spec fn pending_applied(t0: TextWidget, t1: TextWidget) -> bool {
    &&& phase_ok(t0, t1, spec_apply_pending_edit(t0))
    &&& t1.scheduled_insert is None
    &&& t1.scheduled_delete == false
    &&& t1.pending_char_event is None
    &&& t1.self_clicked == false
}


/// Chaining the three phases of `apply_pending` gives exactly the edit
/// pipeline applied to the starting state.
#[verifier::rlimit(100)]
pub proof fn lemma_phase_composition(
    t0: TextWidget,
    ta: TextWidget,
    tb: TextWidget,
    tc: TextWidget,
    e1: TextEdit,
    e2: TextEdit,
    e3: TextEdit,
)
    requires
        e1 == spec_insert_edit(edit_of(t0), match t0.scheduled_insert {
            Some(p) => Some(p@),
            None => None,
        }),
        e2 == spec_delete_edit(e1, t0.scheduled_delete),
        e3 == spec_caret_edit(e2, t0.pending_char_event, t0.self_clicked),
        phase_ok(t0, ta, e1),
        ta.scheduled_insert is None,
        ta.scheduled_delete == t0.scheduled_delete,
        ta.pending_char_event == t0.pending_char_event,
        ta.self_clicked == t0.self_clicked,
        phase_ok(ta, tb, spec_delete_edit(edit_of(ta), ta.scheduled_delete)),
        tb.scheduled_insert == ta.scheduled_insert,
        tb.scheduled_delete == false,
        tb.pending_char_event == ta.pending_char_event,
        tb.self_clicked == ta.self_clicked,
        phase_ok(tb, tc, spec_caret_edit(edit_of(tb), tb.pending_char_event, tb.self_clicked)),
        tc.scheduled_insert == tb.scheduled_insert,
        tc.scheduled_delete == tb.scheduled_delete,
        tc.pending_char_event is None,
        tc.self_clicked == false,
    ensures
        pending_applied(t0, tc),
{
    let d2 = spec_delete_edit(edit_of(ta), ta.scheduled_delete);
    assert(edit_of(ta).chars == e1.chars && edit_of(ta).caret == e1.caret);
    assert(d2.chars == e2.chars && d2.caret == e2.caret);
    assert(tb.state_changed == (t0.state_changed || e2.changed));
    assert(chars_of(tb.text@) == e2.chars && tb.current_blinking_index == e2.caret);
    if e2.displayed {
        assert(e2.caret matches Some(p) && caret_display_at(tb.text@, tb.dummy, p as int));
    } else {
        assert(tb.text == t0.text && tb.dummy == t0.dummy);
    }
    let d3 = spec_caret_edit(edit_of(tb), tb.pending_char_event, tb.self_clicked);
    assert(d3.chars == e3.chars && d3.caret == e3.caret);
    assert(tc.state_changed == (t0.state_changed || e3.changed));
    if e3.displayed {
        assert(e3.caret matches Some(p) && caret_display_at(tc.text@, tc.dummy, p as int));
    } else {
        assert(tc.text == t0.text && tc.dummy == t0.dummy);
    }
    assert(phase_ok(t0, tc, e3));
}

impl TextWidget {
    /// Whether this frame's facts touch the text run at all: focus loss,
    /// a click inside, pressed text that fits the machine limit, or a
    /// backspace.
    pub open spec fn spec_event_touches(self, ev: UINodeEventProcessed) -> bool {
        ev.lose_focus || ev.left_clicked_inside || (ev.pressed_str matches Some(p)
            && self.text@.len() + p@.len() < u64::MAX) || ev.key_down == Some(UIKey::Backspace)
    }

    /// Apply one frame's facts to the run itself: focus loss stops the
    /// caret, a click inside schedules a caret move to the end, pressed
    /// text schedules an insertion, backspace schedules a deletion. The
    /// accumulated bubble flag is returned and cleared.
    pub fn handle_event(&mut self, ev: &UINodeEventProcessed) -> (bubble: bool)
        requires
            old(self).wf(),
        ensures
            final(self).wf(),
            text_handled(*old(self), *final(self), *ev, bubble),
    {
        let mut touched = false;
        if ev.lose_focus {
            self.stop_blinking_all();
            touched = true;
        }
        if ev.left_clicked_inside {
            self.self_clicked = true;
            touched = true;
        }
        match &ev.pressed_str {
            Some(p) => {
                let plen = p.as_str().unicode_len();
                let tlen = self.text.len();
                if (tlen as u64) < u64::MAX - (plen as u64) {
                    self.scheduled_insert = Some(p.clone());
                    touched = true;
                }
            },
            None => (),
        }
        if matches!(ev.key_down, Some(UIKey::Backspace)) {
            self.scheduled_delete = true;
            touched = true;
        }
        if touched {
            self.state_changed = true;
            self.change_parent_state = true;
        }
        let bubble = self.change_parent_state;
        self.change_parent_state = false;
        bubble
    }

    /// Apply one frame's facts to the character at `index`: a click on
    /// its left or right half records where the caret must go, and a blink
    /// tick toggles a visible caret on it.
    pub fn handle_char_event(&mut self, index: u64, ev: &UINodeEventProcessed) -> (bubble: bool)
        requires
            old(self).wf(),
            index < old(self).text@.len(),
        ensures
            final(self).wf(),
            char_handled(*old(self), *final(self), index, *ev, bubble),
            final(self).state_changed == old(self).state_changed,
    {
        let n = self.text.len();
        let i = index as usize;
        proof {
            assert((index as int) < (n as int));
            assert(i as int == index as int);
        }
        let mut bubble = false;
        if ev.left_clicked_left_half {
            self.pending_char_event = Some((index, CharEvent::LeftPartClicked));
            bubble = true;
        } else if ev.left_clicked_right_half {
            self.pending_char_event = Some((index, CharEvent::RightPartClicked));
            bubble = true;
        }
        if ev.cursor_blink && self.text[i].blinking {
            let shown = self.text[i].showing_cursor;
            self.text[i].showing_cursor = !shown;
            bubble = true;
        }
        bubble
    }

    /// Apply one frame's facts to the end-of-text caret slot: a blink tick
    /// toggles its visible caret.
    pub fn handle_end_event(&mut self, ev: &UINodeEventProcessed) -> (bubble: bool)
        requires
            old(self).wf(),
        ensures
            final(self).wf(),
            end_handled(*old(self), *final(self), *ev, bubble),
            final(self).state_changed == old(self).state_changed,
    {
        if ev.cursor_blink && self.dummy.blinking {
            self.dummy.showing_cursor = !self.dummy.showing_cursor;
            return true;
        }
        false
    }

    /// The insertion phase: take the scheduled text, if any, and insert
    /// its insertable characters at the caret.
    fn apply_insert_phase(&mut self)
        requires
            old(self).wf(),
            old(self).text@.len() + (match old(self).scheduled_insert {
                Some(p) => p@.len(),
                None => 0,
            }) < u64::MAX,
        ensures
            final(self).wf(),
            phase_ok(
                *old(self),
                *final(self),
                spec_insert_edit(edit_of(*old(self)), match old(self).scheduled_insert {
                    Some(p) => Some(p@),
                    None => None,
                }),
            ),
            final(self).scheduled_insert is None,
            final(self).scheduled_delete == old(self).scheduled_delete,
            final(self).pending_char_event == old(self).pending_char_event,
            final(self).self_clicked == old(self).self_clicked,
            final(self).text@.len() <= old(self).text@.len() + (match old(
                self,
            ).scheduled_insert {
                Some(p) => p@.len(),
                None => 0,
            }),
    {
        let ghost t0 = *self;
        let ins: Option<String> = match &self.scheduled_insert {
            Some(p) => Some(p.clone()),
            None => None,
        };
        self.scheduled_insert = None;
        match &ins {
            Some(p) => {
                self.insert_string(p.as_str());
            },
            None => (),
        }
        proof {
            let e1 = spec_insert_edit(edit_of(t0), match t0.scheduled_insert {
                Some(p) => Some(p@),
                None => None,
            });
            assert(chars_of(self.text@) == e1.chars);
        }
    }

    /// The deletion phase: take the scheduled backspace, if any, and
    /// remove the character before the caret.
    fn apply_delete_phase(&mut self)
        requires
            old(self).wf(),
        ensures
            final(self).wf(),
            phase_ok(*old(self), *final(self), spec_delete_edit(edit_of(*old(self)), old(self).scheduled_delete)),
            final(self).scheduled_insert == old(self).scheduled_insert,
            final(self).scheduled_delete == false,
            final(self).pending_char_event == old(self).pending_char_event,
            final(self).self_clicked == old(self).self_clicked,
            final(self).text@.len() <= old(self).text@.len(),
    {
        let ghost t0 = *self;
        if self.scheduled_delete {
            self.delete_char();
            self.scheduled_delete = false;
        }
        proof {
            let e1 = spec_delete_edit(edit_of(t0), t0.scheduled_delete);
            assert(chars_of(self.text@) == e1.chars);
        }
    }

    /// The caret phase: take the caret move a click asked for, if any, and
    /// place the caret there, clamped to the text length.
    fn apply_caret_phase(&mut self)
        requires
            old(self).wf(),
        ensures
            final(self).wf(),
            phase_ok(
                *old(self),
                *final(self),
                spec_caret_edit(edit_of(*old(self)), old(self).pending_char_event, old(self).self_clicked),
            ),
            final(self).scheduled_insert == old(self).scheduled_insert,
            final(self).scheduled_delete == old(self).scheduled_delete,
            final(self).pending_char_event is None,
            final(self).self_clicked == false,
            final(self).text@.len() == old(self).text@.len(),
    {
        let ghost t0 = *self;
        let len = self.text.len() as u64;
        proof {
            assert(len as int == chars_of(t0.text@).len() as int);
        }
        let pos_opt: Option<u64> = match &self.pending_char_event {
            Some((index, ev)) => {
                let index = *index;
                match ev {
                    CharEvent::LeftPartClicked => Some(
                        if index > len {
                            len
                        } else {
                            index
                        },
                    ),
                    CharEvent::RightPartClicked => Some(
                        if index >= len {
                            len
                        } else {
                            index + 1
                        },
                    ),
                }
            },
            None => if self.self_clicked {
                Some(len)
            } else {
                None
            },
        };
        proof {
            assert(pos_opt == spec_caret_request(
                t0.pending_char_event,
                t0.self_clicked,
                chars_of(t0.text@).len() as u64,
            ));
        }
        match pos_opt {
            Some(pos) => {
                self.stop_blinking_all();
                self.start_blinking_one(pos);
                proof {
                    assert(caret_display_at(self.text@, self.dummy, pos as int));
                    assert(chars_of(self.text@) =~= chars_of(t0.text@));
                }
            },
            None => (),
        }
        self.pending_char_event = None;
        self.self_clicked = false;
    }

    /// Apply everything this frame's events scheduled, in order: the
    /// insertion, then the deletion, then the caret move a click asked
    /// for. The outcome is exactly the edit pipeline's: see
    /// `pending_applied`.
    pub fn apply_pending(&mut self)
        requires
            old(self).wf(),
            old(self).text@.len() + (match old(self).scheduled_insert {
                Some(p) => p@.len(),
                None => 0,
            }) < u64::MAX,
        ensures
            final(self).wf(),
            pending_applied(*old(self), *final(self)),
            final(self).text@.len() <= old(self).text@.len() + (match old(
                self,
            ).scheduled_insert {
                Some(p) => p@.len(),
                None => 0,
            }),
    {
        let ghost t0 = *self;
        let ghost e1 = spec_insert_edit(edit_of(t0), match t0.scheduled_insert {
            Some(p) => Some(p@),
            None => None,
        });
        self.apply_insert_phase();
        let ghost t_a = *self;
        proof {
            assert(edit_of(t_a).chars == e1.chars && edit_of(t_a).caret == e1.caret);
            assert(spec_delete_edit(edit_of(t_a), t_a.scheduled_delete) == spec_delete_edit(
                TextEdit { changed: false, displayed: false, ..e1 },
                t0.scheduled_delete,
            ));
        }
        self.apply_delete_phase();
        let ghost t_b = *self;
        self.apply_caret_phase();
        proof {
            let e2 = spec_delete_edit(e1, t0.scheduled_delete);
            let e3 = spec_caret_edit(e2, t0.pending_char_event, t0.self_clicked);
            assert(spec_apply_pending_edit(t0) == e3);
            lemma_phase_composition(t0, t_a, t_b, *self, e1, e2, e3);
        }
    }}

/// Append one element, with its effect on length and contents spelled out.
fn push_state(v: &mut Vec<CharState>, e: CharState)
    ensures
        final(v)@.len() == old(v)@.len() + 1,
        forall|t: int| 0 <= t < old(v)@.len() ==> final(v)@[t] == old(v)@[t],
        final(v)@[old(v)@.len() as int] == e,
{
    let ghost pre = v@;
    v.push(e);
    proof {
        vstd::seq::axiom_seq_push_len(pre, e);
        vstd::seq::axiom_seq_push_index_same(pre, e, pre.len() as int);
        assert forall|t: int| 0 <= t < pre.len() implies v@[t] == pre[t] by {
            vstd::seq::axiom_seq_push_index_different(pre, e, t);
        }
    }
}

/// Append caret-less copies of `src[from..to]` to `dst`.
fn push_plain_chars(dst: &mut Vec<CharState>, src: &Vec<CharState>, from: usize, to: usize)
    requires
        from <= to <= src@.len(),
    ensures
        final(dst)@.len() == old(dst)@.len() + (to - from),
        forall|u: int| 0 <= u < old(dst)@.len() ==> final(dst)@[u] == old(dst)@[u],
        forall|u: int|
            old(dst)@.len() <= u < final(dst)@.len() ==> {
                let e = #[trigger] final(dst)@[u];
                e.character == src@[from + (u - old(dst)@.len())].character && !e.blinking
                    && !e.showing_cursor
            },
{
    let ghost base = dst@;
    let mut j: usize = from;
    while j < to
        invariant
            base == old(dst)@,
            from <= j <= to <= src@.len(),
            dst@.len() == base.len() + (j - from),
            forall|u: int| 0 <= u < base.len() ==> dst@[u] == base[u],
            forall|u: int|
                base.len() <= u < dst@.len() ==> {
                    let e = #[trigger] dst@[u];
                    e.character == src@[from + (u - base.len())].character && !e.blinking
                        && !e.showing_cursor
                },
        decreases to - j,
    {
        push_state(
            dst,
            CharState { character: src[j].character, blinking: false, showing_cursor: false },
        );
        j = j + 1;
    }
}

/// Append caret-less characters to `dst`.
fn push_new_chars(dst: &mut Vec<CharState>, src: &Vec<char>)
    ensures
        final(dst)@.len() == old(dst)@.len() + src@.len(),
        forall|u: int| 0 <= u < old(dst)@.len() ==> final(dst)@[u] == old(dst)@[u],
        forall|u: int|
            old(dst)@.len() <= u < final(dst)@.len() ==> {
                let e = #[trigger] final(dst)@[u];
                e.character == src@[u - old(dst)@.len()] && !e.blinking && !e.showing_cursor
            },
{
    let ghost base = dst@;
    let mut j: usize = 0;
    while j < src.len()
        invariant
            base == old(dst)@,
            j <= src@.len(),
            dst@.len() == base.len() + j,
            forall|u: int| 0 <= u < base.len() ==> dst@[u] == base[u],
            forall|u: int|
                base.len() <= u < dst@.len() ==> {
                    let e = #[trigger] dst@[u];
                    e.character == src@[u - base.len()] && !e.blinking && !e.showing_cursor
                },
        decreases src@.len() - j,
    {
        push_state(dst, CharState { character: src[j], blinking: false, showing_cursor: false });
        j = j + 1;
    }
}

/// The insertable characters of a string are no more than its characters.
pub proof fn lemma_filter_insertable_len(s: Seq<char>)
    ensures
        spec_filter_insertable(s).len() <= s.len(),
    decreases s.len(),
{
    if s.len() > 0 {
        lemma_filter_insertable_len(s.drop_last());
    }
}

} // verus!
