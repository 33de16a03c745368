//! The identity and version model: a stable identity per visual variant of a
//! widget, and a per-identity generation counter used as a cache key.

use vstd::prelude::*;
use std::collections::HashMap;

verus! {

broadcast use vstd::std_specs::hash::group_hash_axioms;

/// Appends one decimal digit character. `d` must be below 10.
pub open spec fn spec_digit_char(d: int) -> char {
    if d == 0 {
        '0'
    } else if d == 1 {
        '1'
    } else if d == 2 {
        '2'
    } else if d == 3 {
        '3'
    } else if d == 4 {
        '4'
    } else if d == 5 {
        '5'
    } else if d == 6 {
        '6'
    } else if d == 7 {
        '7'
    } else if d == 8 {
        '8'
    } else {
        '9'
    }
}

/// The decimal digit characters of `n`, most significant first.
pub open spec fn spec_decimal(n: int) -> Seq<char>
    decreases n,
{
    if n < 10 {
        seq![spec_digit_char(n)]
    } else {
        spec_decimal(n / 10).push(spec_digit_char(n % 10))
    }
}

/// Relies on String::push: appends one character to the string.
#[verifier::external_body]
pub fn push_char(s: &mut String, c: char)
    ensures
        final(s)@ == old(s)@.push(c),
{
    s.push(c);
}

fn digit_char(d: u64) -> (c: char)
    requires
        d < 10,
    ensures
        c == spec_digit_char(d as int),
{
    match d {
        0 => '0',
        1 => '1',
        2 => '2',
        3 => '3',
        4 => '4',
        5 => '5',
        6 => '6',
        7 => '7',
        8 => '8',
        _ => '9',
    }
}

/// Appends the decimal digits of `n` to `s`.
pub fn push_decimal(s: &mut String, n: u64)
    ensures
        final(s)@ == old(s)@ + spec_decimal(n as int),
    decreases n,
{
    if n >= 10 {
        push_decimal(s, n / 10);
    }
    push_char(s, digit_char(n % 10));
    proof {
        if n >= 10 {
            assert(s@ =~= old(s)@ + spec_decimal(n as int));
        } else {
            assert(s@ =~= old(s)@ + spec_decimal(n as int));
        }
    }
}

/// The decimal representation of `n` as a fresh string.
pub fn decimal_string(n: u64) -> (s: String)
    ensures
        s@ == spec_decimal(n as int),
{
    let mut s = String::new();
    push_decimal(&mut s, n);
    proof {
        assert(s@ =~= spec_decimal(n as int));
    }
    s
}

/// The identity of one visual variant of a logical widget instance. Two
/// nodes with equal identity and equal version are assumed to render
/// identically, so the pair serves as a compositing cache key.
#[derive(Debug)]
pub enum ComponentIdentifier {
    /// A widget identified by a kind name and a serial number.
    Default { id: u64, name: String },
    /// A text glyph: identified by its character, its font, and whether it
    /// currently shows a blinking caret, since the caret changes what must
    /// be rendered.
    Char { character: char, font_path: String, show_cursor: bool },
    /// The empty glyph standing after the last character of a text run,
    /// which can carry the caret when the caret sits at the end.
    DummyChar { show_cursor: bool },
}

impl ComponentIdentifier {
    /// Structural equality, with strings compared by contents.
    pub open spec fn spec_eq(self, other: Self) -> bool {
        match (self, other) {
            (
                ComponentIdentifier::Default { id: i1, name: n1 },
                ComponentIdentifier::Default { id: i2, name: n2 },
            ) => i1 == i2 && n1@ == n2@,
            (
                ComponentIdentifier::Char { character: c1, font_path: f1, show_cursor: s1 },
                ComponentIdentifier::Char { character: c2, font_path: f2, show_cursor: s2 },
            ) => c1 == c2 && f1@ == f2@ && s1 == s2,
            (
                ComponentIdentifier::DummyChar { show_cursor: s1 },
                ComponentIdentifier::DummyChar { show_cursor: s2 },
            ) => s1 == s2,
            _ => false,
        }
    }

    /// An equal, independently owned copy.
    pub fn duplicate(&self) -> (r: Self)
        ensures
            r == *self,
    {
        match self {
            ComponentIdentifier::Default { id, name } => ComponentIdentifier::Default {
                id: *id,
                name: name.clone(),
            },
            ComponentIdentifier::Char { character, font_path, show_cursor } => {
                ComponentIdentifier::Char {
                    character: *character,
                    font_path: font_path.clone(),
                    show_cursor: *show_cursor,
                }
            },
            ComponentIdentifier::DummyChar { show_cursor } => ComponentIdentifier::DummyChar {
                show_cursor: *show_cursor,
            },
        }
    }
}

impl PartialEq for ComponentIdentifier {
    fn eq(&self, other: &Self) -> (r: bool) {
        match (self, other) {
            (
                ComponentIdentifier::Default { id: i1, name: n1 },
                ComponentIdentifier::Default { id: i2, name: n2 },
            ) => *i1 == *i2 && *n1 == *n2,
            (
                ComponentIdentifier::Char { character: c1, font_path: f1, show_cursor: s1 },
                ComponentIdentifier::Char { character: c2, font_path: f2, show_cursor: s2 },
            ) => *c1 == *c2 && *f1 == *f2 && *s1 == *s2,
            (
                ComponentIdentifier::DummyChar { show_cursor: s1 },
                ComponentIdentifier::DummyChar { show_cursor: s2 },
            ) => *s1 == *s2,
            _ => false,
        }
    }
}

impl vstd::std_specs::cmp::PartialEqSpecImpl for ComponentIdentifier {
    open spec fn obeys_eq_spec() -> bool {
        true
    }

    open spec fn eq_spec(&self, other: &Self) -> bool {
        self.spec_eq(*other)
    }
}

/// A node's identity: either a widget's component identity, or an anonymous
/// layout cell, which receives a fresh serial each frame and is never shared
/// between frames.
#[derive(Debug)]
pub enum UIIdentifier {
    Component(ComponentIdentifier),
    Cell { id: u64 },
}

impl UIIdentifier {
    pub open spec fn spec_eq(self, other: Self) -> bool {
        match (self, other) {
            (UIIdentifier::Component(a), UIIdentifier::Component(b)) => a.spec_eq(b),
            (UIIdentifier::Cell { id: a }, UIIdentifier::Cell { id: b }) => a == b,
            _ => false,
        }
    }

    /// An equal, independently owned copy.
    pub fn duplicate(&self) -> (r: Self)
        ensures
            r == *self,
    {
        match self {
            UIIdentifier::Component(c) => UIIdentifier::Component(c.duplicate()),
            UIIdentifier::Cell { id } => UIIdentifier::Cell { id: *id },
        }
    }

    /// The characters of the readable form produced by `to_string`.
    pub open spec fn spec_to_string(self) -> Seq<char> {
        match self {
            UIIdentifier::Component(ComponentIdentifier::Default { id, name }) => name@ + seq!['%']
                + spec_decimal(id as int),
            UIIdentifier::Component(ComponentIdentifier::Char { character, font_path, show_cursor }) => seq![
                'C',
                'h',
                'a',
                'r',
                '%',
            ].push(character) + (if show_cursor {
                seq!['*']
            } else {
                Seq::<char>::empty()
            }),
            UIIdentifier::Component(ComponentIdentifier::DummyChar { show_cursor }) => seq![
                'E',
                'n',
                'd',
                '%',
            ] + (if show_cursor {
                seq!['*']
            } else {
                Seq::<char>::empty()
            }),
            UIIdentifier::Cell { id } => seq!['C', 'e', 'l', 'l', '%'] + spec_decimal(id as int),
        }
    }

    /// A readable form of the identity: the kind, a `%` separator, and the
    /// distinguishing serial, character or caret mark.
    pub fn to_string(&self) -> (s: String)
        ensures
            s@ == self.spec_to_string(),
    {
        match self {
            UIIdentifier::Component(ComponentIdentifier::Default { id, name }) => {
                let mut s = name.clone();
                push_char(&mut s, '%');
                push_decimal(&mut s, *id);
                proof {
                    assert(s@ =~= self.spec_to_string());
                }
                s
            },
            UIIdentifier::Component(ComponentIdentifier::Char { character, font_path, show_cursor }) => {
                let mut s = String::new();
                push_char(&mut s, 'C');
                push_char(&mut s, 'h');
                push_char(&mut s, 'a');
                push_char(&mut s, 'r');
                push_char(&mut s, '%');
                push_char(&mut s, *character);
                if *show_cursor {
                    push_char(&mut s, '*');
                }
                proof {
                    assert(s@ =~= self.spec_to_string());
                }
                s
            },
            UIIdentifier::Component(ComponentIdentifier::DummyChar { show_cursor }) => {
                let mut s = String::new();
                push_char(&mut s, 'E');
                push_char(&mut s, 'n');
                push_char(&mut s, 'd');
                push_char(&mut s, '%');
                if *show_cursor {
                    push_char(&mut s, '*');
                }
                proof {
                    assert(s@ =~= self.spec_to_string());
                }
                s
            },
            UIIdentifier::Cell { id } => {
                let mut s = String::new();
                push_char(&mut s, 'C');
                push_char(&mut s, 'e');
                push_char(&mut s, 'l');
                push_char(&mut s, 'l');
                push_char(&mut s, '%');
                push_decimal(&mut s, *id);
                proof {
                    assert(s@ =~= self.spec_to_string());
                }
                s
            },
        }
    }
}

impl PartialEq for UIIdentifier {
    fn eq(&self, other: &Self) -> (r: bool) {
        match (self, other) {
            (UIIdentifier::Component(a), UIIdentifier::Component(b)) => a == b,
            (UIIdentifier::Cell { id: a }, UIIdentifier::Cell { id: b }) => *a == *b,
            _ => false,
        }
    }
}

impl vstd::std_specs::cmp::PartialEqSpecImpl for UIIdentifier {
    open spec fn obeys_eq_spec() -> bool {
        true
    }

    open spec fn eq_spec(&self, other: &Self) -> bool {
        self.spec_eq(*other)
    }
}

/// Hands out, per widget kind, serial numbers 0, 1, 2, ... so that every
/// widget instance of a kind receives a distinct identity.
pub struct UIIdentifierGenerator {
    pub mapping: HashMap<u64, u64>,
}

impl UIIdentifierGenerator {
    /// The serial the next request for `kind` will receive.
    pub open spec fn spec_next(self, kind: u64) -> u64 {
        if self.mapping@.contains_key(kind) {
            self.mapping@[kind]
        } else {
            0
        }
    }

    pub fn new() -> (r: Self)
        ensures
            r.mapping@ == Map::<u64, u64>::empty(),
            forall|k: u64| r.spec_next(k) == 0,
    {
        UIIdentifierGenerator { mapping: HashMap::new() }
    }

    /// The next serial for the given widget kind. Counters saturate at
    /// `u64::MAX` rather than wrap.
    pub fn next_id(&mut self, ui_kind: u64) -> (r: u64)
        ensures
            r == old(self).spec_next(ui_kind),
            final(self).mapping@ == old(self).mapping@.insert(
                ui_kind,
                if old(self).spec_next(ui_kind) == u64::MAX {
                    u64::MAX
                } else {
                    (old(self).spec_next(ui_kind) + 1) as u64
                },
            ),
    {
        let current: u64 = match self.mapping.get(&ui_kind) {
            Some(v) => *v,
            None => 0,
        };
        let bumped: u64 = if current == u64::MAX {
            u64::MAX
        } else {
            current + 1
        };
        self.mapping.insert(ui_kind, bumped);
        current
    }
}

} // verus!
