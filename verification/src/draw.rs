//! The item registry and the interaction state machine.
//!
//! `Resources` owns an ordered sequence of textual item snapshots together
//! with the navigation state (`page`, `cursor`, `mode`). Every public
//! operation is specified against the ghost view `ResourcesV`, and the
//! transition table of the state machine is the spec function `step_spec`.

use vstd::prelude::*;

use crate::text::clamp_spec;
use crate::text::lines_of;
use crate::text::render_spec;
use crate::text::visible_spec;

verus! {

/// The abstract events the key mapper produces.
#[derive(Clone, Copy, Debug, PartialEq, Eq, Structural)]
pub enum TsuikaEvent {
    Nothing,
    Quit,
    Enter,
    Up,
    Down,
    RollUp,
    RollDown,
}

impl Default for TsuikaEvent {
    /// The default event is the no-op produced when no key arrived.
    fn default() -> (r: Self)
        ensures
            r is Nothing,
    {
        TsuikaEvent::Nothing
    }
}

/// The two interaction modes: `Normal` browses pages, `Edit` moves the cursor.
#[derive(Clone, Copy, Debug, PartialEq, Eq, Structural)]
pub enum TsuikaMode {
    Normal,
    Edit,
}

impl Default for TsuikaMode {
    /// A session starts in browsing mode.
    fn default() -> (r: Self)
        ensures
            r is Normal,
    {
        TsuikaMode::Normal
    }
}

/// The mode-dependent key table: which abstract event a pressed character
/// yields. `None` stands for "no actionable key within the polling window".
pub open spec fn map_key_spec(mode: TsuikaMode, key: Option<char>) -> TsuikaEvent {
    match key {
        Option::None => TsuikaEvent::Nothing,
        Option::Some(c) => {
            if c == 'q' {
                TsuikaEvent::Quit
            } else if c == 'e' {
                TsuikaEvent::Enter
            } else if c == 'w' {
                if mode is Normal {
                    TsuikaEvent::RollUp
                } else {
                    TsuikaEvent::Up
                }
            } else if c == 's' {
                if mode is Normal {
                    TsuikaEvent::RollDown
                } else {
                    TsuikaEvent::Down
                }
            } else {
                TsuikaEvent::Nothing
            }
        },
    }
}

/// The ghost model of a `Resources` value: the item texts in insertion
/// order, and the navigation state.
pub ghost struct ResourcesV {
    pub items: Seq<Seq<char>>,
    pub page: nat,
    pub cursor: nat,
    pub mode: TsuikaMode,
}

/// The transition table of the interaction state machine. Returns the next
/// state and whether the interaction loop terminates.
///
/// `Quit` in `Normal` mode terminates; in `Edit` mode it falls back to
/// `Normal`. `Enter` enters `Edit` mode (a no-op when already there). `Up`
/// and `Down` move the cursor, clamped to the valid item indices. `RollUp`
/// moves the page up with a floor of zero; `RollDown` increments the page
/// without bound (the render step clamps it). `Nothing` changes nothing.
pub open spec fn step_spec(s: ResourcesV, event: TsuikaEvent) -> (ResourcesV, bool) {
    match event {
        TsuikaEvent::Nothing => (s, false),
        TsuikaEvent::Quit => {
            if s.mode is Edit {
                (ResourcesV { mode: TsuikaMode::Normal, ..s }, false)
            } else {
                (s, true)
            }
        },
        TsuikaEvent::Enter => (ResourcesV { mode: TsuikaMode::Edit, ..s }, false),
        TsuikaEvent::Up => {
            let c = if s.cursor > 0 {
                (s.cursor - 1) as nat
            } else {
                0
            };
            (ResourcesV { cursor: c, ..s }, false)
        },
        TsuikaEvent::Down => {
            let c = if s.cursor + 1 < s.items.len() {
                (s.cursor + 1) as nat
            } else {
                s.cursor
            };
            (ResourcesV { cursor: c, ..s }, false)
        },
        TsuikaEvent::RollUp => {
            let p = if s.page > 0 {
                (s.page - 1) as nat
            } else {
                0
            };
            (ResourcesV { page: p, ..s }, false)
        },
        TsuikaEvent::RollDown => (ResourcesV { page: (s.page + 1) as nat, ..s }, false),
    }
}

/// The capability every registry item offers: rendering itself as text.
/// `text` is the mathematical value of that rendering, and `draw` must
/// produce exactly it — rendering is deterministic by contract.
pub trait Drawable {
    spec fn text(&self) -> Seq<char>;

    fn draw(&self) -> (r: String)
        ensures
            r@ == self.text(),
    ;
}

/// A ready-made drawable: an item that renders as a fixed block of text.
pub struct TextItem {
    pub content: String,
}

impl TextItem {
    /// An item whose rendering is exactly `content`.
    pub fn new(content: String) -> (r: Self)
        ensures
            r.content == content,
    {
        TextItem { content }
    }
}

impl Drawable for TextItem {
    open spec fn text(&self) -> Seq<char> {
        self.content@
    }

    fn draw(&self) -> (r: String) {
        self.content.clone()
    }
}

/// One named field of a structured record item.
pub struct Field {
    pub name: String,
    pub value: String,
}

/// One rendered field line: four spaces, the field name, a separating
/// colon, the value, and a trailing comma with a line terminator.
pub open spec fn field_line(f: Field) -> Seq<char> {
    seq![' ', ' ', ' ', ' '] + f.name@ + seq![':', ' '] + f.value@ + seq![',', '\n']
}

/// The field lines of a record, in declaration order.
pub open spec fn field_lines(fields: Seq<Field>) -> Seq<char>
    decreases fields.len(),
{
    if fields.len() == 0 {
        Seq::empty()
    } else {
        field_lines(fields.drop_last()) + field_line(fields.last())
    }
}

/// The whole dump of a record: its name, an opening brace, one line per
/// field, and a closing brace.
pub open spec fn record_text(name: Seq<char>, fields: Seq<Field>) -> Seq<char> {
    name + seq![' ', '{', '\n'] + field_lines(fields) + seq!['}']
}

/// A structured record item: a type name and named field values, rendered
/// as a pretty-printed dump — deterministic, with the fields in
/// declaration order.
pub struct RecordItem {
    pub name: String,
    pub fields: Vec<Field>,
}

impl RecordItem {
    /// A record with the given type name and fields.
    pub fn new(name: String, fields: Vec<Field>) -> (r: Self)
        ensures
            r.name == name,
            r.fields == fields,
    {
        RecordItem { name, fields }
    }
}

impl Drawable for RecordItem {
    open spec fn text(&self) -> Seq<char> {
        record_text(self.name@, self.fields@)
    }

    fn draw(&self) -> (r: String) {
        let mut r = self.name.clone();
        r.append(" {\n");
        proof {
            reveal_strlit(" {\n");
            assert(" {\n"@ =~= seq![' ', '{', '\n']);
            assert(self.fields@.subrange(0, 0) =~= Seq::<Field>::empty());
            assert(r@ =~= self.name@ + seq![' ', '{', '\n'] + field_lines(
                self.fields@.subrange(0, 0),
            ));
        }
        let mut i: usize = 0;
        while i < self.fields.len()
            invariant
                i <= self.fields.len(),
                r@ == self.name@ + seq![' ', '{', '\n'] + field_lines(
                    self.fields@.subrange(0, i as int),
                ),
            decreases self.fields.len() - i,
        {
            r.append("    ");
            r.append(self.fields[i].name.as_str());
            r.append(": ");
            r.append(self.fields[i].value.as_str());
            r.append(",\n");
            proof {
                reveal_strlit("    ");
                reveal_strlit(": ");
                reveal_strlit(",\n");
                assert("    "@ =~= seq![' ', ' ', ' ', ' ']);
                assert(": "@ =~= seq![':', ' ']);
                assert(",\n"@ =~= seq![',', '\n']);
                assert(self.fields@.subrange(0, i as int + 1).drop_last() =~= self.fields@.subrange(
                    0,
                    i as int,
                ));
                assert(self.fields@.subrange(0, i as int + 1).last() == self.fields@[i as int]);
                assert(r@ =~= self.name@ + seq![' ', '{', '\n'] + field_lines(
                    self.fields@.subrange(0, i as int + 1),
                ));
            }
            i += 1;
        }
        r.append("}");
        proof {
            reveal_strlit("}");
            assert("}"@ =~= seq!['}']);
            assert(self.fields@.subrange(0, self.fields.len() as int) =~= self.fields@);
            assert(r@ =~= record_text(self.name@, self.fields@));
        }
        r
    }
}

/// The item registry together with the navigation state of the viewer.
///
/// Items are captured as textual snapshots when added, in insertion order;
/// the order never changes and nothing is removed during a session.
pub struct Resources {
    resources: Vec<String>,
    page: usize,
    cursor: usize,
    mode: TsuikaMode,
}

impl View for Resources {
    type V = ResourcesV;

    closed spec fn view(&self) -> ResourcesV {
        ResourcesV {
            items: self.resources.deep_view(),
            page: self.page as nat,
            cursor: self.cursor as nat,
            mode: self.mode,
        }
    }
}

impl Resources {
    /// An empty registry: no items, first page, cursor on the first slot,
    /// browsing mode.
    pub fn new() -> (r: Self)
        ensures
            r@.items == Seq::<Seq<char>>::empty(),
            r@.page == 0,
            r@.cursor == 0,
            r@.mode is Normal,
    {
        let r = Resources { resources: Vec::new(), page: 0, cursor: 0, mode: TsuikaMode::Normal };
        proof {
            assert(r@.items =~= Seq::<Seq<char>>::empty());
        }
        r
    }

    /// Appends an item's rendering to the registry; nothing else changes.
    pub fn add<T: Drawable>(&mut self, resource: &T)
        ensures
            final(self)@.items == old(self)@.items.push(resource.text()),
            final(self)@.page == old(self)@.page,
            final(self)@.cursor == old(self)@.cursor,
            final(self)@.mode == old(self)@.mode,
    {
        let rendered = resource.draw();
        self.resources.push(rendered);
        proof {
            assert(self.resources.deep_view() =~= old(self).resources.deep_view().push(
                resource.text(),
            ));
        }
    }

    /// The number of items in the registry.
    pub fn len(&self) -> (r: usize)
        ensures
            r == self@.items.len(),
    {
        self.resources.len()
    }

    /// The current page index (the first visible rendered line).
    pub fn page(&self) -> (r: usize)
        ensures
            r == self@.page,
    {
        self.page
    }

    /// The current cursor index (the selected item).
    pub fn cursor(&self) -> (r: usize)
        ensures
            r == self@.cursor,
    {
        self.cursor
    }

    /// The current interaction mode.
    pub fn mode(&self) -> (r: TsuikaMode)
        ensures
            r == self@.mode,
    {
        self.mode
    }

    /// Renders the whole registry: each item's text in insertion order,
    /// each followed by a line terminator. A pure function of the current
    /// contents — an empty registry renders to an empty text.
    pub fn draw(&self) -> (r: String)
        ensures
            r@ == render_spec(self@.items),
    {
        let ghost items = self.resources.deep_view();
        let mut r = String::new();
        let mut i: usize = 0;
        proof {
            assert(items.subrange(0, 0) =~= Seq::<Seq<char>>::empty());
        }
        while i < self.resources.len()
            invariant
                i <= self.resources.len(),
                items == self.resources.deep_view(),
                r@ == render_spec(items.subrange(0, i as int)),
            decreases self.resources.len() - i,
        {
            r.append(self.resources[i].as_str());
            r.append("\n");
            proof {
                reveal_strlit("\n");
                assert("\n"@ =~= seq!['\n']);
                assert(items.subrange(0, i as int + 1).drop_last() =~= items.subrange(
                    0,
                    i as int,
                ));
                assert(items.subrange(0, i as int + 1).last() == items[i as int]);
                assert(r@ =~= render_spec(items.subrange(0, i as int + 1)));
            }
            i += 1;
        }
        proof {
            assert(items.subrange(0, self.resources.len() as int) =~= items);
        }
        r
    }

    /// Maps a polled key — `Some(c)` for a pressed character, `None` when
    /// no actionable key arrived within the polling window — to an abstract
    /// event, according to the mode-dependent key table.
    pub fn map_key(&self, key: Option<char>) -> (event: TsuikaEvent)
        ensures
            event == map_key_spec(self@.mode, key),
    {
        match key {
            Option::None => TsuikaEvent::Nothing,
            Option::Some(c) => {
                if c == 'q' {
                    TsuikaEvent::Quit
                } else if c == 'e' {
                    TsuikaEvent::Enter
                } else if c == 'w' {
                    match self.mode {
                        TsuikaMode::Normal => TsuikaEvent::RollUp,
                        TsuikaMode::Edit => TsuikaEvent::Up,
                    }
                } else if c == 's' {
                    match self.mode {
                        TsuikaMode::Normal => TsuikaEvent::RollDown,
                        TsuikaMode::Edit => TsuikaEvent::Down,
                    }
                } else {
                    TsuikaEvent::Nothing
                }
            },
        }
    }

    /// Performs one state transition of the interaction loop, exactly as
    /// `step_spec` describes, and reports whether the loop terminates.
    pub fn handle_event(&mut self, event: TsuikaEvent) -> (quit: bool)
        requires
            event is RollDown ==> old(self)@.page < usize::MAX as nat,
        ensures
            final(self)@ == step_spec(old(self)@, event).0,
            quit == step_spec(old(self)@, event).1,
    {
        match event {
            TsuikaEvent::Nothing => false,
            TsuikaEvent::Quit => {
                match self.mode {
                    TsuikaMode::Edit => {
                        self.mode = TsuikaMode::Normal;
                        false
                    },
                    TsuikaMode::Normal => true,
                }
            },
            TsuikaEvent::Enter => {
                self.mode = TsuikaMode::Edit;
                false
            },
            TsuikaEvent::Up => {
                if self.cursor > 0 {
                    self.cursor = self.cursor - 1;
                }
                false
            },
            TsuikaEvent::Down => {
                if self.resources.len() > 0 && self.cursor < self.resources.len() - 1 {
                    self.cursor = self.cursor + 1;
                }
                false
            },
            TsuikaEvent::RollUp => {
                if self.page > 0 {
                    self.page = self.page - 1;
                }
                false
            },
            TsuikaEvent::RollDown => {
                self.page = self.page + 1;
                false
            },
        }
    }

    /// The render step of one loop iteration: renders the registry, splits
    /// the text into lines, clamps the page into the valid line range (with
    /// a floor of zero when there are no lines), and returns the visible
    /// block — the lines from the clamped page to the end. Only the page
    /// can change; items, cursor and mode stay as they were.
    pub fn ui(&mut self) -> (out: String)
        ensures
            final(self)@.items == old(self)@.items,
            final(self)@.cursor == old(self)@.cursor,
            final(self)@.mode == old(self)@.mode,
            final(self)@.page == clamp_spec(old(self)@.page, lines_of(old(self)@.items).len()),
            out@ == visible_spec(old(self)@.items, old(self)@.page),
    {
        let full = self.draw();
        let lines = crate::text::split_lines(full.as_str());
        proof {
            assert(crate::text::line_views(lines@) == lines_of(self@.items));
            assert(lines@.len() == lines_of(self@.items).len());
        }
        if lines.len() == 0 {
            self.page = 0;
        } else if self.page > lines.len() - 1 {
            self.page = lines.len() - 1;
        }
        let out = crate::text::join_lines(&lines, self.page);
        out
    }
}

impl Default for Resources {
    /// Same as `Resources::new`: an empty registry in its start state.
    fn default() -> (r: Self)
        ensures
            r@.items == Seq::<Seq<char>>::empty(),
            r@.page == 0,
            r@.cursor == 0,
            r@.mode is Normal,
    {
        Resources::new()
    }
}

} // verus!
